//! The endpoint resolver: matches pending requests to the characteristics that
//! the devices expose.

use vstd::prelude::*;
use std::collections::HashMap;
use crate::bt_manager::SomethingItem;
use crate::duration::Duration;
use crate::gatt_id::{uuid_of_text, Uuid};
use crate::mac::BtMacAddress;

verus! {

/// One characteristic as the adapter listed it.
#[derive(Clone, Debug)]
pub struct GattCharacteristic {
    /// The handle under which the adapter knows the characteristic.
    pub handle: String,
    /// Its identifier, or nothing where the adapter could not give one that
    /// reads as a UUID.
    pub uuid: Option<Uuid>,
}

/// One service as the adapter listed it.
#[derive(Clone, Debug)]
pub struct GattService {
    /// Its identifier, or nothing where the adapter could not give one that
    /// reads as a UUID.
    pub uuid: Option<Uuid>,
    /// Its characteristics in the adapter's order, or nothing where the adapter
    /// could not list them.
    pub characteristics: Option<Vec<GattCharacteristic>>,
}

/// The services of one device as the adapter listed them.
#[derive(Clone, Debug)]
pub struct GattListing {
    pub mac: BtMacAddress,
    /// The services in the adapter's order, or nothing where the adapter could
    /// not list them.
    pub services: Option<Vec<GattService>>,
}

/// What looking for an endpoint came to.
#[derive(Clone, Debug)]
pub enum Lookup {
    /// The characteristic with this handle is the endpoint.
    Found(String),
    /// Nothing matches yet.
    Missing,
    /// The adapter failed on the way to an answer.
    Broken,
}

/// The identifier that a text read from the adapter stands for; a text that
/// could not be read, or that is no UUID, stands for none.
pub open spec fn uuid_read(text: Option<&str>) -> Option<Uuid> {
    match text {
        Some(text) => uuid_of_text(text@),
        None => None,
    }
}

impl GattCharacteristic {
    /// A characteristic from its handle and the text the adapter gave as its
    /// identifier (nothing where the adapter failed).
    pub fn new(handle: String, uuid_text: Option<&str>) -> (characteristic: GattCharacteristic)
        ensures
            characteristic.handle == handle,
            characteristic.uuid == uuid_read(uuid_text),
    {
        GattCharacteristic { handle, uuid: read_uuid(uuid_text) }
    }
}

impl GattService {
    /// A service from the text the adapter gave as its identifier and the
    /// characteristics it listed (nothing where the adapter failed).
    pub fn new(uuid_text: Option<&str>, characteristics: Option<Vec<GattCharacteristic>>) -> (service:
        GattService)
        ensures
            service.uuid == uuid_read(uuid_text),
            service.characteristics == characteristics,
    {
        GattService { uuid: read_uuid(uuid_text), characteristics }
    }
}

fn read_uuid(text: Option<&str>) -> (id: Option<Uuid>)
    ensures
        id == uuid_read(text),
{
    match text {
        Some(text) => match Uuid::from_str(text) {
            Ok(id) => Some(id),
            Err(_) => None,
        },
        None => None,
    }
}

/// Looks for the first characteristic at or after `from` whose identifier is
/// `want`. A characteristic without identifier met on the way breaks the search.
pub open spec fn find_characteristic(
    characteristics: Seq<GattCharacteristic>,
    want: Uuid,
    from: int,
) -> Lookup
    decreases characteristics.len() - from,
{
    if from < 0 || from >= characteristics.len() {
        Lookup::Missing
    } else {
        match characteristics[from].uuid {
            None => Lookup::Broken,
            Some(id) => if id == want {
                Lookup::Found(characteristics[from].handle)
            } else {
                find_characteristic(characteristics, want, from + 1)
            },
        }
    }
}

/// Looks through the services at or after `from`, in order, for the first one
/// with identifier `svc` that holds a characteristic with identifier `chrc`, and
/// gives the first such characteristic of that service. A service without
/// identifier, a service `svc` whose characteristics could not be listed, and a
/// broken search inside a service `svc` break the search.
pub open spec fn find_endpoint(services: Seq<GattService>, svc: Uuid, chrc: Uuid, from: int) -> Lookup
    decreases services.len() - from,
{
    if from < 0 || from >= services.len() {
        Lookup::Missing
    } else {
        match services[from].uuid {
            None => Lookup::Broken,
            Some(id) => if id != svc {
                find_endpoint(services, svc, chrc, from + 1)
            } else {
                match services[from].characteristics {
                    None => Lookup::Broken,
                    Some(characteristics) => match find_characteristic(characteristics@, chrc, 0) {
                        Lookup::Missing => find_endpoint(services, svc, chrc, from + 1),
                        found_or_broken => found_or_broken,
                    },
                }
            },
        }
    }
}

/// The first listing at or after `from` that is about the device `mac`.
pub open spec fn listing_for(gatt: Seq<GattListing>, mac: BtMacAddress, from: int) -> Option<
    GattListing,
>
    decreases gatt.len() - from,
{
    if from < 0 || from >= gatt.len() {
        None
    } else if gatt[from].mac == mac {
        Some(gatt[from])
    } else {
        listing_for(gatt, mac, from + 1)
    }
}

/// What a request comes to against the known devices and what the adapter
/// listed: a request for a device not yet discovered, or not listed, waits.
pub open spec fn lookup(devices: Map<u64, String>, gatt: Seq<GattListing>, item: SomethingItem) -> Lookup {
    if !devices.contains_key(item.mac@) {
        Lookup::Missing
    } else {
        match listing_for(gatt, item.mac, 0) {
            None => Lookup::Missing,
            Some(listing) => match listing.services {
                None => Lookup::Broken,
                Some(services) => find_endpoint(services@, item.svc, item.chrc, 0),
            },
        }
    }
}

/// Finds the first characteristic with identifier `want`.
pub fn search_characteristics(characteristics: &Vec<GattCharacteristic>, want: Uuid) -> (found: Lookup)
    ensures
        found == find_characteristic(characteristics@, want, 0),
{
    let mut i: usize = 0;
    while i < characteristics.len()
        invariant
            0 <= i <= characteristics.len(),
            find_characteristic(characteristics@, want, 0) == find_characteristic(
                characteristics@,
                want,
                i as int,
            ),
        decreases characteristics.len() - i,
    {
        match characteristics[i].uuid {
            None => {
                return Lookup::Broken;
            },
            Some(id) => {
                if id == want {
                    return Lookup::Found(characteristics[i].handle.clone());
                }
            },
        }
        i += 1;
    }
    Lookup::Missing
}

/// Finds the endpoint `(svc, chrc)` among the services of a device: the first
/// matching characteristic of the first service that has one.
pub fn search_services(services: &Vec<GattService>, svc: Uuid, chrc: Uuid) -> (found: Lookup)
    ensures
        found == find_endpoint(services@, svc, chrc, 0),
{
    let mut i: usize = 0;
    while i < services.len()
        invariant
            0 <= i <= services.len(),
            find_endpoint(services@, svc, chrc, 0) == find_endpoint(services@, svc, chrc, i as int),
        decreases services.len() - i,
    {
        match services[i].uuid {
            None => {
                return Lookup::Broken;
            },
            Some(id) => {
                if id == svc {
                    match &services[i].characteristics {
                        None => {
                            return Lookup::Broken;
                        },
                        Some(characteristics) => {
                            match search_characteristics(characteristics, chrc) {
                                Lookup::Missing => {},
                                found_or_broken => {
                                    return found_or_broken;
                                },
                            }
                        },
                    }
                }
            },
        }
        i += 1;
    }
    Lookup::Missing
}

/// Finds the first listing that is about the device `mac`.
pub fn find_listing<'a>(gatt: &'a Vec<GattListing>, mac: BtMacAddress) -> (found: Option<
    &'a GattListing,
>)
    ensures
        found == match listing_for(gatt@, mac, 0) {
            Some(listing) => Some(&listing),
            None => None,
        },
{
    let mut i: usize = 0;
    while i < gatt.len()
        invariant
            0 <= i <= gatt.len(),
            listing_for(gatt@, mac, 0) == listing_for(gatt@, mac, i as int),
        decreases gatt.len() - i,
    {
        if gatt[i].mac == mac {
            return Some(&gatt[i]);
        }
        i += 1;
    }
    None
}

/// Decides what a request comes to against the known devices and what the
/// adapter listed.
pub fn look_up(devices: &HashMap<u64, String>, gatt: &Vec<GattListing>, item: &SomethingItem) -> (found:
    Lookup)
    ensures
        found == lookup(devices@, gatt@, *item),
{
    broadcast use vstd::std_specs::hash::group_hash_axioms;

    if !devices.contains_key(&item.mac.bits) {
        return Lookup::Missing;
    }
    match find_listing(gatt, item.mac) {
        None => Lookup::Missing,
        Some(listing) => match &listing.services {
            None => Lookup::Broken,
            Some(services) => search_services(services, item.svc, item.chrc),
        },
    }
}

/// The endpoints that one pass over the pending requests at and after `from`
/// hands on, each with what the caller attached to the request, in the order of
/// the requests. The pass ends at the first request on which the adapter failed.
pub open spec fn forwarded_from<T>(
    pending: Seq<(SomethingItem, T)>,
    devices: Map<u64, String>,
    gatt: Seq<GattListing>,
    from: int,
) -> Seq<(String, T)>
    decreases pending.len() - from,
{
    if from < 0 || from >= pending.len() {
        Seq::empty()
    } else {
        match lookup(devices, gatt, pending[from].0) {
            Lookup::Broken => Seq::empty(),
            Lookup::Missing => forwarded_from(pending, devices, gatt, from + 1),
            Lookup::Found(handle) => seq![(handle, pending[from].1)] + forwarded_from(
                pending,
                devices,
                gatt,
                from + 1,
            ),
        }
    }
}

/// The requests at and after `from` that one pass leaves pending, in their
/// order: those that found nothing, and from the first request on which the
/// adapter failed, all of them.
pub open spec fn remaining_from<T>(
    pending: Seq<(SomethingItem, T)>,
    devices: Map<u64, String>,
    gatt: Seq<GattListing>,
    from: int,
) -> Seq<(SomethingItem, T)>
    decreases pending.len() - from,
{
    if from < 0 || from >= pending.len() {
        Seq::empty()
    } else {
        match lookup(devices, gatt, pending[from].0) {
            Lookup::Broken => pending.skip(from),
            Lookup::Missing => seq![pending[from]] + remaining_from(pending, devices, gatt, from + 1),
            Lookup::Found(_) => remaining_from(pending, devices, gatt, from + 1),
        }
    }
}

/// Whether the adapter fails on one of the requests at or after `from` before
/// the pass is through.
pub open spec fn fails_from<T>(
    pending: Seq<(SomethingItem, T)>,
    devices: Map<u64, String>,
    gatt: Seq<GattListing>,
    from: int,
) -> bool
    decreases pending.len() - from,
{
    if from < 0 || from >= pending.len() {
        false
    } else {
        match lookup(devices, gatt, pending[from].0) {
            Lookup::Broken => true,
            _ => fails_from(pending, devices, gatt, from + 1),
        }
    }
}

/// What one pass over a list of pending requests came to.
pub struct Resolved<T> {
    /// The endpoints found, each with what the caller attached to the request.
    pub forwarded: Vec<(String, T)>,
    /// The requests that stay pending.
    pub remaining: Vec<(SomethingItem, T)>,
    /// Whether the adapter failed during the pass.
    pub failed: bool,
}

/// Makes one pass over the pending requests: every request whose endpoint is
/// found leaves the list and is handed on; the others stay, in their order.
pub fn resolve<T>(
    pending: Vec<(SomethingItem, T)>,
    devices: &HashMap<u64, String>,
    gatt: &Vec<GattListing>,
) -> (pass: Resolved<T>)
    ensures
        pass.forwarded@ == forwarded_from(pending@, devices@, gatt@, 0),
        pass.remaining@ == remaining_from(pending@, devices@, gatt@, 0),
        pass.failed == fails_from(pending@, devices@, gatt@, 0),
{
    let mut forwarded: Vec<(String, T)> = Vec::new();
    let mut remaining: Vec<(SomethingItem, T)> = Vec::new();
    let mut failed = false;
    let ghost all = pending@;
    assert(all.skip(0) =~= all);
    for request in it: pending.into_iter()
        invariant
            it.seq() == all,
            failed ==> {
                &&& fails_from(all, devices@, gatt@, 0)
                &&& forwarded@ == forwarded_from(all, devices@, gatt@, 0)
                &&& remaining@ + all.skip(it.index() as int) == remaining_from(
                    all,
                    devices@,
                    gatt@,
                    0,
                )
            },
            !failed ==> {
                &&& fails_from(all, devices@, gatt@, 0) == fails_from(
                    all,
                    devices@,
                    gatt@,
                    it.index() as int,
                )
                &&& forwarded@ + forwarded_from(all, devices@, gatt@, it.index() as int)
                    == forwarded_from(all, devices@, gatt@, 0)
                &&& remaining@ + remaining_from(all, devices@, gatt@, it.index() as int)
                    == remaining_from(all, devices@, gatt@, 0)
            },
    {
        let ghost at = it.index() as int;
        let ghost before_forwarded = forwarded@;
        let ghost before_remaining = remaining@;
        assert(all[at] == request);
        assert(all.skip(at) =~= seq![request] + all.skip(at + 1));
        if failed {
            remaining.push(request);
            assert(remaining@ + all.skip(at + 1) =~= before_remaining + all.skip(at));
        } else {
            match look_up(devices, gatt, &request.0) {
                Lookup::Broken => {
                    failed = true;
                    remaining.push(request);
                    assert(forwarded@ + Seq::<(String, T)>::empty() =~= forwarded@);
                    assert(remaining@ + all.skip(at + 1) =~= before_remaining + all.skip(at));
                },
                Lookup::Missing => {
                    remaining.push(request);
                    assert(remaining@ + remaining_from(all, devices@, gatt@, at + 1)
                        =~= before_remaining + remaining_from(all, devices@, gatt@, at));
                },
                Lookup::Found(handle) => {
                    forwarded.push((handle, request.1));
                    assert(forwarded@ + forwarded_from(all, devices@, gatt@, at + 1)
                        =~= before_forwarded + forwarded_from(all, devices@, gatt@, at));
                },
            }
        }
    }
    proof {
        assert(all.skip(all.len() as int) =~= Seq::<(SomethingItem, T)>::empty());
        assert(forwarded@ + Seq::<(String, T)>::empty() =~= forwarded@);
        assert(remaining@ + Seq::<(SomethingItem, T)>::empty() =~= remaining@);
    }
    Resolved { forwarded, remaining, failed }
}

/// The devices known once the arrivals are taken in, one after the other: a
/// later arrival under an address replaces the handle known for it.
pub open spec fn devices_after(known: Map<u64, String>, arrivals: Seq<(BtMacAddress, String)>) -> Map<
    u64,
    String,
>
    decreases arrivals.len(),
{
    if arrivals.len() == 0 {
        known
    } else {
        devices_after(known, arrivals.drop_last()).insert(arrivals.last().0@, arrivals.last().1)
    }
}

/// The devices whose services the requests at and after `from` need listed: for
/// each request whose device is known, in the order of the requests, the
/// device's address and handle.
pub open spec fn wanted_from<T>(pending: Seq<(SomethingItem, T)>, devices: Map<u64, String>, from: int) -> Seq<
    (BtMacAddress, String),
>
    decreases pending.len() - from,
{
    if from < 0 || from >= pending.len() {
        Seq::empty()
    } else if devices.contains_key(pending[from].0.mac@) {
        seq![(pending[from].0.mac, devices[pending[from].0.mac@])] + wanted_from(
            pending,
            devices,
            from + 1,
        )
    } else {
        wanted_from(pending, devices, from + 1)
    }
}

/// The state of the endpoint resolver. `P` is what a caller attaches to a poll
/// request and `W` what it attaches to a write request (the two ends of its
/// channels); the resolver carries them and never looks inside.
pub struct EndpointsDb<P, W> {
    /// The poll requests not yet resolved, oldest first.
    pub pending_poll: Vec<(SomethingItem, P)>,
    /// The write requests not yet resolved, oldest first.
    pub pending_write: Vec<(SomethingItem, W)>,
    /// The handle of each discovered device, by its address.
    pub devices: HashMap<u64, String>,
    /// How long to rest between two ticks.
    pub endpoint_interval: Duration,
}

/// What one pass over one list of requests hands on.
pub struct Pass<T> {
    /// The endpoints found, each with what the caller attached to the request.
    pub forwarded: Vec<(String, T)>,
    /// Whether the adapter failed during the pass.
    pub failed: bool,
}

/// What one tick of the resolver hands on.
pub struct Forwarding<P, W> {
    /// The endpoints to poll, for the poll actor.
    pub polls: Vec<(String, P)>,
    /// The endpoints to write to, for the write actor.
    pub writes: Vec<(String, W)>,
    /// Whether the adapter failed during the tick.
    pub failed: bool,
}

/// What happened since the resolver last acted.
pub enum EndpointsEvent<P, W> {
    /// The tick begins, with what arrived since the last one.
    Wake {
        devices: Vec<(BtMacAddress, String)>,
        polls: Vec<(SomethingItem, P)>,
        writes: Vec<(SomethingItem, W)>,
    },
    /// The adapter has listed the services of the devices asked for.
    Listed(Vec<GattListing>),
}

/// What the resolver wants done next.
pub enum EndpointsAction<P, W> {
    /// List the services of these devices and come back with the listings.
    Enumerate(Vec<(BtMacAddress, String)>),
    /// Hand these endpoints on; then rest for `next`, or never run again where
    /// there is none.
    Forward { polls: Vec<(String, P)>, writes: Vec<(String, W)>, next: Option<Duration> },
}

fn collect_wanted<T>(pending: &Vec<(SomethingItem, T)>, devices: &HashMap<u64, String>, wanted: &mut Vec<
    (BtMacAddress, String),
>)
    ensures
        final(wanted)@ == old(wanted)@ + wanted_from(pending@, devices@, 0),
{
    broadcast use vstd::std_specs::hash::group_hash_axioms;

    let ghost start = wanted@;
    let mut i: usize = 0;
    while i < pending.len()
        invariant
            0 <= i <= pending.len(),
            wanted@ + wanted_from(pending@, devices@, i as int) == start + wanted_from(
                pending@,
                devices@,
                0,
            ),
        decreases pending.len() - i,
    {
        let ghost before = wanted@;
        let mac = pending[i].0.mac;
        match devices.get(&mac.bits) {
            Some(handle) => {
                wanted.push((mac, handle.clone()));
                assert(wanted@ + wanted_from(pending@, devices@, i + 1) =~= before + wanted_from(
                    pending@,
                    devices@,
                    i as int,
                ));
            },
            None => {},
        }
        i += 1;
    }
    assert(wanted@ + Seq::<(BtMacAddress, String)>::empty() =~= wanted@);
}

impl<P, W> EndpointsDb<P, W> {
    /// A resolver that knows no device and has no request pending.
    pub fn new(endpoint_interval: Duration) -> (db: EndpointsDb<P, W>)
        ensures
            db.pending_poll@ == Seq::<(SomethingItem, P)>::empty(),
            db.pending_write@ == Seq::<(SomethingItem, W)>::empty(),
            db.devices@ == Map::<u64, String>::empty(),
            db.endpoint_interval == endpoint_interval,
    {
        EndpointsDb {
            pending_poll: Vec::new(),
            pending_write: Vec::new(),
            devices: HashMap::new(),
            endpoint_interval,
        }
    }

    /// Begins a tick: takes in the devices and the requests that arrived, and
    /// says which devices must have their services listed for the requests now
    /// pending, poll requests first.
    pub fn manage_endpoints(
        &mut self,
        devices: Vec<(BtMacAddress, String)>,
        polls: Vec<(SomethingItem, P)>,
        writes: Vec<(SomethingItem, W)>,
    ) -> (wanted: Vec<(BtMacAddress, String)>)
        ensures
            final(self).devices@ == devices_after(old(self).devices@, devices@),
            final(self).pending_poll@ == old(self).pending_poll@ + polls@,
            final(self).pending_write@ == old(self).pending_write@ + writes@,
            final(self).endpoint_interval == old(self).endpoint_interval,
            wanted@ == wanted_from(final(self).pending_poll@, final(self).devices@, 0) + wanted_from(
                final(self).pending_write@,
                final(self).devices@,
                0,
            ),
    {
        broadcast use vstd::std_specs::hash::group_hash_axioms;

        let ghost arrivals = devices@;
        let ghost known = self.devices@;
        assert(arrivals.take(0) =~= Seq::<(BtMacAddress, String)>::empty());
        for arrival in it: devices.into_iter()
            invariant
                it.seq() == arrivals,
                self.devices@ == devices_after(known, arrivals.take(it.index() as int)),
                self.pending_poll == old(self).pending_poll,
                self.pending_write == old(self).pending_write,
                self.endpoint_interval == old(self).endpoint_interval,
        {
            let ghost at = it.index() as int;
            assert(arrivals.take(at + 1).drop_last() =~= arrivals.take(at));
            assert(arrivals.take(at + 1).last() == arrival);
            self.devices.insert(arrival.0.bits, arrival.1);
        }
        assert(arrivals.take(arrivals.len() as int) =~= arrivals);
        let mut polls = polls;
        let mut writes = writes;
        self.pending_poll.append(&mut polls);
        self.pending_write.append(&mut writes);
        let mut wanted: Vec<(BtMacAddress, String)> = Vec::new();
        collect_wanted(&self.pending_poll, &self.devices, &mut wanted);
        collect_wanted(&self.pending_write, &self.devices, &mut wanted);
        wanted
    }

    /// Makes one pass over the pending poll requests against what the adapter
    /// listed: each request whose endpoint is found leaves the list, once, and
    /// its endpoint is handed on; the others stay pending in their order.
    pub fn handle_polls(&mut self, gatt: &Vec<GattListing>) -> (pass: Pass<P>)
        ensures
            pass.forwarded@ == forwarded_from(old(self).pending_poll@, old(self).devices@, gatt@, 0),
            pass.failed == fails_from(old(self).pending_poll@, old(self).devices@, gatt@, 0),
            final(self).pending_poll@ == remaining_from(
                old(self).pending_poll@,
                old(self).devices@,
                gatt@,
                0,
            ),
            final(self).pending_write == old(self).pending_write,
            final(self).devices == old(self).devices,
            final(self).endpoint_interval == old(self).endpoint_interval,
    {
        let mut pending: Vec<(SomethingItem, P)> = Vec::new();
        std::mem::swap(&mut pending, &mut self.pending_poll);
        let pass = resolve(pending, &self.devices, gatt);
        self.pending_poll = pass.remaining;
        Pass { forwarded: pass.forwarded, failed: pass.failed }
    }

    /// Makes one pass over the pending write requests, as `handle_polls` does
    /// over the poll requests.
    pub fn handle_writes(&mut self, gatt: &Vec<GattListing>) -> (pass: Pass<W>)
        ensures
            pass.forwarded@ == forwarded_from(old(self).pending_write@, old(self).devices@, gatt@, 0),
            pass.failed == fails_from(old(self).pending_write@, old(self).devices@, gatt@, 0),
            final(self).pending_write@ == remaining_from(
                old(self).pending_write@,
                old(self).devices@,
                gatt@,
                0,
            ),
            final(self).pending_poll == old(self).pending_poll,
            final(self).devices == old(self).devices,
            final(self).endpoint_interval == old(self).endpoint_interval,
    {
        let mut pending: Vec<(SomethingItem, W)> = Vec::new();
        std::mem::swap(&mut pending, &mut self.pending_write);
        let pass = resolve(pending, &self.devices, gatt);
        self.pending_write = pass.remaining;
        Pass { forwarded: pass.forwarded, failed: pass.failed }
    }

    /// Resolves what can be resolved against what the adapter listed: the poll
    /// requests first, then, unless the adapter failed on those, the write
    /// requests.
    pub fn discover_services(&mut self, gatt: &Vec<GattListing>) -> (out: Forwarding<P, W>)
        ensures
            out.polls@ == forwarded_from(old(self).pending_poll@, old(self).devices@, gatt@, 0),
            final(self).pending_poll@ == remaining_from(
                old(self).pending_poll@,
                old(self).devices@,
                gatt@,
                0,
            ),
            fails_from(old(self).pending_poll@, old(self).devices@, gatt@, 0) ==> {
                &&& out.failed
                &&& out.writes@ == Seq::<(String, W)>::empty()
                &&& final(self).pending_write == old(self).pending_write
            },
            !fails_from(old(self).pending_poll@, old(self).devices@, gatt@, 0) ==> {
                &&& out.failed == fails_from(old(self).pending_write@, old(self).devices@, gatt@, 0)
                &&& out.writes@ == forwarded_from(
                    old(self).pending_write@,
                    old(self).devices@,
                    gatt@,
                    0,
                )
                &&& final(self).pending_write@ == remaining_from(
                    old(self).pending_write@,
                    old(self).devices@,
                    gatt@,
                    0,
                )
            },
            final(self).devices == old(self).devices,
            final(self).endpoint_interval == old(self).endpoint_interval,
    {
        let polls = self.handle_polls(gatt);
        if polls.failed {
            return Forwarding { polls: polls.forwarded, writes: Vec::new(), failed: true };
        }
        let writes = self.handle_writes(gatt);
        Forwarding { polls: polls.forwarded, writes: writes.forwarded, failed: writes.failed }
    }
}

/// One step of the resolver's tick. On `Wake` it takes in what arrived and asks
/// for the listings it needs; on `Listed` it resolves what it can and says what
/// to hand on. It asks to run again after its interval unless the adapter
/// failed, in which case it must never run again.
pub fn endpoints_task<P, W>(data: &mut EndpointsDb<P, W>, event: EndpointsEvent<P, W>) -> (action:
    EndpointsAction<P, W>)
    ensures
        final(data).endpoint_interval == old(data).endpoint_interval,
        match event {
            EndpointsEvent::Wake { devices, polls, writes } => {
                &&& final(data).devices@ == devices_after(old(data).devices@, devices@)
                &&& final(data).pending_poll@ == old(data).pending_poll@ + polls@
                &&& final(data).pending_write@ == old(data).pending_write@ + writes@
                &&& action matches EndpointsAction::Enumerate(wanted)
                &&& wanted@ == wanted_from(final(data).pending_poll@, final(data).devices@, 0)
                    + wanted_from(final(data).pending_write@, final(data).devices@, 0)
            },
            EndpointsEvent::Listed(gatt) => {
                let poll_fails = fails_from(old(data).pending_poll@, old(data).devices@, gatt@, 0);
                let write_fails = fails_from(old(data).pending_write@, old(data).devices@, gatt@, 0);
                &&& final(data).devices == old(data).devices
                &&& final(data).pending_poll@ == remaining_from(
                    old(data).pending_poll@,
                    old(data).devices@,
                    gatt@,
                    0,
                )
                &&& final(data).pending_write@ == if poll_fails {
                    old(data).pending_write@
                } else {
                    remaining_from(old(data).pending_write@, old(data).devices@, gatt@, 0)
                }
                &&& action matches EndpointsAction::Forward { polls, writes, next }
                &&& polls@ == forwarded_from(old(data).pending_poll@, old(data).devices@, gatt@, 0)
                &&& writes@ == if poll_fails {
                    Seq::<(String, W)>::empty()
                } else {
                    forwarded_from(old(data).pending_write@, old(data).devices@, gatt@, 0)
                }
                &&& next == if poll_fails || write_fails {
                    None::<Duration>
                } else {
                    Some(old(data).endpoint_interval)
                }
            },
        },
{
    match event {
        EndpointsEvent::Wake { devices, polls, writes } => {
            EndpointsAction::Enumerate(data.manage_endpoints(devices, polls, writes))
        },
        EndpointsEvent::Listed(gatt) => {
            let out = data.discover_services(&gatt);
            let next = if out.failed {
                None
            } else {
                Some(data.endpoint_interval)
            };
            EndpointsAction::Forward { polls: out.polls, writes: out.writes, next }
        },
    }
}

} // verus!

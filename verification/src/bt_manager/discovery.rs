//! The discovery actor: finds whitelisted devices and publishes each one once.

use vstd::prelude::*;
use std::collections::HashSet;
use crate::duration::Duration;
use crate::mac::{mac_of_text, BtMacAddress};

verus! {

/// A device as a scan reported it.
#[derive(Clone, Debug)]
pub struct Advertised {
    /// The handle under which the adapter knows the device.
    pub handle: String,
    /// The address it advertised, or nothing where the adapter could not tell.
    pub address: Option<String>,
}

/// A device that a scan found and that the whitelist allows.
#[derive(Clone, Debug)]
pub struct Discovered {
    pub mac: BtMacAddress,
    /// The handle under which the adapter knows the device.
    pub handle: String,
    /// The address as the device advertised it.
    pub address: String,
}

/// The state of the discovery actor.
pub struct DiscoveryData {
    /// The addresses of the devices already discovered.
    pub db: HashSet<u64>,
    /// The addresses that may be discovered.
    pub wl: HashSet<u64>,
    /// How long to rest between two scans.
    pub scan_interval: Duration,
    /// How long one scan lasts.
    pub scan_duration: Duration,
}

/// What happened since the discovery actor last acted.
pub enum DiscoveryEvent {
    /// The tick begins, with the addresses whitelisted since the last one.
    Wake(Vec<BtMacAddress>),
    /// The scan is over: the devices it reported, or nothing where the adapter
    /// failed.
    Scanned(Option<Vec<Advertised>>),
}

/// What the discovery actor wants done next.
pub enum DiscoveryAction {
    /// Nothing to look for: rest for this long.
    Rest(Duration),
    /// Scan for this long and come back with what was found.
    Scan(Duration),
    /// Try to connect to these newly discovered devices and announce them to the
    /// connection actor and to the resolver; then rest for this long.
    Publish(Vec<Discovered>, Duration),
    /// The adapter failed: never run again.
    Stop,
}

/// The whitelist once the addresses are added to it.
pub open spec fn allowed_after(wl: Set<u64>, macs: Seq<BtMacAddress>) -> Set<u64>
    decreases macs.len(),
{
    if macs.len() == 0 {
        wl
    } else {
        allowed_after(wl, macs.drop_last()).insert(macs.last()@)
    }
}

/// What the whitelist makes of a reported device: the device with its address
/// read, where it advertised an address that is on the whitelist.
pub open spec fn allowed_device(wl: Set<u64>, device: Advertised) -> Option<Discovered> {
    match device.address {
        None => None,
        Some(text) => match mac_of_text(text@) {
            None => None,
            Some(mac) => if wl.contains(mac@) {
                Some(Discovered { mac, handle: device.handle, address: text })
            } else {
                None
            },
        },
    }
}

/// The reported devices at and after `from` that the whitelist allows, in the
/// order in which they were reported.
pub open spec fn whitelisted_from(wl: Set<u64>, found: Seq<Advertised>, from: int) -> Seq<Discovered>
    decreases found.len() - from,
{
    if from < 0 || from >= found.len() {
        Seq::empty()
    } else {
        match allowed_device(wl, found[from]) {
            Some(device) => seq![device] + whitelisted_from(wl, found, from + 1),
            None => whitelisted_from(wl, found, from + 1),
        }
    }
}

/// The devices at and after `from` that are new: those whose address is neither
/// in `seen` nor that of a device before them, in their order.
pub open spec fn fresh_from(seen: Set<u64>, devices: Seq<Discovered>, from: int) -> Seq<Discovered>
    decreases devices.len() - from,
{
    if from < 0 || from >= devices.len() {
        Seq::empty()
    } else if seen.contains(devices[from].mac@) {
        fresh_from(seen, devices, from + 1)
    } else {
        seq![devices[from]] + fresh_from(seen.insert(devices[from].mac@), devices, from + 1)
    }
}

/// The addresses seen once the first `upto` of the devices are seen too.
pub open spec fn seen_after(seen: Set<u64>, devices: Seq<Discovered>, upto: int) -> Set<u64>
    decreases upto,
{
    if upto <= 0 || upto > devices.len() {
        seen
    } else {
        seen_after(seen, devices, upto - 1).insert(devices[upto - 1].mac@)
    }
}

impl DiscoveryData {
    /// A discovery actor that has seen nothing and may look for nothing yet.
    pub fn new(scan_interval: Duration, scan_duration: Duration) -> (data: DiscoveryData)
        ensures
            data.db@ == Set::<u64>::empty(),
            data.wl@ == Set::<u64>::empty(),
            data.scan_interval == scan_interval,
            data.scan_duration == scan_duration,
    {
        DiscoveryData { db: HashSet::new(), wl: HashSet::new(), scan_interval, scan_duration }
    }

    /// Adds addresses to the whitelist. Nothing ever leaves it.
    pub fn allow(&mut self, macs: Vec<BtMacAddress>)
        ensures
            final(self).wl@ == allowed_after(old(self).wl@, macs@),
            final(self).db == old(self).db,
            final(self).scan_interval == old(self).scan_interval,
            final(self).scan_duration == old(self).scan_duration,
    {
        broadcast use vstd::std_specs::hash::group_hash_axioms;

        let ghost all = macs@;
        assert(all.take(0) =~= Seq::<BtMacAddress>::empty());
        for mac in it: macs.into_iter()
            invariant
                it.seq() == all,
                self.wl@ == allowed_after(old(self).wl@, all.take(it.index() as int)),
                self.db == old(self).db,
                self.scan_interval == old(self).scan_interval,
                self.scan_duration == old(self).scan_duration,
        {
            let ghost at = it.index() as int;
            assert(all.take(at + 1).drop_last() =~= all.take(at));
            assert(all.take(at + 1).last() == mac);
            self.wl.insert(mac.bits);
        }
        assert(all.take(all.len() as int) =~= all);
    }

    /// Picks from what a scan reported the devices that the whitelist allows. A
    /// device whose address the adapter could not tell, or whose address does
    /// not read as a MAC address, is passed over.
    pub fn discover_new(&self, found: Vec<Advertised>) -> (devices: Vec<Discovered>)
        ensures
            devices@ == whitelisted_from(self.wl@, found@, 0),
    {
        broadcast use vstd::std_specs::hash::group_hash_axioms;

        let mut devices: Vec<Discovered> = Vec::new();
        let ghost all = found@;
        for device in it: found.into_iter()
            invariant
                it.seq() == all,
                devices@ + whitelisted_from(self.wl@, all, it.index() as int) == whitelisted_from(
                    self.wl@,
                    all,
                    0,
                ),
        {
            let ghost at = it.index() as int;
            let ghost before = devices@;
            assert(all[at] == device);
            let Advertised { handle, address } = device;
            match address {
                None => {},
                Some(text) => {
                    match BtMacAddress::from_str(text.as_str()) {
                        Err(_) => {},
                        Ok(mac) => {
                            if self.wl.contains(&mac.bits) {
                                devices.push(Discovered { mac, handle, address: text });
                                assert(devices@ + whitelisted_from(self.wl@, all, at + 1)
                                    =~= before + whitelisted_from(self.wl@, all, at));
                            }
                        },
                    }
                },
            }
        }
        assert(devices@ + Seq::<Discovered>::empty() =~= devices@);
        devices
    }

    /// Marks the given devices as seen and hands back those that were new, in
    /// their order: a device is new when its address was not seen before and no
    /// device before it in the list has it.
    pub fn manage_new_devices(&mut self, devs: Vec<Discovered>) -> (fresh: Vec<Discovered>)
        ensures
            fresh@ == fresh_from(old(self).db@, devs@, 0),
            final(self).db@ == seen_after(old(self).db@, devs@, devs@.len() as int),
            final(self).wl == old(self).wl,
            final(self).scan_interval == old(self).scan_interval,
            final(self).scan_duration == old(self).scan_duration,
    {
        broadcast use vstd::std_specs::hash::group_hash_axioms;

        let mut fresh: Vec<Discovered> = Vec::new();
        let ghost all = devs@;
        for device in it: devs.into_iter()
            invariant
                it.seq() == all,
                self.db@ == seen_after(old(self).db@, all, it.index() as int),
                fresh@ + fresh_from(self.db@, all, it.index() as int) == fresh_from(
                    old(self).db@,
                    all,
                    0,
                ),
                self.wl == old(self).wl,
                self.scan_interval == old(self).scan_interval,
                self.scan_duration == old(self).scan_duration,
        {
            let ghost at = it.index() as int;
            let ghost before = fresh@;
            let ghost seen = self.db@;
            assert(all[at] == device);
            if !self.db.contains(&device.mac.bits) {
                self.db.insert(device.mac.bits);
                fresh.push(device);
                assert(fresh@ + fresh_from(self.db@, all, at + 1) =~= before + fresh_from(
                    seen,
                    all,
                    at,
                ));
            } else {
                assert(seen.insert(device.mac@) =~= seen);
            }
        }
        assert(fresh@ + Seq::<Discovered>::empty() =~= fresh@);
        fresh
    }
}

/// One step of the discovery actor's tick. On `Wake` it takes in the newly
/// whitelisted addresses and asks for a scan, or rests where the whitelist is
/// empty. On `Scanned` it picks the whitelisted devices from what the scan
/// reported, marks them seen and asks to publish those that are new; where the
/// scan failed it must never run again.
pub fn discovery_task(data: &mut DiscoveryData, event: DiscoveryEvent) -> (action: DiscoveryAction)
    ensures
        final(data).scan_interval == old(data).scan_interval,
        final(data).scan_duration == old(data).scan_duration,
        match event {
            DiscoveryEvent::Wake(macs) => {
                &&& final(data).wl@ == allowed_after(old(data).wl@, macs@)
                &&& final(data).db == old(data).db
                &&& final(data).wl@.len() == 0 ==> (action matches DiscoveryAction::Rest(span)
                    && span == old(data).scan_interval)
                &&& final(data).wl@.len() != 0 ==> (action matches DiscoveryAction::Scan(span)
                    && span == old(data).scan_duration)
            },
            DiscoveryEvent::Scanned(None) => {
                &&& final(data).wl == old(data).wl
                &&& final(data).db == old(data).db
                &&& action is Stop
            },
            DiscoveryEvent::Scanned(Some(found)) => {
                let allowed = whitelisted_from(old(data).wl@, found@, 0);
                &&& final(data).wl == old(data).wl
                &&& final(data).db@ == seen_after(old(data).db@, allowed, allowed.len() as int)
                &&& action matches DiscoveryAction::Publish(devices, span)
                &&& devices@ == fresh_from(old(data).db@, allowed, 0)
                &&& span == old(data).scan_interval
            },
        },
{
    broadcast use vstd::std_specs::hash::group_hash_axioms;

    match event {
        DiscoveryEvent::Wake(macs) => {
            data.allow(macs);
            if data.wl.len() == 0 {
                DiscoveryAction::Rest(data.scan_interval)
            } else {
                DiscoveryAction::Scan(data.scan_duration)
            }
        },
        DiscoveryEvent::Scanned(None) => DiscoveryAction::Stop,
        DiscoveryEvent::Scanned(Some(found)) => {
            let allowed = data.discover_new(found);
            let fresh = data.manage_new_devices(allowed);
            DiscoveryAction::Publish(fresh, data.scan_interval)
        },
    }
}

} // verus!

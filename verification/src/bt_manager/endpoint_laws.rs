//! What holds of the endpoint resolver: of one search, of one pass, and of any
//! run of ticks.

use vstd::prelude::*;
use crate::bt_manager::endpoints::{
    devices_after, fails_from, find_characteristic, find_endpoint, forwarded_from, lookup,
    remaining_from, GattCharacteristic, GattListing, GattService, Lookup,
};
use crate::bt_manager::SomethingItem;
use crate::gatt_id::Uuid;
use crate::mac::BtMacAddress;

verus! {

/// Whether characteristic `j` of service `i` is an endpoint for `(svc, chrc)`:
/// the service has identifier `svc` and the characteristic has identifier `chrc`.
pub open spec fn is_endpoint(services: Seq<GattService>, svc: Uuid, chrc: Uuid, i: int, j: int) -> bool {
    &&& 0 <= i < services.len()
    &&& services[i].uuid == Some(svc)
    &&& services[i].characteristics matches Some(characteristics)
    &&& 0 <= j < characteristics@.len()
    &&& characteristics@[j].uuid == Some(chrc)
}

/// The handle of characteristic `j` of service `i`.
pub open spec fn handle_at(services: Seq<GattService>, i: int, j: int) -> String {
    services[i].characteristics.unwrap()@[j].handle
}

proof fn lemma_first_characteristic(characteristics: Seq<GattCharacteristic>, want: Uuid, from: int) -> (j:
    int)
    requires
        0 <= from,
        find_characteristic(characteristics, want, from) is Found,
    ensures
        from <= j < characteristics.len(),
        characteristics[j].uuid == Some(want),
        find_characteristic(characteristics, want, from) == Lookup::Found(characteristics[j].handle),
        forall|k: int| from <= k < j ==> (#[trigger] characteristics[k]).uuid != Some(want),
    decreases characteristics.len() - from,
{
    if characteristics[from].uuid == Some(want) {
        from
    } else {
        lemma_first_characteristic(characteristics, want, from + 1)
    }
}

proof fn lemma_no_characteristic(characteristics: Seq<GattCharacteristic>, want: Uuid, from: int)
    requires
        0 <= from,
        find_characteristic(characteristics, want, from) is Missing,
    ensures
        forall|k: int|
            from <= k < characteristics.len() ==> (#[trigger] characteristics[k]).uuid != Some(want),
    decreases characteristics.len() - from,
{
    if from < characteristics.len() {
        lemma_no_characteristic(characteristics, want, from + 1);
    }
}

proof fn lemma_first_endpoint(services: Seq<GattService>, svc: Uuid, chrc: Uuid, from: int) -> (at: (
    int,
    int,
))
    requires
        0 <= from,
        find_endpoint(services, svc, chrc, from) is Found,
    ensures
        from <= at.0,
        is_endpoint(services, svc, chrc, at.0, at.1),
        find_endpoint(services, svc, chrc, from) == Lookup::Found(handle_at(services, at.0, at.1)),
        forall|i: int, j: int|
            from <= i && #[trigger] is_endpoint(services, svc, chrc, i, j) ==> at.0 < i || (at.0 == i
                && at.1 <= j),
    decreases services.len() - from,
{
    if services[from].uuid == Some(svc) {
        let characteristics = services[from].characteristics.unwrap()@;
        if find_characteristic(characteristics, chrc, 0) is Missing {
            lemma_no_characteristic(characteristics, chrc, 0);
            lemma_first_endpoint(services, svc, chrc, from + 1)
        } else {
            let j = lemma_first_characteristic(characteristics, chrc, 0);
            (from, j)
        }
    } else {
        lemma_first_endpoint(services, svc, chrc, from + 1)
    }
}

proof fn lemma_no_endpoint(services: Seq<GattService>, svc: Uuid, chrc: Uuid, from: int)
    requires
        0 <= from,
        find_endpoint(services, svc, chrc, from) is Missing,
    ensures
        forall|i: int, j: int| from <= i ==> !#[trigger] is_endpoint(services, svc, chrc, i, j),
    decreases services.len() - from,
{
    if from < services.len() {
        if services[from].uuid == Some(svc) {
            lemma_no_characteristic(services[from].characteristics.unwrap()@, chrc, 0);
        }
        lemma_no_endpoint(services, svc, chrc, from + 1);
    }
}

/// The first match wins. Where the search among a device's services finds an
/// endpoint, it is the characteristic `at.1` of the service `at.0`, and no
/// endpoint for the same pair of identifiers stands before it in the adapter's
/// order: not in an earlier service, and not earlier in the same service.
pub proof fn lemma_first_match_wins(services: Seq<GattService>, svc: Uuid, chrc: Uuid) -> (at: (int, int))
    requires
        find_endpoint(services, svc, chrc, 0) is Found,
    ensures
        is_endpoint(services, svc, chrc, at.0, at.1),
        find_endpoint(services, svc, chrc, 0) == Lookup::Found(handle_at(services, at.0, at.1)),
        forall|i: int, j: int| #[trigger]
            is_endpoint(services, svc, chrc, i, j) ==> at.0 < i || (at.0 == i && at.1 <= j),
{
    lemma_first_endpoint(services, svc, chrc, 0)
}

/// Where the search among a device's services finds nothing, the device has no
/// endpoint for the pair of identifiers at all.
pub proof fn lemma_missing_means_no_endpoint(services: Seq<GattService>, svc: Uuid, chrc: Uuid)
    requires
        find_endpoint(services, svc, chrc, 0) is Missing,
    ensures
        forall|i: int, j: int| !#[trigger] is_endpoint(services, svc, chrc, i, j),
{
    lemma_no_endpoint(services, svc, chrc, 0);
}

proof fn lemma_shift<T>(
    head: Seq<(SomethingItem, T)>,
    tail: Seq<(SomethingItem, T)>,
    devices: Map<u64, String>,
    gatt: Seq<GattListing>,
    k: int,
)
    requires
        0 <= k,
    ensures
        forwarded_from(head + tail, devices, gatt, head.len() + k) == forwarded_from(
            tail,
            devices,
            gatt,
            k,
        ),
        remaining_from(head + tail, devices, gatt, head.len() + k) == remaining_from(
            tail,
            devices,
            gatt,
            k,
        ),
        fails_from(head + tail, devices, gatt, head.len() + k) == fails_from(tail, devices, gatt, k),
    decreases tail.len() - k,
{
    let whole = head + tail;
    if k < tail.len() {
        assert(whole[head.len() + k] == tail[k]);
        assert(whole.skip(head.len() + k) =~= tail.skip(k));
        lemma_shift(head, tail, devices, gatt, k + 1);
    }
}

proof fn lemma_settled_from<T>(
    pending: Seq<(SomethingItem, T)>,
    devices: Map<u64, String>,
    gatt: Seq<GattListing>,
    from: int,
)
    requires
        0 <= from,
    ensures
        forwarded_from(remaining_from(pending, devices, gatt, from), devices, gatt, 0) == Seq::<
            (String, T),
        >::empty(),
        remaining_from(remaining_from(pending, devices, gatt, from), devices, gatt, 0)
            == remaining_from(pending, devices, gatt, from),
        fails_from(remaining_from(pending, devices, gatt, from), devices, gatt, 0) == fails_from(
            pending,
            devices,
            gatt,
            from,
        ),
    decreases pending.len() - from,
{
    let left = remaining_from(pending, devices, gatt, from);
    if from < pending.len() {
        match lookup(devices, gatt, pending[from].0) {
            Lookup::Broken => {
                assert(left[0] == pending[from]);
                assert(left.skip(0) =~= left);
            },
            Lookup::Missing => {
                let rest = remaining_from(pending, devices, gatt, from + 1);
                let head = seq![pending[from]];
                lemma_settled_from(pending, devices, gatt, from + 1);
                lemma_shift(head, rest, devices, gatt, 0);
                assert(left == head + rest);
                assert(left[0] == pending[from]);
            },
            Lookup::Found(_) => {
                lemma_settled_from(pending, devices, gatt, from + 1);
            },
        }
    }
}

/// A request is resolved at most once. What a pass leaves pending is at rest: a
/// second pass with the same devices and the same listing hands nothing on and
/// leaves the same requests pending.
pub proof fn lemma_resolved_at_most_once<T>(
    pending: Seq<(SomethingItem, T)>,
    devices: Map<u64, String>,
    gatt: Seq<GattListing>,
)
    ensures
        forwarded_from(remaining_from(pending, devices, gatt, 0), devices, gatt, 0) == Seq::<
            (String, T),
        >::empty(),
        remaining_from(remaining_from(pending, devices, gatt, 0), devices, gatt, 0) == remaining_from(
            pending,
            devices,
            gatt,
            0,
        ),
{
    lemma_settled_from(pending, devices, gatt, 0);
}

proof fn lemma_accounted_from<T>(
    pending: Seq<(SomethingItem, T)>,
    devices: Map<u64, String>,
    gatt: Seq<GattListing>,
    from: int,
)
    requires
        0 <= from <= pending.len(),
    ensures
        forwarded_from(pending, devices, gatt, from).len() + remaining_from(
            pending,
            devices,
            gatt,
            from,
        ).len() == pending.len() - from,
    decreases pending.len() - from,
{
    if from < pending.len() {
        lemma_accounted_from(pending, devices, gatt, from + 1);
    }
}

/// A pass accounts for every request exactly once: each one is either handed
/// on or left pending.
pub proof fn lemma_every_request_accounted<T>(
    pending: Seq<(SomethingItem, T)>,
    devices: Map<u64, String>,
    gatt: Seq<GattListing>,
)
    ensures
        forwarded_from(pending, devices, gatt, 0).len() + remaining_from(pending, devices, gatt, 0).len()
            == pending.len(),
{
    lemma_accounted_from(pending, devices, gatt, 0);
}

proof fn lemma_stays_from<T>(
    pending: Seq<(SomethingItem, T)>,
    devices: Map<u64, String>,
    gatt: Seq<GattListing>,
    i: int,
    from: int,
)
    requires
        0 <= from <= i < pending.len(),
        !(lookup(devices, gatt, pending[i].0) is Found),
    ensures
        remaining_from(pending, devices, gatt, from).contains(pending[i]),
    decreases i - from,
{
    let left = remaining_from(pending, devices, gatt, from);
    match lookup(devices, gatt, pending[from].0) {
        Lookup::Broken => {
            assert(left[i - from] == pending[i]);
        },
        Lookup::Missing => {
            if from == i {
                assert(left[0] == pending[i]);
            } else {
                lemma_stays_from(pending, devices, gatt, i, from + 1);
                let rest = remaining_from(pending, devices, gatt, from + 1);
                let j = choose|j: int| 0 <= j < rest.len() && rest[j] == pending[i];
                assert(left[j + 1] == pending[i]);
            }
        },
        Lookup::Found(_) => {
            lemma_stays_from(pending, devices, gatt, i, from + 1);
        },
    }
}

/// A request whose endpoint is not found stays pending, whatever else the pass
/// does: it is never dropped.
pub proof fn lemma_unresolved_stays_pending<T>(
    pending: Seq<(SomethingItem, T)>,
    devices: Map<u64, String>,
    gatt: Seq<GattListing>,
    i: int,
)
    requires
        0 <= i < pending.len(),
        !(lookup(devices, gatt, pending[i].0) is Found),
    ensures
        remaining_from(pending, devices, gatt, 0).contains(pending[i]),
{
    lemma_stays_from(pending, devices, gatt, i, 0);
}

/// A request for a device that was not discovered stays pending, whatever the
/// adapter lists.
pub proof fn lemma_undiscovered_stays_pending<T>(
    pending: Seq<(SomethingItem, T)>,
    devices: Map<u64, String>,
    gatt: Seq<GattListing>,
    i: int,
)
    requires
        0 <= i < pending.len(),
        !devices.contains_key(pending[i].0.mac@),
    ensures
        remaining_from(pending, devices, gatt, 0).contains(pending[i]),
{
    lemma_stays_from(pending, devices, gatt, i, 0);
}

proof fn lemma_forwarded_from<T>(
    pending: Seq<(SomethingItem, T)>,
    devices: Map<u64, String>,
    gatt: Seq<GattListing>,
    i: int,
    from: int,
)
    requires
        0 <= from <= i < pending.len(),
        lookup(devices, gatt, pending[i].0) is Found,
        forall|j: int| from <= j < i ==> !(lookup(devices, gatt, (#[trigger] pending[j]).0) is Broken),
    ensures
        forwarded_from(pending, devices, gatt, from).contains(
            (lookup(devices, gatt, pending[i].0)->Found_0, pending[i].1),
        ),
    decreases i - from,
{
    let all = forwarded_from(pending, devices, gatt, from);
    let wanted = (lookup(devices, gatt, pending[i].0)->Found_0, pending[i].1);
    if from == i {
        assert(all[0] == wanted);
    } else {
        assert(!(lookup(devices, gatt, pending[from].0) is Broken));
        lemma_forwarded_from(pending, devices, gatt, i, from + 1);
        let rest = forwarded_from(pending, devices, gatt, from + 1);
        let k = choose|k: int| 0 <= k < rest.len() && rest[k] == wanted;
        if lookup(devices, gatt, pending[from].0) is Found {
            assert(all[k + 1] == wanted);
        } else {
            assert(all[k] == wanted);
        }
    }
}

/// A request whose endpoint is found is handed on, with what the caller
/// attached to it, unless the adapter failed on a request before it.
pub proof fn lemma_found_is_forwarded<T>(
    pending: Seq<(SomethingItem, T)>,
    devices: Map<u64, String>,
    gatt: Seq<GattListing>,
    i: int,
)
    requires
        0 <= i < pending.len(),
        lookup(devices, gatt, pending[i].0) is Found,
        forall|j: int| 0 <= j < i ==> !(lookup(devices, gatt, (#[trigger] pending[j]).0) is Broken),
    ensures
        forwarded_from(pending, devices, gatt, 0).contains(
            (lookup(devices, gatt, pending[i].0)->Found_0, pending[i].1),
        ),
{
    lemma_forwarded_from(pending, devices, gatt, i, 0);
}

proof fn lemma_devices_come_from_arrivals(
    known: Map<u64, String>,
    arrivals: Seq<(BtMacAddress, String)>,
    mac: u64,
)
    requires
        !known.contains_key(mac),
        forall|a: int| 0 <= a < arrivals.len() ==> (#[trigger] arrivals[a]).0@ != mac,
    ensures
        !devices_after(known, arrivals).contains_key(mac),
    decreases arrivals.len(),
{
    if arrivals.len() > 0 {
        let before = arrivals.drop_last();
        assert forall|a: int| 0 <= a < before.len() implies (#[trigger] before[a]).0@ != mac by {
            assert(before[a] == arrivals[a]);
        }
        lemma_devices_come_from_arrivals(known, before, mac);
        assert(arrivals.last() == arrivals[arrivals.len() - 1]);
    }
}

/// The requests pending after a run of ticks. Each tick is given by the devices
/// and the requests that arrived before it and by what the adapter listed in
/// it; the requests are of one kind, polls or writes.
pub open spec fn pending_after_ticks<T>(
    pending: Seq<(SomethingItem, T)>,
    devices: Map<u64, String>,
    ticks: Seq<(Seq<(BtMacAddress, String)>, Seq<(SomethingItem, T)>, Seq<GattListing>)>,
) -> Seq<(SomethingItem, T)>
    decreases ticks.len(),
{
    if ticks.len() == 0 {
        pending
    } else {
        let known = devices_after(devices, ticks[0].0);
        pending_after_ticks(
            remaining_from(pending + ticks[0].1, known, ticks[0].2, 0),
            known,
            ticks.skip(1),
        )
    }
}

/// A request for a device that is never discovered stays pending for ever:
/// after any run of ticks in which the device does not arrive, whatever else
/// arrives and whatever the adapter lists, the request is still pending.
pub proof fn lemma_never_discovered_never_dropped<T>(
    pending: Seq<(SomethingItem, T)>,
    devices: Map<u64, String>,
    ticks: Seq<(Seq<(BtMacAddress, String)>, Seq<(SomethingItem, T)>, Seq<GattListing>)>,
    request: (SomethingItem, T),
)
    requires
        pending.contains(request),
        !devices.contains_key(request.0.mac@),
        forall|t: int, a: int|
            0 <= t < ticks.len() && 0 <= a < ticks[t].0.len() ==> (#[trigger] ticks[t].0[a]).0@
                != request.0.mac@,
    ensures
        pending_after_ticks(pending, devices, ticks).contains(request),
    decreases ticks.len(),
{
    if ticks.len() > 0 {
        let known = devices_after(devices, ticks[0].0);
        let queue = pending + ticks[0].1;
        let left = remaining_from(queue, known, ticks[0].2, 0);
        let later = ticks.skip(1);
        assert forall|a: int| 0 <= a < ticks[0].0.len() implies (#[trigger] ticks[0].0[a]).0@
            != request.0.mac@ by {}
        lemma_devices_come_from_arrivals(devices, ticks[0].0, request.0.mac@);
        let i = choose|i: int| 0 <= i < pending.len() && pending[i] == request;
        assert(queue[i] == request);
        lemma_undiscovered_stays_pending(queue, known, ticks[0].2, i);
        assert forall|t: int, a: int| 0 <= t < later.len() && 0 <= a < later[t].0.len() implies (
        #[trigger] later[t].0[a]).0@ != request.0.mac@ by {
            assert(later[t] == ticks[t + 1]);
        }
        lemma_never_discovered_never_dropped(left, known, later, request);
    }
}

} // verus!

//! What holds of the discovery actor over any run of scans.

use vstd::prelude::*;
use crate::bt_manager::discovery::{allowed_after, fresh_from, seen_after, Discovered};
use crate::mac::BtMacAddress;

verus! {

/// What has been seen after some devices is what was seen before, and the
/// addresses of those devices.
pub proof fn lemma_seen_after(seen: Set<u64>, devices: Seq<Discovered>, upto: int, mac: u64)
    requires
        0 <= upto <= devices.len(),
    ensures
        seen_after(seen, devices, upto).contains(mac) <==> seen.contains(mac) || exists|i: int|
            0 <= i < upto && (#[trigger] devices[i]).mac@ == mac,
    decreases upto,
{
    if upto > 0 {
        lemma_seen_after(seen, devices, upto - 1, mac);
        if devices[upto - 1].mac@ == mac {
        } else if exists|i: int| 0 <= i < upto && (#[trigger] devices[i]).mac@ == mac {
            let i = choose|i: int| 0 <= i < upto && (#[trigger] devices[i]).mac@ == mac;
            assert(0 <= i < upto - 1 && devices[i].mac@ == mac);
        }
    }
}

/// The whitelist only grows: what was allowed stays allowed, and every address
/// added is allowed.
pub proof fn lemma_whitelist_only_grows(wl: Set<u64>, macs: Seq<BtMacAddress>, mac: u64)
    ensures
        allowed_after(wl, macs).contains(mac) <==> wl.contains(mac) || exists|i: int|
            0 <= i < macs.len() && (#[trigger] macs[i])@ == mac,
    decreases macs.len(),
{
    if macs.len() > 0 {
        let before = macs.drop_last();
        lemma_whitelist_only_grows(wl, before, mac);
        if macs.last()@ == mac {
            assert(macs[macs.len() - 1]@ == mac);
        } else if exists|i: int| 0 <= i < macs.len() && (#[trigger] macs[i])@ == mac {
            let i = choose|i: int| 0 <= i < macs.len() && (#[trigger] macs[i])@ == mac;
            assert(before[i]@ == mac);
        } else if exists|i: int| 0 <= i < before.len() && (#[trigger] before[i])@ == mac {
            let i = choose|i: int| 0 <= i < before.len() && (#[trigger] before[i])@ == mac;
            assert(macs[i]@ == mac);
        }
    }
}

/// Whether one of the devices at or after `from` has the address `mac`.
pub open spec fn among(devices: Seq<Discovered>, from: int, mac: BtMacAddress) -> bool {
    exists|i: int| from <= i < devices.len() && (#[trigger] devices[i]).mac == mac
}

proof fn lemma_fresh_from(seen: Set<u64>, devices: Seq<Discovered>, from: int)
    requires
        0 <= from,
    ensures
        ({
            let fresh = fresh_from(seen, devices, from);
            &&& forall|k: int| 0 <= k < fresh.len() ==> !seen.contains((#[trigger] fresh[k]).mac@)
            &&& forall|k: int, l: int|
                0 <= k < l < fresh.len() ==> (#[trigger] fresh[k]).mac != (#[trigger] fresh[l]).mac
            &&& forall|k: int| 0 <= k < fresh.len() ==> among(devices, from, (#[trigger] fresh[k]).mac)
        }),
    decreases devices.len() - from,
{
    let fresh = fresh_from(seen, devices, from);
    if from < devices.len() {
        if seen.contains(devices[from].mac@) {
            let rest = fresh_from(seen, devices, from + 1);
            lemma_fresh_from(seen, devices, from + 1);
            assert(fresh == rest);
            assert forall|k: int| 0 <= k < fresh.len() implies among(
                devices,
                from,
                (#[trigger] fresh[k]).mac,
            ) by {
                assert(among(devices, from + 1, rest[k].mac));
                let i = choose|i: int|
                    from + 1 <= i < devices.len() && (#[trigger] devices[i]).mac == rest[k].mac;
                assert(from <= i < devices.len() && devices[i].mac == fresh[k].mac);
            }
        } else {
            let wider = seen.insert(devices[from].mac@);
            let rest = fresh_from(wider, devices, from + 1);
            lemma_fresh_from(wider, devices, from + 1);
            assert(fresh == seq![devices[from]] + rest);
            assert forall|k: int| 0 <= k < fresh.len() implies !seen.contains(
                (#[trigger] fresh[k]).mac@,
            ) by {
                if k > 0 {
                    assert(fresh[k] == rest[k - 1]);
                    assert(!wider.contains(rest[k - 1].mac@));
                }
            }
            assert forall|k: int, l: int| 0 <= k < l < fresh.len() implies (#[trigger] fresh[k]).mac != (
            #[trigger] fresh[l]).mac by {
                assert(fresh[l] == rest[l - 1]);
                assert(!wider.contains(rest[l - 1].mac@));
                if k > 0 {
                    assert(fresh[k] == rest[k - 1]);
                }
            }
            assert forall|k: int| 0 <= k < fresh.len() implies among(
                devices,
                from,
                (#[trigger] fresh[k]).mac,
            ) by {
                if k > 0 {
                    assert(fresh[k] == rest[k - 1]);
                    assert(among(devices, from + 1, rest[k - 1].mac));
                    let i = choose|i: int|
                        from + 1 <= i < devices.len() && (#[trigger] devices[i]).mac == rest[k - 1].mac;
                    assert(from <= i < devices.len() && devices[i].mac == fresh[k].mac);
                } else {
                    assert(devices[from].mac == fresh[0].mac);
                }
            }
        }
    }
}

/// What one scan publishes as new was not seen before, holds no address twice,
/// and is all seen afterwards.
pub proof fn lemma_published_once(seen: Set<u64>, devices: Seq<Discovered>)
    ensures
        ({
            let fresh = fresh_from(seen, devices, 0);
            let wider = seen_after(seen, devices, devices.len() as int);
            &&& forall|k: int| 0 <= k < fresh.len() ==> !seen.contains((#[trigger] fresh[k]).mac@)
            &&& forall|k: int, l: int|
                0 <= k < l < fresh.len() ==> (#[trigger] fresh[k]).mac != (#[trigger] fresh[l]).mac
            &&& forall|k: int| 0 <= k < fresh.len() ==> wider.contains((#[trigger] fresh[k]).mac@)
        }),
{
    let fresh = fresh_from(seen, devices, 0);
    let wider = seen_after(seen, devices, devices.len() as int);
    lemma_fresh_from(seen, devices, 0);
    assert forall|k: int| 0 <= k < fresh.len() implies wider.contains((#[trigger] fresh[k]).mac@) by {
        assert(among(devices, 0, fresh[k].mac));
        let i = choose|i: int|
            0 <= i < devices.len() && (#[trigger] devices[i]).mac == fresh[k].mac;
        lemma_seen_after(seen, devices, devices.len() as int, fresh[k].mac@);
    }
}

/// What has been seen after a run of scans, each given by the whitelisted
/// devices it found.
pub open spec fn seen_after_scans(seen: Set<u64>, scans: Seq<Seq<Discovered>>) -> Set<u64>
    decreases scans.len(),
{
    if scans.len() == 0 {
        seen
    } else {
        seen_after_scans(seen_after(seen, scans[0], scans[0].len() as int), scans.skip(1))
    }
}

/// Everything that a run of scans publishes as new, in the order of
/// publication.
pub open spec fn published_in_scans(seen: Set<u64>, scans: Seq<Seq<Discovered>>) -> Seq<Discovered>
    decreases scans.len(),
{
    if scans.len() == 0 {
        Seq::empty()
    } else {
        fresh_from(seen, scans[0], 0) + published_in_scans(
            seen_after(seen, scans[0], scans[0].len() as int),
            scans.skip(1),
        )
    }
}

/// Discovery never publishes an address twice. Over any run of scans, however
/// often a device is found again, no address that was seen at the start is
/// published, and no address is published more than once.
pub proof fn lemma_never_published_twice(seen: Set<u64>, scans: Seq<Seq<Discovered>>)
    ensures
        ({
            let all = published_in_scans(seen, scans);
            &&& forall|k: int| 0 <= k < all.len() ==> !seen.contains((#[trigger] all[k]).mac@)
            &&& forall|k: int, l: int|
                0 <= k < l < all.len() ==> (#[trigger] all[k]).mac != (#[trigger] all[l]).mac
        }),
    decreases scans.len(),
{
    let all = published_in_scans(seen, scans);
    if scans.len() > 0 {
        let first = fresh_from(seen, scans[0], 0);
        let wider = seen_after(seen, scans[0], scans[0].len() as int);
        let later = published_in_scans(wider, scans.skip(1));
        lemma_published_once(seen, scans[0]);
        lemma_never_published_twice(wider, scans.skip(1));
        assert(all == first + later);
        assert forall|k: int| 0 <= k < all.len() implies !seen.contains((#[trigger] all[k]).mac@) by {
            if k >= first.len() {
                assert(all[k] == later[k - first.len()]);
                lemma_seen_after(seen, scans[0], scans[0].len() as int, all[k].mac@);
            } else {
                assert(all[k] == first[k]);
            }
        }
        assert forall|k: int, l: int| 0 <= k < l < all.len() implies (#[trigger] all[k]).mac != (
        #[trigger] all[l]).mac by {
            if k >= first.len() {
                assert(all[k] == later[k - first.len()]);
                assert(all[l] == later[l - first.len()]);
            } else if l < first.len() {
                assert(all[k] == first[k]);
                assert(all[l] == first[l]);
            } else {
                assert(all[k] == first[k]);
                assert(all[l] == later[l - first.len()]);
                assert(wider.contains(first[k].mac@));
                assert(!wider.contains(later[l - first.len()].mac@));
            }
        }
    }
}

} // verus!

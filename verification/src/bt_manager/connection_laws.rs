//! What holds of a round of the connection actor.

use vstd::prelude::*;
use crate::bt_manager::connection::{status_at, verdict_on, verdicts_from};
use crate::bt_manager::Connectable;

verus! {

proof fn lemma_verdict_from(
    devices: Seq<Connectable>,
    statuses: Seq<Option<bool>>,
    now: u64,
    i: int,
    from: int,
)
    requires
        0 <= from <= i < devices.len(),
        status_at(statuses, i) is Some,
    ensures
        verdicts_from(devices, statuses, now, from).contains(
            verdict_on(devices[i], i, status_at(statuses, i).unwrap(), now),
        ),
    decreases i - from,
{
    let all = verdicts_from(devices, statuses, now, from);
    let wanted = verdict_on(devices[i], i, status_at(statuses, i).unwrap(), now);
    if from == i {
        assert(all[0] == wanted);
    } else {
        lemma_verdict_from(devices, statuses, now, i, from + 1);
        let rest = verdicts_from(devices, statuses, now, from + 1);
        let k = choose|k: int| 0 <= k < rest.len() && rest[k] == wanted;
        if status_at(statuses, from) is Some {
            assert(all[k + 1] == wanted);
        } else {
            assert(all[k] == wanted);
        }
    }
}

/// A failed status query stops nothing. Every device that answered its status
/// query gets its verdict in the same round, whichever queries failed before
/// or behind it.
pub proof fn lemma_every_answer_gets_a_verdict(
    devices: Seq<Connectable>,
    statuses: Seq<Option<bool>>,
    now: u64,
    i: int,
)
    requires
        0 <= i < devices.len(),
        status_at(statuses, i) is Some,
    ensures
        verdicts_from(devices, statuses, now, 0).contains(
            verdict_on(devices[i], i, status_at(statuses, i).unwrap(), now),
        ),
{
    lemma_verdict_from(devices, statuses, now, i, 0);
}

proof fn lemma_verdicts_are_answers_from(
    devices: Seq<Connectable>,
    statuses: Seq<Option<bool>>,
    now: u64,
    from: int,
    k: int,
) -> (i: int)
    requires
        0 <= from,
        0 <= k < verdicts_from(devices, statuses, now, from).len(),
    ensures
        from <= i < devices.len(),
        status_at(statuses, i) is Some,
        verdicts_from(devices, statuses, now, from)[k] == verdict_on(
            devices[i],
            i,
            status_at(statuses, i).unwrap(),
            now,
        ),
    decreases devices.len() - from,
{
    if status_at(statuses, from) is Some {
        if k == 0 {
            from
        } else {
            lemma_verdicts_are_answers_from(devices, statuses, now, from + 1, k - 1)
        }
    } else {
        lemma_verdicts_are_answers_from(devices, statuses, now, from + 1, k)
    }
}

/// Every verdict is on a tracked device that answered: the device `i` that
/// this gives for the verdict at `k`.
pub proof fn lemma_every_verdict_is_an_answer(
    devices: Seq<Connectable>,
    statuses: Seq<Option<bool>>,
    now: u64,
    k: int,
) -> (i: int)
    requires
        0 <= k < verdicts_from(devices, statuses, now, 0).len(),
    ensures
        0 <= i < devices.len(),
        status_at(statuses, i) is Some,
        verdicts_from(devices, statuses, now, 0)[k] == verdict_on(
            devices[i],
            i,
            status_at(statuses, i).unwrap(),
            now,
        ),
{
    lemma_verdicts_are_answers_from(devices, statuses, now, 0, k)
}

} // verus!

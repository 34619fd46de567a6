//! The poll actor: reads the resolved endpoints and delivers what was read.

use vstd::prelude::*;
use crate::duration::Duration;

verus! {

/// Bytes read from an endpoint, for the caller who asked for them.
#[derive(Clone, Debug)]
pub struct Delivery {
    /// Which of the polled endpoints the bytes were read from: its place in the
    /// actor's list, where the caller's channel stands too.
    pub slot: usize,
    /// The bytes read.
    pub data: Vec<u8>,
}

/// The state of the poll actor. `C` is what a caller attached to its request
/// (the end of a channel that takes the bytes); the actor carries it and never
/// looks inside.
pub struct DataDb<C> {
    /// How long to rest between two ticks.
    pub poll_interval: Duration,
    /// The endpoints to poll, each with what takes its bytes, oldest first.
    pub polls: Vec<(String, C)>,
}

/// What happened since the poll actor last acted.
pub enum PollEvent<C> {
    /// The tick begins, with the endpoints resolved since the last one, or
    /// nothing where the actor's inbound queue could not be read.
    Wake(Option<Vec<(String, C)>>),
    /// Every polled endpoint was read: one result for each, in their order,
    /// nothing where the read failed.
    Read(Vec<Option<Vec<u8>>>),
}

/// What the poll actor wants done next.
pub enum PollAction {
    /// Read the endpoints with these handles and come back with the results.
    Read(Vec<String>),
    /// Send each delivery to the caller at its slot; then rest for `next`.
    Deliver { deliveries: Vec<Delivery>, next: Duration },
    /// The inbound queue is broken: never run again.
    Stop,
}

/// The deliveries due for the endpoints at and after `from`, of `count`
/// endpoints: one for each endpoint whose read gave bytes, in the order of the
/// endpoints. An endpoint without a result counts as one whose read failed.
pub open spec fn deliveries_from(count: int, reads: Seq<Option<Vec<u8>>>, from: int) -> Seq<Delivery>
    decreases reads.len() - from,
{
    if from < 0 || from >= reads.len() || from >= count {
        Seq::empty()
    } else {
        match reads[from] {
            Some(data) => seq![Delivery { slot: from as usize, data }] + deliveries_from(
                count,
                reads,
                from + 1,
            ),
            None => deliveries_from(count, reads, from + 1),
        }
    }
}

impl<C> DataDb<C> {
    /// A poll actor with nothing to poll yet.
    pub fn new(poll_interval: Duration) -> (data: DataDb<C>)
        ensures
            data.polls@ == Seq::<(String, C)>::empty(),
            data.poll_interval == poll_interval,
    {
        DataDb { poll_interval, polls: Vec::new() }
    }

    /// Starts polling the endpoints, behind those already polled.
    pub fn watch(&mut self, arrivals: Vec<(String, C)>)
        ensures
            final(self).polls@ == old(self).polls@ + arrivals@,
            final(self).poll_interval == old(self).poll_interval,
    {
        let mut arrivals = arrivals;
        self.polls.append(&mut arrivals);
    }

    /// The handles of the polled endpoints, in their order.
    pub fn handles(&self) -> (handles: Vec<String>)
        ensures
            handles@.len() == self.polls@.len(),
            forall|i: int| 0 <= i < handles@.len() ==> #[trigger] handles@[i] == self.polls@[i].0,
    {
        let mut handles: Vec<String> = Vec::new();
        let mut i: usize = 0;
        while i < self.polls.len()
            invariant
                0 <= i <= self.polls@.len(),
                handles@.len() == i,
                forall|j: int| 0 <= j < i ==> #[trigger] handles@[j] == self.polls@[j].0,
            decreases self.polls@.len() - i,
        {
            handles.push(self.polls[i].0.clone());
            i += 1;
        }
        handles
    }

    /// Decides what to deliver after the polled endpoints were read: the bytes
    /// of every read that succeeded go to the caller of that endpoint. A failed
    /// read delivers nothing and leaves the endpoint in place for the next tick.
    pub fn poll_data(&self, reads: Vec<Option<Vec<u8>>>) -> (deliveries: Vec<Delivery>)
        ensures
            deliveries@ == deliveries_from(self.polls@.len() as int, reads@, 0),
    {
        let count: usize = self.polls.len();
        let mut deliveries: Vec<Delivery> = Vec::new();
        let mut slot: usize = 0;
        let ghost all = reads@;
        let total: usize = reads.len();
        for read in it: reads.into_iter()
            invariant
                it.seq() == all,
                slot == it.index(),
                all.len() == total,
                count == self.polls@.len(),
                deliveries@ + deliveries_from(count as int, all, it.index() as int)
                    == deliveries_from(count as int, all, 0),
        {
            let ghost before = deliveries@;
            assert(all[slot as int] == read);
            if slot < count {
                match read {
                    Some(data) => {
                        deliveries.push(Delivery { slot, data });
                        assert(deliveries@ + deliveries_from(count as int, all, slot + 1)
                            =~= before + deliveries_from(count as int, all, slot as int));
                    },
                    None => {},
                }
            }
            slot += 1;
        }
        assert(deliveries@ + Seq::<Delivery>::empty() =~= deliveries@);
        deliveries
    }
}

/// One step of the poll actor's tick. On `Wake` it takes in the newly resolved
/// endpoints and asks for every polled endpoint to be read; on `Read` it says
/// what to deliver. A failed read never stops the actor: it asks to run again
/// after its interval in any case. Only an inbound queue that cannot be read
/// stops it.
pub fn data_poll_task<C>(data: &mut DataDb<C>, event: PollEvent<C>) -> (action: PollAction)
    ensures
        final(data).poll_interval == old(data).poll_interval,
        match event {
            PollEvent::Wake(None) => {
                &&& final(data).polls == old(data).polls
                &&& action is Stop
            },
            PollEvent::Wake(Some(arrivals)) => {
                &&& final(data).polls@ == old(data).polls@ + arrivals@
                &&& action matches PollAction::Read(handles)
                &&& handles@.len() == final(data).polls@.len()
                &&& forall|i: int|
                    0 <= i < handles@.len() ==> #[trigger] handles@[i] == final(data).polls@[i].0
            },
            PollEvent::Read(reads) => {
                &&& final(data).polls == old(data).polls
                &&& action matches PollAction::Deliver { deliveries, next }
                &&& deliveries@ == deliveries_from(old(data).polls@.len() as int, reads@, 0)
                &&& next == old(data).poll_interval
            },
        },
{
    match event {
        PollEvent::Wake(None) => PollAction::Stop,
        PollEvent::Wake(Some(arrivals)) => {
            data.watch(arrivals);
            PollAction::Read(data.handles())
        },
        PollEvent::Read(reads) => {
            let deliveries = data.poll_data(reads);
            PollAction::Deliver { deliveries, next: data.poll_interval }
        },
    }
}

} // verus!

//! The write actor: writes what callers sent to the resolved endpoints.

use vstd::prelude::*;
use crate::duration::Duration;

verus! {

/// Bytes to write to an endpoint.
#[derive(Clone, Debug)]
pub struct WriteOrder {
    /// The handle under which the adapter knows the endpoint.
    pub handle: String,
    /// The bytes to write.
    pub data: Vec<u8>,
}

/// The state of the write actor. `C` is what a caller attached to its request
/// (the end of a channel that gives the bytes); the actor carries it and never
/// looks inside.
pub struct DataWDb<C> {
    /// How long to rest between two ticks.
    pub write_interval: Duration,
    /// The endpoints to write to, each with what gives its bytes, oldest first.
    pub writes: Vec<(String, C)>,
}

/// What happened since the write actor last acted.
pub enum WriteEvent<C> {
    /// The tick begins, with the endpoints resolved since the last one, or
    /// nothing where the actor's inbound queue could not be read.
    Wake(Option<Vec<(String, C)>>),
    /// Every caller was asked for one payload: one answer for each endpoint, in
    /// their order, nothing where the caller had none waiting.
    Collected(Vec<Option<Vec<u8>>>),
}

/// What the write actor wants done next.
pub enum WriteAction {
    /// Take at most one waiting payload from the caller of each of the first
    /// `count` endpoints, without waiting, and come back with them.
    Collect { count: usize },
    /// Write each order to its endpoint, whatever becomes of the one before;
    /// then rest for `next`.
    Write { orders: Vec<WriteOrder>, next: Duration },
    /// The inbound queue is broken: never run again.
    Stop,
}

/// The writes due for the endpoints at and after `from`: one for each endpoint
/// whose caller had a payload waiting, in the order of the endpoints. An
/// endpoint without an answer counts as one whose caller had none.
pub open spec fn orders_from<C>(writes: Seq<(String, C)>, payloads: Seq<Option<Vec<u8>>>, from: int) -> Seq<
    WriteOrder,
>
    decreases payloads.len() - from,
{
    if from < 0 || from >= payloads.len() || from >= writes.len() {
        Seq::empty()
    } else {
        match payloads[from] {
            Some(data) => seq![WriteOrder { handle: writes[from].0, data }] + orders_from(
                writes,
                payloads,
                from + 1,
            ),
            None => orders_from(writes, payloads, from + 1),
        }
    }
}

impl<C> DataWDb<C> {
    /// A write actor with nothing to write to yet.
    pub fn new(write_interval: Duration) -> (data: DataWDb<C>)
        ensures
            data.writes@ == Seq::<(String, C)>::empty(),
            data.write_interval == write_interval,
    {
        DataWDb { write_interval, writes: Vec::new() }
    }

    /// Starts serving the endpoints, behind those already served.
    pub fn serve(&mut self, arrivals: Vec<(String, C)>)
        ensures
            final(self).writes@ == old(self).writes@ + arrivals@,
            final(self).write_interval == old(self).write_interval,
    {
        let mut arrivals = arrivals;
        self.writes.append(&mut arrivals);
    }

    /// Decides what to write after the callers were asked for payloads: every
    /// payload goes to the endpoint of the caller it came from. What becomes of
    /// a write is of no concern to the actor.
    pub fn write_data(&self, payloads: Vec<Option<Vec<u8>>>) -> (orders: Vec<WriteOrder>)
        ensures
            orders@ == orders_from(self.writes@, payloads@, 0),
    {
        let mut orders: Vec<WriteOrder> = Vec::new();
        let mut slot: usize = 0;
        let ghost all = payloads@;
        let total: usize = payloads.len();
        for payload in it: payloads.into_iter()
            invariant
                it.seq() == all,
                slot == it.index(),
                all.len() == total,
                orders@ + orders_from(self.writes@, all, it.index() as int) == orders_from(
                    self.writes@,
                    all,
                    0,
                ),
        {
            let ghost before = orders@;
            assert(all[slot as int] == payload);
            if slot < self.writes.len() {
                match payload {
                    Some(data) => {
                        orders.push(WriteOrder { handle: self.writes[slot].0.clone(), data });
                        assert(orders@ + orders_from(self.writes@, all, slot + 1) =~= before
                            + orders_from(self.writes@, all, slot as int));
                    },
                    None => {},
                }
            }
            slot += 1;
        }
        assert(orders@ + Seq::<WriteOrder>::empty() =~= orders@);
        orders
    }
}

/// One step of the write actor's tick. On `Wake` it takes in the newly resolved
/// endpoints and asks for the callers' waiting payloads; on `Collected` it says
/// what to write. A failed write never stops the actor: it asks to run again
/// after its interval in any case. Only an inbound queue that cannot be read
/// stops it.
pub fn data_write_task<C>(data: &mut DataWDb<C>, event: WriteEvent<C>) -> (action: WriteAction)
    ensures
        final(data).write_interval == old(data).write_interval,
        match event {
            WriteEvent::Wake(None) => {
                &&& final(data).writes == old(data).writes
                &&& action is Stop
            },
            WriteEvent::Wake(Some(arrivals)) => {
                &&& final(data).writes@ == old(data).writes@ + arrivals@
                &&& action matches WriteAction::Collect { count }
                &&& count == final(data).writes@.len()
            },
            WriteEvent::Collected(payloads) => {
                &&& final(data).writes == old(data).writes
                &&& action matches WriteAction::Write { orders, next }
                &&& orders@ == orders_from(old(data).writes@, payloads@, 0)
                &&& next == old(data).write_interval
            },
        },
{
    match event {
        WriteEvent::Wake(None) => WriteAction::Stop,
        WriteEvent::Wake(Some(arrivals)) => {
            data.serve(arrivals);
            WriteAction::Collect { count: data.writes.len() }
        },
        WriteEvent::Collected(payloads) => {
            let orders = data.write_data(payloads);
            WriteAction::Write { orders, next: data.write_interval }
        },
    }
}

} // verus!

//! The connection actor: keeps the discovered devices connected.

use vstd::prelude::*;
use crate::bt_manager::Connectable;
use crate::duration::Duration;

verus! {

/// What the connection actor found out about one device in one tick.
#[derive(Clone, Debug)]
pub struct Verdict {
    /// Which of the tracked devices the verdict is on: its place in the list.
    pub index: usize,
    /// The address of the device, as text.
    pub mac_addr: String,
    /// Whether the device is connected. Where it is not, a reconnect is due.
    pub connected: bool,
    /// Whether the device has been without a connection for longer than the
    /// idle limit, which calls for a warning.
    pub missing: bool,
}

/// The state of the connection actor.
pub struct ConnectionDb {
    /// The devices whose connection is kept alive, in the order of arrival.
    pub db: Vec<Connectable>,
    /// How long to rest between two ticks.
    pub connect_interval: Duration,
}

/// What one round over the tracked devices came to.
pub struct ConnectionReport {
    /// One verdict for each device that answered, in the order of the devices.
    pub verdicts: Vec<Verdict>,
    /// Whether a status query failed.
    pub failed: bool,
}

/// What happened since the connection actor last acted.
pub enum ConnectionEvent {
    /// The tick begins, with the devices announced since the last one.
    Wake(Vec<Connectable>),
    /// The adapter was asked at `now` whether each tracked device is connected:
    /// one answer for each device, in their order, nothing where the query
    /// failed.
    Observed { statuses: Vec<Option<bool>>, now: u64 },
}

/// What the connection actor wants done next.
pub enum ConnectionAction {
    /// Ask the adapter whether each of the devices with these handles is
    /// connected, and come back with the answers.
    Query(Vec<String>),
    /// For each verdict, in order: try to reconnect the device where it is not
    /// connected, and announce its status. Then rest for `next`, or never run
    /// again where there is none (a status query failed).
    Act { verdicts: Vec<Verdict>, next: Option<Duration> },
}

/// The answer about device `i`: a device without an answer counts as one whose
/// query failed.
pub open spec fn status_at(statuses: Seq<Option<bool>>, i: int) -> Option<bool> {
    if 0 <= i < statuses.len() {
        statuses[i]
    } else {
        None
    }
}

/// Whether the status query of one of the first `count` devices failed.
pub open spec fn any_failure(statuses: Seq<Option<bool>>, count: int) -> bool {
    exists|i: int| 0 <= i < count && (#[trigger] status_at(statuses, i)) is None
}

/// The verdict on the device at `index`, which answered the status query at
/// `now`.
pub open spec fn verdict_on(device: Connectable, index: int, connected: bool, now: u64) -> Verdict {
    Verdict {
        index: index as usize,
        mac_addr: device.mac_addr,
        connected,
        missing: !connected && device.idle_time(now) > crate::bt_manager::IDLE_LIMIT_MS,
    }
}

/// A device after the status query at `now`: a device found connected was last
/// connected now; any other is as it was.
pub open spec fn device_after(device: Connectable, status: Option<bool>, now: u64) -> Connectable {
    if status == Some(true) {
        Connectable { last_connected: now, ..device }
    } else {
        device
    }
}

/// The verdicts on the devices at and after `from`: one for each device that
/// answered, in the order of the devices.
pub open spec fn verdicts_from(
    devices: Seq<Connectable>,
    statuses: Seq<Option<bool>>,
    now: u64,
    from: int,
) -> Seq<Verdict>
    decreases devices.len() - from,
{
    if from < 0 || from >= devices.len() {
        Seq::empty()
    } else {
        match status_at(statuses, from) {
            Some(connected) => seq![verdict_on(devices[from], from, connected, now)] + verdicts_from(
                devices,
                statuses,
                now,
                from + 1,
            ),
            None => verdicts_from(devices, statuses, now, from + 1),
        }
    }
}

impl ConnectionDb {
    /// A connection actor that tracks no device yet.
    pub fn new(connect_interval: Duration) -> (data: ConnectionDb)
        ensures
            data.db@ == Seq::<Connectable>::empty(),
            data.connect_interval == connect_interval,
    {
        ConnectionDb { db: Vec::new(), connect_interval }
    }

    /// Starts tracking the devices, behind those already tracked.
    pub fn track(&mut self, arrivals: Vec<Connectable>)
        ensures
            final(self).db@ == old(self).db@ + arrivals@,
            final(self).connect_interval == old(self).connect_interval,
    {
        let mut arrivals = arrivals;
        self.db.append(&mut arrivals);
    }

    /// The handles of the tracked devices, in their order.
    pub fn handles(&self) -> (handles: Vec<String>)
        ensures
            handles@.len() == self.db@.len(),
            forall|i: int|
                0 <= i < handles@.len() ==> #[trigger] handles@[i] == self.db@[i].bluez_handle,
    {
        let mut handles: Vec<String> = Vec::new();
        let mut i: usize = 0;
        while i < self.db.len()
            invariant
                0 <= i <= self.db@.len(),
                handles@.len() == i,
                forall|j: int| 0 <= j < i ==> #[trigger] handles@[j] == self.db@[j].bluez_handle,
            decreases self.db@.len() - i,
        {
            handles.push(self.db[i].bluez_handle.clone());
            i += 1;
        }
        handles
    }

    /// Goes over the tracked devices in order with the answers to the status
    /// queries made at `now`. A device that is connected was last connected now;
    /// one that is not gets a verdict that asks for a reconnect, and for a
    /// warning where it has been idle for too long. A device whose query failed
    /// is left as it was and gets no verdict; the round goes on with the devices
    /// behind it, and the report says that a query failed.
    pub fn manage_connection(&mut self, statuses: &Vec<Option<bool>>, now: u64) -> (report:
        ConnectionReport)
        ensures
            final(self).connect_interval == old(self).connect_interval,
            final(self).db@.len() == old(self).db@.len(),
            forall|i: int|
                0 <= i < old(self).db@.len() ==> #[trigger] final(self).db@[i] == device_after(
                    old(self).db@[i],
                    status_at(statuses@, i),
                    now,
                ),
            report.verdicts@ == verdicts_from(old(self).db@, statuses@, now, 0),
            report.failed == any_failure(statuses@, old(self).db@.len() as int),
    {
        let mut devices: Vec<Connectable> = Vec::new();
        std::mem::swap(&mut devices, &mut self.db);
        let ghost all = devices@;
        let mut verdicts: Vec<Verdict> = Vec::new();
        let mut failed = false;
        for device in it: devices.into_iter()
            invariant
                it.seq() == all,
                self.connect_interval == old(self).connect_interval,
                self.db@.len() == it.index(),
                failed == any_failure(statuses@, it.index() as int),
                verdicts@ + verdicts_from(all, statuses@, now, it.index() as int) == verdicts_from(
                    all,
                    statuses@,
                    now,
                    0,
                ),
                forall|i: int|
                    0 <= i < it.index() ==> #[trigger] self.db@[i] == device_after(
                        all[i],
                        status_at(statuses@, i),
                        now,
                    ),
        {
            let at: usize = self.db.len();
            let ghost before = verdicts@;
            assert(all[at as int] == device);
            let status: Option<bool> = if at < statuses.len() {
                statuses[at]
            } else {
                None
            };
            assert(status == status_at(statuses@, at as int));
            match status {
                None => {
                    failed = true;
                    self.db.push(device);
                },
                Some(connected) => {
                    let missing = !connected && device.too_idle(now);
                    verdicts.push(
                        Verdict { index: at, mac_addr: device.mac_addr.clone(), connected, missing },
                    );
                    assert(verdicts@ + verdicts_from(all, statuses@, now, at + 1) =~= before
                        + verdicts_from(all, statuses@, now, at as int));
                    let mut device = device;
                    if connected {
                        device.last_connected = now;
                    }
                    self.db.push(device);
                    assert(any_failure(statuses@, at + 1) ==> any_failure(statuses@, at as int)) by {
                        if any_failure(statuses@, at + 1) {
                            let i = choose|i: int|
                                0 <= i < at + 1 && (#[trigger] status_at(statuses@, i)) is None;
                            assert(0 <= i < at && status_at(statuses@, i) is None);
                        }
                    }
                },
            }
        }
        assert(verdicts@ + Seq::<Verdict>::empty() =~= verdicts@);
        ConnectionReport { verdicts, failed }
    }

    /// Records that the adapter accepted (or not) a reconnect of the device at
    /// `index`, attempted at `now`. An index beyond the tracked devices changes
    /// nothing.
    pub fn reconnected(&mut self, index: usize, accepted: bool, now: u64)
        ensures
            final(self).connect_interval == old(self).connect_interval,
            final(self).db@.len() == old(self).db@.len(),
            forall|i: int|
                0 <= i < old(self).db@.len() && i != index ==> #[trigger] final(self).db@[i] == old(
                    self,
                ).db@[i],
            index < old(self).db@.len() ==> {
                &&& final(self).db@[index as int].bluez_handle == old(
                    self,
                ).db@[index as int].bluez_handle
                &&& final(self).db@[index as int].mac_addr == old(self).db@[index as int].mac_addr
                &&& final(self).db@[index as int].last_connected == if accepted {
                    now
                } else {
                    old(self).db@[index as int].last_connected
                }
            },
    {
        if index < self.db.len() {
            let mut device = self.db.remove(index);
            device.connect(accepted, now);
            self.db.insert(index, device);
        }
    }
}

/// One step of the connection actor's tick. On `Wake` it starts tracking the
/// announced devices and asks for the status of every tracked device; on
/// `Observed` it goes over all the devices with the answers. It asks to run
/// again after its interval unless a status query failed, in which case it must
/// never run again.
pub fn connect_task(data: &mut ConnectionDb, event: ConnectionEvent) -> (action: ConnectionAction)
    ensures
        final(data).connect_interval == old(data).connect_interval,
        match event {
            ConnectionEvent::Wake(arrivals) => {
                &&& final(data).db@ == old(data).db@ + arrivals@
                &&& action matches ConnectionAction::Query(handles)
                &&& handles@.len() == final(data).db@.len()
                &&& forall|i: int|
                    0 <= i < handles@.len() ==> #[trigger] handles@[i] == final(data).db@[i].bluez_handle
            },
            ConnectionEvent::Observed { statuses, now } => {
                &&& final(data).db@.len() == old(data).db@.len()
                &&& forall|i: int|
                    0 <= i < old(data).db@.len() ==> #[trigger] final(data).db@[i] == device_after(
                        old(data).db@[i],
                        status_at(statuses@, i),
                        now,
                    )
                &&& action matches ConnectionAction::Act { verdicts, next }
                &&& verdicts@ == verdicts_from(old(data).db@, statuses@, now, 0)
                &&& next == if any_failure(statuses@, old(data).db@.len() as int) {
                    None::<Duration>
                } else {
                    Some(old(data).connect_interval)
                }
            },
        },
{
    match event {
        ConnectionEvent::Wake(arrivals) => {
            data.track(arrivals);
            ConnectionAction::Query(data.handles())
        },
        ConnectionEvent::Observed { statuses, now } => {
            let report = data.manage_connection(&statuses, now);
            let next = if report.failed {
                None
            } else {
                Some(data.connect_interval)
            };
            ConnectionAction::Act { verdicts: report.verdicts, next }
        },
    }
}

} // verus!

use easy_bluez::bt_manager::connection::{
    connect_task, ConnectionAction, ConnectionDb, ConnectionEvent,
};
use easy_bluez::bt_manager::{Connectable, IDLE_LIMIT_MS};
use easy_bluez::Duration;

fn device(name: &str, now: u64) -> Connectable {
    Connectable::new(format!("/dev/{}", name), Some(String::from(name)), now)
}

fn actor(names: &[&str], now: u64) -> ConnectionDb {
    let mut data = ConnectionDb::new(Duration::seconds(3));
    data.track(names.iter().map(|n| device(n, now)).collect());
    data
}

#[test]
fn a_new_device_takes_the_address_or_unknown() {
    let known = Connectable::new(String::from("/dev/a"), Some(String::from("AA:BB")), 5);
    assert_eq!(known.bluez_handle, "/dev/a");
    assert_eq!(known.mac_addr, "AA:BB");
    assert_eq!(known.last_connected, 5);
    let unknown = Connectable::new(String::from("/dev/b"), None, 9);
    assert_eq!(unknown.mac_addr, "Unknown");
    assert_eq!(unknown.last_connected, 9);
}

#[test]
fn an_accepted_connect_counts_as_connected() {
    let mut dev = device("a", 100);
    dev.connect(false, 200);
    assert_eq!(dev.last_connected, 100);
    dev.connect(true, 300);
    assert_eq!(dev.last_connected, 300);
    assert_eq!(dev.mac_addr, "a");
    assert_eq!(dev.bluez_handle, "/dev/a");
}

#[test]
fn idle_limit_is_thirty_seconds() {
    assert_eq!(IDLE_LIMIT_MS, 30_000);
    let dev = device("a", 1_000);
    assert!(!dev.too_idle(1_000));
    assert!(!dev.too_idle(31_000));
    assert!(dev.too_idle(31_001));
    // A clock that ran backwards counts as no time passed.
    assert!(!dev.too_idle(0));
}

#[test]
fn wake_tracks_arrivals_and_asks_for_every_status() {
    let mut data = actor(&["a"], 0);
    let action = connect_task(&mut data, ConnectionEvent::Wake(vec![device("b", 1), device("c", 2)]));
    match action {
        ConnectionAction::Query(handles) => assert_eq!(handles, vec!["/dev/a", "/dev/b", "/dev/c"]),
        _ => panic!("the actor did not ask"),
    }
    assert_eq!(data.db.len(), 3);
    assert_eq!(data.db[2].mac_addr, "c");
}

#[test]
fn connected_devices_are_refreshed_and_others_reconnected() {
    let mut data = actor(&["a", "b", "c"], 1_000);
    let statuses = vec![Some(true), Some(false), Some(false)];
    let action = connect_task(&mut data, ConnectionEvent::Observed { statuses, now: 31_001 });
    match action {
        ConnectionAction::Act { verdicts, next } => {
            assert_eq!(next, Some(Duration::seconds(3)));
            assert_eq!(verdicts.len(), 3);
            assert_eq!(verdicts[0].mac_addr, "a");
            assert!(verdicts[0].connected);
            assert!(!verdicts[0].missing);
            assert_eq!(verdicts[1].mac_addr, "b");
            assert!(!verdicts[1].connected);
            assert!(verdicts[1].missing);
            assert_eq!(verdicts[2].mac_addr, "c");
            assert!(!verdicts[2].connected);
            assert!(verdicts[2].missing);
        }
        _ => panic!("the actor did not act"),
    }
    assert_eq!(data.db[0].last_connected, 31_001);
    assert_eq!(data.db[1].last_connected, 1_000);
    assert_eq!(data.db[2].last_connected, 1_000);
}

#[test]
fn a_short_disconnect_is_no_warning() {
    let mut data = actor(&["a"], 1_000);
    let report = data.manage_connection(&vec![Some(false)], 31_000);
    assert!(!report.failed);
    assert_eq!(report.verdicts.len(), 1);
    assert!(!report.verdicts[0].connected);
    assert!(!report.verdicts[0].missing);
}

/// A failed status query on one device does not keep the actor from handling
/// the devices behind it in the same tick.
#[test]
fn a_failed_status_query_does_not_stop_the_round() {
    let mut data = actor(&["a", "b", "c", "d"], 10);
    let statuses = vec![Some(true), None, Some(true), Some(false)];
    let action = connect_task(&mut data, ConnectionEvent::Observed { statuses, now: 40_000 });
    let verdicts = match action {
        ConnectionAction::Act { verdicts, next } => {
            // A failed status query is fatal to the actor all the same.
            assert_eq!(next, None);
            verdicts
        }
        _ => panic!("the actor did not act"),
    };
    assert_eq!(verdicts.len(), 3);
    assert_eq!(verdicts[0].index, 0);
    assert_eq!(verdicts[0].mac_addr, "a");
    assert!(verdicts[0].connected);
    assert_eq!(verdicts[1].index, 2);
    assert_eq!(verdicts[1].mac_addr, "c");
    assert!(verdicts[1].connected);
    assert_eq!(verdicts[2].index, 3);
    assert_eq!(verdicts[2].mac_addr, "d");
    assert!(!verdicts[2].connected);
    assert!(verdicts[2].missing);
    // The device whose query failed is still there, as it was.
    assert_eq!(data.db.len(), 4);
    assert_eq!(data.db[0].last_connected, 40_000);
    assert_eq!(data.db[1].last_connected, 10);
    assert_eq!(data.db[1].mac_addr, "b");
    assert_eq!(data.db[2].last_connected, 40_000);
    assert_eq!(data.db[3].last_connected, 10);
}

#[test]
fn a_device_without_an_answer_counts_as_failed() {
    let mut data = actor(&["a", "b"], 10);
    let report = data.manage_connection(&vec![Some(false)], 20);
    assert!(report.failed);
    assert_eq!(report.verdicts.len(), 1);
    assert_eq!(report.verdicts[0].mac_addr, "a");
    let mut empty = ConnectionDb::new(Duration::seconds(3));
    let report = empty.manage_connection(&vec![Some(true), None], 20);
    assert!(!report.failed);
    assert!(report.verdicts.is_empty());
}

#[test]
fn a_round_without_failure_asks_to_run_again() {
    let mut data = actor(&["a", "b"], 10);
    let report = data.manage_connection(&vec![Some(false), Some(true)], 20);
    assert!(!report.failed);
    assert_eq!(report.verdicts.len(), 2);
    assert_eq!(report.verdicts[0].index, 0);
    assert_eq!(report.verdicts[1].index, 1);
    let mut none = ConnectionDb::new(Duration::seconds(3));
    let action = connect_task(&mut none, ConnectionEvent::Observed { statuses: vec![], now: 1 });
    match action {
        ConnectionAction::Act { verdicts, next } => {
            assert!(verdicts.is_empty());
            assert_eq!(next, Some(Duration::seconds(3)));
        }
        _ => panic!("the actor did not act"),
    }
}

#[test]
fn reconnected_records_an_accepted_connect() {
    let mut data = actor(&["a", "b"], 10);
    data.reconnected(1, true, 77);
    assert_eq!(data.db[0].last_connected, 10);
    assert_eq!(data.db[1].last_connected, 77);
    assert_eq!(data.db[1].mac_addr, "b");
    data.reconnected(0, false, 99);
    assert_eq!(data.db[0].last_connected, 10);
    data.reconnected(5, true, 99);
    assert_eq!(data.db.len(), 2);
    assert_eq!(data.db[0].mac_addr, "a");
    assert_eq!(data.db[1].last_connected, 77);
}

use easy_bluez::bt_manager::discovery::{
    discovery_task, Advertised, Discovered, DiscoveryAction, DiscoveryData, DiscoveryEvent,
};
use easy_bluez::{BtMacAddress, Duration};

fn mac(last: u8) -> BtMacAddress {
    BtMacAddress::from_octets([0xAA, 0xBB, 0xCC, 0xDD, 0xEE, last])
}

fn text(last: u8) -> String {
    format!("AA:BB:CC:DD:EE:{:02X}", last)
}

fn advertised(last: u8) -> Advertised {
    Advertised { handle: format!("/org/bluez/hci0/dev_{:02X}", last), address: Some(text(last)) }
}

fn discovered(last: u8) -> Discovered {
    Discovered { mac: mac(last), handle: format!("/org/bluez/hci0/dev_{:02X}", last), address: text(last) }
}

fn actor() -> DiscoveryData {
    DiscoveryData::new(Duration::seconds(10), Duration::seconds(5))
}

fn published(action: DiscoveryAction) -> Vec<u64> {
    match action {
        DiscoveryAction::Publish(devices, next) => {
            assert_eq!(next, Duration::seconds(10));
            devices.iter().map(|d| d.mac.as_u64()).collect()
        }
        _ => panic!("the actor did not publish"),
    }
}

#[test]
fn an_empty_whitelist_skips_the_scan() {
    let mut data = actor();
    match discovery_task(&mut data, DiscoveryEvent::Wake(vec![])) {
        DiscoveryAction::Rest(span) => assert_eq!(span, Duration::seconds(10)),
        _ => panic!("the actor did not rest"),
    }
    assert!(data.wl.is_empty());
}

#[test]
fn a_whitelisted_address_starts_a_scan() {
    let mut data = actor();
    match discovery_task(&mut data, DiscoveryEvent::Wake(vec![mac(1), mac(2), mac(1)])) {
        DiscoveryAction::Scan(span) => assert_eq!(span, Duration::seconds(5)),
        _ => panic!("the actor did not scan"),
    }
    assert_eq!(data.wl.len(), 2);
    assert!(data.wl.contains(&mac(1).as_u64()));
    assert!(data.wl.contains(&mac(2).as_u64()));
    // The whitelist is kept: a later tick with nothing new scans again.
    match discovery_task(&mut data, DiscoveryEvent::Wake(vec![])) {
        DiscoveryAction::Scan(span) => assert_eq!(span, Duration::seconds(5)),
        _ => panic!("the actor did not scan"),
    }
}

#[test]
fn a_failed_scan_stops_the_actor() {
    let mut data = actor();
    data.allow(vec![mac(1)]);
    match discovery_task(&mut data, DiscoveryEvent::Scanned(None)) {
        DiscoveryAction::Stop => {}
        _ => panic!("the actor did not stop"),
    }
    assert!(data.db.is_empty());
    assert_eq!(data.wl.len(), 1);
}

#[test]
fn only_whitelisted_devices_are_published() {
    let mut data = actor();
    data.allow(vec![mac(1), mac(3)]);
    let found = vec![advertised(1), advertised(2), advertised(3)];
    let action = discovery_task(&mut data, DiscoveryEvent::Scanned(Some(found)));
    assert_eq!(published(action), vec![mac(1).as_u64(), mac(3).as_u64()]);
    assert_eq!(data.db.len(), 2);
    assert!(data.db.contains(&mac(1).as_u64()));
    assert!(!data.db.contains(&mac(2).as_u64()));
    assert!(data.db.contains(&mac(3).as_u64()));
}

#[test]
fn a_device_is_published_once_over_many_scans() {
    let mut data = actor();
    data.allow(vec![mac(1), mac(2)]);
    let first = discovery_task(&mut data, DiscoveryEvent::Scanned(Some(vec![advertised(1)])));
    assert_eq!(published(first), vec![mac(1).as_u64()]);
    let second =
        discovery_task(&mut data, DiscoveryEvent::Scanned(Some(vec![advertised(1), advertised(2)])));
    assert_eq!(published(second), vec![mac(2).as_u64()]);
    let third =
        discovery_task(&mut data, DiscoveryEvent::Scanned(Some(vec![advertised(2), advertised(1)])));
    assert_eq!(published(third), Vec::<u64>::new());
    assert_eq!(data.db.len(), 2);
}

#[test]
fn a_device_reported_twice_in_one_scan_is_published_once() {
    let mut data = actor();
    data.allow(vec![mac(7)]);
    let twice = Advertised { handle: String::from("/org/bluez/hci1/dev_07"), address: Some(text(7)) };
    let action =
        discovery_task(&mut data, DiscoveryEvent::Scanned(Some(vec![advertised(7), twice])));
    match action {
        DiscoveryAction::Publish(devices, _) => {
            assert_eq!(devices.len(), 1);
            assert_eq!(devices[0].mac, mac(7));
            assert_eq!(devices[0].handle, "/org/bluez/hci0/dev_07");
            assert_eq!(devices[0].address, "AA:BB:CC:DD:EE:07");
        }
        _ => panic!("the actor did not publish"),
    }
}

#[test]
fn discover_new_passes_over_devices_without_a_readable_address() {
    let mut data = actor();
    data.allow(vec![mac(1)]);
    let found = vec![
        Advertised { handle: String::from("a"), address: None },
        Advertised { handle: String::from("b"), address: Some(String::from("garbage")) },
        Advertised { handle: String::from("c"), address: Some(String::from("aa-bb-cc-dd-ee-01")) },
        Advertised { handle: String::from("d"), address: Some(text(2)) },
    ];
    let devices = data.discover_new(found);
    assert_eq!(devices.len(), 1);
    assert_eq!(devices[0].mac, mac(1));
    assert_eq!(devices[0].handle, "c");
    assert_eq!(devices[0].address, "aa-bb-cc-dd-ee-01");
    assert!(data.db.is_empty());
}

#[test]
fn manage_new_devices_marks_all_seen_and_returns_the_new_ones() {
    let mut data = actor();
    let first = data.manage_new_devices(vec![discovered(1), discovered(2), discovered(1)]);
    assert_eq!(first.iter().map(|d| d.mac).collect::<Vec<_>>(), vec![mac(1), mac(2)]);
    let second = data.manage_new_devices(vec![discovered(2), discovered(3)]);
    assert_eq!(second.iter().map(|d| d.mac).collect::<Vec<_>>(), vec![mac(3)]);
    assert_eq!(data.db.len(), 3);
    let third = data.manage_new_devices(vec![]);
    assert!(third.is_empty());
    assert_eq!(data.db.len(), 3);
}

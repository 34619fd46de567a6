use easy_bluez::bt_manager::connection::{connect_task, ConnectionAction, ConnectionEvent};
use easy_bluez::bt_manager::data_poll::{data_poll_task, PollAction, PollEvent};
use easy_bluez::bt_manager::discovery::{
    discovery_task, Advertised, DiscoveryAction, DiscoveryEvent,
};
use easy_bluez::bt_manager::endpoints::{
    endpoints_task, EndpointsAction, EndpointsEvent, GattCharacteristic, GattListing, GattService,
};
use easy_bluez::bt_manager::Connectable;
use easy_bluez::{poll, Actors, Duration, EasyBluez};

const MAC: &str = "AA:BB:CC:DD:EE:FF";
const SVC: &str = "0000c01d-c001-de30-cabb-785feabcd123";
const CHRC: &str = "0000c01d-c001-de30-cabb-785feabcd123";

/// A poll submitted before the device is discovered is served once the device
/// and its endpoint turn up: the caller's channel gets exactly the bytes read.
#[test]
fn poll_before_discovery_is_served_after_it() {
    let mut settings = EasyBluez::new();
    let mut actors: Actors<u32, u32> = settings.run();
    let channel: u32 = 42;

    // The caller submits the request.
    let submission = poll(MAC, SVC, CHRC).unwrap();

    // The resolver takes it in; the device is unknown, so there is nothing to list.
    let action = endpoints_task(
        &mut actors.endpoints,
        EndpointsEvent::Wake { devices: vec![], polls: vec![(submission.item, channel)], writes: vec![] },
    );
    match action {
        EndpointsAction::Enumerate(wanted) => assert!(wanted.is_empty()),
        _ => panic!("the resolver did not ask"),
    }
    match endpoints_task(&mut actors.endpoints, EndpointsEvent::Listed(vec![])) {
        EndpointsAction::Forward { polls, writes, next } => {
            assert!(polls.is_empty());
            assert!(writes.is_empty());
            assert_eq!(next, Some(Duration::seconds(3)));
        }
        _ => panic!("the resolver did not forward"),
    }
    assert_eq!(actors.endpoints.pending_poll.len(), 1);

    // Discovery learns of the address, scans and finds the device.
    match discovery_task(&mut actors.discovery, DiscoveryEvent::Wake(vec![submission.whitelist])) {
        DiscoveryAction::Scan(span) => assert_eq!(span, Duration::seconds(5)),
        _ => panic!("discovery did not scan"),
    }
    let found = vec![Advertised {
        handle: String::from("/org/bluez/hci0/dev_AA_BB_CC_DD_EE_FF"),
        address: Some(String::from(MAC)),
    }];
    let device = match discovery_task(&mut actors.discovery, DiscoveryEvent::Scanned(Some(found))) {
        DiscoveryAction::Publish(mut devices, next) => {
            assert_eq!(next, Duration::seconds(10));
            assert_eq!(devices.len(), 1);
            devices.remove(0)
        }
        _ => panic!("discovery did not publish"),
    };
    assert_eq!(device.mac, submission.whitelist);

    // The connection actor starts to look after the device.
    let kept = Connectable::new(device.handle.clone(), Some(device.address.clone()), 0);
    match connect_task(&mut actors.connection, ConnectionEvent::Wake(vec![kept])) {
        ConnectionAction::Query(handles) => assert_eq!(handles, vec![device.handle.clone()]),
        _ => panic!("the connection actor did not ask"),
    }

    // The resolver hears of the device and asks for its services.
    let action = endpoints_task(
        &mut actors.endpoints,
        EndpointsEvent::Wake {
            devices: vec![(device.mac, device.handle.clone())],
            polls: vec![],
            writes: vec![],
        },
    );
    match action {
        EndpointsAction::Enumerate(wanted) => {
            assert_eq!(wanted, vec![(device.mac, device.handle.clone())]);
        }
        _ => panic!("the resolver did not ask"),
    }
    let gatt = vec![GattListing {
        mac: device.mac,
        services: Some(vec![GattService::new(
            Some(SVC),
            Some(vec![GattCharacteristic::new(String::from("/char0010"), Some(CHRC))]),
        )]),
    }];
    let resolved = match endpoints_task(&mut actors.endpoints, EndpointsEvent::Listed(gatt)) {
        EndpointsAction::Forward { polls, writes, next } => {
            assert!(writes.is_empty());
            assert_eq!(next, Some(Duration::seconds(3)));
            polls
        }
        _ => panic!("the resolver did not forward"),
    };
    assert_eq!(resolved, vec![(String::from("/char0010"), channel)]);
    assert!(actors.endpoints.pending_poll.is_empty());

    // The poll actor reads the endpoint; the read gives two bytes.
    match data_poll_task(&mut actors.poll, PollEvent::Wake(Some(resolved))) {
        PollAction::Read(handles) => assert_eq!(handles, vec!["/char0010"]),
        _ => panic!("the poll actor did not ask to read"),
    }
    let deliveries = match data_poll_task(&mut actors.poll, PollEvent::Read(vec![Some(vec![0x01, 0x02])])) {
        PollAction::Deliver { deliveries, next } => {
            assert_eq!(next, Duration::milliseconds(1000));
            deliveries
        }
        _ => panic!("the poll actor did not deliver"),
    };
    assert_eq!(deliveries.len(), 1);
    assert_eq!(actors.poll.polls[deliveries[0].slot].1, channel);
    assert_eq!(deliveries[0].data, vec![0x01, 0x02]);
}

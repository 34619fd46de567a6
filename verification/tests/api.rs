use easy_bluez::bt_manager::SomethingItem;
use easy_bluez::{
    poll, writeable, Actors, BtMacAddress, Duration, EasyBluez, Error, RequestKind, Uuid,
};

const MAC: &str = "CF:75:CE:86:6D:02";
const SVC: &str = "00000001-c001-de30-cabb-785feabcd123";
const CHRC: &str = "0000c01d-c001-de30-cabb-785feabcd123";

#[test]
fn poll_accepts_well_formed_texts() {
    let submission = poll(MAC, SVC, CHRC).unwrap();
    assert_eq!(submission.kind, RequestKind::Poll);
    assert_eq!(submission.whitelist.as_u64(), 0xCF75_CE86_6D02);
    assert_eq!(
        submission.item,
        SomethingItem {
            mac: BtMacAddress::from_octets([0xCF, 0x75, 0xCE, 0x86, 0x6D, 0x02]),
            svc: Uuid::from_u128(0x0000_0001_c001_de30_cabb_785f_eabc_d123),
            chrc: Uuid::from_u128(0x0000_c01d_c001_de30_cabb_785f_eabc_d123),
        }
    );
}

#[test]
fn writeable_accepts_well_formed_texts() {
    let submission = writeable(MAC, SVC, "0000da7a-c001-de30-cabb-785feabcd123").unwrap();
    assert_eq!(submission.kind, RequestKind::Write);
    assert_eq!(submission.whitelist, submission.item.mac);
    assert_eq!(submission.item.svc.as_u128(), 0x0000_0001_c001_de30_cabb_785f_eabc_d123);
    assert_eq!(submission.item.chrc.as_u128(), 0x0000_da7a_c001_de30_cabb_785f_eabc_d123);
}

#[test]
fn poll_rejects_malformed_mac() {
    assert_eq!(poll("not a mac", SVC, CHRC), Err(Error::NotMacAddress));
    assert_eq!(poll("", SVC, CHRC), Err(Error::NotMacAddress));
    assert_eq!(poll("CF:75:CE:86:6D", SVC, CHRC), Err(Error::NotMacAddress));
}

#[test]
fn poll_rejects_malformed_uuid() {
    assert_eq!(poll(MAC, "0000c01d", CHRC), Err(Error::NotUuid));
    assert_eq!(poll(MAC, SVC, "nope"), Err(Error::NotUuid));
    assert_eq!(poll(MAC, "", ""), Err(Error::NotUuid));
}

#[test]
fn writeable_rejects_malformed_texts() {
    assert_eq!(writeable("zz:zz:zz:zz:zz:zz", SVC, CHRC), Err(Error::NotMacAddress));
    assert_eq!(writeable(MAC, "0000c01d", CHRC), Err(Error::NotUuid));
    assert_eq!(writeable(MAC, SVC, "0000c01d-c001-de30-cabb"), Err(Error::NotUuid));
}

#[test]
fn the_address_is_looked_at_first() {
    assert_eq!(poll("bad", "bad", "bad"), Err(Error::NotMacAddress));
    assert_eq!(writeable("bad", "bad", "bad"), Err(Error::NotMacAddress));
    assert_eq!(SomethingItem::parse("bad", SVC, CHRC), Err(Error::NotMacAddress));
    assert_eq!(SomethingItem::parse(MAC, "bad", "bad"), Err(Error::NotUuid));
}

#[test]
fn default_settings() {
    let settings = EasyBluez::new();
    assert_eq!(settings.scan_interval, Duration::seconds(10));
    assert_eq!(settings.scan_duration, Duration::seconds(5));
    assert_eq!(settings.connect_interval, Duration::seconds(3));
    assert_eq!(settings.endpoint_interval, Duration::seconds(3));
    assert_eq!(settings.poll_interval, Duration::milliseconds(1000));
    assert_eq!(settings.write_interval, Duration::milliseconds(100));
}

#[test]
fn builders_change_one_setting_each() {
    let base = EasyBluez::new();
    let scan = base.scan_interval(Duration::seconds(20));
    assert_eq!(scan, EasyBluez { scan_interval: Duration::seconds(20), ..base });
    let length = base.scan_duration(Duration::milliseconds(800));
    assert_eq!(length, EasyBluez { scan_duration: Duration::milliseconds(800), ..base });
    let connect = base.connect_interval(Duration::seconds(1));
    assert_eq!(connect, EasyBluez { connect_interval: Duration::seconds(1), ..base });
    let endpoint = base.endpoint_interval(Duration::seconds(2));
    assert_eq!(endpoint, EasyBluez { endpoint_interval: Duration::seconds(2), ..base });
    let polls = base.poll_interval(Duration::milliseconds(250));
    assert_eq!(polls, EasyBluez { poll_interval: Duration::milliseconds(250), ..base });
    let writes = base.write_interval(Duration::milliseconds(50));
    assert_eq!(writes, EasyBluez { write_interval: Duration::milliseconds(50), ..base });
}

#[test]
fn run_builds_the_actors_from_the_settings() {
    let mut settings = EasyBluez::new()
        .scan_interval(Duration::seconds(7))
        .scan_duration(Duration::seconds(2))
        .connect_interval(Duration::seconds(4))
        .endpoint_interval(Duration::seconds(5))
        .poll_interval(Duration::milliseconds(300))
        .write_interval(Duration::milliseconds(30));
    let before = settings;
    let actors: Actors<u32, u32> = settings.run();
    assert_eq!(settings, before);
    assert!(actors.discovery.db.is_empty());
    assert!(actors.discovery.wl.is_empty());
    assert_eq!(actors.discovery.scan_interval, Duration::seconds(7));
    assert_eq!(actors.discovery.scan_duration, Duration::seconds(2));
    assert!(actors.connection.db.is_empty());
    assert_eq!(actors.connection.connect_interval, Duration::seconds(4));
    assert!(actors.endpoints.pending_poll.is_empty());
    assert!(actors.endpoints.pending_write.is_empty());
    assert!(actors.endpoints.devices.is_empty());
    assert_eq!(actors.endpoints.endpoint_interval, Duration::seconds(5));
    assert!(actors.poll.polls.is_empty());
    assert_eq!(actors.poll.poll_interval, Duration::milliseconds(300));
    assert!(actors.write.writes.is_empty());
    assert_eq!(actors.write.write_interval, Duration::milliseconds(30));
}

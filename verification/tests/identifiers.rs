use easy_bluez::{BtMacAddress, Duration, Error, Uuid};

#[test]
fn mac_reads_colon_form() {
    let mac = BtMacAddress::from_str("AA:BB:CC:DD:EE:FF").unwrap();
    assert_eq!(mac.as_u64(), 0xAABB_CCDD_EEFF);
    assert_eq!(mac.octets(), [0xAA, 0xBB, 0xCC, 0xDD, 0xEE, 0xFF]);
}

#[test]
fn mac_reads_other_forms_to_the_same_address() {
    let colon = BtMacAddress::from_str("cf:75:ce:86:6d:02").unwrap();
    let dash = BtMacAddress::from_str("CF-75-CE-86-6D-02").unwrap();
    let dot = BtMacAddress::from_str("cf75.ce86.6d02").unwrap();
    assert_eq!(colon, dash);
    assert_eq!(colon, dot);
    assert_eq!(colon.as_u64(), 0xCF75_CE86_6D02);
}

#[test]
fn mac_rejects_malformed_text() {
    assert_eq!(BtMacAddress::from_str(""), Err(Error::NotMacAddress));
    assert_eq!(BtMacAddress::from_str("not a mac"), Err(Error::NotMacAddress));
    assert_eq!(BtMacAddress::from_str("AA:BB:CC:DD:EE"), Err(Error::NotMacAddress));
    assert_eq!(BtMacAddress::from_str("AA:BB:CC:DD:EE:GG"), Err(Error::NotMacAddress));
    assert_eq!(
        BtMacAddress::from_str("0000c01d-c001-de30-cabb-785feabcd123"),
        Err(Error::NotMacAddress)
    );
}

#[test]
fn mac_octets_round_trip() {
    let octets = [0x00, 0x01, 0x7F, 0x80, 0xFE, 0xFF];
    let mac = BtMacAddress::from_octets(octets);
    assert_eq!(mac.as_u64(), 0x0001_7F80_FEFF);
    assert_eq!(mac.octets(), octets);
    assert_eq!(BtMacAddress::from_octets([0; 6]).as_u64(), 0);
    assert_eq!(BtMacAddress::from_octets([0xFF; 6]).as_u64(), 0xFFFF_FFFF_FFFF);
}

#[test]
fn mac_equality_is_on_octets() {
    let a = BtMacAddress::from_octets([1, 2, 3, 4, 5, 6]);
    let b = BtMacAddress::from_octets([1, 2, 3, 4, 5, 6]);
    let c = BtMacAddress::from_octets([1, 2, 3, 4, 5, 7]);
    let d = BtMacAddress::from_octets([2, 2, 3, 4, 5, 6]);
    assert_eq!(a, b);
    assert_ne!(a, c);
    assert_ne!(a, d);
}

#[test]
fn uuid_reads_hyphenated_form() {
    let id = Uuid::from_str("0000c01d-c001-de30-cabb-785feabcd123").unwrap();
    assert_eq!(id.as_u128(), 0x0000_c01d_c001_de30_cabb_785f_eabc_d123);
    assert_eq!(id, Uuid::from_u128(0x0000_c01d_c001_de30_cabb_785f_eabc_d123));
}

#[test]
fn uuid_equality_ignores_the_spelling() {
    let lower = Uuid::from_str("0f050001-3225-44b1-b97d-d3274acb29de").unwrap();
    let upper = Uuid::from_str("0F050001-3225-44B1-B97D-D3274ACB29DE").unwrap();
    let simple = Uuid::from_str("0f050001322544b1b97dd3274acb29de").unwrap();
    assert_eq!(lower, upper);
    assert_eq!(lower, simple);
    assert_ne!(lower, Uuid::from_str("0f050001-3225-44b1-b97d-d3274acb29d0").unwrap());
}

#[test]
fn uuid_rejects_malformed_text() {
    assert_eq!(Uuid::from_str(""), Err(Error::NotUuid));
    assert_eq!(Uuid::from_str("0000c01d"), Err(Error::NotUuid));
    assert_eq!(Uuid::from_str("0000c01d-c001-de30-cabb-785feabcd12"), Err(Error::NotUuid));
    assert_eq!(Uuid::from_str("0000c01d-c001-de30-cabb-785feabcd12z"), Err(Error::NotUuid));
    assert_eq!(Uuid::from_str("AA:BB:CC:DD:EE:FF"), Err(Error::NotUuid));
}

#[test]
fn error_messages() {
    assert_eq!(Error::NotMacAddress.message(), "Not a MAC address!");
    assert_eq!(Error::NotUuid.message(), "Not a UUID!");
}

#[test]
fn duration_in_seconds_and_milliseconds() {
    assert_eq!(Duration::seconds(10).num_milliseconds(), 10_000);
    assert_eq!(Duration::seconds(-3).num_milliseconds(), -3_000);
    assert_eq!(Duration::milliseconds(100).num_milliseconds(), 100);
    assert_eq!(Duration::seconds(1), Duration::milliseconds(1000));
}

#[test]
fn duration_to_std_refuses_negative_spans() {
    assert_eq!(Duration::milliseconds(0).to_std(), Some(0));
    assert_eq!(Duration::milliseconds(5000).to_std(), Some(5000));
    assert_eq!(Duration::milliseconds(-1).to_std(), None);
    assert_eq!(Duration::seconds(-10).to_std(), None);
}

#[test]
fn duration_holds_the_longest_span_of_whole_seconds() {
    assert_eq!(easy_bluez::duration::MAX_SECONDS, i64::MAX / 1000);
    assert_eq!(
        Duration::seconds(easy_bluez::duration::MAX_SECONDS).num_milliseconds(),
        9_223_372_036_854_775_000
    );
    assert_eq!(
        Duration::seconds(-easy_bluez::duration::MAX_SECONDS).num_milliseconds(),
        -9_223_372_036_854_775_000
    );
}

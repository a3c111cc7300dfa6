use whoshome::decode_listing;

#[test]
fn nameless_record_gets_placeholder() {
    let records = decode_listing(r#"{"data":[{"mac":"aa:bb:cc:dd:ee:ff"}]}"#).unwrap();
    assert_eq!(records.len(), 1);
    assert_eq!(records[0].name, None);
    assert_eq!(records[0].name(), "<unnamed client>");
    assert_eq!(records[0].mac, "aa:bb:cc:dd:ee:ff");
}

#[test]
fn named_record_keeps_its_name() {
    let records = decode_listing(r#"{"data":[{"name":"laptop","mac":"00:11:22:33:44:55"}]}"#)
        .unwrap();
    assert_eq!(records.len(), 1);
    assert_eq!(records[0].name.as_deref(), Some("laptop"));
    assert_eq!(records[0].name(), "laptop");
    assert_eq!(records[0].mac, "00:11:22:33:44:55");
}

#[test]
fn null_name_counts_as_absent() {
    let records = decode_listing(r#"{"data":[{"name":null,"mac":"aa:aa:aa:aa:aa:aa"}]}"#)
        .unwrap();
    assert_eq!(records.len(), 1);
    assert_eq!(records[0].name, None);
    assert_eq!(records[0].name(), "<unnamed client>");
}

#[test]
fn several_records_in_order() {
    let body = r#"{"data":[{"mac":"m1","name":"a"},{"mac":"m2"},{"name":"c","mac":"m3"}]}"#;
    let records = decode_listing(body).unwrap();
    assert_eq!(records.len(), 3);
    assert_eq!(records[0].mac, "m1");
    assert_eq!(records[1].mac, "m2");
    assert_eq!(records[2].mac, "m3");
    assert_eq!(records[0].name.as_deref(), Some("a"));
    assert_eq!(records[1].name, None);
    assert_eq!(records[2].name.as_deref(), Some("c"));
}

#[test]
fn unknown_fields_are_skipped() {
    let body = r#"{"meta":{"rc":"ok"},"data":[{"oui":"Apple","mac":"m1","rssi":-42,"wired":false,"ips":["10.0.0.2",null],"stats":{"rx":1.5e3,"tx":{}},"name":"tv"}]}"#;
    let records = decode_listing(body).unwrap();
    assert_eq!(records.len(), 1);
    assert_eq!(records[0].mac, "m1");
    assert_eq!(records[0].name.as_deref(), Some("tv"));
}

#[test]
fn whitespace_is_tolerated() {
    let body = " {\n\t\"data\" : [ { \"mac\" : \"m1\" } ] }\r\n";
    let records = decode_listing(body).unwrap();
    assert_eq!(records.len(), 1);
    assert_eq!(records[0].mac, "m1");
}

#[test]
fn empty_data_is_no_clients() {
    let records = decode_listing(r#"{"data":[]}"#).unwrap();
    assert!(records.is_empty());
}

#[test]
fn string_escapes_are_decoded() {
    let body = r#"{"data":[{"name":"a\"b\\c\/d\n","mac":"m1"}]}"#;
    let records = decode_listing(body).unwrap();
    assert_eq!(records[0].name.as_deref(), Some("a\"b\\c/d\n"));
}

#[test]
fn unicode_escape_is_rejected() {
    assert!(decode_listing(r#"{"data":[{"name":"\u0041","mac":"m1"}]}"#).is_none());
}

#[test]
fn missing_mac_is_rejected() {
    assert!(decode_listing(r#"{"data":[{"name":"laptop"}]}"#).is_none());
    assert!(decode_listing(r#"{"data":[{}]}"#).is_none());
}

#[test]
fn missing_data_field_is_rejected() {
    assert!(decode_listing(r#"{}"#).is_none());
    assert!(decode_listing(r#"{"meta":{"rc":"ok"}}"#).is_none());
}

#[test]
fn repeated_field_is_rejected() {
    assert!(decode_listing(r#"{"data":[],"data":[]}"#).is_none());
    assert!(decode_listing(r#"{"data":[{"mac":"a","mac":"b"}]}"#).is_none());
    assert!(decode_listing(r#"{"data":[{"name":"a","name":"b","mac":"m"}]}"#).is_none());
}

#[test]
fn malformed_bodies_are_rejected() {
    assert!(decode_listing("").is_none());
    assert!(decode_listing("[]").is_none());
    assert!(decode_listing(r#"{"data":[}"#).is_none());
    assert!(decode_listing(r#"{"data":[{"mac":"m1"}]} trailing"#).is_none());
    assert!(decode_listing(r#"{"data":[{"mac":"m1"}]"#).is_none());
    assert!(decode_listing(r#"{"data":{"mac":"m1"}}"#).is_none());
    assert!(decode_listing(r#"{"data":[{"mac":42}]}"#).is_none());
}

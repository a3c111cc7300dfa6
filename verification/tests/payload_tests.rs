use whoshome::{BlockCommand, UnblockCommand, UnifiClient};

#[test]
fn block_command_payload() {
    let cmd = BlockCommand::new("aa:bb:cc:dd:ee:ff");
    assert_eq!(cmd.cmd, "block-sta");
    assert_eq!(cmd.mac, "aa:bb:cc:dd:ee:ff");
}

#[test]
fn unblock_command_payload() {
    let cmd = UnblockCommand::new("aa:bb:cc:dd:ee:ff");
    assert_eq!(cmd.cmd, "unblock-sta");
    assert_eq!(cmd.mac, "aa:bb:cc:dd:ee:ff");
}

#[test]
fn unifi_client_display_name() {
    let named = UnifiClient { name: Some("laptop".to_string()), mac: "m1".to_string() };
    assert_eq!(named.name(), "laptop");
    let nameless = UnifiClient { name: None, mac: "m2".to_string() };
    assert_eq!(nameless.name(), "<unnamed client>");
}

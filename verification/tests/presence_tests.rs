use whoshome::{find_by_name, who_is_home, Client, Person};

fn client(name: &str, mac: &str) -> Client {
    Client { name: name.to_string(), mac: mac.to_string() }
}

fn person(name: &str, devices: &[&str]) -> Person {
    Person {
        name: name.to_string(),
        devices: devices.iter().map(|d| d.to_string()).collect(),
    }
}

#[test]
fn find_by_name_returns_the_first_match() {
    let clients = vec![client("a", "m1"), client("b", "m2"), client("b", "m3")];
    let found = find_by_name(&clients, "b").unwrap();
    assert_eq!(found.mac, "m2");
}

#[test]
fn find_by_name_misses() {
    let clients = vec![client("a", "m1")];
    assert!(find_by_name(&clients, "z").is_none());
    assert!(find_by_name(&Vec::new(), "a").is_none());
}

#[test]
fn who_is_home_matches_devices_by_name() {
    let persons = vec![
        person("ada", &["ada-phone", "ada-tablet"]),
        person("grace", &["grace-phone"]),
        person("alan", &[]),
    ];
    let online = vec![client("grace-phone", "m1"), client("ada-tablet", "m2")];
    let home = who_is_home(&persons, &online);
    assert_eq!(home, vec!["ada".to_string(), "grace".to_string()]);
}

#[test]
fn who_is_home_reports_nobody_when_nothing_matches() {
    let persons = vec![person("ada", &["ada-phone"])];
    let online = vec![client("printer", "m1")];
    assert!(who_is_home(&persons, &online).is_empty());
    assert!(who_is_home(&persons, &Vec::new()).is_empty());
    assert!(who_is_home(&Vec::new(), &online).is_empty());
}

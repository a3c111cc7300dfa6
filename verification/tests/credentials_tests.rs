use whoshome::{
    get_password, CredentialError, CredentialProvider, NetrcCredentials, StaticCredentials,
};

const NETRC: &str = "machine router.example login admin password hunter2\n\
                     machine other.example login root\n\
                     default login guest password open\n";

#[test]
fn password_is_found_for_a_machine() {
    let password = get_password(NETRC, "router.example").unwrap();
    assert_eq!(password, "hunter2");
}

#[test]
fn missing_machine_is_reported() {
    let err = get_password(NETRC, "absent.example").unwrap_err();
    assert_eq!(err, CredentialError::MachineNotFound);
}

#[test]
fn machine_without_password_is_reported() {
    let err = get_password(NETRC, "other.example").unwrap_err();
    assert_eq!(err, CredentialError::PasswordMissing);
}

#[test]
fn unparsable_text_is_reported() {
    // A `login` token before any `machine` entry is not a netrc file.
    let err = get_password("login admin password hunter2", "router.example").unwrap_err();
    assert_eq!(err, CredentialError::Unparsable);
}

#[test]
fn netrc_provider_hands_out_login_and_password() {
    let provider = NetrcCredentials::from_text(NETRC).unwrap();
    let creds = provider.lookup("router.example").unwrap();
    assert_eq!(creds.username, "admin");
    assert_eq!(creds.password, "hunter2");
}

#[test]
fn netrc_provider_without_full_entry_says_not_configured() {
    let provider = NetrcCredentials::from_text(NETRC).unwrap();
    assert!(provider.lookup("other.example").is_none());
    assert!(provider.lookup("absent.example").is_none());
}

#[test]
fn static_provider_knows_exactly_one_host() {
    let provider = StaticCredentials {
        host: "router.example".to_string(),
        username: "admin".to_string(),
        password: "hunter2".to_string(),
    };
    let creds = provider.lookup("router.example").unwrap();
    assert_eq!(creds.username, "admin");
    assert_eq!(creds.password, "hunter2");
    assert!(provider.lookup("other.example").is_none());
}

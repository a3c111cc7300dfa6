use whoshome::{
    AuthReason, Client, HttpResponse, Method, RequestBody, Router, RouterError,
    ScriptedTransport, StaticCredentials, TransportFault, UnifiDreamRouter,
};

const HOST: &str = "router.example";

fn provider() -> StaticCredentials {
    StaticCredentials {
        host: HOST.to_string(),
        username: "admin".to_string(),
        password: "hunter2".to_string(),
    }
}

fn ok(status: u16, csrf: Option<&str>, body: &str) -> Result<HttpResponse, TransportFault> {
    Ok(HttpResponse {
        status,
        csrf_token: csrf.map(|t| t.to_string()),
        body: body.to_string(),
    })
}

const LISTING: &str = r#"{"data":[{"name":"laptop","mac":"00:11:22:33:44:55"}]}"#;

fn client_of(
    replies: Vec<Result<HttpResponse, TransportFault>>,
) -> UnifiDreamRouter<ScriptedTransport, StaticCredentials> {
    UnifiDreamRouter::new(ScriptedTransport::new(replies), provider(), HOST)
}

fn is_login(req: &whoshome::HttpRequest) -> bool {
    matches!(req.body, RequestBody::Login { .. })
}

#[test]
fn plain_success_sends_one_request() {
    let mut router = client_of(vec![ok(200, None, LISTING)]);
    let clients = router.known_clients().unwrap();
    assert_eq!(clients.len(), 1);
    assert_eq!(clients[0].name, "laptop");
    assert_eq!(clients[0].mac, "00:11:22:33:44:55");
    let sent = router.transport_ref().sent_requests();
    assert_eq!(sent.len(), 1);
    assert!(matches!(sent[0].method, Method::Get));
    assert_eq!(
        sent[0].url,
        "https://router.example/proxy/network/api/s/default/rest/user"
    );
    assert_eq!(sent[0].csrf_token, None);
}

#[test]
fn csrf_token_is_chained_across_calls() {
    let mut router = client_of(vec![
        ok(200, Some("tok1"), LISTING),
        ok(200, None, LISTING),
        ok(200, Some("tok2"), LISTING),
        ok(200, None, LISTING),
    ]);
    router.known_clients().unwrap();
    router.known_clients().unwrap();
    router.known_clients().unwrap();
    router.known_clients().unwrap();
    let sent = router.transport_ref().sent_requests();
    assert_eq!(sent.len(), 4);
    // Call 1 had no token yet; call 2 carries response 1's token; call 3
    // keeps it because response 2 carried none; call 4 carries response 3's.
    assert_eq!(sent[0].csrf_token, None);
    assert_eq!(sent[1].csrf_token.as_deref(), Some("tok1"));
    assert_eq!(sent[2].csrf_token.as_deref(), Some("tok1"));
    assert_eq!(sent[3].csrf_token.as_deref(), Some("tok2"));
}

#[test]
fn one_retry_after_reauth() {
    let mut router = client_of(vec![
        ok(401, None, ""),
        ok(200, Some("fresh"), ""),
        ok(200, None, LISTING),
    ]);
    let clients = router.known_clients().unwrap();
    assert_eq!(clients.len(), 1);
    let sent = router.transport_ref().sent_requests();
    assert_eq!(sent.len(), 3);
    assert_eq!(sent.iter().filter(|r| is_login(r)).count(), 1);
    assert!(is_login(&sent[1]));
    assert_eq!(sent[1].url, "https://router.example/api/auth/login");
    match &sent[1].body {
        RequestBody::Login { username, password } => {
            assert_eq!(username, "admin");
            assert_eq!(password, "hunter2");
        },
        _ => unreachable!(),
    }
    // The replay is the original request again, with the token it was
    // first sent with (none) — not the one the login response carried.
    assert_eq!(sent[2].url, sent[0].url);
    assert_eq!(sent[2].csrf_token, None);
}

#[test]
fn login_token_is_used_on_later_calls() {
    let mut router = client_of(vec![
        ok(401, None, ""),
        ok(200, Some("fresh"), ""),
        ok(200, None, LISTING),
        ok(200, None, LISTING),
    ]);
    router.known_clients().unwrap();
    router.known_clients().unwrap();
    let sent = router.transport_ref().sent_requests();
    assert_eq!(sent.len(), 4);
    assert_eq!(sent[3].csrf_token.as_deref(), Some("fresh"));
}

#[test]
fn second_unauthorized_is_final() {
    let mut router = client_of(vec![
        ok(401, None, ""),
        ok(200, None, ""),
        ok(401, None, ""),
        ok(200, None, LISTING),
    ]);
    let err = router.known_clients().unwrap_err();
    assert!(matches!(
        err,
        RouterError::Authentication { reason: AuthReason::RetryUnauthorized }
    ));
    // No third attempt: original, login, replay, and nothing more.
    assert_eq!(router.transport_ref().sent_requests().len(), 3);
    assert_eq!(router.transport_ref().replies_used(), 3);
}

#[test]
fn missing_credentials_fail_before_any_login() {
    let transport = ScriptedTransport::new(vec![ok(401, None, "")]);
    let wrong_host = StaticCredentials {
        host: "other.example".to_string(),
        username: "admin".to_string(),
        password: "hunter2".to_string(),
    };
    let mut router = UnifiDreamRouter::new(transport, wrong_host, HOST);
    let err = router.known_clients().unwrap_err();
    assert!(matches!(
        err,
        RouterError::Authentication { reason: AuthReason::CredentialsNotFound }
    ));
    let sent = router.transport_ref().sent_requests();
    assert_eq!(sent.len(), 1);
    assert!(!is_login(&sent[0]));
}

#[test]
fn login_failure_is_final() {
    let mut router = client_of(vec![ok(401, None, ""), ok(403, None, "")]);
    let err = router.known_clients().unwrap_err();
    assert!(matches!(
        err,
        RouterError::Authentication { reason: AuthReason::LoginFailed { status: 403 } }
    ));
    assert_eq!(router.transport_ref().sent_requests().len(), 2);
}

#[test]
fn unexpected_status_is_surfaced_without_login() {
    let mut router = client_of(vec![ok(500, None, "")]);
    let err = router.known_clients().unwrap_err();
    assert!(matches!(err, RouterError::UnexpectedStatus { status: 500 }));
    assert_eq!(router.transport_ref().sent_requests().len(), 1);
}

#[test]
fn transport_fault_is_surfaced() {
    let mut router = client_of(vec![Err(TransportFault { message: "refused".to_string() })]);
    let err = router.known_clients().unwrap_err();
    match err {
        RouterError::Transport { message } => assert_eq!(message, "refused"),
        _ => unreachable!(),
    }
}

#[test]
fn undecodable_body_is_a_decoding_error() {
    let mut router = client_of(vec![ok(200, None, "not json")]);
    let err = router.known_clients().unwrap_err();
    assert!(matches!(err, RouterError::Decoding));
}

#[test]
fn online_clients_uses_the_connected_listing() {
    let mut router = client_of(vec![ok(200, None, LISTING)]);
    router.online_clients().unwrap();
    let sent = router.transport_ref().sent_requests();
    assert_eq!(
        sent[0].url,
        "https://router.example/proxy/network/api/s/default/stat/sta"
    );
}

#[test]
fn block_sends_the_block_command() {
    let mut router = client_of(vec![ok(200, None, "")]);
    let client = Client { name: "laptop".to_string(), mac: "00:11:22:33:44:55".to_string() };
    router.block_client(&client).unwrap();
    let sent = router.transport_ref().sent_requests();
    assert_eq!(sent.len(), 1);
    assert!(matches!(sent[0].method, Method::Post));
    assert_eq!(
        sent[0].url,
        "https://router.example/proxy/network/api/s/default/cmd/stamgr"
    );
    match &sent[0].body {
        RequestBody::Command { cmd, mac } => {
            assert_eq!(cmd, "block-sta");
            assert_eq!(mac, "00:11:22:33:44:55");
        },
        _ => unreachable!(),
    }
}

#[test]
fn unblock_sends_the_unblock_command() {
    let mut router = client_of(vec![ok(200, None, "")]);
    let client = Client { name: "laptop".to_string(), mac: "00:11:22:33:44:55".to_string() };
    router.unblock_client(&client).unwrap();
    let sent = router.transport_ref().sent_requests();
    match &sent[0].body {
        RequestBody::Command { cmd, mac } => {
            assert_eq!(cmd, "unblock-sta");
            assert_eq!(mac, "00:11:22:33:44:55");
        },
        _ => unreachable!(),
    }
}

#[test]
fn exhausted_script_is_a_transport_error() {
    let mut router = client_of(vec![]);
    let err = router.known_clients().unwrap_err();
    assert!(matches!(err, RouterError::Transport { .. }));
}

#[test]
fn facade_dispatches_to_the_client() {
    fn through_facade<R: Router>(router: &mut R) -> Vec<Client> {
        router.known_clients().unwrap()
    }
    let mut router = client_of(vec![ok(200, None, LISTING)]);
    let clients = through_facade(&mut router);
    assert_eq!(clients.len(), 1);
}

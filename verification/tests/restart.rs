use miner_client::error::ClientError;
use miner_client::http::{endpoint_url, user_agent_header, Header, Method, Reply};
use miner_client::restart::{restart_outcome, restart_request};

#[test]
fn restart_request_is_a_bare_post() {
    let request = restart_request("10.0.0.5");
    assert_eq!(request.method, Method::Post);
    assert_eq!(request.url, "http://10.0.0.5/api/system/restart");
    assert_eq!(
        request.headers,
        vec![Header { name: "User-Agent".to_string(), value: "AxeMobile/1.0".to_string() }]
    );
    assert_eq!(request.timeout_secs, 5);
    assert!(!request.follow_redirects);
    assert_eq!(request.body, None);
}

#[test]
fn restart_succeeds_on_any_response() {
    for status in [200u16, 204, 302, 400, 404, 500, 503] {
        let reply = Reply::Received { status, body: "whatever".to_string() };
        assert_eq!(restart_outcome("10.0.0.5", &reply), Ok("Restart command sent".to_string()));
    }
    let empty: Reply<Vec<u8>> = Reply::Received { status: 0, body: Vec::new() };
    assert_eq!(restart_outcome("10.0.0.5", &empty), Ok("Restart command sent".to_string()));
}

#[test]
fn restart_fails_only_without_a_response() {
    let reply: Reply<String> = Reply::Failed;
    let outcome = restart_outcome("bitaxe.local", &reply);
    assert_eq!(outcome, Err(ClientError::MinerUnreachable { address: "bitaxe.local".to_string() }));
    assert_eq!(outcome.unwrap_err().message(), "Failed to connect to miner at bitaxe.local");
}

#[test]
fn endpoint_url_joins_address_and_path() {
    assert_eq!(endpoint_url("10.0.0.5", "/api/system"), "http://10.0.0.5/api/system");
    assert_eq!(endpoint_url("[::1]:8080", "/x"), "http://[::1]:8080/x");
    assert_eq!(endpoint_url("", ""), "http://");
}

#[test]
fn client_names_itself() {
    let header = user_agent_header();
    assert_eq!(header.name, "User-Agent");
    assert_eq!(header.value, "AxeMobile/1.0");
    assert_eq!(miner_client::http::USER_AGENT, "AxeMobile/1.0");
}

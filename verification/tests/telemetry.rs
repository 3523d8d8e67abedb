use miner_client::error::ClientError;
use miner_client::http::{is_success, Header, Method, Reply};
use miner_client::telemetry::{
    candidate_path, examine, judge, ProbeFault, ProbeStep, TelemetryProbe, CANDIDATE_COUNT,
};

fn header(name: &str, value: &str) -> Header {
    Header { name: name.to_string(), value: value.to_string() }
}

fn received(status: u16, body: &str) -> Reply<Vec<u8>> {
    Reply::Received { status, body: body.as_bytes().to_vec() }
}

fn document(text: &str) -> serde_json::Value {
    serde_json::from_str(text).unwrap()
}

#[test]
fn info_endpoint_answer_is_returned_without_a_second_request() {
    let body = "{\"hostname\":\"bitaxe1\",\"hashRate\":450.2}";
    let probe = TelemetryProbe::new("10.0.0.5");
    assert_eq!(probe.request().url, "http://10.0.0.5/api/system/info");
    let step = probe.on_reply(received(200, body));
    let mut expected = serde_json::Map::new();
    expected.insert("hostname".to_string(), serde_json::Value::from("bitaxe1"));
    expected.insert("hashRate".to_string(), serde_json::Value::from(450.2));
    assert_eq!(step, ProbeStep::Found(serde_json::Value::Object(expected)));
}

#[test]
fn found_document_is_the_parsed_body() {
    let step = TelemetryProbe::new("miner.local").on_reply(received(200, "{\"temp\": 61.5, \"uptimeSeconds\": 42}"));
    match step {
        ProbeStep::Found(found) => {
            assert_eq!(found["uptimeSeconds"].as_u64(), Some(42));
            assert_eq!(found["temp"].as_f64(), Some(61.5));
            assert!(found.get("hostname").is_none());
        }
        other => panic!("unexpected step {:?}", other),
    }
}

#[test]
fn statistics_endpoint_serves_when_info_is_down() {
    let probe = TelemetryProbe::new("192.168.1.20");
    let step = probe.on_reply(Reply::Failed);
    let next = match step {
        ProbeStep::Advance { probe, fault } => {
            assert_eq!(fault, ProbeFault::TransportFailed);
            probe
        }
        other => panic!("unexpected step {:?}", other),
    };
    assert_eq!(next.request().url, "http://192.168.1.20/api/system/statistics");
    let body = "{\"hashRate\":512.0,\"sharesAccepted\":7}";
    assert_eq!(next.on_reply(received(200, body)), ProbeStep::Found(document(body)));
}

#[test]
fn statistics_endpoint_serves_when_info_is_not_found() {
    let step = TelemetryProbe::new("192.168.1.20").on_reply(received(404, "{\"error\":\"no\"}"));
    let next = match step {
        ProbeStep::Advance { probe, fault } => {
            assert_eq!(fault, ProbeFault::StatusNotSuccess(404));
            probe
        }
        other => panic!("unexpected step {:?}", other),
    };
    assert_eq!(next.on_reply(received(200, "[1,2,3]")), ProbeStep::Found(document("[1,2,3]")));
}

#[test]
fn statistics_endpoint_serves_when_info_is_not_json() {
    let step = TelemetryProbe::new("192.168.1.20").on_reply(received(200, "<html>busy</html>"));
    let next = match step {
        ProbeStep::Advance { probe, fault } => {
            assert_eq!(fault, ProbeFault::MalformedResponse);
            probe
        }
        other => panic!("unexpected step {:?}", other),
    };
    assert_eq!(next.on_reply(received(200, "{\"a\":null}")), ProbeStep::Found(document("{\"a\":null}")));
}

#[test]
fn fetch_fails_when_every_endpoint_fails() {
    let step = TelemetryProbe::new("10.0.0.5").on_reply(Reply::Failed);
    let next = match step {
        ProbeStep::Advance { probe, .. } => probe,
        other => panic!("unexpected step {:?}", other),
    };
    let request = next.request();
    assert_eq!(request.timeout_secs, 5);
    let last = next.on_reply(Reply::Failed);
    assert_eq!(
        last,
        ProbeStep::Exhausted {
            error: ClientError::MinerUnreachable { address: "10.0.0.5".to_string() },
            fault: ProbeFault::TransportFailed,
        }
    );
}

#[test]
fn fetch_fails_when_the_last_endpoint_is_malformed() {
    let step = TelemetryProbe::new("10.0.0.9").on_reply(received(500, ""));
    let next = match step {
        ProbeStep::Advance { probe, fault } => {
            assert_eq!(fault, ProbeFault::StatusNotSuccess(500));
            probe
        }
        other => panic!("unexpected step {:?}", other),
    };
    match next.on_reply(received(200, "{\"hostname\":")) {
        ProbeStep::Exhausted { error, fault } => {
            assert_eq!(fault, ProbeFault::MalformedResponse);
            assert_eq!(error, ClientError::MinerUnreachable { address: "10.0.0.9".to_string() });
            assert_eq!(error.message(), "Failed to connect to miner at 10.0.0.9");
        }
        other => panic!("unexpected step {:?}", other),
    }
}

#[test]
fn a_fetch_issues_at_most_one_request_per_candidate() {
    let mut probe = TelemetryProbe::new("10.0.0.5");
    let mut urls = vec![probe.request().url];
    let mut budget = probe.request().timeout_secs;
    loop {
        match probe.on_reply(Reply::Failed) {
            ProbeStep::Advance { probe: next, .. } => {
                urls.push(next.request().url);
                budget += next.request().timeout_secs;
                probe = next;
            }
            ProbeStep::Exhausted { .. } => break,
            other => panic!("unexpected step {:?}", other),
        }
    }
    assert_eq!(
        urls,
        vec![
            "http://10.0.0.5/api/system/info".to_string(),
            "http://10.0.0.5/api/system/statistics".to_string(),
        ]
    );
    assert_eq!(urls.len(), CANDIDATE_COUNT);
    assert_eq!(budget, 10);
}

#[test]
fn probe_request_is_a_plain_json_get() {
    let request = TelemetryProbe::new("10.0.0.5:8080").request();
    assert_eq!(request.method, Method::Get);
    assert_eq!(request.url, "http://10.0.0.5:8080/api/system/info");
    assert_eq!(
        request.headers,
        vec![header("Accept", "application/json"), header("User-Agent", "AxeMobile/1.0")]
    );
    assert!(request.headers.iter().all(|h| !h.name.eq_ignore_ascii_case("origin")));
    assert_eq!(request.timeout_secs, 5);
    assert!(!request.follow_redirects);
    assert_eq!(request.body, None);
}

#[test]
fn candidates_are_info_then_statistics() {
    assert_eq!(candidate_path(0), Some("/api/system/info"));
    assert_eq!(candidate_path(1), Some("/api/system/statistics"));
    assert_eq!(candidate_path(2), None);
    assert_eq!(candidate_path(usize::MAX), None);
}

#[test]
fn success_range_is_200_to_299() {
    assert!(!is_success(0));
    assert!(!is_success(199));
    assert!(is_success(200));
    assert!(is_success(204));
    assert!(is_success(299));
    assert!(!is_success(300));
    assert!(!is_success(404));
    assert!(!is_success(u16::MAX));
}

#[test]
fn judge_weighs_status_before_body() {
    let doc = document("{\"a\":1}");
    assert_eq!(judge(200, Some(doc.clone())), Ok(doc.clone()));
    assert_eq!(judge(200, None), Err(ProbeFault::MalformedResponse));
    assert_eq!(judge(301, Some(doc.clone())), Err(ProbeFault::StatusNotSuccess(301)));
    assert_eq!(judge(199, None), Err(ProbeFault::StatusNotSuccess(199)));
}

#[test]
fn examine_classifies_each_kind_of_reply() {
    assert_eq!(examine(Reply::Failed), Err(ProbeFault::TransportFailed));
    assert_eq!(examine(received(503, "{}")), Err(ProbeFault::StatusNotSuccess(503)));
    assert_eq!(examine(received(200, "")), Err(ProbeFault::MalformedResponse));
    assert_eq!(examine(received(200, "{} trailing")), Err(ProbeFault::MalformedResponse));
    assert_eq!(examine(received(200, "{}")), Ok(document("{}")));
    assert_eq!(examine(received(299, "\"text\"")), Ok(serde_json::Value::from("text")));
    let invalid_utf8 = Reply::Received { status: 200, body: vec![b'"', 0xff, b'"'] };
    assert_eq!(examine(invalid_utf8), Err(ProbeFault::MalformedResponse));
}

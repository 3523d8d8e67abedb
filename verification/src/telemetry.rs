//! Telemetry discovery: which of the known read-only endpoints a miner serves.
//!
//! The endpoints are tried one at a time, in a fixed order, and the first one
//! that answers with a success status and a JSON body wins. [`TelemetryProbe`]
//! holds the place in that order; the caller performs each request and hands
//! the reply back.

use vstd::prelude::*;
use vstd::string::*;
use crate::error::{ClientError, ClientErrorView};
use crate::http::{
    endpoint_url, is_success, spec_endpoint_url, spec_is_success, spec_user_agent_header,
    user_agent_header, Header, HttpRequest, HttpRequestView, Method, Reply, COMMAND_TIMEOUT_SECS,
};
use crate::json::{parse_document, parsed_document};

verus! {

/// Number of candidate endpoints.
pub const CANDIDATE_COUNT: usize = 2;

/// The path of the candidate at `index`: the system-info endpoint first, then
/// the system-statistics endpoint.
pub open spec fn spec_candidate_path(index: int) -> Seq<char> {
    if index == 0 {
        "/api/system/info"@
    } else {
        "/api/system/statistics"@
    }
}

/// The path of the candidate at `index`, or `None` past the last candidate.
pub fn candidate_path(index: usize) -> (path: Option<&'static str>)
    ensures
        path is Some <==> index < CANDIDATE_COUNT,
        path matches Some(text) ==> text@ == spec_candidate_path(index as int),
{
    if index == 0 {
        Some("/api/system/info")
    } else if index == 1 {
        Some("/api/system/statistics")
    } else {
        None
    }
}

/// The probe of the candidate at `index` on the miner at `address`: a GET that
/// asks for JSON, names the client, sends no other header, follows no
/// redirect and is given up after five seconds.
pub open spec fn spec_probe_request(address: Seq<char>, index: int) -> HttpRequestView {
    HttpRequestView {
        method: Method::Get,
        url: spec_endpoint_url(address, spec_candidate_path(index)),
        headers: seq![("Accept"@, "application/json"@), spec_user_agent_header()],
        timeout_secs: COMMAND_TIMEOUT_SECS as nat,
        follow_redirects: false,
        body: None,
    }
}

/// A probe carries no `Origin` header.
pub proof fn lemma_probe_sends_no_origin(address: Seq<char>, index: int)
    ensures
        !spec_probe_request(address, index).sends_header("Origin"@),
{
    reveal_strlit("Origin");
    reveal_strlit("Accept");
    reveal_strlit("User-Agent");
    let headers = spec_probe_request(address, index).headers;
    assert(headers[0].0[0] != "Origin"@[0]);
    assert(headers[1].0[0] != "Origin"@[0]);
}

/// Why one candidate was passed over.
#[derive(Clone, Copy, Debug, PartialEq, Eq, Structural)]
pub enum ProbeFault {
    /// The transport did not complete the exchange.
    TransportFailed,
    /// A response arrived with this status, which is outside the success range.
    StatusNotSuccess(u16),
    /// A response arrived with a success status and a body that is not JSON.
    MalformedResponse,
}

/// What one candidate yields: its document, or the reason it has none to
/// give.
pub type Verdict = Result<serde_json::Value, ProbeFault>;

/// What a response with `status` is worth, `document` being what the body
/// parsed to.
pub open spec fn spec_judge(status: u16, document: Option<serde_json::Value>) -> Verdict {
    if !spec_is_success(status) {
        Err(ProbeFault::StatusNotSuccess(status))
    } else {
        match document {
            Some(value) => Ok(value),
            None => Err(ProbeFault::MalformedResponse),
        }
    }
}

/// What a reply is worth.
pub open spec fn spec_examine(reply: Reply<Vec<u8>>) -> Verdict {
    match reply {
        Reply::Failed => Err(ProbeFault::TransportFailed),
        Reply::Received { status, body } => spec_judge(status, parsed_document(body@)),
    }
}

/// Judges a response by its status and by what its body parsed to.
pub fn judge(status: u16, document: Option<serde_json::Value>) -> (verdict: Verdict)
    ensures
        verdict == spec_judge(status, document),
{
    if !is_success(status) {
        Err(ProbeFault::StatusNotSuccess(status))
    } else {
        match document {
            Some(value) => Ok(value),
            None => Err(ProbeFault::MalformedResponse),
        }
    }
}

/// Examines one reply. The body is parsed only where the status is a success.
pub fn examine(reply: Reply<Vec<u8>>) -> (verdict: Verdict)
    ensures
        verdict == spec_examine(reply),
{
    match reply {
        Reply::Failed => Err(ProbeFault::TransportFailed),
        Reply::Received { status, body } => {
            let document = if is_success(status) {
                parse_document(body.as_slice())
            } else {
                None
            };
            judge(status, document)
        },
    }
}

/// A telemetry fetch under way: the miner's address and the candidate whose
/// reply is awaited.
#[derive(Debug, PartialEq, Eq)]
pub struct TelemetryProbe {
    address: String,
    cursor: usize,
}

/// What follows from one reply.
#[derive(Debug, PartialEq)]
pub enum ProbeStep {
    /// The candidate answered with this document: the fetch is over.
    Found(serde_json::Value),
    /// The candidate was passed over for `fault`; `probe` awaits the next one.
    Advance { probe: TelemetryProbe, fault: ProbeFault },
    /// The last candidate was passed over for `fault`: the fetch has failed.
    Exhausted { error: ClientError, fault: ProbeFault },
}

/// The mathematical content of a [`ProbeStep`].
pub ghost enum ProbeStepView {
    Found(serde_json::Value),
    Advance { address: Seq<char>, cursor: int, fault: ProbeFault },
    Exhausted { error: ClientErrorView, fault: ProbeFault },
}

/// The step that the verdict on candidate `cursor` leads to.
pub open spec fn spec_settle(address: Seq<char>, cursor: int, verdict: Verdict) -> ProbeStepView {
    match verdict {
        Ok(document) => ProbeStepView::Found(document),
        Err(fault) => if cursor + 1 < CANDIDATE_COUNT {
            ProbeStepView::Advance { address, cursor: cursor + 1, fault }
        } else {
            ProbeStepView::Exhausted {
                error: ClientErrorView::MinerUnreachable { address },
                fault,
            }
        },
    }
}

impl View for ProbeStep {
    type V = ProbeStepView;

    open spec fn view(&self) -> ProbeStepView {
        match self {
            ProbeStep::Found(document) => ProbeStepView::Found(*document),
            ProbeStep::Advance { probe, fault } => ProbeStepView::Advance {
                address: probe.address(),
                cursor: probe.cursor(),
                fault: *fault,
            },
            ProbeStep::Exhausted { error, fault } => ProbeStepView::Exhausted {
                error: error@,
                fault: *fault,
            },
        }
    }
}

impl TelemetryProbe {
    #[verifier::type_invariant]
    spec fn in_range(self) -> bool {
        self.cursor < CANDIDATE_COUNT
    }

    /// The address the fetch is made for, as the caller gave it.
    pub closed spec fn address(self) -> Seq<char> {
        self.address@
    }

    /// The index of the candidate whose reply is awaited.
    pub closed spec fn cursor(self) -> int {
        self.cursor as int
    }

    /// Starts a fetch at the first candidate.
    pub fn new(address: &str) -> (probe: Self)
        ensures
            probe.address() == address@,
            probe.cursor() == 0,
    {
        TelemetryProbe { address: String::from_str(address), cursor: 0 }
    }

    /// The request to perform next.
    pub fn request(&self) -> (request: HttpRequest)
        ensures
            request@ == spec_probe_request(self.address(), self.cursor()),
            !request@.sends_header("Origin"@),
    {
        proof {
            use_type_invariant(self);
            lemma_probe_sends_no_origin(self.address(), self.cursor());
        }
        let path = candidate_path(self.cursor).unwrap();
        let mut headers: Vec<Header> = Vec::new();
        headers.push(
            Header { name: String::from_str("Accept"), value: String::from_str("application/json") },
        );
        headers.push(user_agent_header());
        let request = HttpRequest {
            method: Method::Get,
            url: endpoint_url(self.address.as_str(), path),
            headers,
            timeout_secs: COMMAND_TIMEOUT_SECS,
            follow_redirects: false,
            body: None,
        };
        assert(request@.headers =~= spec_probe_request(self.address(), self.cursor()).headers);
        request
    }

    /// Takes the verdict on the awaited candidate and says what follows: the
    /// document, the next candidate, or failure once none is left.
    pub fn settle(self, verdict: Verdict) -> (step: ProbeStep)
        ensures
            step@ == spec_settle(self.address(), self.cursor(), verdict),
    {
        proof {
            use_type_invariant(&self);
        }
        match verdict {
            Ok(document) => ProbeStep::Found(document),
            Err(fault) => if self.cursor + 1 < CANDIDATE_COUNT {
                ProbeStep::Advance {
                    probe: TelemetryProbe { address: self.address, cursor: self.cursor + 1 },
                    fault,
                }
            } else {
                ProbeStep::Exhausted {
                    error: ClientError::MinerUnreachable { address: self.address },
                    fault,
                }
            },
        }
    }

    /// Takes the reply to the awaited request and says what follows.
    pub fn on_reply(self, reply: Reply<Vec<u8>>) -> (step: ProbeStep)
        ensures
            step@ == spec_settle(self.address(), self.cursor(), spec_examine(reply)),
    {
        let verdict = examine(reply);
        self.settle(verdict)
    }
}

/// The course of a whole fetch: the requests performed, in order, and how the
/// fetch ended.
pub ghost struct FetchRun {
    pub requests: Seq<HttpRequestView>,
    pub outcome: Result<serde_json::Value, ClientErrorView>,
}

/// The fetch from candidate `cursor` on, where `replies[i]` is what the
/// transport reports for candidate `i` if it is asked.
pub open spec fn spec_run(address: Seq<char>, cursor: int, replies: Seq<Reply<Vec<u8>>>) -> FetchRun
    decreases CANDIDATE_COUNT - cursor,
{
    let request = spec_probe_request(address, cursor);
    match spec_settle(address, cursor, spec_examine(replies[cursor])) {
        ProbeStepView::Found(document) => FetchRun { requests: seq![request], outcome: Ok(document) },
        ProbeStepView::Advance { cursor: next, .. } => {
            let rest = spec_run(address, next, replies);
            FetchRun { requests: seq![request] + rest.requests, outcome: rest.outcome }
        },
        ProbeStepView::Exhausted { error, .. } => FetchRun {
            requests: seq![request],
            outcome: Err(error),
        },
    }
}

/// The whole fetch for the miner at `address`.
pub open spec fn spec_fetch(address: Seq<char>, replies: Seq<Reply<Vec<u8>>>) -> FetchRun {
    spec_run(address, 0, replies)
}

/// The probes of the candidates from `first` up to, not including, `end`.
pub open spec fn spec_probe_requests(address: Seq<char>, first: int, end: int) -> Seq<
    HttpRequestView,
> {
    Seq::new((end - first) as nat, |i: int| spec_probe_request(address, first + i))
}

/// The seconds that the requests may take together.
pub open spec fn timeout_budget(requests: Seq<HttpRequestView>) -> nat
    decreases requests.len(),
{
    if requests.len() == 0 {
        0
    } else {
        timeout_budget(requests.drop_last()) + requests.last().timeout_secs
    }
}

proof fn lemma_run_first_usable(
    address: Seq<char>,
    replies: Seq<Reply<Vec<u8>>>,
    cursor: int,
    winner: int,
)
    requires
        0 <= cursor <= winner < CANDIDATE_COUNT,
        forall|i: int| cursor <= i < winner ==> (#[trigger] spec_examine(replies[i])) is Err,
        spec_examine(replies[winner]) is Ok,
    ensures
        spec_run(address, cursor, replies).outcome == Ok::<serde_json::Value, ClientErrorView>(
            spec_examine(replies[winner])->Ok_0,
        ),
        spec_run(address, cursor, replies).requests == spec_probe_requests(
            address,
            cursor,
            winner + 1,
        ),
    decreases winner - cursor,
{
    if cursor < winner {
        assert(spec_examine(replies[cursor]) is Err);
        lemma_run_first_usable(address, replies, cursor + 1, winner);
    }
    assert(spec_run(address, cursor, replies).requests =~= spec_probe_requests(
        address,
        cursor,
        winner + 1,
    ));
}

proof fn lemma_run_none_usable(address: Seq<char>, replies: Seq<Reply<Vec<u8>>>, cursor: int)
    requires
        0 <= cursor < CANDIDATE_COUNT,
        forall|i: int| cursor <= i < CANDIDATE_COUNT ==> (#[trigger] spec_examine(replies[i])) is Err,
    ensures
        spec_run(address, cursor, replies).outcome == Err::<serde_json::Value, ClientErrorView>(
            ClientErrorView::MinerUnreachable { address },
        ),
        spec_run(address, cursor, replies).requests == spec_probe_requests(
            address,
            cursor,
            CANDIDATE_COUNT as int,
        ),
    decreases CANDIDATE_COUNT - cursor,
{
    assert(spec_examine(replies[cursor]) is Err);
    if cursor + 1 < CANDIDATE_COUNT {
        lemma_run_none_usable(address, replies, cursor + 1);
    }
    assert(spec_run(address, cursor, replies).requests =~= spec_probe_requests(
        address,
        cursor,
        CANDIDATE_COUNT as int,
    ));
}

proof fn lemma_budget_of_probes(address: Seq<char>, end: int)
    requires
        0 <= end,
    ensures
        timeout_budget(spec_probe_requests(address, 0, end)) == end * COMMAND_TIMEOUT_SECS,
    decreases end,
{
    let requests = spec_probe_requests(address, 0, end);
    if end > 0 {
        lemma_budget_of_probes(address, end - 1);
        assert(requests.drop_last() =~= spec_probe_requests(address, 0, end - 1));
        assert(requests.last() == spec_probe_request(address, end - 1));
    }
}

/// The first candidate that gives a document decides the fetch: where the
/// candidates before `winner` give none and `winner` gives one, the fetch
/// returns that document and performs the probes up to `winner`, each once and
/// in order, and none after it.
pub proof fn lemma_first_usable_candidate_wins(
    address: Seq<char>,
    replies: Seq<Reply<Vec<u8>>>,
    winner: int,
)
    requires
        replies.len() == CANDIDATE_COUNT,
        0 <= winner < CANDIDATE_COUNT,
        forall|i: int| 0 <= i < winner ==> (#[trigger] spec_examine(replies[i])) is Err,
        spec_examine(replies[winner]) is Ok,
    ensures
        spec_fetch(address, replies).outcome == Ok::<serde_json::Value, ClientErrorView>(
            spec_examine(replies[winner])->Ok_0,
        ),
        spec_fetch(address, replies).requests == spec_probe_requests(address, 0, winner + 1),
{
    lemma_run_first_usable(address, replies, 0, winner);
}

/// Fallback: where the info endpoint gives no document, for whatever reason,
/// and the statistics endpoint answers with a success status and a JSON body,
/// the fetch returns the document of that body.
pub proof fn lemma_statistics_fallback(
    address: Seq<char>,
    replies: Seq<Reply<Vec<u8>>>,
    status: u16,
    body: Vec<u8>,
    document: serde_json::Value,
)
    requires
        replies.len() == CANDIDATE_COUNT,
        spec_examine(replies[0]) is Err,
        replies[1] == (Reply::Received { status, body }),
        spec_is_success(status),
        parsed_document(body@) == Some(document),
    ensures
        spec_fetch(address, replies).outcome == Ok::<serde_json::Value, ClientErrorView>(document),
{
    lemma_first_usable_candidate_wins(address, replies, 1);
}

/// Ordered short-circuit: where the info endpoint answers with a success
/// status and a JSON body, the fetch returns the document of that body and
/// performs the info probe alone, so no request goes to the statistics
/// endpoint, whatever it would have answered.
pub proof fn lemma_info_short_circuits(
    address: Seq<char>,
    replies: Seq<Reply<Vec<u8>>>,
    status: u16,
    body: Vec<u8>,
    document: serde_json::Value,
)
    requires
        replies.len() == CANDIDATE_COUNT,
        replies[0] == (Reply::Received { status, body }),
        spec_is_success(status),
        parsed_document(body@) == Some(document),
    ensures
        spec_fetch(address, replies).outcome == Ok::<serde_json::Value, ClientErrorView>(document),
        spec_fetch(address, replies).requests == seq![spec_probe_request(address, 0)],
        forall|i: int|
            0 <= i < spec_fetch(address, replies).requests.len() ==> (
            #[trigger] spec_fetch(address, replies).requests[i]).url != spec_endpoint_url(
                address,
                spec_candidate_path(1),
            ),
{
    lemma_first_usable_candidate_wins(address, replies, 0);
    assert(spec_probe_requests(address, 0, 1) =~= seq![spec_probe_request(address, 0)]);
    reveal_strlit("/api/system/info");
    reveal_strlit("/api/system/statistics");
    assert(spec_endpoint_url(address, spec_candidate_path(0)).len() != spec_endpoint_url(
        address,
        spec_candidate_path(1),
    ).len());
}

/// Failure: where no candidate gives a document, the fetch fails with
/// `MinerUnreachable` for the address it was asked for, after one probe of
/// each candidate, which together may take no longer than ten seconds.
pub proof fn lemma_unreachable_when_all_fail(address: Seq<char>, replies: Seq<Reply<Vec<u8>>>)
    requires
        replies.len() == CANDIDATE_COUNT,
        forall|i: int| 0 <= i < CANDIDATE_COUNT ==> (#[trigger] spec_examine(replies[i])) is Err,
    ensures
        spec_fetch(address, replies).outcome == Err::<serde_json::Value, ClientErrorView>(
            ClientErrorView::MinerUnreachable { address },
        ),
        spec_fetch(address, replies).requests == spec_probe_requests(
            address,
            0,
            CANDIDATE_COUNT as int,
        ),
        timeout_budget(spec_fetch(address, replies).requests) == 10,
{
    lemma_run_none_usable(address, replies, 0);
    lemma_budget_of_probes(address, CANDIDATE_COUNT as int);
}

} // verus!

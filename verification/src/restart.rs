//! The restart command: one request, and success as soon as any response
//! arrives.

use vstd::prelude::*;
use vstd::string::*;
use crate::error::{outcome_view, ClientError, ClientErrorView, Outcome, OutcomeView};
use crate::http::{
    endpoint_url, spec_endpoint_url, spec_user_agent_header, user_agent_header, Header,
    HttpRequest, HttpRequestView, Method, Reply, COMMAND_TIMEOUT_SECS,
};

verus! {

/// The endpoint that takes the restart command.
pub const RESTART_PATH: &'static str = "/api/system/restart";

/// What the caller is told when the command reached the miner.
pub const RESTART_CONFIRMATION: &'static str = "Restart command sent";

/// The restart command for the miner at `address`: a POST of the restart
/// endpoint without a body that names the client, sends no other header,
/// follows no redirect and is given up after five seconds.
pub open spec fn spec_restart_request(address: Seq<char>) -> HttpRequestView {
    HttpRequestView {
        method: Method::Post,
        url: spec_endpoint_url(address, RESTART_PATH@),
        headers: seq![spec_user_agent_header()],
        timeout_secs: COMMAND_TIMEOUT_SECS as nat,
        follow_redirects: false,
        body: None,
    }
}

/// Builds the restart command for the miner at `address`. It is meant to be
/// performed once.
pub fn restart_request(address: &str) -> (request: HttpRequest)
    ensures
        request@ == spec_restart_request(address@),
{
    let mut headers: Vec<Header> = Vec::new();
    headers.push(user_agent_header());
    let request = HttpRequest {
        method: Method::Post,
        url: endpoint_url(address, RESTART_PATH),
        headers,
        timeout_secs: COMMAND_TIMEOUT_SECS,
        follow_redirects: false,
        body: None,
    };
    assert(request@.headers =~= spec_restart_request(address@).headers);
    request
}

/// What the reply to the restart command means for the caller.
pub open spec fn spec_restart_outcome<B>(address: Seq<char>, reply: Reply<B>) -> OutcomeView {
    match reply {
        Reply::Failed => Err(ClientErrorView::MinerUnreachable { address }),
        Reply::Received { .. } => Ok(RESTART_CONFIRMATION@),
    }
}

/// Says what the reply to the restart command means. A response of any status
/// confirms the command, since a restarting miner may answer with anything;
/// only a transport failure leaves the miner unreachable.
pub fn restart_outcome<B>(address: &str, reply: &Reply<B>) -> (outcome: Outcome)
    ensures
        outcome_view(outcome) == spec_restart_outcome(address@, *reply),
{
    match reply {
        Reply::Failed => Err(ClientError::MinerUnreachable { address: String::from_str(address) }),
        Reply::Received { .. } => Ok(String::from_str(RESTART_CONFIRMATION)),
    }
}

} // verus!

//! Plain descriptions of the HTTP exchanges with a miner.
//!
//! A [`HttpRequest`] says everything a transport has to know to perform one
//! exchange; a [`Reply`] says how the exchange ended.

use vstd::prelude::*;
use vstd::string::*;

verus! {

/// The client identifier sent with every request.
pub const USER_AGENT: &'static str = "AxeMobile/1.0";

/// Seconds a telemetry probe or a restart command may take.
pub const COMMAND_TIMEOUT_SECS: u64 = 5;

/// Seconds a settings update may take.
pub const SETTINGS_TIMEOUT_SECS: u64 = 10;

/// The request methods the client uses.
#[derive(Clone, Copy, Debug, PartialEq, Eq, Structural)]
pub enum Method {
    Get,
    Post,
    Patch,
}

/// One request header.
#[derive(Clone, Debug, PartialEq, Eq)]
pub struct Header {
    pub name: String,
    pub value: String,
}

impl View for Header {
    type V = (Seq<char>, Seq<char>);

    open spec fn view(&self) -> (Seq<char>, Seq<char>) {
        (self.name@, self.value@)
    }
}

/// One HTTP exchange for a transport to perform. The transport sends exactly
/// the listed headers, gives up after `timeout_secs` seconds, and follows a
/// redirect only where `follow_redirects` is set.
#[derive(Clone, Debug, PartialEq, Eq)]
pub struct HttpRequest {
    pub method: Method,
    pub url: String,
    pub headers: Vec<Header>,
    pub timeout_secs: u64,
    pub follow_redirects: bool,
    pub body: Option<String>,
}

/// The mathematical content of a [`HttpRequest`].
pub ghost struct HttpRequestView {
    pub method: Method,
    pub url: Seq<char>,
    pub headers: Seq<(Seq<char>, Seq<char>)>,
    pub timeout_secs: nat,
    pub follow_redirects: bool,
    pub body: Option<Seq<char>>,
}

impl HttpRequestView {
    /// Whether a header of this name is sent.
    pub open spec fn sends_header(self, name: Seq<char>) -> bool {
        exists|i: int| 0 <= i < self.headers.len() && (#[trigger] self.headers[i]).0 == name
    }
}

impl View for HttpRequest {
    type V = HttpRequestView;

    open spec fn view(&self) -> HttpRequestView {
        HttpRequestView {
            method: self.method,
            url: self.url@,
            headers: self.headers@.map_values(|h: Header| h@),
            timeout_secs: self.timeout_secs as nat,
            follow_redirects: self.follow_redirects,
            body: match self.body {
                Some(text) => Some(text@),
                None => None,
            },
        }
    }
}

/// How one exchange ended.
#[derive(Clone, Debug, PartialEq, Eq)]
pub enum Reply<B> {
    /// The transport did not complete the exchange: no connection, a timeout,
    /// a name that does not resolve.
    Failed,
    /// A response arrived, whatever its status.
    Received { status: u16, body: B },
}

/// Whether `status` lies in the success range, 200 to 299.
pub open spec fn spec_is_success(status: u16) -> bool {
    200 <= status < 300
}

/// Whether `status` lies in the success range, 200 to 299.
pub fn is_success(status: u16) -> (success: bool)
    ensures
        success == spec_is_success(status),
{
    200 <= status && status < 300
}

/// The URL of `path` on the miner at `address`: plain HTTP, the address as the
/// caller gave it, then the path.
pub open spec fn spec_endpoint_url(address: Seq<char>, path: Seq<char>) -> Seq<char> {
    "http://"@ + address + path
}

/// Builds the URL of `path` on the miner at `address`.
pub fn endpoint_url(address: &str, path: &str) -> (url: String)
    ensures
        url@ == spec_endpoint_url(address@, path@),
{
    let mut url = String::from_str("http://");
    url.append(address);
    url.append(path);
    url
}

/// The header that names the client.
pub open spec fn spec_user_agent_header() -> (Seq<char>, Seq<char>) {
    ("User-Agent"@, USER_AGENT@)
}

/// Builds the header that names the client.
pub fn user_agent_header() -> (header: Header)
    ensures
        header@ == spec_user_agent_header(),
{
    Header { name: String::from_str("User-Agent"), value: String::from_str(USER_AGENT) }
}

} // verus!

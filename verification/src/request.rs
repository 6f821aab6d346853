//! The request that opens a correction stream.

use crate::endpoint::{CasterEndpoint, EndpointView};
use vstd::prelude::*;
use vstd::string::*;
use vstd::utf8::*;

verus! {

/// The name under which this client announces itself unless told otherwise.
pub const CLIENT_NAME: &'static str = "GpsCorrect";

/// The `User-Agent` value of a client called `client`.
pub open spec fn user_agent_of(client: Seq<char>) -> Seq<char> {
    "NTRIP "@ + client + "/1.0"@
}

/// The head of a `GET` request as text. Nothing follows it: the request has no
/// body.
pub open spec fn request_text(target: Seq<char>, host: Seq<char>, user_agent: Seq<char>) -> Seq<
    char,
> {
    "GET "@ + target + " HTTP/1.1\r\nHost: "@ + host + "\r\nUser-Agent: "@ + user_agent
        + "\r\n\r\n"@
}

/// A request for a mountpoint's stream: `GET`, HTTP/1.1, two headers, no body.
#[derive(Clone, Debug, PartialEq, Eq)]
pub struct NtripRequest {
    /// The request target: the mountpoint's path.
    pub target: String,
    /// The value of the `Host` header.
    pub host: String,
    /// The value of the `User-Agent` header.
    pub user_agent: String,
}

/// An `NtripRequest` as mathematical values.
pub ghost struct RequestView {
    pub target: Seq<char>,
    pub host: Seq<char>,
    pub user_agent: Seq<char>,
}

impl View for NtripRequest {
    type V = RequestView;

    open spec fn view(&self) -> RequestView {
        RequestView { target: self.target@, host: self.host@, user_agent: self.user_agent@ }
    }
}

/// The request that a client called `client` sends to `endpoint`.
pub open spec fn request_for(endpoint: EndpointView, client: Seq<char>) -> RequestView {
    RequestView {
        target: endpoint.path,
        host: endpoint.authority,
        user_agent: user_agent_of(client),
    }
}

impl NtripRequest {
    /// The request that a client called `client` sends to `endpoint`.
    pub fn new(endpoint: &CasterEndpoint, client: &str) -> (r: NtripRequest)
        ensures
            r@ == request_for(endpoint@, client@),
    {
        let mut user_agent = String::from_str("NTRIP ");
        user_agent.append(client);
        user_agent.append("/1.0");
        NtripRequest {
            target: String::from_str(endpoint.path()),
            host: String::from_str(endpoint.authority()),
            user_agent,
        }
    }

    /// The request as it is written to the caster, as text.
    pub open spec fn text(&self) -> Seq<char> {
        request_text(self.target@, self.host@, self.user_agent@)
    }

    /// The request as it is written to the caster, as text.
    pub fn head(&self) -> (r: String)
        ensures
            r@ == self.text(),
    {
        let mut out = String::from_str("GET ");
        out.append(self.target.as_str());
        out.append(" HTTP/1.1\r\nHost: ");
        out.append(self.host.as_str());
        out.append("\r\nUser-Agent: ");
        out.append(self.user_agent.as_str());
        out.append("\r\n\r\n");
        out
    }

    /// The bytes that are written to the caster: the text in UTF-8.
    pub fn encode(&self) -> (r: Vec<u8>)
        ensures
            r@ == encode_utf8(self.text()),
    {
        let head = self.head();
        head.as_str().as_bytes_vec()
    }
}

} // verus!

//! The client side of the handshake with a caster: what to dial and send, and
//! what to make of the answer.

use crate::endpoint::{
    effective_port, endpoint_of, endpoint_of_url, parsed_url, CasterEndpoint, EndpointView,
    UrlPartsView,
};
use crate::error::{ConnectError, ErrorClass};
use crate::request::{request_for, NtripRequest, RequestView};
use crate::scan::{matches_at, occurs_at};
use vstd::prelude::*;
use vstd::slice::*;
use vstd::string::*;
use vstd::utf8::*;

verus! {

/// The legacy preamble with which some casters answer in place of a status
/// line and headers: 14 bytes.
pub const ICY_PREAMBLE: &'static str = "ICY 200 OK\r\n\r\n";

/// The bytes of the legacy preamble.
pub open spec fn preamble() -> Seq<u8> {
    encode_utf8(ICY_PREAMBLE@)
}

/// The legacy preamble is 14 bytes long, one for each of its characters.
pub proof fn lemma_preamble_bytes()
    ensures
        preamble().len() == 14,
        forall|k: int| 0 <= k < 14 ==> preamble()[k] == ICY_PREAMBLE@[k] as u8,
{
    reveal_strlit("ICY 200 OK\r\n\r\n");
    assert(is_ascii_chars(ICY_PREAMBLE@));
    is_ascii_chars_encode_utf8(ICY_PREAMBLE@);
}

/// What has to happen on the network to open a stream.
#[derive(Clone, Debug, PartialEq, Eq)]
pub struct ConnectPlan {
    /// The host to open a TCP connection to.
    pub host: String,
    /// The port to open it on.
    pub port: u16,
    /// The request to send once it is open.
    pub request: NtripRequest,
}

/// A `ConnectPlan` as mathematical values.
pub ghost struct ConnectPlanView {
    pub host: Seq<char>,
    pub port: u16,
    pub request: RequestView,
}

impl View for ConnectPlan {
    type V = ConnectPlanView;

    open spec fn view(&self) -> ConnectPlanView {
        ConnectPlanView { host: self.host@, port: self.port, request: self.request@ }
    }
}

/// The plan for opening `endpoint`'s stream as a client called `client`.
pub open spec fn plan_of(endpoint: EndpointView, client: Seq<char>) -> ConnectPlanView {
    ConnectPlanView {
        host: endpoint.host,
        port: effective_port(endpoint.port),
        request: request_for(endpoint, client),
    }
}

/// The plan for opening the stream behind `url`, or the reason why nothing is
/// to be dialled.
pub open spec fn plan_of_url(url: Seq<char>, client: Seq<char>) -> Result<
    ConnectPlanView,
    ConnectError,
> {
    match endpoint_of_url(url) {
        Ok(endpoint) => Ok(plan_of(endpoint, client)),
        Err(e) => Err(e),
    }
}

/// Plans the connection to `endpoint`.
pub fn plan_connect(endpoint: &CasterEndpoint, client: &str) -> (r: ConnectPlan)
    ensures
        r@ == plan_of(endpoint@, client@),
{
    ConnectPlan {
        host: String::from_str(endpoint.host()),
        port: endpoint.port(),
        request: NtripRequest::new(endpoint, client),
    }
}

/// Plans the connection to the caster behind `url`. A URL that is refused
/// yields no plan, so nothing is dialled for it.
pub fn plan_connect_url(url: &str, client: &str) -> (r: Result<ConnectPlan, ConnectError>)
    ensures
        match r {
            Ok(plan) => plan_of_url(url@, client@) == Ok::<ConnectPlanView, ConnectError>(plan@),
            Err(e) => plan_of_url(url@, client@) == Err::<ConnectPlanView, ConnectError>(e),
        },
{
    match CasterEndpoint::parse(url) {
        Ok(endpoint) => Ok(plan_connect(&endpoint, client)),
        Err(e) => Err(e),
    }
}

/// How the caster answered the request.
#[derive(Clone, Debug, PartialEq, Eq)]
pub enum CasterReply {
    /// The TCP connection could not be opened.
    Unreachable,
    /// The connection was open, and broke before the start of an answer was read.
    Broken,
    /// An answer began.
    Head {
        /// The status of the status line; `None` where the answer had no status
        /// line and all of it counts as body.
        status: Option<u16>,
        /// The first frame of the body; empty where the body ended at once.
        body: Vec<u8>,
    },
}

/// `body` begins with the legacy preamble.
pub open spec fn has_preamble(body: Seq<u8>) -> bool {
    occurs_at(body, preamble(), 0)
}

/// `status` is one of the success codes, 200 to 299.
pub open spec fn is_success(status: u16) -> bool {
    200 <= status < 300
}

/// What a reply amounts to: the first bytes of the correction stream, or the
/// reason why there is no stream.
///
/// A body that begins with the legacy preamble is a stream whatever the status,
/// and the stream begins behind the preamble. Any other body is a stream only
/// under a success status, and then all of it belongs to the stream.
pub open spec fn outcome_of(reply: CasterReply) -> Result<Seq<u8>, ConnectError> {
    match reply {
        CasterReply::Unreachable => Err(ConnectError::ConnectFailed),
        CasterReply::Broken => Err(ConnectError::HandshakeFailed),
        CasterReply::Head { status, body } => {
            if has_preamble(body@) {
                Ok(body@.skip(preamble().len() as int))
            } else {
                match status {
                    Some(s) => if is_success(s) {
                        Ok(body@)
                    } else {
                        Err(ConnectError::NonSuccessStatus)
                    },
                    None => Err(ConnectError::HandshakeFailed),
                }
            }
        },
    }
}

/// A reply whose body begins with the legacy preamble opens a stream whatever
/// its status, and the stream is the body without the preamble: those 14 bytes
/// are left out, and no others.
pub proof fn lemma_preamble_opens_stream(status: Option<u16>, body: Vec<u8>)
    requires
        has_preamble(body@),
    ensures
        outcome_of(CasterReply::Head { status, body }) matches Ok(first) && preamble() + first
            == body@ && first == body@.skip(14),
{
    lemma_preamble_bytes();
    let first = body@.skip(14);
    assert(body@.subrange(0, 14) == preamble());
    assert(preamble() + first =~= body@);
}

/// A reply without the legacy preamble and with a status outside 200..=299
/// opens no stream: it fails with `NonSuccessStatus`, a protocol error.
pub proof fn lemma_failed_status_is_protocol_error(status: u16, body: Vec<u8>)
    requires
        !has_preamble(body@),
        !is_success(status),
    ensures
        outcome_of(CasterReply::Head { status: Some(status), body }) == Err::<
            Seq<u8>,
            ConnectError,
        >(ConnectError::NonSuccessStatus),
        ConnectError::NonSuccessStatus.class_of() == ErrorClass::Protocol,
{
}

/// A reply that is neither the legacy preamble nor an HTTP response opens no
/// stream either.
pub proof fn lemma_missing_preamble_is_protocol_error(body: Vec<u8>)
    requires
        !has_preamble(body@),
    ensures
        outcome_of(CasterReply::Head { status: None, body }) == Err::<Seq<u8>, ConnectError>(
            ConnectError::HandshakeFailed,
        ),
        ConnectError::HandshakeFailed.class_of() == ErrorClass::Protocol,
{
}

/// Parts with a scheme other than `http`, or with none, describe no endpoint,
/// whatever else they hold.
pub proof fn lemma_other_scheme_is_refused(parts: UrlPartsView)
    requires
        parts.scheme != Some("http"@),
    ensures
        endpoint_of(parts) == Err::<EndpointView, ConnectError>(ConnectError::InvalidScheme),
{
}

/// For a URL with a scheme other than `http` there is no plan, only the error
/// `InvalidScheme`: nothing is dialled.
pub proof fn lemma_other_scheme_is_never_dialled(url: Seq<char>, client: Seq<char>)
    ensures
        (parsed_url(url) matches Some(parts) && parts.scheme != Some("http"@)) ==> plan_of_url(
            url,
            client,
        ) == Err::<ConnectPlanView, ConnectError>(ConnectError::InvalidScheme),
{
}

/// Tells whether `status` is one of the success codes.
pub fn status_is_success(status: u16) -> (r: bool)
    ensures
        r == is_success(status),
{
    200 <= status && status < 300
}

/// Decides what a reply amounts to.
pub fn connect_outcome(reply: CasterReply) -> (r: Result<Vec<u8>, ConnectError>)
    ensures
        match r {
            Ok(first) => outcome_of(reply) == Ok::<Seq<u8>, ConnectError>(first@),
            Err(e) => outcome_of(reply) == Err::<Seq<u8>, ConnectError>(e),
        },
{
    match reply {
        CasterReply::Unreachable => Err(ConnectError::ConnectFailed),
        CasterReply::Broken => Err(ConnectError::HandshakeFailed),
        CasterReply::Head { status, body } => {
            let mark = ICY_PREAMBLE.as_bytes();
            if matches_at(body.as_slice(), mark, 0) {
                let rest = slice_subrange(body.as_slice(), mark.len(), body.len());
                let first = slice_to_vec(rest);
                assert(first@ == body@.skip(preamble().len() as int));
                Ok(first)
            } else {
                match status {
                    Some(s) => if status_is_success(s) {
                        Ok(body)
                    } else {
                        Err(ConnectError::NonSuccessStatus)
                    },
                    None => Err(ConnectError::HandshakeFailed),
                }
            }
        },
    }
}

} // verus!

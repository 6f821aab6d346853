//! The caster's address: a URL taken apart and checked.

use crate::error::ConnectError;
use vstd::prelude::*;

verus! {

/// The port of a caster whose URL names none.
pub const DEFAULT_PORT: u16 = 80;

/// The components of a URL, as far as the bridge reads them.
#[derive(Clone, Debug, PartialEq, Eq)]
pub struct UrlParts {
    /// The scheme, without `://`.
    pub scheme: Option<String>,
    /// User information, host and port as written in the URL.
    pub authority: Option<String>,
    /// The host alone.
    pub host: Option<String>,
    /// The port, where the URL names one.
    pub port: Option<u16>,
    /// The path, without the query.
    pub path: String,
}

/// `UrlParts` as mathematical values.
pub ghost struct UrlPartsView {
    pub scheme: Option<Seq<char>>,
    pub authority: Option<Seq<char>>,
    pub host: Option<Seq<char>>,
    pub port: Option<u16>,
    pub path: Seq<char>,
}

/// The text of an optional string.
pub open spec fn text_of(s: Option<String>) -> Option<Seq<char>> {
    match s {
        Some(t) => Some(t@),
        None => None,
    }
}

impl View for UrlParts {
    type V = UrlPartsView;

    open spec fn view(&self) -> UrlPartsView {
        UrlPartsView {
            scheme: text_of(self.scheme),
            authority: text_of(self.authority),
            host: text_of(self.host),
            port: self.port,
            path: self.path@,
        }
    }
}

/// What `hyper::Uri` makes of a URL: `None` where it rejects the text, else the
/// parts that its accessors hand out.
pub uninterp spec fn parsed_url(url: Seq<char>) -> Option<UrlPartsView>;

/// Parses `url` with `hyper::Uri`'s `FromStr` and copies out what `scheme_str`,
/// `authority`, `host`, `port_u16` and `path` return. The parser is not
/// described here: the contract only gives its result a name, `parsed_url`,
/// which rests on the parser being a function of the text alone.
#[verifier::external_body]
fn split_url(url: &str) -> (r: Option<UrlParts>)
    ensures
        match r {
            Some(parts) => parsed_url(url@) == Some(parts@),
            None => parsed_url(url@) is None,
        },
{
    match url.parse::<hyper::Uri>() {
        Ok(uri) => Some(UrlParts {
            scheme: uri.scheme_str().map(String::from),
            authority: uri.authority().map(|a| String::from(a.as_str())),
            host: uri.host().map(String::from),
            port: uri.port_u16(),
            path: String::from(uri.path()),
        }),
        Err(_) => None,
    }
}

/// A caster endpoint as mathematical values.
pub ghost struct EndpointView {
    pub scheme: Seq<char>,
    pub authority: Seq<char>,
    pub host: Seq<char>,
    pub port: Option<u16>,
    pub path: Seq<char>,
}

/// Where a caster is reached and which mountpoint is asked of it. Only `http`
/// endpoints exist.
#[derive(Debug, PartialEq, Eq)]
pub struct CasterEndpoint {
    scheme: String,
    authority: String,
    host: String,
    port: Option<u16>,
    path: String,
}

/// The endpoint that a URL's parts describe, or the reason why they describe none.
pub open spec fn endpoint_of(parts: UrlPartsView) -> Result<EndpointView, ConnectError> {
    if parts.scheme != Some("http"@) {
        Err(ConnectError::InvalidScheme)
    } else if parts.host is None || parts.authority is None {
        Err(ConnectError::MalformedUrl)
    } else {
        Ok(
            EndpointView {
                scheme: "http"@,
                authority: parts.authority->0,
                host: parts.host->0,
                port: parts.port,
                path: parts.path,
            },
        )
    }
}

/// The endpoint that a URL describes, or the reason why it describes none.
pub open spec fn endpoint_of_url(url: Seq<char>) -> Result<EndpointView, ConnectError> {
    match parsed_url(url) {
        Some(parts) => endpoint_of(parts),
        None => Err(ConnectError::MalformedUrl),
    }
}

/// The port that is dialled: the one named, else `DEFAULT_PORT`.
pub open spec fn effective_port(port: Option<u16>) -> u16 {
    match port {
        Some(p) => p,
        None => DEFAULT_PORT,
    }
}

impl View for CasterEndpoint {
    type V = EndpointView;

    closed spec fn view(&self) -> EndpointView {
        EndpointView {
            scheme: self.scheme@,
            authority: self.authority@,
            host: self.host@,
            port: self.port,
            path: self.path@,
        }
    }
}

impl Clone for CasterEndpoint {
    fn clone(&self) -> (r: Self)
        ensures
            r@ == self@,
    {
        proof {
            use_type_invariant(self);
        }
        CasterEndpoint {
            scheme: self.scheme.clone(),
            authority: self.authority.clone(),
            host: self.host.clone(),
            port: self.port,
            path: self.path.clone(),
        }
    }
}

impl CasterEndpoint {
    #[verifier::type_invariant]
    spec fn scheme_is_http(self) -> bool {
        self.scheme@ == "http"@
    }

    /// Builds the endpoint that `parts` describe. The scheme is looked at first.
    pub fn from_parts(parts: UrlParts) -> (r: Result<CasterEndpoint, ConnectError>)
        ensures
            match r {
                Ok(e) => endpoint_of(parts@) == Ok::<EndpointView, ConnectError>(e@),
                Err(e) => endpoint_of(parts@) == Err::<EndpointView, ConnectError>(e),
            },
    {
        let http = "http".to_owned();
        let scheme = match parts.scheme {
            Some(s) => s,
            None => {
                return Err(ConnectError::InvalidScheme);
            },
        };
        if scheme != http {
            return Err(ConnectError::InvalidScheme);
        }
        let host = match parts.host {
            Some(h) => h,
            None => {
                return Err(ConnectError::MalformedUrl);
            },
        };
        let authority = match parts.authority {
            Some(a) => a,
            None => {
                return Err(ConnectError::MalformedUrl);
            },
        };
        Ok(CasterEndpoint { scheme, authority, host, port: parts.port, path: parts.path })
    }

    /// Reads a caster URL.
    pub fn parse(url: &str) -> (r: Result<CasterEndpoint, ConnectError>)
        ensures
            match r {
                Ok(e) => endpoint_of_url(url@) == Ok::<EndpointView, ConnectError>(e@),
                Err(e) => endpoint_of_url(url@) == Err::<EndpointView, ConnectError>(e),
            },
    {
        match split_url(url) {
            Some(parts) => CasterEndpoint::from_parts(parts),
            None => Err(ConnectError::MalformedUrl),
        }
    }

    /// The scheme, which is `http`.
    pub fn scheme(&self) -> (r: &str)
        ensures
            r@ == self@.scheme,
            r@ == "http"@,
    {
        proof {
            use_type_invariant(self);
        }
        self.scheme.as_str()
    }

    /// User information, host and port as the URL had them: the value of the
    /// request's `Host` header.
    pub fn authority(&self) -> (r: &str)
        ensures
            r@ == self@.authority,
    {
        self.authority.as_str()
    }

    /// The host to dial.
    pub fn host(&self) -> (r: &str)
        ensures
            r@ == self@.host,
    {
        self.host.as_str()
    }

    /// The port to dial: the one that the URL names, else `DEFAULT_PORT`.
    pub fn port(&self) -> (r: u16)
        ensures
            r == effective_port(self@.port),
    {
        match self.port {
            Some(p) => p,
            None => DEFAULT_PORT,
        }
    }

    /// The mountpoint's path.
    pub fn path(&self) -> (r: &str)
        ensures
            r@ == self@.path,
    {
        self.path.as_str()
    }
}

} // verus!

//! Errors of the bridge and the classes they fall into.

use vstd::prelude::*;

verus! {

/// Why a connection to the caster could not be set up.
#[derive(Clone, Copy, Debug, PartialEq, Eq, Structural)]
pub enum ConnectError {
    /// The URL is not a URL, or names no host.
    MalformedUrl,
    /// The URL's scheme is not `http`.
    InvalidScheme,
    /// The TCP connection to the caster could not be opened.
    ConnectFailed,
    /// The exchange broke off, or the reply was neither the legacy preamble nor
    /// an HTTP response.
    HandshakeFailed,
    /// The caster answered with a status outside 200..=299.
    NonSuccessStatus,
}

/// The four classes of failure that the bridge tells apart.
#[derive(Clone, Copy, Debug, PartialEq, Eq, Structural)]
pub enum ErrorClass {
    /// A peer or a device could not be reached at all.
    Connection,
    /// A peer was reached and did not speak as expected, or was never to be
    /// spoken to given the configuration.
    Protocol,
    /// A stream that was open failed while in use.
    Io,
    /// Bytes that should have been text were not.
    Decode,
}

impl ConnectError {
    /// The class of this error.
    pub open spec fn class_of(self) -> ErrorClass {
        match self {
            ConnectError::ConnectFailed => ErrorClass::Connection,
            _ => ErrorClass::Protocol,
        }
    }

    /// The class of this error.
    pub fn class(&self) -> (r: ErrorClass)
        ensures
            r == self.class_of(),
    {
        match self {
            ConnectError::ConnectFailed => ErrorClass::Connection,
            _ => ErrorClass::Protocol,
        }
    }

    /// Whether trying again later can help: a bad URL stays bad, everything
    /// else depends on the caster and the network.
    pub open spec fn is_transient(self) -> bool {
        !(self is MalformedUrl || self is InvalidScheme)
    }

    /// Whether trying again later can help.
    pub fn transient(&self) -> (r: bool)
        ensures
            r == self.is_transient(),
    {
        match self {
            ConnectError::MalformedUrl | ConnectError::InvalidScheme => false,
            _ => true,
        }
    }
}

} // verus!

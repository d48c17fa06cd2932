//! Error taxonomy of the injection pipeline.
//!
//! The first five kinds abort a run; plugin-load failures are absorbed by the
//! assembler (a missing directory or an unreadable file degrades to fewer
//! plugins) and therefore have no variant here.

use vstd::prelude::*;

verus! {

/// A pipeline-fatal error.
#[derive(Clone, Copy, Debug, PartialEq, Eq, Structural)]
pub enum Error {
    /// The discovery HTTP fetch failed at the transport level.
    Network,
    /// The discovery response was malformed JSON or did not match the
    /// target schema.
    Parse,
    /// No target carried the requested title.
    TargetNotFound,
    /// The websocket connect handshake failed.
    Connection,
    /// A websocket send or receive failed after the connection was made.
    Protocol,
}

impl Error {
    /// A human-readable description of the error.
    pub fn describe(&self) -> (r: &'static str)
        ensures
            *self == Error::Network ==> r@ == "network error during discovery"@,
            *self == Error::Parse ==> r@ == "malformed target listing"@,
            *self == Error::TargetNotFound ==> r@ == "Content not found"@,
            *self == Error::Connection ==> r@ == "websocket connection failed"@,
            *self == Error::Protocol ==> r@ == "websocket protocol failure"@,
    {
        match self {
            Error::Network => "network error during discovery",
            Error::Parse => "malformed target listing",
            Error::TargetNotFound => "Content not found",
            Error::Connection => "websocket connection failed",
            Error::Protocol => "websocket protocol failure",
        }
    }
}

} // verus!

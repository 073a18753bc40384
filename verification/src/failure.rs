//! The ways in which talking to the daemon or the wallet service fails.

use vstd::prelude::*;

verus! {

/// Why a call or the bootstrap failed.
#[derive(Clone, Copy, Debug, PartialEq, Eq, Structural)]
pub enum Failure {
    /// The service could not be reached over HTTP.
    TransportError,
    /// The reply is JSON, but not of the shape expected for the call.
    MalformedResponse,
    /// The service refused the call: a status outside 200..=299, a body that
    /// is no JSON, or an `error` member in the envelope.
    RpcError,
    /// The primary account cannot cover a requested funding.
    InsufficientSeedFunds,
}

impl Failure {
    /// A sentence for the person reading a failed test.
    pub fn describe(&self) -> (text: String)
        ensures
            text@ == match *self {
                Failure::TransportError => "the service could not be reached"@,
                Failure::MalformedResponse => "the reply does not have the expected shape"@,
                Failure::RpcError => "the service reported a failure"@,
                Failure::InsufficientSeedFunds => "the primary account cannot cover the funding"@,
            },
    {
        match self {
            Failure::TransportError => "the service could not be reached".to_owned(),
            Failure::MalformedResponse => "the reply does not have the expected shape".to_owned(),
            Failure::RpcError => "the service reported a failure".to_owned(),
            Failure::InsufficientSeedFunds => "the primary account cannot cover the funding".to_owned(),
        }
    }
}

} // verus!

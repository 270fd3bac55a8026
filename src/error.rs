use vstd::prelude::*;

verus! {

/// Why a balance request failed.
#[derive(Clone, Copy, Debug, PartialEq, Eq, Structural)]
pub enum ApiError {
    /// The path segment is not a 20-byte hex address.
    InvalidAddress,
    /// No endpoint URL is configured.
    Configuration,
    /// The endpoint could not be reached, or the handshake failed.
    Connection,
    /// The node answered with an error, or the connection dropped mid-call.
    Rpc,
    /// The node did not answer within the allotted time.
    Timeout,
}

/// The status of a successful reply.
pub const STATUS_OK: u16 = 200;

impl ApiError {
    pub open spec fn spec_status(self) -> u16 {
        match self {
            ApiError::InvalidAddress => 400,
            ApiError::Configuration => 500,
            ApiError::Connection => 502,
            ApiError::Rpc => 502,
            ApiError::Timeout => 504,
        }
    }

    pub open spec fn spec_message(self) -> Seq<char> {
        match self {
            ApiError::InvalidAddress => "invalid address: expected 40 hex digits"@,
            ApiError::Configuration => "no RPC endpoint is configured"@,
            ApiError::Connection => "could not connect to the RPC endpoint"@,
            ApiError::Rpc => "the RPC call failed"@,
            ApiError::Timeout => "the RPC call timed out"@,
        }
    }

    /// The HTTP status that reports this failure.
    pub fn status(&self) -> (r: u16)
        ensures
            r == self.spec_status(),
    {
        match self {
            ApiError::InvalidAddress => 400,
            ApiError::Configuration => 500,
            ApiError::Connection => 502,
            ApiError::Rpc => 502,
            ApiError::Timeout => 504,
        }
    }

    /// A short diagnostic for the client.
    pub fn message(&self) -> (r: &'static str)
        ensures
            r@ == self.spec_message(),
    {
        match self {
            ApiError::InvalidAddress => "invalid address: expected 40 hex digits",
            ApiError::Configuration => "no RPC endpoint is configured",
            ApiError::Connection => "could not connect to the RPC endpoint",
            ApiError::Rpc => "the RPC call failed",
            ApiError::Timeout => "the RPC call timed out",
        }
    }
}

/// A malformed address is the client's fault: its status is in the 4xx range.
/// Every other failure is on the server's side or beyond it: 5xx.
pub proof fn lemma_status_classes(e: ApiError)
    ensures
        e == ApiError::InvalidAddress ==> 400 <= e.spec_status() < 500,
        e != ApiError::InvalidAddress ==> 500 <= e.spec_status() < 600,
{
}

} // verus!

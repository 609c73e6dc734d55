use vstd::prelude::*;

verus! {

/// The error taxonomy of the dashboard.
///
/// `Connection` covers an unreachable feed or API endpoint and non-success
/// answers; `Decode` a malformed payload; `ChannelClosed` a producer that
/// disconnected unexpectedly; `Config` a missing required configuration key.
#[derive(Clone, Copy, PartialEq, Eq, Structural, Debug)]
pub enum AppError {
    Connection,
    Decode,
    ChannelClosed,
    Config,
}

impl AppError {
    /// A short human-readable description of the error.
    pub fn message(&self) -> (r: &'static str)
        ensures
            *self is Connection ==> r@ == "connection failed"@,
            *self is Decode ==> r@ == "malformed payload"@,
            *self is ChannelClosed ==> r@ == "event source closed"@,
            *self is Config ==> r@ == "missing required configuration key"@,
    {
        match self {
            AppError::Connection => "connection failed",
            AppError::Decode => "malformed payload",
            AppError::ChannelClosed => "event source closed",
            AppError::Config => "missing required configuration key",
        }
    }
}

} // verus!

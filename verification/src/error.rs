use vstd::prelude::*;

verus! {

/// Errors reported while configuring an endpoint or a channel.
#[derive(Debug, Clone, Copy, PartialEq, Eq, Structural)]
pub enum Error {
    /// The bytes given as a URI do not form a valid URI.
    InvalidUri,
    /// The user agent is not a valid header value.
    InvalidUserAgent,
    /// A transport-level failure (connecting, resolving, I/O).
    Transport,
}

impl Error {
    /// A short human readable description of the error.
    pub fn description(&self) -> (r: &'static str)
        ensures
            r@ == match *self {
                Error::InvalidUri => "invalid URI"@,
                Error::InvalidUserAgent => "user agent is not a valid header value"@,
                Error::Transport => "transport error"@,
            },
    {
        match self {
            Error::InvalidUri => "invalid URI",
            Error::InvalidUserAgent => "user agent is not a valid header value",
            Error::Transport => "transport error",
        }
    }
}

} // verus!

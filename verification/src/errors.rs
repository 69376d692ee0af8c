use vstd::prelude::*;
use vstd::string::StringExecFns;

verus! {

/// The ways in which running a peer can fail; each carries a description.
pub enum PeerError {
    ReadConfig(String),
    ParseServerAddressError(String),
    CannotStartServer(String),
    Other(String),
}

/// The text that describes an error: a fixed prefix for its kind, then its
/// description.
pub open spec fn error_text(e: PeerError) -> Seq<char> {
    match e {
        PeerError::ReadConfig(s) => "config reading error: "@ + s@,
        PeerError::ParseServerAddressError(s) => "server address parsing error: "@ + s@,
        PeerError::Other(s) => "unknown error: "@ + s@,
        PeerError::CannotStartServer(s) => "can't start server error: "@ + s@,
    }
}

impl PeerError {
    /// The text by which the error is shown to a user.
    pub fn message(&self) -> (text: String)
        ensures
            text@ == error_text(*self),
    {
        match self {
            PeerError::ReadConfig(s) => String::from_str("config reading error: ").concat(s.as_str()),
            PeerError::ParseServerAddressError(s) => String::from_str(
                "server address parsing error: ",
            ).concat(s.as_str()),
            PeerError::Other(s) => String::from_str("unknown error: ").concat(s.as_str()),
            PeerError::CannotStartServer(s) => String::from_str("can't start server error: ").concat(
                s.as_str(),
            ),
        }
    }
}

} // verus!

//! The errors that the session core reports.

use vstd::prelude::*;
use vstd::string::StringExecFns;

verus! {

/// A field whose absence stops an operation.
#[derive(Clone, Copy, Debug, PartialEq, Eq, Structural)]
pub enum Field {
    /// The session key of the highway transfer channel.
    HighwaySessionKey,
    /// The address to download from.
    DownloadAddress,
    /// The port to download from.
    DownloadPort,
}

/// Why an operation of the session core did not succeed.
#[derive(Clone, Copy, Debug, PartialEq, Eq, Structural)]
pub enum RQError {
    /// The caller's input breaks a local rule; nothing was sent.
    Validation,
    /// A response does not fit the request it answers.
    ProtocolMismatch,
    /// Something the operation needs is absent.
    MissingField(Field),
    /// The transport, or the decoding of what it delivered, failed.
    Transport,
    /// The operation ends in a step that is not designed yet.
    Unimplemented,
}

impl Field {
    /// The name of the field.
    pub open spec fn spec_name(self) -> Seq<char> {
        match self {
            Field::HighwaySessionKey => "highway_session_key"@,
            Field::DownloadAddress => "down_ip"@,
            Field::DownloadPort => "down_port"@,
        }
    }

    /// The name of the field.
    pub fn name(self) -> (s: &'static str)
        ensures
            s@ == self.spec_name(),
    {
        match self {
            Field::HighwaySessionKey => "highway_session_key",
            Field::DownloadAddress => "down_ip",
            Field::DownloadPort => "down_port",
        }
    }
}

impl RQError {
    /// The error in words.
    pub open spec fn spec_describe(self) -> Seq<char> {
        match self {
            RQError::Validation => "invalid input"@,
            RQError::ProtocolMismatch => "response does not fit the request"@,
            RQError::MissingField(field) => "missing field: "@ + field.spec_name(),
            RQError::Transport => "transport failure"@,
            RQError::Unimplemented => "not implemented"@,
        }
    }

    /// Writes the error in words.
    pub fn describe(&self) -> (s: String)
        ensures
            s@ == self.spec_describe(),
    {
        match self {
            RQError::Validation => String::from_str("invalid input"),
            RQError::ProtocolMismatch => String::from_str("response does not fit the request"),
            RQError::MissingField(field) => {
                let mut s = String::from_str("missing field: ");
                s.append(field.name());
                s
            },
            RQError::Transport => String::from_str("transport failure"),
            RQError::Unimplemented => String::from_str("not implemented"),
        }
    }
}

/// The result of an operation of the session core.
pub type RQResult<T> = Result<T, RQError>;

} // verus!

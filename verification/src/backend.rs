//! Failures of the connection to the inference backend.
//!
//! The backend is reached through one master control socket behind which
//! any number of shards stand.  Attaching and resetting are all-or-nothing:
//! the caller reports one outcome for all shards together.

use vstd::prelude::*;
use vstd::string::*;

verus! {

/// How an attempt to connect failed.
#[derive(Clone, Copy, Debug, PartialEq, Eq, Structural)]
pub enum ConnectFailure {
    /// The master control socket could not be reached.
    Unreachable,
    /// The socket answered, and shard discovery or attachment failed.
    HandshakeFailed,
}

/// Why there is no clean backend connection.  Each variant keeps the
/// underlying cause for the diagnostic line.
#[derive(Debug, PartialEq, Eq)]
pub enum ConnectionError {
    /// The master control socket could not be reached.
    Unreachable { cause: String },
    /// Not every shard could be discovered and attached.
    HandshakeFailed { cause: String },
    /// Not every shard acknowledged the cache reset.
    ResetFailed { cause: String },
}

/// Mathematical model of a [`ConnectionError`].
pub enum ConnectionErrorView {
    Unreachable { cause: Seq<char> },
    HandshakeFailed { cause: Seq<char> },
    ResetFailed { cause: Seq<char> },
}

impl ConnectionErrorView {
    /// The text of the error: what failed, then the underlying cause.
    pub open spec fn text(self) -> Seq<char> {
        match self {
            ConnectionErrorView::Unreachable { cause } => "backend unreachable: "@ + cause,
            ConnectionErrorView::HandshakeFailed { cause } => "backend handshake failed: "@
                + cause,
            ConnectionErrorView::ResetFailed { cause } => "cache reset failed: "@ + cause,
        }
    }
}

impl View for ConnectionError {
    type V = ConnectionErrorView;

    open spec fn view(&self) -> ConnectionErrorView {
        match self {
            ConnectionError::Unreachable { cause } => ConnectionErrorView::Unreachable {
                cause: cause@,
            },
            ConnectionError::HandshakeFailed { cause } => ConnectionErrorView::HandshakeFailed {
                cause: cause@,
            },
            ConnectionError::ResetFailed { cause } => ConnectionErrorView::ResetFailed {
                cause: cause@,
            },
        }
    }
}

/// The error that a failed connect stands for.
pub open spec fn connect_failure(kind: ConnectFailure, cause: Seq<char>) -> ConnectionErrorView {
    match kind {
        ConnectFailure::Unreachable => ConnectionErrorView::Unreachable { cause },
        ConnectFailure::HandshakeFailed => ConnectionErrorView::HandshakeFailed { cause },
    }
}

impl ConnectionError {
    /// The error of a failed connect, with its cause kept as it is.
    pub fn from_connect(kind: ConnectFailure, cause: String) -> (error: ConnectionError)
        ensures
            error@ == connect_failure(kind, cause@),
    {
        match kind {
            ConnectFailure::Unreachable => ConnectionError::Unreachable { cause },
            ConnectFailure::HandshakeFailed => ConnectionError::HandshakeFailed { cause },
        }
    }

    /// The text of the error, for the diagnostic line.
    pub fn message(&self) -> (text: String)
        ensures
            text@ == self@.text(),
    {
        match self {
            ConnectionError::Unreachable { cause } => String::from_str(
                "backend unreachable: ",
            ).concat(cause.as_str()),
            ConnectionError::HandshakeFailed { cause } => String::from_str(
                "backend handshake failed: ",
            ).concat(cause.as_str()),
            ConnectionError::ResetFailed { cause } => String::from_str(
                "cache reset failed: ",
            ).concat(cause.as_str()),
        }
    }
}

} // verus!

//! The unified error taxonomy: every native-subsystem failure is converted into
//! one structured type carrying a human-readable message and, where the native
//! layer distinguishes it, the originating category.

use vstd::prelude::*;

verus! {

/// The category of a native-subsystem failure.
#[derive(Debug, PartialEq)]
pub enum ErrorKind {
    /// A native failure reported only as a message, with no finer category.
    Msg(String),
    /// The native notification center could not schedule or deliver the request.
    Notification(String),
    /// The identity under which the notification was sent is invalid or could
    /// not be registered.
    Application(String),
}

/// The one error shape surfaced to callers of this layer.
#[derive(Debug, PartialEq)]
pub struct Error {
    /// The originating category together with its diagnostic message.
    pub kind: ErrorKind,
}

impl Error {
    /// Wraps a failure category into the unified error shape.
    pub fn from_kind(kind: ErrorKind) -> (r: Error)
        ensures
            r.kind == kind,
    {
        Error { kind }
    }

    /// The diagnostic message carried by this error.
    pub fn message(&self) -> (r: &String)
        ensures
            *r == self.spec_message(),
    {
        match &self.kind {
            ErrorKind::Msg(m) => m,
            ErrorKind::Notification(m) => m,
            ErrorKind::Application(m) => m,
        }
    }
}

impl Error {
    /// The message that [`Error::message`] returns, independent of the category.
    pub open spec fn spec_message(&self) -> String {
        match self.kind {
            ErrorKind::Msg(m) => m,
            ErrorKind::Notification(m) => m,
            ErrorKind::Application(m) => m,
        }
    }
}

} // verus!

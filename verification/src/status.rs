//! Transient status messages shown to the user: at most one is
//! visible at a time; setting replaces it, clearing removes it.

use vstd::prelude::*;

verus! {

/// An informational notice about an operation in progress.
#[derive(Clone, Copy, Debug, PartialEq, Eq, Structural)]
pub enum InfoStatusMessage {
    Authenticating,
    LoggingIn,
}

/// A user-visible error notice.
#[derive(Clone, Copy, Debug, PartialEq, Eq, Structural)]
pub enum ErrorStatusMessage {
    /// The credentials were rejected.
    AuthenticationError,
    /// No environment is selected, so nothing can be started.
    NoGraphicalEnvironment,
    /// The credentials were valid, but the environment failed to start.
    FailedGraphicalEnvironment,
}

/// A transient, user-visible notice: informational or an error.
#[derive(Clone, Copy, Debug, PartialEq, Eq, Structural)]
pub enum StatusMessage {
    Info(InfoStatusMessage),
    Error(ErrorStatusMessage),
}

/// Holds the status message of the login form, if one is visible.
pub struct LoginFormStatusMessage {
    pub message: Option<StatusMessage>,
}

impl LoginFormStatusMessage {
    /// A fresh holder: no message is visible.
    pub fn new() -> (r: Self)
        ensures
            r.message is None,
    {
        Self { message: None }
    }

    pub fn get(&self) -> (r: Option<StatusMessage>)
        ensures
            r == self.message,
    {
        self.message
    }

    /// Remove the visible message, if any.
    pub fn clear(&mut self)
        ensures
            final(self).message is None,
    {
        self.message = None;
    }

    /// Show `message`, replacing whatever was visible.
    pub fn set(&mut self, message: StatusMessage)
        ensures
            final(self).message == Some(message),
    {
        self.message = Some(message);
    }
}

} // verus!

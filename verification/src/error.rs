//! What can go wrong in a tick. Nothing here is fatal: every failure leaves the
//! state unattached, and the next tick tries again.

use vstd::prelude::*;

verus! {

/// The fields polled from the game's memory.
#[derive(Clone, Copy, Debug, PartialEq, Eq, Structural)]
pub enum Field {
    MissionIndex,
    MenuState,
    IsLoading,
    LevelTime,
    Difficulty,
    CutsceneName,
}

/// Why no session with the game could be had.
#[derive(Clone, Copy, Debug, PartialEq, Eq, Structural)]
pub enum AttachCause {
    /// No process of the game was found, or attaching to it failed.
    ProcessNotFound,
    /// The process was found, but not the address of its main module.
    ModuleNotFound,
    /// Values read from a process were offered while no process was attached.
    NotAttached,
}

/// The failures a tick can end in.
#[derive(Clone, Copy, Debug, PartialEq, Eq, Structural)]
pub enum Error {
    /// No session was established, or none exists.
    AttachFailure { cause: AttachCause },
    /// Reading `field` from the process failed.
    ReadFailure { field: Field },
    /// The cutscene name read from the process is not valid UTF-8.
    DecodeFailure,
}

impl Error {
    /// The text of [`Error::message`].
    pub open spec fn spec_message(self) -> Seq<char> {
        match self {
            Error::AttachFailure { cause: AttachCause::ProcessNotFound } =>
                "Process not found or failed to attach."@,
            Error::AttachFailure { cause: AttachCause::ModuleNotFound } =>
                "Failed to get main module address."@,
            Error::AttachFailure { cause: AttachCause::NotAttached } =>
                "Could not load main process."@,
            Error::ReadFailure { .. } => "Failed to update value from memory."@,
            Error::DecodeFailure => "Failed to convert cstring to string."@,
        }
    }

    /// The cause in words, for the driver's diagnostics.
    pub fn message(&self) -> (text: &'static str)
        ensures
            text@ == self.spec_message(),
    {
        match self {
            Error::AttachFailure { cause: AttachCause::ProcessNotFound } =>
                "Process not found or failed to attach.",
            Error::AttachFailure { cause: AttachCause::ModuleNotFound } =>
                "Failed to get main module address.",
            Error::AttachFailure { cause: AttachCause::NotAttached } =>
                "Could not load main process.",
            Error::ReadFailure { .. } => "Failed to update value from memory.",
            Error::DecodeFailure => "Failed to convert cstring to string.",
        }
    }
}

} // verus!

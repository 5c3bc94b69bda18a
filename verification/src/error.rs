//! What a command can fail with, and the text of each failure.

use crate::decimal::{decimal_string, decimal_text};
use vstd::prelude::*;
use vstd::string::StringExecFns;

verus! {

/// The calls to the pseudo-terminal provider that set a session up, in the
/// order in which a spawn makes them.
#[derive(Clone, Copy, Debug, PartialEq, Eq, Structural)]
pub enum ProvisionStep {
    /// Open a pseudo-terminal pair of the requested size.
    OpenPty,
    /// Start the shell on the subordinate side of the pair.
    SpawnShell,
    /// Obtain a reader of the controlling side.
    CloneReader,
    /// Obtain the writer of the controlling side.
    TakeWriter,
}

/// The calls on a live session's handles.
#[derive(Clone, Copy, Debug, PartialEq, Eq, Structural)]
pub enum IoCall {
    /// Write bytes to the shell's input.
    Write,
    /// Flush the shell's input.
    Flush,
    /// Change the terminal's geometry.
    Resize,
}

/// The failure of a command.
#[derive(Debug, PartialEq, Eq)]
pub enum TerminalError {
    /// Setting a session up failed at `step`; no session was created.
    Provisioning { step: ProvisionStep, detail: String },
    /// No live session has the identifier.
    SessionNotFound { session_id: u32 },
    /// `call` failed on a live session.
    Io { call: IoCall, detail: String },
}

/// What the text of a provisioning failure at `step` starts with.
pub open spec fn provision_prefix(step: ProvisionStep) -> Seq<char> {
    match step {
        ProvisionStep::OpenPty => "Failed to open PTY: "@,
        ProvisionStep::SpawnShell => "Failed to spawn shell: "@,
        ProvisionStep::CloneReader => "Failed to clone reader: "@,
        ProvisionStep::TakeWriter => "Failed to take writer: "@,
    }
}

/// What the text of a failure of `call` on a live session starts with.
pub open spec fn io_prefix(call: IoCall) -> Seq<char> {
    match call {
        IoCall::Write => "Failed to write to terminal: "@,
        IoCall::Flush => "Failed to flush terminal: "@,
        IoCall::Resize => "Failed to resize terminal: "@,
    }
}

/// The text of the failure to find the session `session_id`.
pub open spec fn not_found_text(session_id: u32) -> Seq<char> {
    "Terminal session "@ + decimal_text(session_id as nat) + " not found"@
}

impl TerminalError {
    /// The text of the failure: what failed, then what the provider said of
    /// it, or which session was not found.
    pub open spec fn message_text(&self) -> Seq<char> {
        match self {
            TerminalError::Provisioning { step, detail } => provision_prefix(*step) + detail@,
            TerminalError::SessionNotFound { session_id } => not_found_text(*session_id),
            TerminalError::Io { call, detail } => io_prefix(*call) + detail@,
        }
    }

    /// The text of the failure.
    pub fn message(&self) -> (text: String)
        ensures
            text@ == self.message_text(),
    {
        match self {
            TerminalError::Provisioning { step, detail } => {
                let prefix = match step {
                    ProvisionStep::OpenPty => "Failed to open PTY: ",
                    ProvisionStep::SpawnShell => "Failed to spawn shell: ",
                    ProvisionStep::CloneReader => "Failed to clone reader: ",
                    ProvisionStep::TakeWriter => "Failed to take writer: ",
                };
                String::from_str(prefix).concat(detail.as_str())
            },
            TerminalError::SessionNotFound { session_id } => {
                let number = decimal_string(*session_id);
                String::from_str("Terminal session ").concat(number.as_str()).concat(" not found")
            },
            TerminalError::Io { call, detail } => {
                let prefix = match call {
                    IoCall::Write => "Failed to write to terminal: ",
                    IoCall::Flush => "Failed to flush terminal: ",
                    IoCall::Resize => "Failed to resize terminal: ",
                };
                String::from_str(prefix).concat(detail.as_str())
            },
        }
    }
}

} // verus!

//! A manager of pseudo-terminal shell sessions.
//!
//! The crate holds the rules of the manager: which identifier a new session
//! gets, which sessions are live, what each command answers, what a session's
//! output pump publishes and when a session ends. The operating system's
//! pseudo-terminals and the event transport stay with the caller, who performs
//! the steps that the functions here decide on and reports how they went.

pub mod commands;
pub mod decimal;
pub mod error;
pub mod ident;
pub mod laws;
pub mod pump;
pub mod request;
pub mod spawn;
pub mod table;

pub use commands::{
    io_advance, kill_terminal, list_terminals, release_session, resize_terminal, write_terminal,
    IoProgress, ResizeRequest, WriteRequest,
};
pub use error::{IoCall, ProvisionStep, TerminalError};
pub use ident::SessionCounter;
pub use pump::{
    exit_code, exit_event, output_event, OutputPump, PumpAction, PumpEvent, PumpPhase,
    TerminalExit, TerminalOutput,
};
pub use request::{spawn_request, PtyGeometry, ShellCommand, SpawnRequest};
pub use spawn::{spawn_terminal, Provisioning};
pub use table::{PtySession, TerminalState};

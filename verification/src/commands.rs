//! The commands on live sessions: write, resize, kill and list.
//!
//! A command that needs the provider looks the session up and says what is
//! to be asked of it; the calls themselves are the caller's, who reports each
//! outcome and learns what follows.

use crate::error::{IoCall, TerminalError};
use crate::request::{cell_geometry, PtyGeometry};
use crate::table::{PtySession, TerminalState};
use vstd::prelude::*;
use vstd::string::StrSliceExecFns;
use vstd::utf8::encode_utf8;

verus! {

/// What a write asks of the provider: `bytes` are to be written to the
/// writer of `session`, and the writer flushed.
pub struct WriteRequest<'a, W, M> {
    pub session: &'a PtySession<W, M>,
    pub bytes: Vec<u8>,
}

/// What a resize asks of the provider: the terminal of `session` is to get
/// the geometry `geometry`.
pub struct ResizeRequest<'a, W, M> {
    pub session: &'a PtySession<W, M>,
    pub geometry: PtyGeometry,
}

/// Where a command on a live session stands.
#[derive(Debug, PartialEq, Eq)]
pub enum IoProgress {
    /// This call is due.
    Call(IoCall),
    /// All calls went well: the command succeeds.
    Done,
    /// A call failed: the command fails with `error`.
    Failed { error: TerminalError },
}

/// The call that follows `call` in its command, if one does: a write is
/// followed by a flush.
pub open spec fn call_after(call: IoCall) -> Option<IoCall> {
    match call {
        IoCall::Write => Some(IoCall::Flush),
        IoCall::Flush => None,
        IoCall::Resize => None,
    }
}

/// Where a command stands once `call` has ended with `outcome`: at the next
/// call or at its end where the call went well, and failed where it did not.
/// Nothing is tried again.
pub open spec fn progress_after(call: IoCall, outcome: Result<(), String>) -> IoProgress {
    match outcome {
        Err(detail) => IoProgress::Failed { error: TerminalError::Io { call, detail } },
        Ok(_) => match call_after(call) {
            Some(next) => IoProgress::Call(next),
            None => IoProgress::Done,
        },
    }
}

/// Takes the outcome of `call` and tells where the command stands.
pub fn io_advance(call: IoCall, outcome: Result<(), String>) -> (progress: IoProgress)
    ensures
        progress == progress_after(call, outcome),
{
    match outcome {
        Err(detail) => IoProgress::Failed { error: TerminalError::Io { call, detail } },
        Ok(_) => match call {
            IoCall::Write => IoProgress::Call(IoCall::Flush),
            IoCall::Flush => IoProgress::Done,
            IoCall::Resize => IoProgress::Done,
        },
    }
}

/// The result of a command whose calls have ended with `outcomes`, starting
/// with `call`: `None` as long as a call is due.
pub open spec fn command_result(call: IoCall, outcomes: Seq<Result<(), String>>) -> Option<
    Result<(), TerminalError>,
>
    decreases outcomes.len(),
{
    if outcomes.len() == 0 {
        None
    } else {
        match progress_after(call, outcomes[0]) {
            IoProgress::Call(next) => command_result(next, outcomes.drop_first()),
            IoProgress::Done => Some(Ok(())),
            IoProgress::Failed { error } => Some(Err(error)),
        }
    }
}

/// What a command on the session `session_id` fails with before it asks
/// anything of the provider, where the live sessions are `live`: nothing
/// where the session is live, and `SessionNotFound` where it is not.
pub open spec fn lookup_failure(live: Set<u32>, session_id: u32) -> Option<TerminalError> {
    if live.contains(session_id) {
        None
    } else {
        Some(TerminalError::SessionNotFound { session_id })
    }
}

/// Looks up the session to write `data` to.
///
/// Fails with `SessionNotFound` if and only if no live session has the
/// identifier. Otherwise the bytes of `data` are to be written to the
/// session's writer as they are, and the writer flushed at once; where
/// either call fails the command fails with `Io`.
pub fn write_terminal<'a, W, M>(
    state: &'a TerminalState<W, M>,
    session_id: u32,
    data: &str,
) -> (request: Result<WriteRequest<'a, W, M>, TerminalError>)
    ensures
        match request {
            Ok(write) => {
                &&& lookup_failure(state.live(), session_id) is None
                &&& *write.session == state@[session_id]
                &&& write.bytes@ == encode_utf8(data@)
            },
            Err(error) => lookup_failure(state.live(), session_id) == Some(error),
        },
{
    match state.get(session_id) {
        Some(session) => Ok(WriteRequest { session, bytes: data.as_bytes_vec() }),
        None => Err(TerminalError::SessionNotFound { session_id }),
    }
}

/// Looks up the session whose terminal is to be resized.
///
/// Fails with `SessionNotFound` if and only if no live session has the
/// identifier. Otherwise the terminal is to get `cols` columns and `rows`
/// rows, with pixel sizes of zero; where that call fails the command fails
/// with `Io`.
pub fn resize_terminal<'a, W, M>(
    state: &'a TerminalState<W, M>,
    session_id: u32,
    cols: u16,
    rows: u16,
) -> (request: Result<ResizeRequest<'a, W, M>, TerminalError>)
    ensures
        match request {
            Ok(resize) => {
                &&& lookup_failure(state.live(), session_id) is None
                &&& *resize.session == state@[session_id]
                &&& resize.geometry == cell_geometry(cols, rows)
            },
            Err(error) => lookup_failure(state.live(), session_id) == Some(error),
        },
{
    match state.get(session_id) {
        Some(session) => Ok(ResizeRequest { session, geometry: PtyGeometry::cells(cols, rows) }),
        None => Err(TerminalError::SessionNotFound { session_id }),
    }
}

/// Takes the session `session_id` out of the table, letting go of its
/// handles, and tells whether it was there. The other sessions stay.
///
/// Both the kill command and the pump's cleanup end a session this way:
/// whichever comes first finds the session, the other finds none and changes
/// nothing.
pub fn release_session<W, M>(state: &mut TerminalState<W, M>, session_id: u32) -> (was_live: bool)
    ensures
        was_live == old(state).live().contains(session_id),
        final(state)@ == old(state)@.remove(session_id),
        final(state).live() == old(state).live().remove(session_id),
{
    state.remove(session_id).is_some()
}

/// Ends the session `session_id`.
///
/// Fails with `SessionNotFound` if and only if no live session has the
/// identifier, and then changes nothing. Otherwise the session leaves the
/// table and its handles are let go of; the shell is not waited for, and no
/// exit event comes of the kill itself.
pub fn kill_terminal<W, M>(state: &mut TerminalState<W, M>, session_id: u32) -> (result: Result<
    (),
    TerminalError,
>)
    ensures
        final(state)@ == old(state)@.remove(session_id),
        final(state).live() == old(state).live().remove(session_id),
        match result {
            Ok(_) => lookup_failure(old(state).live(), session_id) is None,
            Err(error) => {
                &&& lookup_failure(old(state).live(), session_id) == Some(error)
                &&& final(state)@ == old(state)@
            },
        },
{
    if release_session(state, session_id) {
        Ok(())
    } else {
        assert(final(state)@ =~= old(state)@);
        Err(TerminalError::SessionNotFound { session_id })
    }
}

/// The identifiers of the live sessions, each once, in no particular order.
pub fn list_terminals<W, M>(state: &TerminalState<W, M>) -> (ids: Vec<u32>)
    ensures
        ids@.to_set() == state.live(),
        ids@.no_duplicates(),
        forall|session_id: u32| ids@.contains(session_id) <==> state.live().contains(session_id),
{
    let ids = state.ids();
    assert forall|session_id: u32| ids@.contains(session_id) <==> state.live().contains(
        session_id,
    ) by {
        assert(ids@.to_set().contains(session_id) <==> ids@.contains(session_id));
    }
    ids
}

/// A write succeeds where the write and the flush after it both went well.
/// It fails with the failure of the write, after which nothing is flushed,
/// or else with that of the flush.
pub proof fn law_write_then_flush(written: Result<(), String>, flushed: Result<(), String>)
    ensures
        command_result(IoCall::Write, seq![written]) == match written {
            Ok(_) => None::<Result<(), TerminalError>>,
            Err(detail) => Some(Err(TerminalError::Io { call: IoCall::Write, detail })),
        },
        command_result(IoCall::Write, seq![written, flushed]) == Some(
            match (written, flushed) {
                (Err(detail), _) => Err(TerminalError::Io { call: IoCall::Write, detail }),
                (Ok(_), Err(detail)) => Err(TerminalError::Io { call: IoCall::Flush, detail }),
                (Ok(_), Ok(_)) => Ok(()),
            },
        ),
{
    reveal_with_fuel(command_result, 3);
    assert(seq![written, flushed].drop_first() =~= seq![flushed]);
}

/// A resize is one call: it succeeds where the call went well and fails with
/// its failure where it did not.
pub proof fn law_resize_is_one_call(resized: Result<(), String>)
    ensures
        command_result(IoCall::Resize, seq![resized]) == Some(
            match resized {
                Ok(_) => Ok(()),
                Err(detail) => Err(TerminalError::Io { call: IoCall::Resize, detail }),
            },
        ),
{
    reveal_with_fuel(command_result, 2);
}

/// A command on a session that the list does not hold fails with
/// `SessionNotFound`, and one on a session that it holds does not.
pub proof fn law_unlisted_session_not_found(live: Set<u32>, listed: Seq<u32>, session_id: u32)
    requires
        listed.to_set() == live,
    ensures
        !listed.contains(session_id) ==> lookup_failure(live, session_id) == Some(
            TerminalError::SessionNotFound { session_id },
        ),
        listed.contains(session_id) ==> lookup_failure(live, session_id) is None,
{
    assert(listed.to_set().contains(session_id) <==> listed.contains(session_id));
}

} // verus!

//! How a session is set up: the calls to the provider in their order, the
//! point at which the session gets its identifier, and what a failure does.

use crate::error::{ProvisionStep, TerminalError};
use crate::ident::{id_at, SessionCounter};
use crate::pump::{OutputPump, PumpPhase};
use crate::table::{PtySession, TerminalState};
use vstd::prelude::*;

verus! {

/// Where the setting up of a session stands.
///
/// The shell is started before the session gets its identifier, and the
/// handles of the terminal are obtained after it: a failure to obtain them
/// leaves the identifier used up and no session behind.
#[derive(Debug, PartialEq, Eq)]
pub enum Provisioning {
    /// The pseudo-terminal is to be opened.
    OpenPty,
    /// The shell is to be started.
    SpawnShell,
    /// The shell runs and the session has its identifier; the reader is to be
    /// obtained.
    CloneReader { session_id: u32 },
    /// The writer is to be obtained.
    TakeWriter { session_id: u32 },
    /// All calls went well: the session can be put into the table.
    Ready { session_id: u32 },
    /// A call failed: there is no session.
    Failed { error: TerminalError },
}

impl Provisioning {
    /// The call to the provider that is due, if one is.
    pub open spec fn due(&self) -> Option<ProvisionStep> {
        match self {
            Provisioning::OpenPty => Some(ProvisionStep::OpenPty),
            Provisioning::SpawnShell => Some(ProvisionStep::SpawnShell),
            Provisioning::CloneReader { .. } => Some(ProvisionStep::CloneReader),
            Provisioning::TakeWriter { .. } => Some(ProvisionStep::TakeWriter),
            Provisioning::Ready { .. } => None,
            Provisioning::Failed { .. } => None,
        }
    }

    /// Whether an identifier is issued when the call that is due goes well.
    pub open spec fn issues_identifier(&self, outcome: Result<(), String>) -> bool {
        self is SpawnShell && outcome is Ok
    }

    /// Where the setting up stands once the call that was due has ended with
    /// `outcome`, where `fresh` is the identifier that is issued next.
    ///
    /// A call that went well leads to the next one, and the last one to
    /// `Ready`; a call that failed leads to `Failed`, with the call and what
    /// the provider said of it. Where no call was due, nothing changes.
    pub open spec fn after(self, outcome: Result<(), String>, fresh: u32) -> Provisioning {
        match self.due() {
            None => self,
            Some(step) => match outcome {
                Err(detail) => Provisioning::Failed {
                    error: TerminalError::Provisioning { step, detail },
                },
                Ok(_) => match self {
                    Provisioning::OpenPty => Provisioning::SpawnShell,
                    Provisioning::SpawnShell => Provisioning::CloneReader { session_id: fresh },
                    Provisioning::CloneReader { session_id } => Provisioning::TakeWriter {
                        session_id,
                    },
                    Provisioning::TakeWriter { session_id } => Provisioning::Ready { session_id },
                    _ => self,
                },
            },
        }
    }

    /// The start: nothing has been asked of the provider yet.
    pub fn begin() -> (start: Provisioning)
        ensures
            start == Provisioning::OpenPty,
    {
        Provisioning::OpenPty
    }

    /// The call to the provider that is due, if one is.
    pub fn pending(&self) -> (step: Option<ProvisionStep>)
        ensures
            step == self.due(),
    {
        match self {
            Provisioning::OpenPty => Some(ProvisionStep::OpenPty),
            Provisioning::SpawnShell => Some(ProvisionStep::SpawnShell),
            Provisioning::CloneReader { .. } => Some(ProvisionStep::CloneReader),
            Provisioning::TakeWriter { .. } => Some(ProvisionStep::TakeWriter),
            Provisioning::Ready { .. } => None,
            Provisioning::Failed { .. } => None,
        }
    }

    /// Takes the outcome of the call that was due. Once the shell is started
    /// the session's identifier is taken from `counter`; no other outcome
    /// touches the counter.
    pub fn advance(self, outcome: Result<(), String>, counter: &mut SessionCounter) -> (next:
        Provisioning)
        ensures
            next == self.after(outcome, id_at(old(counter).issued())),
            final(counter).issued() == old(counter).issued() + if self.issues_identifier(outcome) {
                1nat
            } else {
                0nat
            },
    {
        match self {
            Provisioning::OpenPty => match outcome {
                Ok(_) => Provisioning::SpawnShell,
                Err(detail) => Provisioning::Failed {
                    error: TerminalError::Provisioning { step: ProvisionStep::OpenPty, detail },
                },
            },
            Provisioning::SpawnShell => match outcome {
                Ok(_) => {
                    let session_id = counter.allocate();
                    Provisioning::CloneReader { session_id }
                },
                Err(detail) => Provisioning::Failed {
                    error: TerminalError::Provisioning { step: ProvisionStep::SpawnShell, detail },
                },
            },
            Provisioning::CloneReader { session_id } => match outcome {
                Ok(_) => Provisioning::TakeWriter { session_id },
                Err(detail) => Provisioning::Failed {
                    error: TerminalError::Provisioning { step: ProvisionStep::CloneReader, detail },
                },
            },
            Provisioning::TakeWriter { session_id } => match outcome {
                Ok(_) => Provisioning::Ready { session_id },
                Err(detail) => Provisioning::Failed {
                    error: TerminalError::Provisioning { step: ProvisionStep::TakeWriter, detail },
                },
            },
            Provisioning::Ready { session_id } => Provisioning::Ready { session_id },
            Provisioning::Failed { error } => Provisioning::Failed { error },
        }
    }
}

/// Puts the session that was set up under `session_id` into the table and
/// starts its pump: the pump that is handed back is running, and relays the
/// output of this session.
pub fn spawn_terminal<W, M>(
    state: &mut TerminalState<W, M>,
    session_id: u32,
    session: PtySession<W, M>,
) -> (pump: OutputPump)
    ensures
        final(state)@ == old(state)@.insert(session_id, session),
        final(state).live() == old(state).live().insert(session_id),
        pump.spec_session_id() == session_id,
        pump.spec_phase() == PumpPhase::Reading,
{
    let _ = state.insert(session_id, session);
    OutputPump::new(session_id)
}

/// Where the setting up stands after the calls that were due in turn have
/// ended with `outcomes`, where `issued` identifiers had gone out before.
pub open spec fn provisioning_after(
    start: Provisioning,
    outcomes: Seq<Result<(), String>>,
    issued: nat,
) -> Provisioning
    decreases outcomes.len(),
{
    if outcomes.len() == 0 {
        start
    } else {
        let before = outcomes.drop_last();
        provisioning_after(start, before, issued).after(
            outcomes.last(),
            id_at(issued_after(start, before, issued)),
        )
    }
}

/// How many identifiers have gone out after the calls that were due in turn
/// have ended with `outcomes`, where `issued` had gone out before.
pub open spec fn issued_after(
    start: Provisioning,
    outcomes: Seq<Result<(), String>>,
    issued: nat,
) -> nat
    decreases outcomes.len(),
{
    if outcomes.len() == 0 {
        issued
    } else {
        let before = outcomes.drop_last();
        issued_after(start, before, issued) + if provisioning_after(
            start,
            before,
            issued,
        ).issues_identifier(outcomes.last()) {
            1nat
        } else {
            0nat
        }
    }
}

/// A session is ready only after all four calls went well, in their order,
/// and then under the identifier that was issued next when the setting up
/// began; and one setting up uses up at most one identifier.
pub proof fn law_ready_after_all_calls(outcomes: Seq<Result<(), String>>, issued: nat)
    ensures
        issued <= issued_after(Provisioning::OpenPty, outcomes, issued) <= issued + 1,
        provisioning_after(Provisioning::OpenPty, outcomes, issued) matches Provisioning::Ready {
            session_id,
        } ==> {
            &&& outcomes.len() >= 4
            &&& forall|i: int| 0 <= i < 4 ==> outcomes[i] is Ok
            &&& session_id == id_at(issued)
            &&& issued_after(Provisioning::OpenPty, outcomes, issued) == issued + 1
        },
        outcomes.len() >= 4 && (forall|i: int| 0 <= i < 4 ==> outcomes[i] is Ok)
            ==> provisioning_after(Provisioning::OpenPty, outcomes, issued) == (
        Provisioning::Ready { session_id: id_at(issued) }),
{
    lemma_provisioning_shape(outcomes, issued);
}

/// Where the setting up stands after some outcomes, by their number and by
/// the first of them that failed.
proof fn lemma_provisioning_shape(outcomes: Seq<Result<(), String>>, issued: nat)
    ensures
        ({
            let state = provisioning_after(Provisioning::OpenPty, outcomes, issued);
            let count = issued_after(Provisioning::OpenPty, outcomes, issued);
            let n = outcomes.len();
            let all_ok = forall|i: int| 0 <= i < n && i < 4 ==> outcomes[i] is Ok;
            &&& all_ok && n == 0 ==> state == Provisioning::OpenPty && count == issued
            &&& all_ok && n == 1 ==> state == Provisioning::SpawnShell && count == issued
            &&& all_ok && n == 2 ==> state == (Provisioning::CloneReader {
                session_id: id_at(issued),
            }) && count == issued + 1
            &&& all_ok && n == 3 ==> state == (Provisioning::TakeWriter {
                session_id: id_at(issued),
            }) && count == issued + 1
            &&& all_ok && n >= 4 ==> state == (Provisioning::Ready { session_id: id_at(issued) })
                && count == issued + 1
            &&& !all_ok ==> state is Failed && issued <= count <= issued + 1
        }),
    decreases outcomes.len(),
{
    if outcomes.len() > 0 {
        let before = outcomes.drop_last();
        lemma_provisioning_shape(before, issued);
        let n = outcomes.len();
        let all_ok = forall|i: int| 0 <= i < n && i < 4 ==> outcomes[i] is Ok;
        let before_ok = forall|i: int| 0 <= i < n - 1 && i < 4 ==> before[i] is Ok;
        assert(forall|i: int| 0 <= i < n - 1 ==> before[i] == outcomes[i]);
        if all_ok {
            assert(before_ok);
            if n <= 4 {
                assert(outcomes[n - 1] is Ok);
            }
        } else {
            if before_ok {
                assert(n <= 4 && !(outcomes[n - 1] is Ok));
            }
        }
    }
}

} // verus!

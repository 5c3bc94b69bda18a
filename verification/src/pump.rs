//! The output pump of a session: what it publishes for what it reads, and
//! how it ends.

use vstd::prelude::*;
use vstd::string::StringExecFns;
use vstd::utf8::{decode_utf8, valid_utf8};

verus! {

/// The character that stands for bytes that are no text.
pub const REPLACEMENT_CHARACTER: char = '\u{FFFD}';

/// The exit code that is reported for a shell that ended well.
pub const EXIT_SUCCESS: u32 = 0;

/// The exit code that is reported for a shell that did not end well, whatever
/// its own code was.
pub const EXIT_FAILURE: u32 = 1;

/// The text that `String::from_utf8_lossy` makes of `bytes`.
pub uninterp spec fn lossy_text(bytes: Seq<u8>) -> Seq<char>;

/// What is known of the text that decoding `bytes` leniently gives: bytes
/// that are UTF-8 give the text they encode, and other bytes give a text with
/// the replacement character in it.
pub open spec fn decodes_to(bytes: Seq<u8>, text: Seq<char>) -> bool {
    &&& valid_utf8(bytes) ==> text == decode_utf8(bytes)
    &&& !valid_utf8(bytes) ==> text.contains(REPLACEMENT_CHARACTER)
}

/// Decodes `bytes` with `String::from_utf8_lossy`, which never fails: bytes
/// that are UTF-8 decode to the text they encode, and in other bytes each
/// malformed sequence becomes the replacement character, so that the text
/// holds at least one.
#[verifier::external_body]
fn decode_lossy(bytes: &[u8]) -> (text: String)
    ensures
        text@ == lossy_text(bytes@),
        valid_utf8(bytes@) ==> text@ == decode_utf8(bytes@),
        !valid_utf8(bytes@) ==> text@.contains(REPLACEMENT_CHARACTER),
{
    String::from_utf8_lossy(bytes).into_owned()
}

/// The event that carries output of a session.
#[derive(Debug, PartialEq, Eq)]
pub struct TerminalOutput {
    pub session_id: u32,
    pub data: String,
}

/// The event that tells that a session has ended. The exit code is absent
/// where the shell's end could not be observed.
#[derive(Clone, Copy, Debug, PartialEq, Eq, Structural)]
pub struct TerminalExit {
    pub session_id: u32,
    pub exit_code: Option<u32>,
}

/// The output event of the session `session_id` with the text `data`.
pub fn output_event(session_id: u32, data: String) -> (event: TerminalOutput)
    ensures
        event.session_id == session_id,
        event.data == data,
{
    TerminalOutput { session_id, data }
}

/// The exit code to report for a shell, where `waited` tells whether the shell
/// ended well, and is `None` where waiting for it failed.
pub open spec fn reported_exit_code(waited: Option<bool>) -> Option<u32> {
    match waited {
        Some(true) => Some(EXIT_SUCCESS),
        Some(false) => Some(EXIT_FAILURE),
        None => None,
    }
}

/// The exit code to report for a shell: zero where it ended well, one where
/// it did not, none where waiting for it failed.
pub fn exit_code(waited: Option<bool>) -> (code: Option<u32>)
    ensures
        code == reported_exit_code(waited),
{
    match waited {
        Some(true) => Some(EXIT_SUCCESS),
        Some(false) => Some(EXIT_FAILURE),
        None => None,
    }
}

/// The exit event of the session `session_id`.
pub fn exit_event(session_id: u32, waited: Option<bool>) -> (event: TerminalExit)
    ensures
        event == (TerminalExit { session_id, exit_code: reported_exit_code(waited) }),
{
    TerminalExit { session_id, exit_code: exit_code(waited) }
}

/// Where a pump stands.
#[derive(Clone, Copy, Debug, PartialEq, Eq, Structural)]
pub enum PumpPhase {
    /// Running: the pump reads the terminal's output.
    Reading,
    /// The output has ended; the pump waits for the shell to finish.
    Reaping,
    /// The exit event is out; the pump has nothing more to do.
    Terminated,
}

/// What happened to a pump.
#[derive(Debug, PartialEq, Eq)]
pub enum PumpEvent {
    /// A read of the terminal's output gave these bytes; none at its end.
    Read(Vec<u8>),
    /// A read of the terminal's output failed, with this description.
    ReadFailed(String),
    /// Waiting for the shell ended: with `Some` and whether the shell ended
    /// well, or with `None` where the wait itself failed.
    Reaped(Option<bool>),
}

/// What a pump has its caller do next.
#[derive(Debug, PartialEq, Eq)]
pub enum PumpAction {
    /// Publish the output event, then read again.
    Publish(TerminalOutput),
    /// Record `log`, if there is any, then wait for the shell to finish.
    Reap { log: Option<String> },
    /// Publish the exit event, then release the session and stop.
    Exit(TerminalExit),
    /// Nothing: the event does not concern the pump where it stands.
    Idle,
}

/// An event, with text and bytes as values.
pub enum PumpEventView {
    Read(Seq<u8>),
    ReadFailed(Seq<char>),
    Reaped(Option<bool>),
}

/// An action, with text as values.
pub enum PumpActionView {
    Publish { session_id: u32, data: Seq<char> },
    Reap { log: Option<Seq<char>> },
    Exit(TerminalExit),
    Idle,
}

impl View for PumpEvent {
    type V = PumpEventView;

    open spec fn view(&self) -> PumpEventView {
        match self {
            PumpEvent::Read(bytes) => PumpEventView::Read(bytes@),
            PumpEvent::ReadFailed(detail) => PumpEventView::ReadFailed(detail@),
            PumpEvent::Reaped(waited) => PumpEventView::Reaped(*waited),
        }
    }
}

impl View for PumpAction {
    type V = PumpActionView;

    open spec fn view(&self) -> PumpActionView {
        match self {
            PumpAction::Publish(output) => PumpActionView::Publish {
                session_id: output.session_id,
                data: output.data@,
            },
            PumpAction::Reap { log } => PumpActionView::Reap {
                log: match log {
                    Some(text) => Some(text@),
                    None => None,
                },
            },
            PumpAction::Exit(exit) => PumpActionView::Exit(*exit),
            PumpAction::Idle => PumpActionView::Idle,
        }
    }
}

/// What is recorded of a read that failed with `detail`.
pub open spec fn read_failure_text(detail: Seq<char>) -> Seq<char> {
    "PTY read error: "@ + detail
}

/// Where a pump in `phase` stands after `event`.
///
/// A pump reads until the output ends or a read fails, then waits for the
/// shell, then is done. Bytes that are no text do not end it.
pub open spec fn next_phase(phase: PumpPhase, event: PumpEventView) -> PumpPhase {
    match (phase, event) {
        (PumpPhase::Reading, PumpEventView::Read(bytes)) => if bytes.len() > 0 {
            PumpPhase::Reading
        } else {
            PumpPhase::Reaping
        },
        (PumpPhase::Reading, PumpEventView::ReadFailed(_)) => PumpPhase::Reaping,
        (PumpPhase::Reaping, PumpEventView::Reaped(_)) => PumpPhase::Terminated,
        _ => phase,
    }
}

/// What the pump of the session `session_id` has its caller do when `event`
/// happens to it in `phase`, given that the bytes of a read decode to
/// `decoded`.
pub open spec fn action_for(
    session_id: u32,
    phase: PumpPhase,
    event: PumpEventView,
    decoded: Seq<char>,
) -> PumpActionView {
    match (phase, event) {
        (PumpPhase::Reading, PumpEventView::Read(bytes)) => if bytes.len() > 0 {
            PumpActionView::Publish { session_id, data: decoded }
        } else {
            PumpActionView::Reap { log: None }
        },
        (PumpPhase::Reading, PumpEventView::ReadFailed(detail)) => PumpActionView::Reap {
            log: Some(read_failure_text(detail)),
        },
        (PumpPhase::Reaping, PumpEventView::Reaped(waited)) => PumpActionView::Exit(
            TerminalExit { session_id, exit_code: reported_exit_code(waited) },
        ),
        _ => PumpActionView::Idle,
    }
}

/// The text that the bytes of an event decode to: that of a read, and no text
/// for another event.
pub open spec fn decoded_text(event: PumpEventView) -> Seq<char> {
    match event {
        PumpEventView::Read(bytes) => lossy_text(bytes),
        _ => Seq::empty(),
    }
}

/// The pump of one session.
#[derive(Clone, Copy, Debug, PartialEq, Eq, Structural)]
pub struct OutputPump {
    session_id: u32,
    phase: PumpPhase,
}

impl OutputPump {
    /// The session whose output the pump relays.
    pub closed spec fn spec_session_id(&self) -> u32 {
        self.session_id
    }

    /// Where the pump stands.
    pub closed spec fn spec_phase(&self) -> PumpPhase {
        self.phase
    }

    /// A pump for the session `session_id`, running.
    pub fn new(session_id: u32) -> (pump: OutputPump)
        ensures
            pump.spec_session_id() == session_id,
            pump.spec_phase() == PumpPhase::Reading,
    {
        OutputPump { session_id, phase: PumpPhase::Reading }
    }

    /// The session whose output the pump relays.
    pub fn session_id(&self) -> (session_id: u32)
        ensures
            session_id == self.spec_session_id(),
    {
        self.session_id
    }

    /// Where the pump stands.
    pub fn phase(&self) -> (phase: PumpPhase)
        ensures
            phase == self.spec_phase(),
    {
        self.phase
    }

    /// Takes `event`, whose read bytes decode to `decoded`, and tells what to
    /// do next.
    pub fn step_decoded(&mut self, event: PumpEvent, decoded: String) -> (action: PumpAction)
        ensures
            final(self).spec_session_id() == old(self).spec_session_id(),
            final(self).spec_phase() == next_phase(old(self).spec_phase(), event@),
            action@ == action_for(
                old(self).spec_session_id(),
                old(self).spec_phase(),
                event@,
                decoded@,
            ),
    {
        match self.phase {
            PumpPhase::Reading => match event {
                PumpEvent::Read(bytes) => {
                    if bytes.len() > 0 {
                        PumpAction::Publish(output_event(self.session_id, decoded))
                    } else {
                        self.phase = PumpPhase::Reaping;
                        PumpAction::Reap { log: None }
                    }
                },
                PumpEvent::ReadFailed(detail) => {
                    self.phase = PumpPhase::Reaping;
                    let log = String::from_str("PTY read error: ").concat(detail.as_str());
                    PumpAction::Reap { log: Some(log) }
                },
                PumpEvent::Reaped(_) => PumpAction::Idle,
            },
            PumpPhase::Reaping => match event {
                PumpEvent::Reaped(waited) => {
                    self.phase = PumpPhase::Terminated;
                    PumpAction::Exit(exit_event(self.session_id, waited))
                },
                _ => PumpAction::Idle,
            },
            PumpPhase::Terminated => PumpAction::Idle,
        }
    }

    /// Takes `event` and tells what to do next. The bytes of a read are
    /// decoded as UTF-8, with the replacement character for what is none, so
    /// that no bytes end the pump.
    pub fn step(&mut self, event: PumpEvent) -> (action: PumpAction)
        ensures
            final(self).spec_session_id() == old(self).spec_session_id(),
            final(self).spec_phase() == next_phase(old(self).spec_phase(), event@),
            action@ == action_for(
                old(self).spec_session_id(),
                old(self).spec_phase(),
                event@,
                decoded_text(event@),
            ),
            action@ matches PumpActionView::Publish { data, .. } ==> event@ matches PumpEventView::Read(
                bytes,
            ) && decodes_to(bytes, data),
    {
        let decoded = match (&self.phase, &event) {
            (PumpPhase::Reading, PumpEvent::Read(bytes)) => decode_lossy(bytes.as_slice()),
            _ => String::new(),
        };
        self.step_decoded(event, decoded)
    }
}

/// Where a pump that was in `phase` stands after `events`, taken in order.
pub open spec fn phase_after(phase: PumpPhase, events: Seq<PumpEventView>) -> PumpPhase
    decreases events.len(),
{
    if events.len() == 0 {
        phase
    } else {
        next_phase(phase_after(phase, events.drop_last()), events.last())
    }
}

/// How many exit events the pump of the session `session_id` has its caller
/// publish over `events`, taken in order from `phase`.
pub open spec fn exits_published(
    session_id: u32,
    phase: PumpPhase,
    events: Seq<PumpEventView>,
) -> nat
    decreases events.len(),
{
    if events.len() == 0 {
        0
    } else {
        let before = events.drop_last();
        let last = action_for(
            session_id,
            phase_after(phase, before),
            events.last(),
            decoded_text(events.last()),
        );
        exits_published(session_id, phase, before) + if last is Exit {
            1nat
        } else {
            0nat
        }
    }
}

/// Over any events, a pump has an exit event published once when it gets to
/// its end, and not at all before: never twice, whatever happens to it after
/// its end.
pub proof fn law_one_exit_event(session_id: u32, phase: PumpPhase, events: Seq<PumpEventView>)
    ensures
        phase != PumpPhase::Terminated ==> exits_published(session_id, phase, events) == (if phase_after(
            phase,
            events,
        ) == PumpPhase::Terminated {
            1nat
        } else {
            0nat
        }),
        phase == PumpPhase::Terminated ==> exits_published(session_id, phase, events) == 0
            && phase_after(phase, events) == PumpPhase::Terminated,
    decreases events.len(),
{
    if events.len() > 0 {
        law_one_exit_event(session_id, phase, events.drop_last());
    }
}

/// The exit event that a pump has published is that of its own session, with
/// the exit code that stands for how the shell ended.
pub proof fn law_exit_event_of_own_session(
    session_id: u32,
    phase: PumpPhase,
    event: PumpEventView,
    decoded: Seq<char>,
)
    ensures
        action_for(session_id, phase, event, decoded) matches PumpActionView::Exit(exit) ==> {
            &&& exit.session_id == session_id
            &&& phase == PumpPhase::Reaping
            &&& event matches PumpEventView::Reaped(waited) && exit.exit_code == reported_exit_code(
                waited,
            )
        },
{
}

/// Bytes that are no text do not end a running pump: whatever a read gave, as
/// long as it gave anything, the pump has the decoded text published, with the
/// replacement character in it where the bytes are no UTF-8, and reads on.
pub proof fn law_malformed_output_is_published(session_id: u32, bytes: Seq<u8>, text: Seq<char>)
    requires
        bytes.len() > 0,
        decodes_to(bytes, text),
    ensures
        next_phase(PumpPhase::Reading, PumpEventView::Read(bytes)) == PumpPhase::Reading,
        action_for(session_id, PumpPhase::Reading, PumpEventView::Read(bytes), text) == (
        PumpActionView::Publish { session_id, data: text }),
        !valid_utf8(bytes) ==> text.contains(REPLACEMENT_CHARACTER),
{
}

} // verus!

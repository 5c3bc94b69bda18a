//! The table of live sessions.

use std::collections::HashMap;
use vstd::prelude::*;
use vstd::std_specs::hash::spec_keys_iter;
use vstd::std_specs::iter::IteratorSpec;

verus! {

broadcast use vstd::std_specs::hash::group_hash_axioms;

/// One live shell bound to one pseudo-terminal: the handle that feeds the
/// shell's input and the handle of the terminal's controlling side.
///
/// The controlling side is held for as long as the session is in the table,
/// although ordinary commands use the writer only: letting it go would close
/// the terminal under the shell.
pub struct PtySession<W, M> {
    writer: W,
    master: M,
}

impl<W, M> PtySession<W, M> {
    /// The handle that feeds the shell's input.
    pub closed spec fn spec_writer(&self) -> W {
        self.writer
    }

    /// The handle of the terminal's controlling side.
    pub closed spec fn spec_master(&self) -> M {
        self.master
    }

    /// A session made of the two handles.
    pub fn new(writer: W, master: M) -> (session: Self)
        ensures
            session.spec_writer() == writer,
            session.spec_master() == master,
    {
        PtySession { writer, master }
    }

    /// The handle that feeds the shell's input.
    pub fn writer(&self) -> (writer: &W)
        ensures
            *writer == self.spec_writer(),
    {
        &self.writer
    }

    /// The handle of the terminal's controlling side, through which the
    /// terminal is resized.
    pub fn master(&self) -> (master: &M)
        ensures
            *master == self.spec_master(),
    {
        &self.master
    }
}

/// The live sessions, each under its identifier.
pub struct TerminalState<W, M> {
    sessions: HashMap<u32, PtySession<W, M>>,
}

impl<W, M> View for TerminalState<W, M> {
    type V = Map<u32, PtySession<W, M>>;

    /// The sessions as a map from identifier to session.
    closed spec fn view(&self) -> Map<u32, PtySession<W, M>> {
        self.sessions@
    }
}

impl<W, M> Default for TerminalState<W, M> {
    /// A table without sessions.
    fn default() -> (state: Self)
        ensures
            state@ == Map::<u32, PtySession<W, M>>::empty(),
    {
        TerminalState::new()
    }
}

impl<W, M> TerminalState<W, M> {
    /// The identifiers of the live sessions.
    pub open spec fn live(&self) -> Set<u32> {
        self@.dom()
    }

    /// A table without sessions.
    pub fn new() -> (state: Self)
        ensures
            state@ == Map::<u32, PtySession<W, M>>::empty(),
    {
        TerminalState { sessions: HashMap::new() }
    }

    /// Puts `session` into the table under `session_id`. A session that was
    /// there under the same identifier leaves the table and is handed back.
    pub fn insert(&mut self, session_id: u32, session: PtySession<W, M>) -> (previous: Option<
        PtySession<W, M>,
    >)
        ensures
            final(self)@ == old(self)@.insert(session_id, session),
            previous == if old(self)@.contains_key(session_id) {
                Some(old(self)@[session_id])
            } else {
                None
            },
    {
        self.sessions.insert(session_id, session)
    }

    /// The session under `session_id`, if it is live.
    pub fn get(&self, session_id: u32) -> (found: Option<&PtySession<W, M>>)
        ensures
            found == if self@.contains_key(session_id) {
                Some(&self@[session_id])
            } else {
                None
            },
    {
        self.sessions.get(&session_id)
    }

    /// Takes the session under `session_id` out of the table and hands it
    /// back; a table without it stays as it is.
    pub fn remove(&mut self, session_id: u32) -> (removed: Option<PtySession<W, M>>)
        ensures
            final(self)@ == old(self)@.remove(session_id),
            removed == if old(self)@.contains_key(session_id) {
                Some(old(self)@[session_id])
            } else {
                None
            },
    {
        self.sessions.remove(&session_id)
    }

    /// The identifiers of the live sessions, each once, in no particular
    /// order.
    pub fn ids(&self) -> (ids: Vec<u32>)
        ensures
            ids@.to_set() == self.live(),
            ids@.no_duplicates(),
    {
        let mut ids: Vec<u32> = Vec::new();
        let ghost keys = spec_keys_iter(&self.sessions).remaining();
        for id in it: self.sessions.keys()
            invariant
                it.seq() == keys,
                ids@.len() == it.index(),
                forall|i: int| 0 <= i < ids@.len() ==> ids@[i] == *keys[i],
        {
            ids.push(*id);
        }
        proof {
            assert(ids@ =~= keys.unref());
            assert forall|i: int, j: int| 0 <= i < j < ids@.len() implies ids@[i] != ids@[j] by {
                assert(keys[i] != keys[j]);
            }
        }
        ids
    }
}

} // verus!

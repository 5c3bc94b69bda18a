//! Session identifiers and the counter that issues them.

use vstd::prelude::*;

verus! {

/// The number of distinct identifiers: one more than the largest.
pub open spec fn id_space() -> nat {
    0x1_0000_0000
}

/// The identifier that is issued when `issued` identifiers went out before
/// it: the identifiers are issued in ascending order from zero, and start
/// over once all of them have gone out.
pub open spec fn id_at(issued: nat) -> u32 {
    (issued % id_space()) as u32
}

/// The counter that issues the session identifiers.
pub struct SessionCounter {
    next: u32,
    rounds: Ghost<nat>,
}

impl SessionCounter {
    /// How many identifiers the counter has issued.
    pub closed spec fn issued(&self) -> nat {
        self.rounds@ * id_space() + self.next as nat
    }

    /// Whether the counter has issued `session_id` at some time.
    pub open spec fn has_issued(&self, session_id: u32) -> bool {
        (session_id as nat) < self.issued()
    }

    /// A counter that has issued nothing.
    pub fn new() -> (counter: Self)
        ensures
            counter.issued() == 0,
    {
        SessionCounter { next: 0, rounds: Ghost(0) }
    }

    /// Issues the next identifier.
    ///
    /// As long as fewer identifiers have gone out than there are, the one
    /// issued is new.
    pub fn allocate(&mut self) -> (session_id: u32)
        ensures
            session_id == id_at(old(self).issued()),
            final(self).issued() == old(self).issued() + 1,
            final(self).has_issued(session_id),
            old(self).issued() < id_space() ==> !old(self).has_issued(session_id),
    {
        let session_id = self.next;
        let ghost rounds = self.rounds@;
        proof {
            lemma_id_at(rounds, self.next);
        }
        if self.next == u32::MAX {
            self.next = 0;
            self.rounds = Ghost(rounds + 1);
            assert((rounds + 1) * 0x1_0000_0000 + 0 == rounds * 0x1_0000_0000 + 0xffff_ffff + 1)
                by (nonlinear_arith);
        } else {
            self.next = self.next + 1;
        }
        session_id
    }
}

/// After `rounds` full rounds and `next` further identifiers, `next` is
/// issued.
proof fn lemma_id_at(rounds: nat, next: u32)
    ensures
        id_at(rounds * id_space() + next as nat) == next,
        rounds == 0 || next as nat + id_space() <= rounds * id_space() + next as nat,
{
    assert((rounds * 0x1_0000_0000 + next as nat) % 0x1_0000_0000 == next as nat)
        by (nonlinear_arith)
        requires
            0 <= next < 0x1_0000_0000,
    ;
    assert(rounds == 0 || next as nat + 0x1_0000_0000 <= rounds * 0x1_0000_0000 + next as nat)
        by (nonlinear_arith);
}

/// Two identifiers issued at different times differ, as long as no more
/// identifiers have been issued than there are.
pub proof fn law_identifiers_unique(earlier: nat, later: nat)
    requires
        earlier < later < id_space(),
    ensures
        id_at(earlier) != id_at(later),
{
}

/// As long as fewer identifiers have been issued than there are, the next
/// one has not been issued before and the ones issued before stay issued.
pub proof fn law_identifier_never_reissued(before: SessionCounter, after: SessionCounter)
    requires
        before.issued() < id_space(),
        after.issued() == before.issued() + 1,
    ensures
        !before.has_issued(id_at(before.issued())),
        after.has_issued(id_at(before.issued())),
        forall|session_id: u32| before.has_issued(session_id) ==> after.has_issued(session_id),
{
}

} // verus!

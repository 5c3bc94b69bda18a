//! What holds of sessions over time: how long a session is live, that a new
//! identifier is not that of a live session, and that text keeps its order
//! on the way to the shell and back.

use crate::ident::{id_at, id_space, SessionCounter};
use crate::pump::decodes_to;
use vstd::prelude::*;
use vstd::utf8::{encode_utf8, encode_utf8_decode_utf8, encode_utf8_valid_utf8};

verus! {

/// What changes the set of live sessions: a spawn that registers a session,
/// and the release of a session by a kill or by the cleanup of its pump.
/// Writing, resizing and listing change nothing.
pub enum TableChange {
    Register(u32),
    Release(u32),
}

/// The live sessions once `change` has been made to `live`.
pub open spec fn live_after_change(live: Set<u32>, change: TableChange) -> Set<u32> {
    match change {
        TableChange::Register(session_id) => live.insert(session_id),
        TableChange::Release(session_id) => live.remove(session_id),
    }
}

/// The live sessions once `changes` have been made to `live`, in order.
pub open spec fn live_after(live: Set<u32>, changes: Seq<TableChange>) -> Set<u32>
    decreases changes.len(),
{
    if changes.len() == 0 {
        live
    } else {
        live_after_change(live_after(live, changes.drop_last()), changes.last())
    }
}

/// A session that is live stays live through whatever happens to other
/// sessions: it is live until it is released itself.
pub proof fn law_live_until_released(live: Set<u32>, changes: Seq<TableChange>, session_id: u32)
    requires
        live.contains(session_id),
        forall|i: int| 0 <= i < changes.len() ==> changes[i] != TableChange::Release(session_id),
    ensures
        live_after(live, changes).contains(session_id),
    decreases changes.len(),
{
    if changes.len() > 0 {
        law_live_until_released(live, changes.drop_last(), session_id);
    }
}

/// A session that has been released is live no more, whatever happens to
/// other sessions, unless a spawn registers its identifier anew.
pub proof fn law_released_stays_absent(live: Set<u32>, changes: Seq<TableChange>, session_id: u32)
    requires
        forall|i: int| 0 <= i < changes.len() ==> changes[i] != TableChange::Register(session_id),
    ensures
        !live_after(live.remove(session_id), changes).contains(session_id),
    decreases changes.len(),
{
    if changes.len() > 0 {
        law_released_stays_absent(live, changes.drop_last(), session_id);
    }
}

/// Where every live session has an identifier that the counter has issued,
/// and the counter has not yet issued all identifiers, the identifier that it
/// issues next is that of no live session; and with it registered, every live
/// session has an issued identifier still.
pub proof fn law_fresh_identifier_not_live(
    before: SessionCounter,
    after: SessionCounter,
    live: Set<u32>,
)
    requires
        before.issued() < id_space(),
        after.issued() == before.issued() + 1,
        forall|session_id: u32| live.contains(session_id) ==> before.has_issued(session_id),
    ensures
        !live.contains(id_at(before.issued())),
        forall|session_id: u32| #[trigger]
            live.insert(id_at(before.issued())).contains(session_id) ==> after.has_issued(
                session_id,
            ),
{
}

/// The bytes of two writes, one after the other, are the bytes of one write
/// of both texts: writing in turn reorders nothing, adds nothing and leaves
/// nothing out.
pub proof fn law_written_bytes_keep_order(first: Seq<char>, second: Seq<char>)
    ensures
        encode_utf8(first) + encode_utf8(second) == encode_utf8(first + second),
    decreases first.len(),
{
    if first.len() == 0 {
        assert(first + second =~= second);
        assert(encode_utf8(first) + encode_utf8(second) =~= encode_utf8(second));
    } else {
        law_written_bytes_keep_order(first.drop_first(), second);
        assert((first + second).drop_first() =~= first.drop_first() + second);
        assert((first + second)[0] == first[0]);
        assert(encode_utf8(first) + encode_utf8(second) =~= encode_utf8(first + second));
    }
}

/// Bytes that were written for a text decode to that text again: what a
/// shell echoes as it got it is published as it was written.
pub proof fn law_echo_is_published_as_written(written: Seq<char>, published: Seq<char>)
    requires
        decodes_to(encode_utf8(written), published),
    ensures
        published == written,
{
    encode_utf8_valid_utf8(written);
    encode_utf8_decode_utf8(written);
}

} // verus!

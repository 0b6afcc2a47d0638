use vstd::prelude::*;

use crate::state::{lookup, ChannelView};

verus! {

/// Law: after a channel record is added, looking its identifier up
/// answers exactly that record, and looking any other identifier up
/// answers what it answered before the addition. `add_channel` ensures
/// that the channel mapping becomes `channels.insert(c.id, c)`, and the
/// getters answer `lookup` on the mapping, so this describes every
/// `get_channel` after every `add_channel`.
pub proof fn lemma_get_after_add(channels: Map<u64, ChannelView>, c: ChannelView, q: u64)
    ensures
        lookup(channels.insert(c.id, c), c.id) == Some(c),
        q != c.id ==> lookup(channels.insert(c.id, c), q) == lookup(channels, q),
{
}

/// Law: re-adding a record under an identifier already in use overwrites
/// the prior record — the mapping afterwards answers the later record,
/// whatever was stored before.
pub proof fn lemma_last_write_wins(
    channels: Map<u64, ChannelView>,
    first: ChannelView,
    second: ChannelView,
)
    requires
        first.id == second.id,
    ensures
        lookup(channels.insert(first.id, first).insert(second.id, second), second.id) == Some(
            second,
        ),
{
}

/// Law: appending message identifiers keeps their order. A channel whose
/// message list is `s` holds, after one message `a` and then another `b`
/// are added to it, the list `s` followed by `[a, b]`: `a` and `b` stand
/// at the end, in the order in which they were added. `add_message`
/// ensures that each addition pushes the message identifier onto the
/// channel's list.
pub proof fn lemma_append_order(s: Seq<u64>, a: u64, b: u64)
    ensures
        s.push(a).push(b) == s + seq![a, b],
        s.push(a).push(b).len() == s.len() + 2,
        s.push(a).push(b)[s.len() as int] == a,
        s.push(a).push(b)[s.len() as int + 1] == b,
{
    assert(s.push(a).push(b) =~= s + seq![a, b]);
}

} // verus!

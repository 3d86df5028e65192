//! Channel states and write gating.
//!
//! A channel is either `Enabled` or `Disabled`. A write submitted to a
//! disabled channel succeeds and produces no output; a write submitted to an
//! enabled channel is forwarded verbatim to the underlying sink.

use vstd::prelude::*;

verus! {

/// The state of one output channel: writes are either forwarded or discarded.
#[derive(Debug, Clone, Copy, PartialEq, Eq, Structural)]
pub enum ChannelState {
    /// Writes reach the underlying stream verbatim.
    Enabled,
    /// Writes are accepted and silently discarded.
    Disabled,
}

impl ChannelState {
    /// The bytes that a single write of `content` contributes to the
    /// underlying stream: everything when enabled, nothing when disabled.
    pub open spec fn gated(self, content: Seq<u8>) -> Seq<u8> {
        if self is Enabled {
            content
        } else {
            Seq::empty()
        }
    }

    /// The bytes that a sequence of writes, one per element of `msgs` and in
    /// that order, contributes to the underlying stream.
    pub open spec fn gated_all(self, msgs: Seq<Seq<u8>>) -> Seq<u8> {
        msgs.map_values(|m: Seq<u8>| self.gated(m)).flatten()
    }

    /// Whether this channel forwards writes.
    pub fn is_enabled(&self) -> (r: bool)
        ensures
            r == (*self is Enabled),
    {
        match self {
            ChannelState::Enabled => true,
            ChannelState::Disabled => false,
        }
    }

    /// Submit one write of `content` to this channel, whose underlying stream
    /// is `sink`. The write always succeeds: it appends `content` byte for
    /// byte when the channel is enabled and does nothing when it is disabled.
    pub fn write_bytes(&self, content: &[u8], sink: &mut Vec<u8>)
        ensures
            final(sink)@ == old(sink)@ + self.gated(content@),
    {
        match self {
            ChannelState::Enabled => {
                let mut i: usize = 0;
                while i < content.len()
                    invariant
                        i <= content.len(),
                        sink@ == old(sink)@ + content@.subrange(0, i as int),
                    decreases content.len() - i,
                {
                    sink.push(content[i]);
                    i = i + 1;
                }
                assert(content@.subrange(0, content@.len() as int) =~= content@);
            }
            ChannelState::Disabled => {}
        }
    }
}

/// Write gating: however many writes are submitted, and whatever their
/// contents, a disabled channel contributes no byte to its stream, and an
/// enabled channel contributes exactly the written contents, concatenated in
/// call order.
pub proof fn lemma_write_gating(state: ChannelState, msgs: Seq<Seq<u8>>)
    ensures
        state is Disabled ==> state.gated_all(msgs).len() == 0,
        state is Enabled ==> state.gated_all(msgs) == msgs.flatten(),
    decreases msgs.len(),
{
    let mapped = msgs.map_values(|m: Seq<u8>| state.gated(m));
    if state is Enabled {
        assert(mapped =~= msgs);
    } else {
        if msgs.len() == 0 {
            assert(mapped.len() == 0);
        } else {
            lemma_write_gating(state, msgs.drop_first());
            assert(mapped.drop_first() =~= msgs.drop_first().map_values(
                |m: Seq<u8>| state.gated(m),
            ));
            assert(mapped.first().len() == 0);
        }
    }
}

} // verus!

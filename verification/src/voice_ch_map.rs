//! Which channels the relay answers aloud.

use std::collections::HashMap;
use vstd::prelude::*;

verus! {

broadcast use vstd::std_specs::hash::group_hash_axioms;

/// How the relay answers in a channel.
#[derive(PartialEq, Eq, Clone, Copy, Debug, Structural)]
pub enum State {
    /// In writing.
    TextOnly,
    /// Aloud, in the voice channel it has joined.
    Voice,
}

/// The key of a channel of a guild: both numbers side by side.
pub open spec fn channel_key(guild_id: u64, channel_id: u64) -> u128 {
    (guild_id as u128 * 0x1_0000_0000_0000_0000 + channel_id as u128) as u128
}

/// The state of each channel of each guild. A channel that was never set is
/// `TextOnly`.
pub struct VoiceChannelMap {
    states: HashMap<u128, State>,
}

impl View for VoiceChannelMap {
    type V = Map<(u64, u64), State>;

    closed spec fn view(&self) -> Map<(u64, u64), State> {
        Map::new(
            |k: (u64, u64)| self.states@.contains_key(channel_key(k.0, k.1)),
            |k: (u64, u64)| self.states@[channel_key(k.0, k.1)],
        )
    }
}

/// The state of a channel in a map: the one that was set, or `TextOnly`.
pub open spec fn state_in(m: Map<(u64, u64), State>, guild_id: u64, channel_id: u64) -> State {
    if m.contains_key((guild_id, channel_id)) {
        m[(guild_id, channel_id)]
    } else {
        State::TextOnly
    }
}

fn key_of(guild_id: u64, channel_id: u64) -> (k: u128)
    ensures
        k == channel_key(guild_id, channel_id),
{
    (guild_id as u128) * 0x1_0000_0000_0000_0000 + (channel_id as u128)
}

proof fn lemma_key_is_one_to_one(g1: u64, c1: u64, g2: u64, c2: u64)
    ensures
        channel_key(g1, c1) == channel_key(g2, c2) ==> g1 == g2 && c1 == c2,
{
}

impl VoiceChannelMap {
    /// A map in which no channel was set.
    pub fn new() -> (m: Self)
        ensures
            m@ == Map::<(u64, u64), State>::empty(),
    {
        let m = VoiceChannelMap { states: HashMap::new() };
        assert(m@ =~= Map::<(u64, u64), State>::empty());
        m
    }

    /// The state of a channel.
    pub fn get_voice_state(&self, guild_id: u64, channel_id: u64) -> (state: State)
        ensures
            state == state_in(self@, guild_id, channel_id),
    {
        match self.states.get(&key_of(guild_id, channel_id)) {
            Some(state) => *state,
            None => State::TextOnly,
        }
    }

    /// Sets the state of a channel.
    pub fn set_voice_state(&mut self, guild_id: u64, channel_id: u64, state: State)
        ensures
            final(self)@ == old(self)@.insert((guild_id, channel_id), state),
    {
        let _ = self.states.insert(key_of(guild_id, channel_id), state);
        assert(self@ =~= old(self)@.insert((guild_id, channel_id), state)) by {
            assert forall|k: (u64, u64)| k != (guild_id, channel_id) implies channel_key(k.0, k.1)
                != channel_key(guild_id, channel_id) by {
                lemma_key_is_one_to_one(k.0, k.1, guild_id, channel_id);
            }
        }
    }
}

} // verus!

//! What to do when somebody enters or leaves a voice channel.

use vstd::prelude::*;

verus! {

/// A change of somebody's voice state, as the platform reports it.
#[derive(Debug, Clone, Copy, PartialEq, Eq)]
pub struct VoiceStateUpdate {
    /// The change is the relay's own.
    pub is_self: bool,
    /// The change is that of a bot.
    pub is_bot: bool,
    /// Whether there was a state before, and the channel of it if it had
    /// one.
    pub old_channel: Option<Option<u64>>,
    /// The channel of the state now, if it has one.
    pub new_channel: Option<u64>,
}

/// What a change calls for.
#[derive(Debug, Clone, Copy, PartialEq, Eq, Structural)]
pub struct VoiceMoves {
    /// The channel that was entered.
    pub entered: Option<u64>,
    /// The channel that was left.
    pub left: Option<u64>,
}

/// The number of a channel, or zero for none.
pub open spec fn channel_or_zero(channel: Option<u64>) -> u64 {
    match channel {
        Some(c) => c,
        None => 0,
    }
}

/// What a change calls for: nothing for the relay's own changes, those of
/// bots and those that stay in the same channel; else the channel of the new
/// state was entered and that of the old state was left.
pub open spec fn moves_of(update: VoiceStateUpdate) -> VoiceMoves {
    if update.is_self || update.is_bot {
        VoiceMoves { entered: None, left: None }
    } else {
        match update.old_channel {
            Some(old) => if channel_or_zero(old) == channel_or_zero(update.new_channel) {
                VoiceMoves { entered: None, left: None }
            } else {
                VoiceMoves { entered: update.new_channel, left: old }
            },
            None => VoiceMoves { entered: update.new_channel, left: None },
        }
    }
}

/// What a change calls for. See [`moves_of`].
pub fn voice_state_update(update: VoiceStateUpdate) -> (moves: VoiceMoves)
    ensures
        moves == moves_of(update),
{
    if update.is_self || update.is_bot {
        return VoiceMoves { entered: None, left: None };
    }
    match update.old_channel {
        Some(old) => {
            let before = match old {
                Some(c) => c,
                None => 0,
            };
            let after = match update.new_channel {
                Some(c) => c,
                None => 0,
            };
            if before == after {
                VoiceMoves { entered: None, left: None }
            } else {
                VoiceMoves { entered: update.new_channel, left: old }
            }
        },
        None => VoiceMoves { entered: update.new_channel, left: None },
    }
}

/// Somebody's voice state in a guild: who, and in which channel if any.
#[derive(Debug, Clone, Copy, PartialEq, Eq)]
pub struct Presence {
    pub user_id: u64,
    pub channel_id: Option<u64>,
}

/// Somebody other than the relay is in the channel.
pub open spec fn someone_in(states: Seq<Presence>, channel_id: u64, bot_id: u64) -> bool {
    exists|i: int|
        0 <= i < states.len() && (#[trigger] states[i]).channel_id == Some(channel_id)
            && states[i].user_id != bot_id
}

/// Whether somebody other than the relay is in the channel. Where nobody
/// is, the relay leaves it.
pub fn human_present(states: &Vec<Presence>, channel_id: u64, bot_id: u64) -> (r: bool)
    ensures
        r == someone_in(states@, channel_id, bot_id),
{
    let mut i: usize = 0;
    while i < states.len()
        invariant
            i <= states.len(),
            forall|k: int|
                0 <= k < i ==> !((#[trigger] states[k]).channel_id == Some(channel_id)
                    && states[k].user_id != bot_id),
        decreases states.len() - i,
    {
        match states[i].channel_id {
            Some(c) => {
                if c == channel_id && states[i].user_id != bot_id {
                    return true;
                }
            },
            None => {},
        }
        i = i + 1;
    }
    false
}

} // verus!

//! What the chat platform asks of the relay, and what the relay does about
//! it.

use crate::request::{channel_name, numbered_channel, DiscordAIRequest};
use crate::text::reads;
use crate::voice_ch_map::{State, VoiceChannelMap};
use vstd::prelude::*;

verus! {

/// What the chat platform reports. Guilds, channels, messages and users are
/// known by their numbers.
#[derive(Debug, Clone, PartialEq, Eq)]
pub enum DiscordRequest {
    /// A message in a text channel.
    TextRequest { guild_id: Option<u64>, channel_id: u64, msg_id: u64, user_id: u64, text: String },
    /// The words of a speaker in a voice channel.
    VoiceRequest { guild_id: u64, channel_id: u64, user_id: u64, text: String },
    /// A user joined a voice channel.
    VoiceConnected { guild_id: Option<u64>, channel_id: u64, user_id: u64 },
    /// A user left a voice channel.
    VoiceDisconnected { guild_id: Option<u64>, channel_id: u64, user_id: u64 },
    /// A user asked to begin their conversation anew.
    ResetConversation { guild_id: Option<u64>, channel_id: u64, user_id: u64 },
}

/// What a message asks for: to begin the conversation anew if it reads
/// `/reset`, and an answer otherwise.
pub fn request_of_message(
    guild_id: Option<u64>,
    channel_id: u64,
    msg_id: u64,
    user_id: u64,
    text: String,
) -> (r: DiscordRequest)
    ensures
        r == if text@ == "/reset"@ {
            DiscordRequest::ResetConversation { guild_id, channel_id, user_id }
        } else {
            DiscordRequest::TextRequest { guild_id, channel_id, msg_id, user_id, text }
        },
{
    if reads(&text, "/reset") {
        DiscordRequest::ResetConversation { guild_id, channel_id, user_id }
    } else {
        DiscordRequest::TextRequest { guild_id, channel_id, msg_id, user_id, text }
    }
}

/// What the relay sends to the chat platform. `T` is synthesized speech.
#[derive(Debug, Clone, PartialEq, Eq)]
pub enum DiscordResponse<T> {
    /// A message, with the speech attached if there is any.
    TextResponse { req_msg_id: Option<u64>, channel_id: u64, text: String, tts: Option<T> },
    /// Speech for the voice channel, with a message if there is any.
    VoiceResponse {
        req_msg_id: Option<u64>,
        guild_id: u64,
        channel_id: u64,
        text: Option<String>,
        tts: T,
    },
}

/// What is to be done about a report.
#[derive(Debug, Clone, PartialEq, Eq)]
pub enum Errand {
    /// Nothing: a message outside of any guild.
    DirectMessage,
    /// Nothing: a voice report outside of any guild.
    NotAGuild,
    /// Nothing more: the state of the channel was noted.
    Noted,
    /// Ask the dispatcher, and answer the message.
    AskText { request: DiscordAIRequest, guild_id: u64, channel_id: u64, msg_id: u64 },
    /// Ask the dispatcher, and answer the speaker.
    AskVoice { request: DiscordAIRequest, guild_id: u64, channel_id: u64 },
    /// Reset the conversation of this channel key.
    Reset { channel: String },
}

/// The number under which a conversation is kept: that of the channel, or
/// that of the user where there is no channel.
pub open spec fn conversation_number(channel_id: u64, user_id: u64) -> u64 {
    if channel_id != 0 {
        channel_id
    } else {
        user_id
    }
}

/// From the channel states `before`, the report leads to `errand` and
/// leaves the channel states `after`.
///
/// A message is asked under its channel, the words of a speaker under the
/// speaker, who stands in as a channel. Joining and leaving a voice channel
/// set how the channel is answered. Reports that need a guild and have none
/// are passed over.
pub open spec fn planned(
    before: Map<(u64, u64), State>,
    request: DiscordRequest,
    after: Map<(u64, u64), State>,
    errand: Errand,
) -> bool {
    match request {
        DiscordRequest::TextRequest { guild_id, channel_id, msg_id, user_id, text } => {
            &&& after == before
            &&& match guild_id {
                None => errand is DirectMessage,
                Some(g) => {
                    &&& errand matches Errand::AskText { request: r, guild_id: eg, channel_id: ec, msg_id: em }
                    &&& r.request@ == text@
                    &&& r.channel_id == channel_id
                    &&& eg == g
                    &&& ec == channel_id
                    &&& em == msg_id
                },
            }
        },
        DiscordRequest::VoiceRequest { guild_id, channel_id, user_id, text } => {
            &&& after == before
            &&& errand matches Errand::AskVoice { request: r, guild_id: eg, channel_id: ec }
            &&& r.request@ == text@
            &&& r.channel_id == user_id
            &&& eg == guild_id
            &&& ec == channel_id
        },
        DiscordRequest::VoiceConnected { guild_id, channel_id, user_id } => match guild_id {
            Some(g) => errand is Noted && after == before.insert((g, channel_id), State::Voice),
            None => errand is NotAGuild && after == before,
        },
        DiscordRequest::VoiceDisconnected { guild_id, channel_id, user_id } => match guild_id {
            Some(g) => errand is Noted && after == before.insert((g, channel_id), State::TextOnly),
            None => errand is NotAGuild && after == before,
        },
        DiscordRequest::ResetConversation { guild_id, channel_id, user_id } => {
            &&& after == before
            &&& errand matches Errand::Reset { channel }
            &&& channel@ == numbered_channel(conversation_number(channel_id, user_id))
        },
    }
}

/// One turn of the relay's loop: takes a report, notes what it says about
/// the channels, and tells what is to be done. See [`planned`].
pub fn plan_errand(states: &mut VoiceChannelMap, request: DiscordRequest) -> (errand: Errand)
    ensures
        planned(old(states)@, request, final(states)@, errand),
{
    match request {
        DiscordRequest::TextRequest { guild_id, channel_id, msg_id, user_id: _, text } => {
            match guild_id {
                None => Errand::DirectMessage,
                Some(g) => Errand::AskText {
                    request: DiscordAIRequest { request: text, channel_id },
                    guild_id: g,
                    channel_id,
                    msg_id,
                },
            }
        },
        DiscordRequest::VoiceRequest { guild_id, channel_id, user_id, text } => Errand::AskVoice {
            request: DiscordAIRequest { request: text, channel_id: user_id },
            guild_id,
            channel_id,
        },
        DiscordRequest::VoiceConnected { guild_id, channel_id, user_id: _ } => match guild_id {
            Some(g) => {
                states.set_voice_state(g, channel_id, State::Voice);
                Errand::Noted
            },
            None => Errand::NotAGuild,
        },
        DiscordRequest::VoiceDisconnected { guild_id, channel_id, user_id: _ } => match guild_id {
            Some(g) => {
                states.set_voice_state(g, channel_id, State::TextOnly);
                Errand::Noted
            },
            None => Errand::NotAGuild,
        },
        DiscordRequest::ResetConversation { guild_id: _, channel_id, user_id } => {
            let number = if channel_id != 0 {
                channel_id
            } else {
                user_id
            };
            Errand::Reset { channel: channel_name(number) }
        },
    }
}

} // verus!

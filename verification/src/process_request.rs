//! What to answer once the dispatcher has spoken.
//!
//! An answer is made in two steps with the synthesis of speech between them:
//! first what to say aloud is chosen, then the response is put together from
//! the text and from the speech, if the synthesis gave any.

use crate::control::DiscordResponse;
use crate::dispatcher::{AIError, AIResponse, AIResponseType};
use crate::voice_ch_map::State;
use vstd::prelude::*;
use vstd::string::StringExecFns;

verus! {

/// The text to say aloud: the translation if there is one, else the raw
/// answer.
pub open spec fn spoken_text(resp: Map<AIResponseType, Seq<char>>) -> Option<Seq<char>> {
    if resp.contains_key(AIResponseType::Translated) {
        Some(resp[AIResponseType::Translated])
    } else if resp.contains_key(AIResponseType::RawAnswer) {
        Some(resp[AIResponseType::RawAnswer])
    } else {
        None
    }
}

/// The text to write: the spoken text, followed by the raw answer in
/// brackets where that is asked for.
pub open spec fn written_text(resp: Map<AIResponseType, Seq<char>>, display_raw_resp: bool) -> Option<
    Seq<char>,
> {
    match spoken_text(resp) {
        None => None,
        Some(spoken) => if !display_raw_resp {
            Some(spoken)
        } else if resp.contains_key(AIResponseType::RawAnswer) {
            Some(spoken + " ["@ + resp[AIResponseType::RawAnswer] + "]"@)
        } else {
            None
        },
    }
}

/// The text to say aloud and the text to write, or `None` where the
/// response lacks a text that they are made from.
pub fn get_texts(resp: &AIResponse, display_raw_resp: bool) -> (r: Option<(String, String)>)
    ensures
        r is Some <==> written_text(resp@, display_raw_resp) is Some,
        r matches Some(texts) ==> Some(texts.0@) == spoken_text(resp@) && Some(texts.1@)
            == written_text(resp@, display_raw_resp),
{
    let text_to_tts = match resp.get(AIResponseType::Translated) {
        Some(t) => t,
        None => match resp.get(AIResponseType::RawAnswer) {
            Some(t) => t,
            None => {
                return None;
            },
        },
    };
    if display_raw_resp {
        match resp.get(AIResponseType::RawAnswer) {
            Some(raw) => {
                let mut text_to_send = text_to_tts.clone();
                text_to_send.append(" [");
                text_to_send.append(raw.as_str());
                text_to_send.append("]");
                Some((text_to_tts.clone(), text_to_send))
            },
            None => None,
        }
    } else {
        Some((text_to_tts.clone(), text_to_tts.clone()))
    }
}

/// What to hand to the synthesis after the dispatcher returned `result`: the
/// spoken text of an answer, the busy message where the session was taken
/// and the channel is answered aloud, and nothing otherwise.
pub open spec fn speech_for(
    result: Result<AIResponse, AIError>,
    state: State,
    busy_message: Seq<char>,
) -> Option<Seq<char>> {
    match result {
        Ok(resp) => spoken_text(resp@),
        Err(AIError::Busy) => if state == State::Voice {
            Some(busy_message)
        } else {
            None
        },
        Err(_) => None,
    }
}

/// What to hand to the synthesis. See [`speech_for`].
pub fn text_to_say(result: &Result<AIResponse, AIError>, state: State, busy_message: &String) -> (r:
    Option<String>)
    ensures
        r is Some <==> speech_for(*result, state, busy_message@) is Some,
        r matches Some(t) ==> Some(t@) == speech_for(*result, state, busy_message@),
{
    match result {
        Ok(resp) => match resp.get(AIResponseType::Translated) {
            Some(t) => Some(t.clone()),
            None => match resp.get(AIResponseType::RawAnswer) {
                Some(t) => Some(t.clone()),
                None => None,
            },
        },
        Err(AIError::Busy) => if state == State::Voice {
            Some(busy_message.clone())
        } else {
            None
        },
        Err(_) => None,
    }
}

/// The response to a message in a text channel.
///
/// An answer is spoken in the voice channel, with its text written beside
/// it, where the channel is answered aloud and there is speech; otherwise it
/// is written, with the speech attached if there is any. Where the session
/// was taken, the busy message is spoken or written likewise, and a failed
/// synthesis is reported in writing. Any other error gets no response.
pub open spec fn text_reply<T>(
    result: Result<AIResponse, AIError>,
    state: State,
    tts: Option<T>,
    busy_message: Seq<char>,
    guild_id: u64,
    channel_id: u64,
    msg_id: u64,
    display_raw_resp: bool,
    reply: Option<DiscordResponse<T>>,
) -> bool {
    match result {
        Ok(resp) => match written_text(resp@, display_raw_resp) {
            None => reply is None,
            Some(written) => if state == State::Voice && tts is Some {
                &&& reply matches Some(
                    DiscordResponse::VoiceResponse { req_msg_id, guild_id: g, channel_id: c, text, tts: t },
                )
                &&& req_msg_id == Some(msg_id)
                &&& g == guild_id
                &&& c == channel_id
                &&& text matches Some(w)
                &&& w@ == written
                &&& Some(t) == tts
            } else {
                &&& reply matches Some(
                    DiscordResponse::TextResponse { req_msg_id, channel_id: c, text, tts: t },
                )
                &&& req_msg_id == Some(msg_id)
                &&& c == channel_id
                &&& text@ == written
                &&& t == tts
            },
        },
        Err(AIError::Busy) => if state == State::Voice {
            match tts {
                Some(speech) => {
                    &&& reply matches Some(
                        DiscordResponse::VoiceResponse {
                            req_msg_id,
                            guild_id: g,
                            channel_id: c,
                            text,
                            tts: t,
                        },
                    )
                    &&& req_msg_id == Some(msg_id)
                    &&& g == guild_id
                    &&& c == channel_id
                    &&& text is None
                    &&& t == speech
                },
                None => {
                    &&& reply matches Some(
                        DiscordResponse::TextResponse { req_msg_id, channel_id: c, text, tts: t },
                    )
                    &&& req_msg_id == Some(msg_id)
                    &&& c == channel_id
                    &&& text@ == "TTS error!"@
                    &&& t is None
                },
            }
        } else {
            &&& reply matches Some(
                DiscordResponse::TextResponse { req_msg_id, channel_id: c, text, tts: t },
            )
            &&& req_msg_id == Some(msg_id)
            &&& c == channel_id
            &&& text@ == busy_message
            &&& t is None
        },
        Err(_) => reply is None,
    }
}

/// The response to a message in a text channel, from what the dispatcher
/// returned and what the synthesis of [`text_to_say`] gave. See
/// [`text_reply`].
pub fn process_text_request<T>(
    result: Result<AIResponse, AIError>,
    state: State,
    tts: Option<T>,
    busy_message: String,
    guild_id: u64,
    channel_id: u64,
    msg_id: u64,
    display_raw_resp: bool,
) -> (reply: Option<DiscordResponse<T>>)
    ensures
        text_reply(
            result,
            state,
            tts,
            busy_message@,
            guild_id,
            channel_id,
            msg_id,
            display_raw_resp,
            reply,
        ),
{
    match result {
        Ok(resp) => match get_texts(&resp, display_raw_resp) {
            None => None,
            Some((_, text_to_send)) => match tts {
                Some(speech) => if state == State::Voice {
                    Some(
                        DiscordResponse::VoiceResponse {
                            req_msg_id: Some(msg_id),
                            guild_id,
                            channel_id,
                            text: Some(text_to_send),
                            tts: speech,
                        },
                    )
                } else {
                    Some(
                        DiscordResponse::TextResponse {
                            req_msg_id: Some(msg_id),
                            channel_id,
                            text: text_to_send,
                            tts: Some(speech),
                        },
                    )
                },
                None => Some(
                    DiscordResponse::TextResponse {
                        req_msg_id: Some(msg_id),
                        channel_id,
                        text: text_to_send,
                        tts: None,
                    },
                ),
            },
        },
        Err(AIError::Busy) => if state == State::Voice {
            match tts {
                Some(speech) => Some(
                    DiscordResponse::VoiceResponse {
                        req_msg_id: Some(msg_id),
                        guild_id,
                        channel_id,
                        text: None,
                        tts: speech,
                    },
                ),
                None => Some(
                    DiscordResponse::TextResponse {
                        req_msg_id: Some(msg_id),
                        channel_id,
                        text: "TTS error!".to_owned(),
                        tts: None,
                    },
                ),
            }
        } else {
            Some(
                DiscordResponse::TextResponse {
                    req_msg_id: Some(msg_id),
                    channel_id,
                    text: busy_message,
                    tts: None,
                },
            )
        },
        Err(_) => None,
    }
}

/// The response to the words of a speaker.
///
/// An answer is spoken where the channel is answered aloud and there is
/// speech, with its text written beside it only where the raw answer is to
/// be shown; otherwise it is written, without speech. Where the session was
/// taken, the busy message is spoken if the channel is answered aloud and
/// there is speech, dropped if there is none, and written otherwise. Any
/// other error gets no response.
pub open spec fn voice_reply<T>(
    result: Result<AIResponse, AIError>,
    state: State,
    tts: Option<T>,
    busy_message: Seq<char>,
    guild_id: u64,
    channel_id: u64,
    display_raw_resp: bool,
    reply: Option<DiscordResponse<T>>,
) -> bool {
    match result {
        Ok(resp) => match written_text(resp@, display_raw_resp) {
            None => reply is None,
            Some(written) => if state == State::Voice && tts is Some {
                &&& reply matches Some(
                    DiscordResponse::VoiceResponse { req_msg_id, guild_id: g, channel_id: c, text, tts: t },
                )
                &&& req_msg_id is None
                &&& g == guild_id
                &&& c == channel_id
                &&& if display_raw_resp {
                    text matches Some(w) && w@ == written
                } else {
                    text is None
                }
                &&& Some(t) == tts
            } else {
                &&& reply matches Some(
                    DiscordResponse::TextResponse { req_msg_id, channel_id: c, text, tts: t },
                )
                &&& req_msg_id is None
                &&& c == channel_id
                &&& text@ == written
                &&& t is None
            },
        },
        Err(AIError::Busy) => if state == State::Voice {
            match tts {
                Some(speech) => {
                    &&& reply matches Some(
                        DiscordResponse::VoiceResponse {
                            req_msg_id,
                            guild_id: g,
                            channel_id: c,
                            text,
                            tts: t,
                        },
                    )
                    &&& req_msg_id is None
                    &&& g == guild_id
                    &&& c == channel_id
                    &&& text is None
                    &&& t == speech
                },
                None => reply is None,
            }
        } else {
            &&& reply matches Some(
                DiscordResponse::TextResponse { req_msg_id, channel_id: c, text, tts: t },
            )
            &&& req_msg_id is None
            &&& c == channel_id
            &&& text@ == busy_message
            &&& t is None
        },
        Err(_) => reply is None,
    }
}

/// The response to the words of a speaker, from what the dispatcher
/// returned and what the synthesis of [`text_to_say`] gave. See
/// [`voice_reply`].
pub fn process_voice_request<T>(
    result: Result<AIResponse, AIError>,
    state: State,
    tts: Option<T>,
    busy_message: String,
    guild_id: u64,
    channel_id: u64,
    display_raw_resp: bool,
) -> (reply: Option<DiscordResponse<T>>)
    ensures
        voice_reply(
            result,
            state,
            tts,
            busy_message@,
            guild_id,
            channel_id,
            display_raw_resp,
            reply,
        ),
{
    match result {
        Ok(resp) => match get_texts(&resp, display_raw_resp) {
            None => None,
            Some((_, text_to_send)) => match tts {
                Some(speech) => if state == State::Voice {
                    Some(
                        DiscordResponse::VoiceResponse {
                            req_msg_id: None,
                            guild_id,
                            channel_id,
                            text: if display_raw_resp {
                                Some(text_to_send)
                            } else {
                                None
                            },
                            tts: speech,
                        },
                    )
                } else {
                    Some(
                        DiscordResponse::TextResponse {
                            req_msg_id: None,
                            channel_id,
                            text: text_to_send,
                            tts: None,
                        },
                    )
                },
                None => Some(
                    DiscordResponse::TextResponse {
                        req_msg_id: None,
                        channel_id,
                        text: text_to_send,
                        tts: None,
                    },
                ),
            },
        },
        Err(AIError::Busy) => if state == State::Voice {
            match tts {
                Some(speech) => Some(
                    DiscordResponse::VoiceResponse {
                        req_msg_id: None,
                        guild_id,
                        channel_id,
                        text: None,
                        tts: speech,
                    },
                ),
                None => None,
            }
        } else {
            Some(
                DiscordResponse::TextResponse {
                    req_msg_id: None,
                    channel_id,
                    text: busy_message,
                    tts: None,
                },
            )
        },
        Err(_) => None,
    }
}

} // verus!

//! The core of a conversational relay: requests from chat channels are handed
//! to one conversation session per channel, and captured voice is cut into
//! utterances per speaker.

pub mod ai_dispatcher;
pub mod audio_input;
pub mod busy;
pub mod channel_filter;
pub mod config;
pub mod control;
pub mod conversation;
pub mod decimal;
pub mod deeplx_translate_owned;
pub mod dispatch_laws;
pub mod dispatcher;
pub mod dummy_ai;
pub mod google_translator;
pub mod interactive;
pub mod num2words;
pub mod process_request;
pub mod request;
pub mod start_external_services;
pub mod stream;
pub mod text;
pub mod twitch;
pub mod voice_ch_map;
pub mod voice_receiver;
pub mod voice_recognize;
pub mod voice_state;
pub mod wav;

use ai_waifu::ai_dispatcher::AIDispatcher;
use ai_waifu::config::{
    create_ai_dispatcher, create_streamed_ai, select_gpt_model, AIEngine, AIEngineType,
    ChatGPTAIBuilder, ChatGPTEnAIBuilder, Config, ConfigError, DeepLxTranslateConfig,
    DiscordConfig, GptModel,
};
use ai_waifu::control::{plan_errand, request_of_message, DiscordRequest, DiscordResponse, Errand};
use ai_waifu::conversation::{ChatMessage, Conversation, Role};
use ai_waifu::deeplx_translate_owned::{
    align_time_stamp, frame_request, get_i_count, get_time_stamp, random_start_id, translate_request,
    DeepLxTranslatorOwned, StageAction, StageEvent, StagePhase, TranslateReply,
};
use ai_waifu::dispatcher::{AIBuilder, AIError, AIResponse, AIResponseType, Dispatcher};
use ai_waifu::dummy_ai::{DummyAI, DummyAIBuilder};
use ai_waifu::google_translator::{GoogleTranslator, IntoEnglish};
use ai_waifu::interactive::{command_of, subtitle_text, Command};
use ai_waifu::process_request::{get_texts, process_text_request, process_voice_request, text_to_say};
use ai_waifu::request::{DiscordAIRequest, InteractiveRequest, TestRequest};
use ai_waifu::stream::{from_response_chunks, ResponseChunk};
use ai_waifu::start_external_services::{local, start_external_services, ServiceEndpoint, ServiceLaunch};
use ai_waifu::voice_ch_map::{State, VoiceChannelMap};
use ai_waifu::voice_recognize::{read_urukhan_reply, read_whisper_reply, words_recognized, WhisperReply};
use ai_waifu::voice_state::{human_present, voice_state_update, Presence, VoiceMoves, VoiceStateUpdate};

fn s(text: &str) -> String {
    text.to_string()
}

fn config(engine_type: AIEngineType) -> Config {
    Config {
        ai_engine: AIEngine { engine_type, reply_count: Some(1), context_path: Some(s("ctx")) },
        initial_prompt: s("You are helpful."),
        discord_config: DiscordConfig { discord_token: s("t"), channel_whitelist: vec![s("ai")] },
        deeplx_translate_config: DeepLxTranslateConfig { src_lang: s("auto"), dest_lang: s("ru") },
        busy_messages: vec![s("busy")],
        display_raw_resp: false,
    }
}

fn full(raw: &str, translated: &str) -> AIResponse {
    let mut r = AIResponse::raw(s(raw));
    r.insert(AIResponseType::Translated, s(translated));
    r
}

#[test]
fn models_by_name() {
    let named = |name: &str| {
        select_gpt_model(&config(AIEngineType::ChatGPT {
            openai_token: s("k"),
            engine: Some(s(name)),
        }))
    };
    assert_eq!(named("Gpt35Turbo"), Ok(GptModel::Gpt35Turbo));
    assert_eq!(named("Gpt35Turbo_0301"), Ok(GptModel::Gpt35Turbo0301));
    assert_eq!(named("Gpt4"), Ok(GptModel::Gpt4));
    assert_eq!(named("Gpt4_32k"), Ok(GptModel::Gpt4x32k));
    assert_eq!(named("Gpt4_0314"), Ok(GptModel::Gpt4x0314));
    assert_eq!(named("Gpt4_32k_0314"), Ok(GptModel::Gpt4x32kx0314));
    assert_eq!(named("gpt4"), Err(ConfigError::InvalidEngine(s("gpt4"))));
    let unnamed = config(AIEngineType::ChatGPT { openai_token: s("k"), engine: None });
    assert_eq!(select_gpt_model(&unnamed), Ok(GptModel::Gpt35Turbo));
    let own = config(AIEngineType::LLaMa { api_url: s("http://x"), model: Some(s("zephyr")) });
    assert_eq!(select_gpt_model(&own), Ok(GptModel::Custom(s("zephyr"))));
    let own = config(AIEngineType::LLaMa { api_url: s("http://x"), model: None });
    assert_eq!(select_gpt_model(&own), Ok(GptModel::Gpt35Turbo));
}

#[test]
fn dispatcher_from_settings() {
    let c = config(AIEngineType::LLaMa { api_url: s("http://x/v1"), model: None });
    let mut described = None;
    let mut d: AIDispatcher<DummyAIBuilder> = create_ai_dispatcher(&c, |b: ChatGPTEnAIBuilder| {
        described = Some(b);
        DummyAIBuilder
    })
    .unwrap();
    let b = described.unwrap();
    assert_eq!(b.openai_token, "no-token");
    assert_eq!(b.api_url, Some(s("http://x/v1")));
    assert_eq!(b.model, GptModel::Gpt35Turbo);
    assert_eq!(b.reply_count, Some(1));
    assert_eq!(b.initial_prompt, "You are helpful.");
    assert_eq!((b.src_lang.as_str(), b.dest_lang.as_str()), ("auto", "ru"));
    assert_eq!(d.session_count(), 0);
    assert_eq!(d.context_path(&s("c")).unwrap().directory, "ctx");
    let r = d.try_process_request(TestRequest { request: s("hi"), channel: s("c") }).unwrap();
    assert_eq!(r.raw_answer, Some(s("hi")));
}

#[test]
fn settings_with_an_unknown_model_are_refused() {
    let c = config(AIEngineType::ChatGPT { openai_token: s("k"), engine: Some(s("Gpt5")) });
    let mut called = false;
    let r: Result<AIDispatcher<DummyAIBuilder>, ConfigError> =
        create_ai_dispatcher(&c, |_b: ChatGPTEnAIBuilder| {
            called = true;
            DummyAIBuilder
        });
    assert!(matches!(r, Err(ConfigError::InvalidEngine(name)) if name == "Gpt5"));
    assert!(!called);
    let r = create_streamed_ai(&c, |_b: ChatGPTAIBuilder| DummyAI::new());
    assert_eq!(r, Err(ConfigError::InvalidEngine(s("Gpt5"))));
}

#[test]
fn streamed_backend_from_settings() {
    let c = config(AIEngineType::ChatGPT { openai_token: s("key"), engine: Some(s("Gpt4")) });
    let described = create_streamed_ai(&c, |b: ChatGPTAIBuilder| b).unwrap();
    assert_eq!(described.openai_token, "key");
    assert_eq!(described.api_url, None);
    assert_eq!(described.model, GptModel::Gpt4);
    assert_eq!(described.initial_prompt, "You are helpful.");
    let mut b = DummyAIBuilder;
    assert_eq!(b.build(), DummyAI::new());
}

#[test]
fn conversation_history() {
    let mut c = Conversation::new(s("be kind"));
    assert_eq!(c.history, vec![ChatMessage { role: Role::System, content: s("be kind") }]);
    assert_eq!(c.reset(), Err(AIError::ResetErrorEmpty));
    assert_eq!(c.last_answer(), Ok(AIResponse::raw(s("be kind"))));
    c.push_request(s("q1"));
    c.push_answer(s("a1"));
    c.push_request(s("q2"));
    c.push_answer(s("a2"));
    assert_eq!(c.last_answer(), Ok(AIResponse::raw(s("a2"))));
    assert_eq!(c.rollback(), Some(ChatMessage { role: Role::Assistant, content: s("a2") }));
    assert_eq!(c.history.len(), 3);
    assert_eq!(c.last().unwrap().content, "a1");
    assert_eq!(c.reset(), Ok(()));
    assert_eq!(c.history, vec![ChatMessage { role: Role::System, content: s("be kind") }]);
    let mut empty = Conversation::new_with_history(Vec::new());
    assert_eq!(empty.reset(), Err(AIError::ResetErrorEmpty));
    assert_eq!(empty.rollback(), None);
    assert_eq!(empty.last_answer(), Err(AIError::UnknownError));
    assert!(empty.last().is_none());
    let mut one = Conversation::new(s("d"));
    assert_eq!(one.rollback(), Some(ChatMessage { role: Role::System, content: s("d") }));
    assert!(one.history.is_empty());
}

#[test]
fn counting_the_letter_i() {
    assert_eq!(get_i_count(""), 0);
    assert_eq!(get_i_count("Mississippi"), 4);
    assert_eq!(get_i_count("III"), 0);
    assert_eq!(get_i_count("привет, i"), 1);
}

#[test]
fn time_stamps_are_aligned() {
    assert_eq!(align_time_stamp(1_700_000_000_123, 0), Some(1_700_000_000_123));
    // four i: the stamp moves to the next multiple of five
    assert_eq!(align_time_stamp(1_700_000_000_123, 4), Some(1_700_000_000_125));
    assert_eq!(align_time_stamp(1_700_000_000_125, 4), Some(1_700_000_000_130));
    assert_eq!(align_time_stamp(7, 9), Some(10));
    assert_eq!(align_time_stamp(u64::MAX, 1), None);
    assert_eq!(align_time_stamp(5, u64::MAX), None);
    assert_eq!(align_time_stamp(u64::MAX - 1, 0), Some(u64::MAX - 1));
    let now = get_time_stamp(6).unwrap();
    assert_eq!(now % 7, 0);
    assert!(now > 1_600_000_000_000);
    assert!(get_time_stamp(0).unwrap() > 1_600_000_000_000);
}

#[test]
fn identifiers_of_the_translation_stage() {
    assert_eq!(random_start_id(0), 8_300_000_000);
    assert_eq!(random_start_id(99_999), 8_300_000_000);
    assert_eq!(random_start_id(100_000), 8_300_001_000);
    assert_eq!(random_start_id(-1), 8_299_999_000);
    assert_eq!(random_start_id(i64::MAX), (i64::MAX % 99_999 + 8_300_000) * 1000);
    assert_eq!(random_start_id(i64::MIN), (i64::MIN % 99_999 + 8_300_000) * 1000);
    let mut stage = DeepLxTranslatorOwned::with_roll(Some(s("ru")), None, Some(550_000), 21).unwrap();
    assert_eq!(stage.id(), 8_300_021_000);
    // 8300021001 + 5 and + 3 are multiples of neither 29 nor 13
    assert_eq!(stage.next_request(), (8_300_021_001, false));
    assert_eq!(stage.id(), 8_300_021_001);
    let mut wide = DeepLxTranslatorOwned::with_roll(Some(s("ru")), None, None, 0).unwrap();
    // 8300000009 + 3 = 13 * 638461539 + 5; walk to the first wide one
    let mut found = None;
    for _ in 0..40 {
        let (id, w) = wide.next_request();
        assert_eq!(w, (id + 5) % 29 == 0 || (id + 3) % 13 == 0);
        if w && found.is_none() {
            found = Some(id);
        }
    }
    assert!(found.is_some());
    let fresh = DeepLxTranslatorOwned::new(Some(s("ru")), Some(s("de")), None).unwrap();
    assert!(fresh.id() % 1000 == 0 && (8_200_001_000..=8_399_998_000).contains(&fresh.id()));
}

#[test]
fn languages_of_the_translation_stage() {
    assert!(DeepLxTranslatorOwned::with_roll(None, None, None, 0).is_none());
    let both = DeepLxTranslatorOwned::with_roll(Some(s("ru")), Some(s("de")), None, 0).unwrap();
    assert_eq!(both.dest_lang(), "de");
    assert_eq!(both.request_language(s("fr")), "ru");
    let src = DeepLxTranslatorOwned::with_roll(Some(s("ru")), None, None, 0).unwrap();
    assert_eq!(src.dest_lang(), "en");
    assert_eq!(src.request_language(s("fr")), "ru");
    let dest = DeepLxTranslatorOwned::with_roll(None, Some(s("de")), Some(7), 0).unwrap();
    assert_eq!(dest.dest_lang(), "de");
    assert_eq!(dest.request_language(s("fr")), "de");
    assert_eq!(dest.drop_threshold(None), Some(7));
    assert_eq!(dest.drop_threshold(Some(1_000_000)), Some(1_000_000));
    assert_eq!(src.drop_threshold(None), None);
}

#[test]
fn replies_of_the_translation_service() {
    let read = |reply, limit| DeepLxTranslatorOwned::read_reply(reply, 5, limit, "input");
    let answer = |id, has_result, sure, share: Option<u32>, text: Option<&str>| TranslateReply::Answer {
        id,
        has_result,
        lang_is_confident: sure,
        unsupported: share.map(|p| (p, format!("0.{:06}", p))),
        text: text.map(s),
    };
    assert_eq!(read(answer(5, true, true, None, Some("Hi")), Some(550_000)), Ok(s("Hi")));
    assert_eq!(
        read(TranslateReply::Error { code: -32600, message: s("\"x\"") }, None),
        Err(s("Invalid target Lang"))
    );
    assert_eq!(
        read(TranslateReply::Error { code: 1042911, message: s("\"Too many requests\"") }, None),
        Err(s("Failed to translate, error 1042911: \"Too many requests\""))
    );
    assert_eq!(
        read(answer(6, true, true, None, Some("Hi")), None),
        Err(s("Invaid response id 6, actual: 5"))
    );
    assert_eq!(read(answer(5, false, true, None, None), None), Err(s("Missing translate result")));
    assert_eq!(read(answer(5, true, true, None, None), None), Err(s("Missing text results")));
    // unsure, and more likely than allowed to be in no known language
    assert_eq!(
        read(answer(5, true, false, Some(541_743), Some("Bye.")), Some(541_742)),
        Err(s("Translate input is not confident (0.541743), posibly gabrage input 'input'"))
    );
    // at the limit, not above it
    assert_eq!(read(answer(5, true, false, Some(541_743), Some("Bye.")), Some(541_743)), Ok(s("Bye.")));
    // sure of the language: the share does not matter
    assert_eq!(read(answer(5, true, true, Some(999_999), Some("Bye.")), Some(0)), Ok(s("Bye.")));
    // no limit, or no share
    assert_eq!(read(answer(5, true, false, Some(999_999), Some("Bye.")), None), Ok(s("Bye.")));
    assert_eq!(read(answer(5, true, false, None, Some("Bye.")), Some(0)), Ok(s("Bye.")));
    assert_eq!(
        read(TranslateReply::Other(s("[1,2]")), None),
        Err(s("Failed to parse result ([1,2])"))
    );
    let r = DeepLxTranslatorOwned::response(s("raw 42"), s("raw forty-two"), s("перевод"));
    assert_eq!(r.len(), 3);
    assert_eq!(r.get(AIResponseType::NoDigits), Some(&s("raw forty-two")));
    assert_eq!(r.get(AIResponseType::Translated), Some(&s("перевод")));
    assert_eq!(r.get(AIResponseType::RawAnswer), Some(&s("raw 42")));
}

#[test]
fn texts_of_a_response() {
    assert_eq!(get_texts(&full("raw", "tr"), false), Some((s("tr"), s("tr"))));
    assert_eq!(get_texts(&full("raw", "tr"), true), Some((s("tr"), s("tr [raw]"))));
    assert_eq!(get_texts(&AIResponse::raw(s("raw")), false), Some((s("raw"), s("raw"))));
    assert_eq!(get_texts(&AIResponse::raw(s("raw")), true), Some((s("raw"), s("raw [raw]"))));
    assert_eq!(get_texts(&AIResponse::new(), false), None);
    let mut only = AIResponse::new();
    only.insert(AIResponseType::Translated, s("tr"));
    assert_eq!(get_texts(&only, false), Some((s("tr"), s("tr"))));
    assert_eq!(get_texts(&only, true), None);
    assert_eq!(text_to_say(&Ok(full("raw", "tr")), State::TextOnly, &s("busy")), Some(s("tr")));
    assert_eq!(text_to_say(&Err(AIError::Busy), State::Voice, &s("busy")), Some(s("busy")));
    assert_eq!(text_to_say(&Err(AIError::Busy), State::TextOnly, &s("busy")), None);
    assert_eq!(text_to_say(&Err(AIError::NetworkError), State::Voice, &s("busy")), None);
    assert_eq!(text_to_say(&Ok(AIResponse::new()), State::Voice, &s("busy")), None);
}

#[test]
fn replies_to_messages() {
    let ok = || Ok(full("raw", "tr"));
    assert_eq!(
        process_text_request(ok(), State::Voice, Some(1u8), s("busy"), 10, 20, 30, true),
        Some(DiscordResponse::VoiceResponse {
            req_msg_id: Some(30),
            guild_id: 10,
            channel_id: 20,
            text: Some(s("tr [raw]")),
            tts: 1
        })
    );
    assert_eq!(
        process_text_request(ok(), State::TextOnly, Some(1u8), s("busy"), 10, 20, 30, false),
        Some(DiscordResponse::TextResponse {
            req_msg_id: Some(30),
            channel_id: 20,
            text: s("tr"),
            tts: Some(1)
        })
    );
    assert_eq!(
        process_text_request(ok(), State::Voice, None::<u8>, s("busy"), 10, 20, 30, false),
        Some(DiscordResponse::TextResponse { req_msg_id: Some(30), channel_id: 20, text: s("tr"), tts: None })
    );
    assert_eq!(
        process_text_request(Err(AIError::Busy), State::Voice, Some(2u8), s("busy"), 10, 20, 30, false),
        Some(DiscordResponse::VoiceResponse {
            req_msg_id: Some(30),
            guild_id: 10,
            channel_id: 20,
            text: None,
            tts: 2
        })
    );
    assert_eq!(
        process_text_request(Err(AIError::Busy), State::Voice, None::<u8>, s("busy"), 10, 20, 30, false),
        Some(DiscordResponse::TextResponse {
            req_msg_id: Some(30),
            channel_id: 20,
            text: s("TTS error!"),
            tts: None
        })
    );
    assert_eq!(
        process_text_request(Err(AIError::Busy), State::TextOnly, Some(2u8), s("busy"), 10, 20, 30, false),
        Some(DiscordResponse::TextResponse {
            req_msg_id: Some(30),
            channel_id: 20,
            text: s("busy"),
            tts: None
        })
    );
    assert_eq!(
        process_text_request(Err(AIError::UnknownError), State::Voice, Some(2u8), s("b"), 1, 2, 3, false),
        None
    );
    assert_eq!(
        process_text_request(Ok(AIResponse::new()), State::Voice, Some(2u8), s("b"), 1, 2, 3, false),
        None
    );
}

#[test]
fn replies_to_speakers() {
    let ok = || Ok(full("raw", "tr"));
    assert_eq!(
        process_voice_request(ok(), State::Voice, Some(1u8), s("busy"), 10, 20, false),
        Some(DiscordResponse::VoiceResponse {
            req_msg_id: None,
            guild_id: 10,
            channel_id: 20,
            text: None,
            tts: 1
        })
    );
    assert_eq!(
        process_voice_request(ok(), State::Voice, Some(1u8), s("busy"), 10, 20, true),
        Some(DiscordResponse::VoiceResponse {
            req_msg_id: None,
            guild_id: 10,
            channel_id: 20,
            text: Some(s("tr [raw]")),
            tts: 1
        })
    );
    assert_eq!(
        process_voice_request(ok(), State::TextOnly, Some(1u8), s("busy"), 10, 20, false),
        Some(DiscordResponse::TextResponse { req_msg_id: None, channel_id: 20, text: s("tr"), tts: None })
    );
    assert_eq!(
        process_voice_request(ok(), State::Voice, None::<u8>, s("busy"), 10, 20, false),
        Some(DiscordResponse::TextResponse { req_msg_id: None, channel_id: 20, text: s("tr"), tts: None })
    );
    assert_eq!(
        process_voice_request(Err(AIError::Busy), State::Voice, Some(2u8), s("busy"), 10, 20, false),
        Some(DiscordResponse::VoiceResponse {
            req_msg_id: None,
            guild_id: 10,
            channel_id: 20,
            text: None,
            tts: 2
        })
    );
    assert_eq!(
        process_voice_request(Err(AIError::Busy), State::Voice, None::<u8>, s("busy"), 10, 20, false),
        None
    );
    assert_eq!(
        process_voice_request(Err(AIError::Busy), State::TextOnly, None::<u8>, s("busy"), 10, 20, false),
        Some(DiscordResponse::TextResponse { req_msg_id: None, channel_id: 20, text: s("busy"), tts: None })
    );
    assert_eq!(
        process_voice_request(Err(AIError::ContextError), State::Voice, Some(2u8), s("b"), 1, 2, false),
        None
    );
}

#[test]
fn errands_of_the_chat_platform() {
    let mut m = VoiceChannelMap::new();
    assert_eq!(
        plan_errand(
            &mut m,
            DiscordRequest::TextRequest { guild_id: None, channel_id: 2, msg_id: 3, user_id: 4, text: s("hi") }
        ),
        Errand::DirectMessage
    );
    assert_eq!(
        plan_errand(
            &mut m,
            DiscordRequest::TextRequest { guild_id: Some(1), channel_id: 2, msg_id: 3, user_id: 4, text: s("hi") }
        ),
        Errand::AskText {
            request: DiscordAIRequest { request: s("hi"), channel_id: 2 },
            guild_id: 1,
            channel_id: 2,
            msg_id: 3
        }
    );
    // the words of a speaker are kept under the speaker
    assert_eq!(
        plan_errand(&mut m, DiscordRequest::VoiceRequest { guild_id: 1, channel_id: 2, user_id: 4, text: s("hi") }),
        Errand::AskVoice { request: DiscordAIRequest { request: s("hi"), channel_id: 4 }, guild_id: 1, channel_id: 2 }
    );
    assert_eq!(
        plan_errand(&mut m, DiscordRequest::VoiceConnected { guild_id: Some(1), channel_id: 2, user_id: 4 }),
        Errand::Noted
    );
    assert_eq!(m.get_voice_state(1, 2), State::Voice);
    assert_eq!(
        plan_errand(&mut m, DiscordRequest::VoiceConnected { guild_id: None, channel_id: 5, user_id: 4 }),
        Errand::NotAGuild
    );
    assert_eq!(
        plan_errand(&mut m, DiscordRequest::VoiceDisconnected { guild_id: Some(1), channel_id: 2, user_id: 4 }),
        Errand::Noted
    );
    assert_eq!(m.get_voice_state(1, 2), State::TextOnly);
    assert_eq!(
        plan_errand(&mut m, DiscordRequest::VoiceDisconnected { guild_id: None, channel_id: 2, user_id: 4 }),
        Errand::NotAGuild
    );
    assert_eq!(
        plan_errand(&mut m, DiscordRequest::ResetConversation { guild_id: Some(1), channel_id: 2, user_id: 4 }),
        Errand::Reset { channel: s("#2") }
    );
    assert_eq!(
        plan_errand(&mut m, DiscordRequest::ResetConversation { guild_id: None, channel_id: 0, user_id: 4 }),
        Errand::Reset { channel: s("#4") }
    );
}

#[test]
fn services_on_this_machine() {
    let here = ServiceEndpoint { host: Some(s("localhost")), port: None };
    let there = ServiceEndpoint { host: Some(s("tts.example.org")), port: Some(8000) };
    let unnamed = ServiceEndpoint { host: None, port: Some(9000) };
    assert!(local(&here) && local(&unnamed) && !local(&there));
    let both = start_external_services(Some(here.clone()), Some(unnamed), "/models", "ru", "ru_v3");
    assert_eq!(
        both,
        vec![
            ServiceLaunch {
                script: s("Selerio-TTS-server/main.py"),
                args: vec![s("-m"), s("/models"), s("-p"), s("8961"), s("ru"), s("ru_v3")]
            },
            ServiceLaunch {
                script: s("Voice-2-txt-UrukHan/main.py"),
                args: vec![s("-m"), s("/models"), s("-p"), s("9000")]
            },
        ]
    );
    let stt = start_external_services(Some(there.clone()), Some(here.clone()), "/m", "ru", "v");
    assert_eq!(
        stt,
        vec![ServiceLaunch {
            script: s("Voice-2-txt-UrukHan/main.py"),
            args: vec![s("-m"), s("/m"), s("-p"), s("3154")]
        }]
    );
    assert!(start_external_services(Some(there.clone()), Some(there), "/m", "ru", "v").is_empty());
    assert!(start_external_services(None, None, "/m", "ru", "v").is_empty());
    assert_eq!(start_external_services(Some(here), None, "/m", "ru", "v").len(), 1);
}

#[test]
fn replies_of_the_recognition_services() {
    assert_eq!(read_urukhan_reply(Some(s("привет"))), Ok(s("привет")));
    assert_eq!(read_urukhan_reply(Some(s(""))), Err(s("No text found")));
    assert_eq!(read_urukhan_reply(None), Err(s("Failed to recognize, incorrect result")));
    assert_eq!(
        read_whisper_reply(WhisperReply::Malformed),
        Err(s("Failed to recognize, incorrect result"))
    );
    assert_eq!(
        read_whisper_reply(WhisperReply::Object { language: None, transcribed_segments: Some(vec![]) }),
        Err(s("Incorrect server response: language"))
    );
    assert_eq!(
        read_whisper_reply(WhisperReply::Object { language: Some(s("ru")), transcribed_segments: None }),
        Err(s("Incorrect server response: transcribed_segments"))
    );
    assert_eq!(
        read_whisper_reply(WhisperReply::Object {
            language: Some(s("ru")),
            transcribed_segments: Some(vec![Some(s(" Мама мыла")), None, Some(s("раму. "))])
        }),
        Ok((s("Мама мыла   раму."), s("ru")))
    );
    assert_eq!(
        read_whisper_reply(WhisperReply::Object {
            language: Some(s("en")),
            transcribed_segments: Some(vec![None, None])
        }),
        Ok((s(""), s("en")))
    );
    assert_eq!(
        read_whisper_reply(WhisperReply::Object { language: Some(s("en")), transcribed_segments: Some(vec![]) }),
        Ok((s(""), s("en")))
    );
    assert!(words_recognized("ok"));
    assert!(words_recognized("я"));
    assert!(!words_recognized("a"));
    assert!(!words_recognized(""));
}

#[test]
fn languages_of_the_guessing_stage() {
    let fixed = GoogleTranslator::new(Some(s("ru")), Some(s("de")));
    assert_eq!(fixed.translate_to_en(), IntoEnglish::From(s("ru")));
    assert_eq!(fixed.translate_from_en(Some(s("fr"))), Some(s("de")));
    let english = GoogleTranslator::new(Some(s("en")), None);
    assert_eq!(english.translate_to_en(), IntoEnglish::AsIs);
    assert_eq!(english.translate_from_en(None), None);
    let open = GoogleTranslator::new(None, None);
    assert_eq!(open.translate_to_en(), IntoEnglish::From(s("auto")));
    assert_eq!(open.translate_from_en(Some(s("ru"))), Some(s("ru")));
    assert_eq!(open.translate_from_en(Some(s("en"))), None);
    assert_eq!(open.translate_from_en(Some(s("auto"))), None);
    assert_eq!(open.translate_from_en(None), None);
}

#[test]
fn commands_at_the_console() {
    let line = |t: &str| InteractiveRequest { request: s(t), lang: s("auto") };
    assert_eq!(command_of(line("/repeat")), Command::Repeat);
    assert_eq!(command_of(line("/reset")), Command::Reset);
    assert_eq!(command_of(line("/exit")), Command::Exit);
    assert_eq!(command_of(line("/exit ")), Command::Ask(line("/exit ")));
    assert_eq!(command_of(line("hello")), Command::Ask(line("hello")));
    assert_eq!(command_of(line("")), Command::Ask(line("")));
    assert_eq!(subtitle_text(&full("raw", "tr"), false), Some(s("tr")));
    assert_eq!(subtitle_text(&full("raw", "tr"), true), Some(s("raw")));
    assert_eq!(subtitle_text(&full("raw", ""), true), None);
    assert_eq!(subtitle_text(&AIResponse::raw(s("")), false), None);
    assert_eq!(subtitle_text(&AIResponse::new(), false), None);
}

#[test]
fn moves_between_voice_channels() {
    let update = |is_self, is_bot, old_channel, new_channel| VoiceStateUpdate { is_self, is_bot, old_channel, new_channel };
    let none = VoiceMoves { entered: None, left: None };
    assert_eq!(voice_state_update(update(true, false, None, Some(5))), none);
    assert_eq!(voice_state_update(update(false, true, None, Some(5))), none);
    assert_eq!(voice_state_update(update(false, false, Some(Some(5)), Some(5))), none);
    // no channel counts as channel zero
    assert_eq!(voice_state_update(update(false, false, Some(None), None)), none);
    assert_eq!(voice_state_update(update(false, false, Some(Some(0)), None)), none);
    assert_eq!(
        voice_state_update(update(false, false, None, Some(5))),
        VoiceMoves { entered: Some(5), left: None }
    );
    assert_eq!(
        voice_state_update(update(false, false, Some(Some(4)), Some(5))),
        VoiceMoves { entered: Some(5), left: Some(4) }
    );
    assert_eq!(
        voice_state_update(update(false, false, Some(Some(4)), None)),
        VoiceMoves { entered: None, left: Some(4) }
    );
    assert_eq!(
        voice_state_update(update(false, false, Some(None), Some(5))),
        VoiceMoves { entered: Some(5), left: None }
    );
    let states = vec![
        Presence { user_id: 1, channel_id: Some(4) },
        Presence { user_id: 2, channel_id: Some(5) },
        Presence { user_id: 3, channel_id: None },
    ];
    assert!(human_present(&states, 5, 1));
    assert!(!human_present(&states, 4, 1));
    assert!(human_present(&states, 4, 9));
    assert!(!human_present(&states, 6, 1));
    assert!(!human_present(&Vec::new(), 4, 1));
}

#[test]
fn request_to_the_translation_service() {
    let body = translate_request(8_300_021_001, false, 1_700_000_000_125, "Say \"hi\"\n", "auto", "EN").unwrap();
    assert_eq!(
        body,
        concat_all(&[
            r#"{"id":8300021001,"jsonrpc":"2.0","method": "LMT_handle_texts","params":{"#,
            r#""commonJobParams":{"TranscribeAS":"","WasSpoken":false},"#,
            r#""lang":{"source_lang_user_selected":"auto","target_lang":"EN"},"#,
            r#""splitting":"newlines","texts":[{"requestAlternatives":1,"text":"Say \"hi\"\n"}],"#,
            r#""timestamp":1700000000125}}"#,
        ])
    );
    let wide = translate_request(-5, true, 0, "", "ru", "en").unwrap();
    assert!(wide.starts_with(r#"{"id":-5,"jsonrpc":"2.0","method" : "LMT_handle_texts","#));
    assert!(wide.ends_with(r#""texts":[{"requestAlternatives":1,"text":""}],"timestamp":0}}"#));
    // the body is the JSON value it is meant to be
    let value: serde_json::Value = serde_json::from_str(&body).unwrap();
    assert_eq!(value["params"]["texts"][0]["text"], serde_json::Value::String(s("Say \"hi\"\n")));
    assert_eq!(value["method"], serde_json::Value::String(s("LMT_handle_texts")));
    assert_eq!(value["params"]["commonJobParams"]["WasSpoken"], serde_json::Value::Bool(false));
    assert_eq!(value["id"].as_i64(), Some(8_300_021_001));
}

#[test]
fn request_made_of_written_strings() {
    assert_eq!(
        frame_request(7, true, 9, "T", "S", "D"),
        concat_all(&[
            r#"{"id":7,"jsonrpc":"2.0","method" : "LMT_handle_texts","params":{"#,
            r#""commonJobParams":{"TranscribeAS":"","WasSpoken":false},"#,
            r#""lang":{"source_lang_user_selected":S,"target_lang":D},"#,
            r#""splitting":"newlines","texts":[{"requestAlternatives":1,"text":T}],"#,
            r#""timestamp":9}}"#,
        ])
    );
}

fn concat_all(parts: &[&str]) -> String {
    parts.concat()
}

#[test]
fn streamed_answers_are_put_together() {
    let begin = |i| ResponseChunk::BeginResponse { role: Role::Assistant, response_index: i };
    let piece = |i, d: &str| ResponseChunk::Content { delta: s(d), response_index: i };
    let chunks = vec![
        begin(0),
        piece(0, "Hel"),
        begin(1),
        piece(1, "Good"),
        piece(0, "lo"),
        ResponseChunk::CloseResponse { response_index: 0 },
        piece(1, "bye"),
        ResponseChunk::CloseResponse { response_index: 1 },
        ResponseChunk::Done,
    ];
    assert_eq!(
        from_response_chunks(&chunks),
        Some(vec![
            ChatMessage { role: Role::Assistant, content: s("Hello") },
            ChatMessage { role: Role::Assistant, content: s("Goodbye") },
        ])
    );
    assert_eq!(from_response_chunks(&Vec::new()), Some(Vec::new()));
    assert_eq!(from_response_chunks(&vec![ResponseChunk::Done]), Some(Vec::new()));
    // content for a message that has not begun
    assert_eq!(from_response_chunks(&vec![piece(0, "x"), begin(0)]), None);
    assert_eq!(from_response_chunks(&vec![begin(0), piece(1, "x")]), None);

    let mut c = Conversation::new(s("d"));
    c.push_request(s("q"));
    assert_eq!(c.push_streamed(&chunks), Ok(()));
    assert_eq!(c.history.len(), 4);
    assert_eq!(c.last().unwrap().content, "Goodbye");
    assert_eq!(c.push_streamed(&vec![piece(3, "x")]), Err(AIError::UnknownError));
    assert_eq!(c.history.len(), 4);
}

#[test]
fn exchange_through_the_translation_stage() {
    let stage = DeepLxTranslatorOwned::with_roll(None, Some(s("ru")), Some(550_000), 0).unwrap();
    let (phase, action) = stage.begin(s("Привет 42"), s("auto"));
    assert_eq!(phase, StagePhase::ToEnglish);
    assert_eq!(
        action,
        StageAction::Translate {
            text: s("Привет 42"),
            source_lang: s("ru"),
            target_lang: s("en"),
            drop_above: Some(550_000)
        }
    );
    let (phase, action) = stage.advance(phase, StageEvent::Translated(Ok(s("Hi 42"))));
    assert_eq!((&phase, &action), (&StagePhase::Asking, &StageAction::Ask { text: s("Hi 42") }));
    let (phase, action) = stage.advance(phase, StageEvent::Answered(Ok(AIResponse::raw(s("It is 42")))));
    assert_eq!(phase, StagePhase::Spelling { raw_answer: s("It is 42") });
    assert_eq!(action, StageAction::Spell { text: s("It is 42") });
    let (phase, action) = stage.advance(phase, StageEvent::Spelled(s("It is forty-two")));
    assert_eq!(
        action,
        StageAction::Translate {
            text: s("It is forty-two"),
            source_lang: s("en"),
            target_lang: s("ru"),
            drop_above: Some(1_000_000)
        }
    );
    let (phase, action) = stage.advance(phase, StageEvent::Translated(Ok(s("Это сорок два"))));
    assert_eq!(phase, StagePhase::Over);
    assert_eq!(
        action,
        StageAction::Finish(Ok(DeepLxTranslatorOwned::response(
            s("It is 42"),
            s("It is forty-two"),
            s("Это сорок два")
        )))
    );
}

#[test]
fn failures_end_the_exchange_through_the_stage() {
    let stage = DeepLxTranslatorOwned::with_roll(Some(s("ru")), None, None, 0).unwrap();
    let finish = |e| (StagePhase::Over, StageAction::Finish(Err(e)));
    assert_eq!(
        stage.advance(StagePhase::ToEnglish, StageEvent::Translated(Err(s("no")))),
        finish(AIError::TranslateError(s("no")))
    );
    assert_eq!(
        stage.advance(StagePhase::Asking, StageEvent::Answered(Err(AIError::NetworkError))),
        finish(AIError::NetworkError)
    );
    assert_eq!(
        stage.advance(StagePhase::Asking, StageEvent::Answered(Ok(AIResponse::new()))),
        finish(AIError::UnknownError)
    );
    let late = StagePhase::FromEnglish { raw_answer: s("a"), no_digits_answer: s("b") };
    assert_eq!(
        stage.advance(late, StageEvent::Translated(Err(s("no")))),
        finish(AIError::TranslateError(s("no")))
    );
    // what the phase does not wait for
    assert_eq!(stage.advance(StagePhase::Asking, StageEvent::Spelled(s("x"))), finish(AIError::UnknownError));
    assert_eq!(
        stage.advance(StagePhase::Over, StageEvent::Translated(Ok(s("x")))),
        finish(AIError::UnknownError)
    );
    assert_eq!(
        stage.advance(StagePhase::ToEnglish, StageEvent::Answered(Ok(AIResponse::raw(s("x"))))),
        finish(AIError::UnknownError)
    );
}

#[test]
fn messages_of_the_chat_platform() {
    assert_eq!(
        request_of_message(Some(1), 2, 3, 4, s("/reset")),
        DiscordRequest::ResetConversation { guild_id: Some(1), channel_id: 2, user_id: 4 }
    );
    assert_eq!(
        request_of_message(None, 2, 3, 4, s("/reset now")),
        DiscordRequest::TextRequest { guild_id: None, channel_id: 2, msg_id: 3, user_id: 4, text: s("/reset now") }
    );
}

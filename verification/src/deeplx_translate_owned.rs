//! The translation stage around a backend: the request is put into English
//! for the model, and the answer into the language of the user.
//!
//! The translation service is reached over the network, which is not the
//! business of this module. Here is what the stage computes before it asks
//! and after it was answered.

use crate::decimal::{push_decimal, push_signed, decimal_text, signed_text};
use crate::dispatcher::{AIError, AIResponse, AIResponseType};
use crate::text::{chars_of, opt_text};
use vstd::prelude::*;
use vstd::string::StringExecFns;

verus! {

/// How many of the characters are an `i`.
pub open spec fn i_count(text: Seq<char>) -> nat {
    text.filter(|c: char| c == 'i').len()
}

/// How many `i` the text holds.
pub fn get_i_count(translate_text: &str) -> (n: u64)
    ensures
        n == i_count(translate_text@),
{
    let chars = chars_of(translate_text);
    let mut n: u64 = 0;
    let mut k: usize = 0;
    let ghost is_i = |c: char| c == 'i';
    assert(chars@.take(0) =~= Seq::<char>::empty());
    proof {
        reveal(Seq::filter);
    }
    assert(chars@.take(0).filter(is_i).len() == 0);
    while k < chars.len()
        invariant
            k <= chars.len(),
            chars@ == translate_text@,
            is_i == |c: char| c == 'i',
            n == chars@.take(k as int).filter(is_i).len(),
            n <= k,
        decreases chars.len() - k,
    {
        proof {
            reveal(Seq::filter);
            assert(chars@.take(k + 1).drop_last() =~= chars@.take(k as int));
            assert(chars@.take(k + 1).last() == chars@[k as int]);
        }
        if chars[k] == 'i' {
            n = n + 1;
        }
        k = k + 1;
    }
    assert(chars@.take(chars.len() as int) =~= chars@);
    n
}

/// The time stamp of a request: the time in milliseconds, moved to the
/// multiple of `i_count + 1` that follows the last one it reached, and left
/// alone for a text without `i`.
pub open spec fn aligned_stamp(now_ms: int, i_count: int) -> int {
    if i_count != 0 {
        now_ms - (now_ms % (i_count + 1)) + (i_count + 1)
    } else {
        now_ms
    }
}

/// The time stamp of a request made at `now_ms` for a text with `i_count`
/// `i`, or `None` where it does not fit 64 bits. See [`aligned_stamp`].
pub fn align_time_stamp(now_ms: u64, i_count: u64) -> (r: Option<u64>)
    ensures
        r is Some <==> aligned_stamp(now_ms as int, i_count as int) <= u64::MAX,
        r matches Some(t) ==> t == aligned_stamp(now_ms as int, i_count as int),
{
    if i_count == 0 {
        return Some(now_ms);
    }
    if i_count == u64::MAX {
        // the next multiple of 2^64 is out of reach
        assert((now_ms as int) % (i_count + 1) == now_ms as int) by (nonlinear_arith)
            requires
                0 <= now_ms < i_count + 1,
        ;
        return None;
    }
    let step: u64 = i_count + 1;
    assert((now_ms as int) % (step as int) <= now_ms) by (nonlinear_arith)
        requires
            step > 0,
            now_ms >= 0,
    ;
    let base: u64 = now_ms - now_ms % step;
    base.checked_add(step)
}

/// Reads the clock with `std::time::SystemTime::elapsed`: the time since
/// the beginning of 1970 in milliseconds. `None` where the clock is set
/// before 1970 or the milliseconds do not fit 64 bits.
#[verifier::external_body]
fn unix_millis() -> Option<u64> {
    let since = std::time::UNIX_EPOCH.elapsed().ok()?;
    u64::try_from(since.as_millis()).ok()
}

/// The time stamp of a request made now for a text with `i_count` `i`:
/// whatever the clock says, a stamp that is given is a multiple of
/// `i_count + 1` unless the text has no `i`.
pub fn get_time_stamp(i_count: u64) -> (r: Option<u64>)
    ensures
        r matches Some(t) ==> i_count != 0 ==> t as int % (i_count + 1) == 0 && t > i_count,
{
    match unix_millis() {
        Some(now_ms) => {
            let r = align_time_stamp(now_ms, i_count);
            proof {
                if i_count != 0 && r is Some {
                    let step = i_count + 1;
                    let t = r->Some_0 as int;
                    let now = now_ms as int;
                    assert(t % step == 0 && t >= step) by (nonlinear_arith)
                        requires
                            step > 0,
                            now >= 0,
                            t == now - now % step + step,
                    ;
                }
            }
            r
        },
        None => None,
    }
}

/// The identifier that a stage begins with, from a number drawn at random.
pub open spec fn start_id(roll: i64) -> int {
    let r = if roll >= 0 {
        roll as int % 99999
    } else {
        -((-(roll as int)) % 99999)
    };
    (r + 8300000) * 1000
}

/// The identifier that a stage begins with. See [`start_id`].
pub fn random_start_id(roll: i64) -> (id: i64)
    ensures
        id == start_id(roll),
        8_200_001_000 <= id <= 8_399_998_000,
{
    let r: i64 = roll % 99999;
    assert(start_id(roll) == (r + 8300000) * 1000);
    (r + 8300000) * 1000
}

/// Draws a number with `rand::random`.
#[verifier::external_body]
fn roll_i64() -> i64 {
    rand::random::<i64>()
}

/// Whether the request with this identifier writes its method with a space
/// on both sides of the colon; the others write one after it.
pub open spec fn wide_spacing(id: i64) -> bool {
    (id + 5) % 29 == 0 || (id + 3) % 13 == 0
}

/// A text as a JSON string, quotes included, as `serde_json` writes it;
/// `None` where it refuses to.
pub uninterp spec fn json_string(text: Seq<char>) -> Option<Seq<char>>;

/// Calls `serde_json::to_string` on the text, which writes it as a JSON
/// string or fails.
#[verifier::external_body]
fn to_json_string(text: &str) -> (r: Option<String>)
    ensures
        opt_text(r) == json_string(text@),
{
    serde_json::to_string(text).ok()
}

/// How a request writes its method: with a space on both sides of the
/// colon, or with one behind it.
pub open spec fn method_key(wide: bool) -> Seq<char> {
    if wide {
        "\"method\" : "@
    } else {
        "\"method\": "@
    }
}

/// The request to translate a text, given the three strings in it as JSON
/// strings: one text, with one alternative, split at new lines, not spoken.
pub open spec fn request_body(
    id: i64,
    wide: bool,
    timestamp: u64,
    text: Seq<char>,
    source_lang: Seq<char>,
    target_lang: Seq<char>,
) -> Seq<char> {
    "{\"id\":"@ + signed_text(id as int) + ",\"jsonrpc\":\"2.0\","@ + method_key(wide)
        + "\"LMT_handle_texts\",\"params\":{\"commonJobParams\":{\"TranscribeAS\":\"\",\"WasSpoken\":false},\"lang\":{\"source_lang_user_selected\":"@
        + source_lang + ",\"target_lang\":"@ + target_lang
        + "},\"splitting\":\"newlines\",\"texts\":[{\"requestAlternatives\":1,\"text\":"@
        + text + "}],\"timestamp\":"@ + decimal_text(timestamp as nat) + "}}"@
}

/// The request made of the three strings as they are written in JSON. See
/// [`request_body`].
pub fn frame_request(
    id: i64,
    wide: bool,
    timestamp: u64,
    text: &str,
    source_lang: &str,
    target_lang: &str,
) -> (body: String)
    ensures
        body@ == request_body(id, wide, timestamp, text@, source_lang@, target_lang@),
{
    let mut body = "{\"id\":".to_owned();
    push_signed(&mut body, id);
    body.append(",\"jsonrpc\":\"2.0\",");
    if wide {
        body.append("\"method\" : ");
    } else {
        body.append("\"method\": ");
    }
    body.append(
        "\"LMT_handle_texts\",\"params\":{\"commonJobParams\":{\"TranscribeAS\":\"\",\"WasSpoken\":false},\"lang\":{\"source_lang_user_selected\":",
    );
    body.append(source_lang);
    body.append(",\"target_lang\":");
    body.append(target_lang);
    body.append(
        "},\"splitting\":\"newlines\",\"texts\":[{\"requestAlternatives\":1,\"text\":",
    );
    body.append(text);
    body.append("}],\"timestamp\":");
    push_decimal(&mut body, timestamp);
    body.append("}}");
    body
}

/// The request to translate `text` from `source_lang` to `target_lang`, as
/// it goes to the service; `None` where one of the three cannot be written
/// as a JSON string. See [`request_body`].
pub fn translate_request(
    id: i64,
    wide: bool,
    timestamp: u64,
    text: &str,
    source_lang: &str,
    target_lang: &str,
) -> (r: Option<String>)
    ensures
        r is Some <==> json_string(text@) is Some && json_string(source_lang@) is Some
            && json_string(target_lang@) is Some,
        r matches Some(body) ==> body@ == request_body(
            id,
            wide,
            timestamp,
            json_string(text@)->Some_0,
            json_string(source_lang@)->Some_0,
            json_string(target_lang@)->Some_0,
        ),
{
    let text = match to_json_string(text) {
        Some(t) => t,
        None => {
            return None;
        },
    };
    let source = match to_json_string(source_lang) {
        Some(t) => t,
        None => {
            return None;
        },
    };
    let target = match to_json_string(target_lang) {
        Some(t) => t,
        None => {
            return None;
        },
    };
    Some(frame_request(id, wide, timestamp, text.as_str(), source.as_str(), target.as_str()))
}

/// What the translation service said, as far as the stage looks at it.
#[derive(Debug, Clone, PartialEq, Eq)]
pub enum TranslateReply {
    /// An error with a numeric code, and its message as it was written.
    Error { code: i64, message: String },
    /// An answer to the request with this identifier.
    Answer {
        id: i64,
        /// Whether there is a result at all.
        has_result: bool,
        /// Whether the service is sure of the language of the input.
        lang_is_confident: bool,
        /// How likely the input is in no language that the service knows,
        /// in parts per million and as it was written.
        unsupported: Option<(u32, String)>,
        /// The first of the translations.
        text: Option<String>,
    },
    /// Anything else, as it was written.
    Other(String),
}

/// Why a translation failed, in words.
pub open spec fn invalid_target() -> Seq<char> {
    "Invalid target Lang"@
}

pub open spec fn failed_with(code: i64, message: Seq<char>) -> Seq<char> {
    "Failed to translate, error "@ + signed_text(code as int) + ": "@ + message
}

pub open spec fn wrong_id(id: i64, current_id: i64) -> Seq<char> {
    "Invaid response id "@ + signed_text(id as int) + ", actual: "@ + signed_text(
        current_id as int,
    )
}

pub open spec fn not_confident(unsupported: Seq<char>, text: Seq<char>) -> Seq<char> {
    "Translate input is not confident ("@ + unsupported + "), posibly gabrage input '"@ + text
        + "'"@
}

pub open spec fn missing_text() -> Seq<char> {
    "Missing text results"@
}

pub open spec fn missing_result() -> Seq<char> {
    "Missing translate result"@
}

pub open spec fn unparsed(reply: Seq<char>) -> Seq<char> {
    "Failed to parse result ("@ + reply + ")"@
}

/// What a reply means for the request `current_id` with the input `text`:
/// the translation, or why there is none.
///
/// An error of the service fails the translation, and so does an answer to
/// another request or one without result or text. An input whose language
/// the service is not sure of is refused where it is more likely than
/// `drop_above` parts per million to be in no known language.
pub open spec fn reading(
    reply: TranslateReply,
    current_id: i64,
    drop_above: Option<u32>,
    text: Seq<char>,
) -> Result<Seq<char>, Seq<char>> {
    match reply {
        TranslateReply::Error { code, message } => if code == -32600 {
            Err(invalid_target())
        } else {
            Err(failed_with(code, message@))
        },
        TranslateReply::Answer { id, has_result, lang_is_confident, unsupported, text: translated } => {
            if id != current_id {
                Err(wrong_id(id, current_id))
            } else if !has_result {
                Err(missing_result())
            } else if !lang_is_confident && drop_above is Some && unsupported is Some
                && unsupported->Some_0.0 > drop_above->Some_0 {
                Err(not_confident(unsupported->Some_0.1@, text))
            } else {
                match translated {
                    Some(t) => Ok(t@),
                    None => Err(missing_text()),
                }
            }
        },
        TranslateReply::Other(written) => Err(unparsed(written@)),
    }
}

/// A result says what its model says.
pub open spec fn same_reading(r: Result<String, String>, model: Result<Seq<char>, Seq<char>>) -> bool {
    match (r, model) {
        (Ok(t), Ok(m)) => t@ == m,
        (Err(e), Err(m)) => e@ == m,
        _ => false,
    }
}

/// The translation stage: its languages, the identifier of its last
/// request, and how unsure an input may be.
#[derive(Debug, Clone, PartialEq, Eq)]
pub struct DeepLxTranslatorOwned {
    src_lang: Option<String>,
    dest_lang: String,
    id: i64,
    drop_nonconfident_result: Option<u32>,
}

/// The stage, as far as its contracts go.
pub struct StageState {
    pub src_lang: Option<Seq<char>>,
    pub dest_lang: Seq<char>,
    pub id: i64,
    pub drop_above: Option<u32>,
}

impl View for DeepLxTranslatorOwned {
    type V = StageState;

    closed spec fn view(&self) -> StageState {
        StageState {
            src_lang: match self.src_lang {
                Some(s) => Some(s@),
                None => None,
            },
            dest_lang: self.dest_lang@,
            id: self.id,
            drop_above: self.drop_nonconfident_result,
        }
    }
}

/// The languages of a stage made with these: answers go to `dest_lang`, or
/// to English where none is given; the input is taken to be in `src_lang`,
/// or in the language of the answers where none is given.
pub open spec fn stage_languages(src_lang: Option<Seq<char>>, dest_lang: Option<Seq<char>>) -> (
    Option<Seq<char>>,
    Seq<char>,
) {
    match dest_lang {
        Some(d) => (
            if src_lang is Some {
                src_lang
            } else {
                Some(d)
            },
            d,
        ),
        None => (src_lang, "en"@),
    }
}

impl DeepLxTranslatorOwned {
    /// A stage with the given languages, which begins with the identifier
    /// that `roll` gives and refuses unsure inputs above
    /// `drop_nonconfident_result` parts per million. `None` where neither
    /// language is given.
    pub fn with_roll(
        src_lang: Option<String>,
        dest_lang: Option<String>,
        drop_nonconfident_result: Option<u32>,
        roll: i64,
    ) -> (r: Option<Self>)
        ensures
            r is Some <==> src_lang is Some || dest_lang is Some,
            r matches Some(stage) ==> {
                &&& (stage@.src_lang, stage@.dest_lang) == stage_languages(
                    opt_text(src_lang),
                    opt_text(dest_lang),
                )
                &&& stage@.id == start_id(roll)
                &&& stage@.drop_above == drop_nonconfident_result
            },
    {
        let (src, dest) = match dest_lang {
            Some(d) => match src_lang {
                Some(s) => (Some(s), d),
                None => (Some(d.clone()), d),
            },
            None => match src_lang {
                Some(s) => (Some(s), "en".to_owned()),
                None => {
                    return None;
                },
            },
        };
        Some(
            DeepLxTranslatorOwned {
                src_lang: src,
                dest_lang: dest,
                id: random_start_id(roll),
                drop_nonconfident_result,
            },
        )
    }

    /// A stage with the given languages, which begins with an identifier
    /// drawn at random. `None` where neither language is given.
    pub fn new(
        src_lang: Option<String>,
        dest_lang: Option<String>,
        drop_nonconfident_result: Option<u32>,
    ) -> (r: Option<Self>)
        ensures
            r is Some <==> src_lang is Some || dest_lang is Some,
            r matches Some(stage) ==> {
                &&& (stage@.src_lang, stage@.dest_lang) == stage_languages(
                    opt_text(src_lang),
                    opt_text(dest_lang),
                )
                &&& 8_200_001_000 <= stage@.id <= 8_399_998_000
                &&& stage@.id % 1000 == 0
                &&& stage@.drop_above == drop_nonconfident_result
            },
    {
        Self::with_roll(src_lang, dest_lang, drop_nonconfident_result, roll_i64())
    }

    /// The language that answers are put into.
    pub fn dest_lang(&self) -> (r: String)
        ensures
            r@ == self@.dest_lang,
    {
        self.dest_lang.clone()
    }

    /// The identifier of the last request.
    pub fn id(&self) -> (r: i64)
        ensures
            r == self@.id,
    {
        self.id
    }

    /// The language to take a request to be in: that of the stage if it has
    /// one, else the one the request states.
    pub fn request_language(&self, stated: String) -> (r: String)
        ensures
            r@ == match self@.src_lang {
                Some(s) => s,
                None => stated@,
            },
    {
        match &self.src_lang {
            Some(s) => s.clone(),
            None => stated,
        }
    }

    /// How unsure an input may be: the override where one is given, else
    /// what the stage was made with.
    pub fn drop_threshold(&self, override_drop_nonconfident_result: Option<u32>) -> (r: Option<u32>)
        ensures
            r == match override_drop_nonconfident_result {
                Some(v) => Some(v),
                None => self@.drop_above,
            },
    {
        match override_drop_nonconfident_result {
            Some(v) => Some(v),
            None => self.drop_nonconfident_result,
        }
    }

    /// Begins a request: its identifier is the one after the last, wrapping
    /// around, and the one the stage remembers from now on. Also tells how
    /// the request writes its method.
    pub fn next_request(&mut self) -> (r: (i64, bool))
        ensures
            r.0 == if old(self)@.id == i64::MAX {
                i64::MIN
            } else {
                (old(self)@.id + 1) as i64
            },
            r.1 == wide_spacing(r.0),
            final(self)@ == (StageState {
                src_lang: old(self)@.src_lang,
                dest_lang: old(self)@.dest_lang,
                id: r.0,
                drop_above: old(self)@.drop_above,
            }),
    {
        let current_id = self.id.wrapping_add(1);
        self.id = current_id;
        let wide = (current_id as i128 + 5) % 29 == 0 || (current_id as i128 + 3) % 13 == 0;
        (current_id, wide)
    }

    /// What a reply means for a request. See [`reading`].
    pub fn read_reply(
        reply: TranslateReply,
        current_id: i64,
        drop_above: Option<u32>,
        text: &str,
    ) -> (r: Result<String, String>)
        ensures
            same_reading(r, reading(reply, current_id, drop_above, text@)),
    {
        match reply {
            TranslateReply::Error { code, message } => {
                if code == -32600 {
                    Err("Invalid target Lang".to_owned())
                } else {
                    let mut e = "Failed to translate, error ".to_owned();
                    push_signed(&mut e, code);
                    e.append(": ");
                    e.append(message.as_str());
                    Err(e)
                }
            },
            TranslateReply::Answer { id, has_result, lang_is_confident, unsupported, text: translated } => {
                if id != current_id {
                    let mut e = "Invaid response id ".to_owned();
                    push_signed(&mut e, id);
                    e.append(", actual: ");
                    push_signed(&mut e, current_id);
                    return Err(e);
                }
                if !has_result {
                    return Err("Missing translate result".to_owned());
                }
                if !lang_is_confident {
                    match (drop_above, &unsupported) {
                        (Some(limit), Some(share)) => {
                            if share.0 > limit {
                                let mut e = "Translate input is not confident (".to_owned();
                                e.append(share.1.as_str());
                                e.append("), posibly gabrage input '");
                                e.append(text);
                                e.append("'");
                                return Err(e);
                            }
                        },
                        _ => {},
                    }
                }
                match translated {
                    Some(t) => Ok(t),
                    None => Err("Missing text results".to_owned()),
                }
            },
            TranslateReply::Other(written) => {
                let mut e = "Failed to parse result (".to_owned();
                e.append(written.as_str());
                e.append(")");
                Err(e)
            },
        }
    }

    /// The response of the stage: the raw answer of the model, the answer
    /// with its numbers spelled out, and its translation.
    pub fn response(raw_answer: String, no_digits_answer: String, translated_answer: String) -> (r:
        AIResponse)
        ensures
            r@ == Map::<AIResponseType, Seq<char>>::empty().insert(
                AIResponseType::RawAnswer,
                raw_answer@,
            ).insert(AIResponseType::NoDigits, no_digits_answer@).insert(
                AIResponseType::Translated,
                translated_answer@,
            ),
            r@.dom().len() == 3,
    {
        let r = AIResponse {
            raw_answer: Some(raw_answer),
            no_digits: Some(no_digits_answer),
            translated: Some(translated_answer),
        };
        let _ = r.len();
        r
    }
}

} // verus!

verus! {

/// Where an exchange through the stage stands.
#[derive(Debug, Clone, PartialEq, Eq)]
pub enum StagePhase {
    /// The request is being put into English.
    ToEnglish,
    /// The model is being asked.
    Asking,
    /// The numbers of the model's answer are being spelled out.
    Spelling { raw_answer: String },
    /// The answer is being put into the language of the user.
    FromEnglish { raw_answer: String, no_digits_answer: String },
    /// The exchange is over.
    Over,
}

/// What came back from the work that the stage asked for.
#[derive(Debug, PartialEq, Eq)]
pub enum StageEvent {
    /// A translation, or why there is none.
    Translated(Result<String, String>),
    /// The answer of the model.
    Answered(Result<AIResponse, AIError>),
    /// The answer with its numbers spelled out.
    Spelled(String),
}

/// What the stage asks for next.
#[derive(Debug, PartialEq, Eq)]
pub enum StageAction {
    /// Translate `text`. An input that the service is not sure of may be
    /// refused above `drop_above` parts per million.
    Translate { text: String, source_lang: String, target_lang: String, drop_above: Option<u32> },
    /// Ask the model this, in place of the text of the request.
    Ask { text: String },
    /// Spell out the numbers of `text`.
    Spell { text: String },
    /// Nothing: this is the outcome of the exchange.
    Finish(Result<AIResponse, AIError>),
}

/// The share above which an answer of the model would be refused: none is.
pub open spec fn never_drop() -> u32 {
    1_000_000
}

impl StageState {
    /// The language that a request is taken to be in.
    pub open spec fn source(self, stated: Seq<char>) -> Seq<char> {
        match self.src_lang {
            Some(s) => s,
            None => stated,
        }
    }

    /// The stage asks for `action` and goes on in `next`, after `event`
    /// came back in `phase`.
    ///
    /// A request is put into English, the model is asked with that, the
    /// numbers of its raw answer are spelled out, and the result is put into
    /// the language of the user; the response carries all three. A
    /// translation that fails ends the exchange with that error, an error of
    /// the model ends it with the model's, and so does an answer without raw
    /// text or an event that the phase does not wait for, with an unknown
    /// error.
    pub open spec fn advances(
        self,
        phase: StagePhase,
        event: StageEvent,
        next: StagePhase,
        action: StageAction,
    ) -> bool {
        match (phase, event) {
            (StagePhase::ToEnglish, StageEvent::Translated(Ok(en))) => {
                &&& next is Asking
                &&& action matches StageAction::Ask { text }
                &&& text@ == en@
            },
            (StagePhase::ToEnglish, StageEvent::Translated(Err(e))) => {
                &&& next is Over
                &&& action matches StageAction::Finish(Err(AIError::TranslateError(why)))
                &&& why@ == e@
            },
            (StagePhase::Asking, StageEvent::Answered(Ok(answer))) => if answer@.contains_key(
                AIResponseType::RawAnswer,
            ) {
                &&& next matches StagePhase::Spelling { raw_answer }
                &&& raw_answer@ == answer@[AIResponseType::RawAnswer]
                &&& action matches StageAction::Spell { text }
                &&& text@ == answer@[AIResponseType::RawAnswer]
            } else {
                &&& next is Over
                &&& action == StageAction::Finish(Err(AIError::UnknownError))
            },
            (StagePhase::Asking, StageEvent::Answered(Err(e))) => {
                &&& next is Over
                &&& action == StageAction::Finish(Err(e))
            },
            (StagePhase::Spelling { raw_answer }, StageEvent::Spelled(spelled)) => {
                &&& next matches StagePhase::FromEnglish { raw_answer: raw, no_digits_answer }
                &&& raw@ == raw_answer@
                &&& no_digits_answer@ == spelled@
                &&& action matches StageAction::Translate { text, source_lang, target_lang, drop_above }
                &&& text@ == spelled@
                &&& source_lang@ == "en"@
                &&& target_lang@ == self.dest_lang
                &&& drop_above == Some(never_drop())
            },
            (
                StagePhase::FromEnglish { raw_answer, no_digits_answer },
                StageEvent::Translated(Ok(translated)),
            ) => {
                &&& next is Over
                &&& action matches StageAction::Finish(Ok(response))
                &&& response@ == Map::<AIResponseType, Seq<char>>::empty().insert(
                    AIResponseType::RawAnswer,
                    raw_answer@,
                ).insert(AIResponseType::NoDigits, no_digits_answer@).insert(
                    AIResponseType::Translated,
                    translated@,
                )
            },
            (StagePhase::FromEnglish { raw_answer, no_digits_answer }, StageEvent::Translated(Err(e))) => {
                &&& next is Over
                &&& action matches StageAction::Finish(Err(AIError::TranslateError(why)))
                &&& why@ == e@
            },
            _ => {
                &&& next is Over
                &&& action == StageAction::Finish(Err(AIError::UnknownError))
            },
        }
    }
}

impl DeepLxTranslatorOwned {
    /// Begins an exchange: the text of the request is to be put into
    /// English, from the language of the stage or, where it has none, from
    /// the one that the request states.
    pub fn begin(&self, text: String, stated_lang: String) -> (r: (StagePhase, StageAction))
        ensures
            r.0 is ToEnglish,
            r.1 matches StageAction::Translate { text: t, source_lang, target_lang, drop_above }
                && t@ == text@ && source_lang@ == self@.source(stated_lang@) && target_lang@
                == "en"@ && drop_above == self@.drop_above,
    {
        let source_lang = self.request_language(stated_lang);
        (
            StagePhase::ToEnglish,
            StageAction::Translate {
                text,
                source_lang,
                target_lang: "en".to_owned(),
                drop_above: self.drop_nonconfident_result,
            },
        )
    }

    /// Goes on with an exchange after what was asked for came back. See
    /// [`StageState::advances`].
    pub fn advance(&self, phase: StagePhase, event: StageEvent) -> (r: (StagePhase, StageAction))
        ensures
            self@.advances(phase, event, r.0, r.1),
    {
        match (phase, event) {
            (StagePhase::ToEnglish, StageEvent::Translated(Ok(en))) => (
                StagePhase::Asking,
                StageAction::Ask { text: en },
            ),
            (StagePhase::ToEnglish, StageEvent::Translated(Err(e))) => (
                StagePhase::Over,
                StageAction::Finish(Err(AIError::TranslateError(e))),
            ),
            (StagePhase::Asking, StageEvent::Answered(Ok(answer))) => match answer.get(
                AIResponseType::RawAnswer,
            ) {
                Some(raw) => (
                    StagePhase::Spelling { raw_answer: raw.clone() },
                    StageAction::Spell { text: raw.clone() },
                ),
                None => (StagePhase::Over, StageAction::Finish(Err(AIError::UnknownError))),
            },
            (StagePhase::Asking, StageEvent::Answered(Err(e))) => (
                StagePhase::Over,
                StageAction::Finish(Err(e)),
            ),
            (StagePhase::Spelling { raw_answer }, StageEvent::Spelled(spelled)) => (
                StagePhase::FromEnglish { raw_answer, no_digits_answer: spelled.clone() },
                StageAction::Translate {
                    text: spelled,
                    source_lang: "en".to_owned(),
                    target_lang: self.dest_lang.clone(),
                    drop_above: Some(1_000_000),
                },
            ),
            (
                StagePhase::FromEnglish { raw_answer, no_digits_answer },
                StageEvent::Translated(Ok(translated)),
            ) => (
                StagePhase::Over,
                StageAction::Finish(Ok(Self::response(raw_answer, no_digits_answer, translated))),
            ),
            (StagePhase::FromEnglish { raw_answer: _, no_digits_answer: _ }, StageEvent::Translated(Err(e))) => (
                StagePhase::Over,
                StageAction::Finish(Err(AIError::TranslateError(e))),
            ),
            _ => (StagePhase::Over, StageAction::Finish(Err(AIError::UnknownError))),
        }
    }
}

/// An exchange through the stage that goes well asks the model with the
/// translation of the request and answers with the raw answer, its spelling
/// and its translation, in four steps.
pub proof fn exchange_without_failure(
    stage: StageState,
    en: String,
    answer: AIResponse,
    spelled: String,
    translated: String,
    p1: StagePhase,
    a1: StageAction,
    p2: StagePhase,
    a2: StageAction,
    p3: StagePhase,
    a3: StageAction,
    p4: StagePhase,
    a4: StageAction,
)
    requires
        answer@.contains_key(AIResponseType::RawAnswer),
        stage.advances(StagePhase::ToEnglish, StageEvent::Translated(Ok(en)), p1, a1),
        stage.advances(p1, StageEvent::Answered(Ok(answer)), p2, a2),
        stage.advances(p2, StageEvent::Spelled(spelled), p3, a3),
        stage.advances(p3, StageEvent::Translated(Ok(translated)), p4, a4),
    ensures
        a1 matches StageAction::Ask { text } && text@ == en@,
        a2 matches StageAction::Spell { text } && text@ == answer@[AIResponseType::RawAnswer],
        a3 matches StageAction::Translate { text, source_lang, target_lang, drop_above } && text@
            == spelled@ && target_lang@ == stage.dest_lang,
        p4 is Over,
        a4 matches StageAction::Finish(Ok(response)) && response@[AIResponseType::RawAnswer]
            == answer@[AIResponseType::RawAnswer] && response@[AIResponseType::NoDigits]
            == spelled@ && response@[AIResponseType::Translated] == translated@,
{
}

} // verus!

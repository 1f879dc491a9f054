//! A translation stage that finds out the language of the user by itself.

use crate::text::{opt_text, reads};
use vstd::prelude::*;

verus! {

/// The languages of the stage: that of the user and that of the answers,
/// each if it is fixed.
#[derive(Debug, Clone, PartialEq, Eq)]
pub struct GoogleTranslator {
    pub src_lang: Option<String>,
    pub dest_lang: Option<String>,
}

/// How a request gets into English.
#[derive(Debug, Clone, PartialEq, Eq)]
pub enum IntoEnglish {
    /// It is in English already.
    AsIs,
    /// It is in this language and has to be put into English.
    From(String),
}

/// The language to translate a request from: none where the user speaks
/// English; else that of the user, or `auto` where it is not fixed.
pub open spec fn request_source(src_lang: Option<Seq<char>>) -> Option<Seq<char>> {
    match src_lang {
        Some(l) => if l == "en"@ {
            None
        } else {
            Some(l)
        },
        None => Some("auto"@),
    }
}

/// The language to translate an answer to: that of the answers if it is
/// fixed; else the one the request was found to be in, unless that is
/// English or unknown. None where the answer stays in English.
pub open spec fn answer_target(dest_lang: Option<Seq<char>>, found: Option<Seq<char>>) -> Option<
    Seq<char>,
> {
    match dest_lang {
        Some(d) => Some(d),
        None => match found {
            Some(f) => if f == "en"@ || f == "auto"@ {
                None
            } else {
                Some(f)
            },
            None => None,
        },
    }
}

impl GoogleTranslator {
    pub fn new(src_lang: Option<String>, dest_lang: Option<String>) -> (r: Self)
        ensures
            r.src_lang == src_lang,
            r.dest_lang == dest_lang,
    {
        GoogleTranslator { src_lang, dest_lang }
    }

    /// How a request gets into English. See [`request_source`].
    pub fn translate_to_en(&self) -> (r: IntoEnglish)
        ensures
            match request_source(opt_text(self.src_lang)) {
                None => r is AsIs,
                Some(l) => r matches IntoEnglish::From(from) && from@ == l,
            },
    {
        match &self.src_lang {
            Some(l) => {
                if reads(l, "en") {
                    IntoEnglish::AsIs
                } else {
                    IntoEnglish::From(l.clone())
                }
            },
            None => IntoEnglish::From("auto".to_owned()),
        }
    }

    /// The language to translate an answer to, where it does not stay in
    /// English. `source_language` is what the request was found to be in.
    /// See [`answer_target`].
    pub fn translate_from_en(&self, source_language: Option<String>) -> (r: Option<String>)
        ensures
            opt_text(r) == answer_target(opt_text(self.dest_lang), opt_text(source_language)),
    {
        match &self.dest_lang {
            Some(d) => Some(d.clone()),
            None => match source_language {
                Some(f) => {
                    if reads(&f, "en") || reads(&f, "auto") {
                        None
                    } else {
                        Some(f)
                    }
                },
                None => None,
            },
        }
    }
}

} // verus!

//! What the answers of the speech recognition services mean.

use crate::text::{chars_of, trim_bounds, trimmed};
use vstd::prelude::*;
use vstd::string::{StrSliceExecFns, StringExecFns};

verus! {

/// What the transcribing service answered, as far as it is looked at.
#[derive(Debug, Clone, PartialEq, Eq)]
pub enum WhisperReply {
    /// Not an object.
    Malformed,
    /// An object: its language if that is a string, and its segments if
    /// they are a list, each with its text if it has one.
    Object { language: Option<String>, transcribed_segments: Option<Vec<Option<String>>> },
}

/// The segments in one line: each segment's text, or a space for a segment
/// without text, with a space between them.
pub open spec fn joined(segments: Seq<Option<String>>) -> Seq<char>
    decreases segments.len(),
{
    if segments.len() == 0 {
        Seq::empty()
    } else {
        let last = match segments.last() {
            Some(t) => t@,
            None => " "@,
        };
        if segments.len() == 1 {
            last
        } else {
            joined(segments.drop_last()) + " "@ + last
        }
    }
}

/// What an answer of the transcribing service means: the words that were
/// said, without white space at the ends, and their language; or what is
/// wrong with the answer.
pub open spec fn transcript(reply: WhisperReply) -> Result<(Seq<char>, Seq<char>), Seq<char>> {
    match reply {
        WhisperReply::Malformed => Err("Failed to recognize, incorrect result"@),
        WhisperReply::Object { language, transcribed_segments } => match language {
            None => Err("Incorrect server response: language"@),
            Some(l) => match transcribed_segments {
                None => Err("Incorrect server response: transcribed_segments"@),
                Some(segments) => Ok((trimmed(joined(segments@)), l@)),
            },
        },
    }
}

/// The segments in one line. See [`joined`].
fn join_segments(segments: &Vec<Option<String>>) -> (line: String)
    ensures
        line@ == joined(segments@),
{
    let mut line = String::new();
    let mut i: usize = 0;
    assert(segments@.take(0) =~= Seq::<Option<String>>::empty());
    while i < segments.len()
        invariant
            i <= segments.len(),
            line@ == joined(segments@.take(i as int)),
        decreases segments.len() - i,
    {
        proof {
            assert(segments@.take(i + 1).drop_last() =~= segments@.take(i as int));
            assert(segments@.take(i + 1).last() == segments@[i as int]);
            assert(Seq::<char>::empty() + " "@ =~= " "@);
        }
        let ghost before = line@;
        if i > 0 {
            line.append(" ");
        }
        match &segments[i] {
            Some(t) => {
                line.append(t.as_str());
            },
            None => {
                line.append(" ");
            },
        }
        proof {
            let last = match segments@[i as int] {
                Some(t) => t@,
                None => " "@,
            };
            if i == 0 {
                assert(before =~= Seq::<char>::empty());
                assert(line@ =~= last);
            }
        }
        i = i + 1;
    }
    assert(segments@.take(segments.len() as int) =~= segments@);
    line
}

/// What an answer of the transcribing service means. See [`transcript`].
pub fn read_whisper_reply(reply: WhisperReply) -> (r: Result<(String, String), String>)
    ensures
        match (r, transcript(reply)) {
            (Ok(said), Ok(model)) => said.0@ == model.0 && said.1@ == model.1,
            (Err(e), Err(model)) => e@ == model,
            _ => false,
        },
{
    match reply {
        WhisperReply::Malformed => Err("Failed to recognize, incorrect result".to_owned()),
        WhisperReply::Object { language, transcribed_segments } => match language {
            None => Err("Incorrect server response: language".to_owned()),
            Some(l) => match transcribed_segments {
                None => Err("Incorrect server response: transcribed_segments".to_owned()),
                Some(segments) => {
                    let line = join_segments(&segments);
                    let chars = chars_of(line.as_str());
                    let (a, b) = trim_bounds(&chars);
                    Ok((line.as_str().substring_char(a, b).to_owned(), l))
                },
            },
        },
    }
}

/// What an answer of the correcting service means: its corrected text, or
/// what is wrong with the answer. `corrected_text` is the text of that name
/// in the answer, if the answer is an object and has it as a string.
pub fn read_urukhan_reply(corrected_text: Option<String>) -> (r: Result<String, String>)
    ensures
        match corrected_text {
            Some(t) => if t@.len() > 0 {
                r == Ok::<String, String>(t)
            } else {
                r matches Err(e) && e@ == "No text found"@
            },
            None => r matches Err(e) && e@ == "Failed to recognize, incorrect result"@,
        },
{
    match corrected_text {
        Some(t) => {
            if t.as_str().is_empty() {
                Err("No text found".to_owned())
            } else {
                Ok(t)
            }
        },
        None => Err("Failed to recognize, incorrect result".to_owned()),
    }
}

/// Whether words were recognized: the text takes more than one byte.
pub fn words_recognized(text: &str) -> (r: bool)
    ensures
        r == (vstd::utf8::encode_utf8(text@).len() > 1),
{
    text.as_bytes().len() > 1
}

} // verus!

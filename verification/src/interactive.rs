//! What a line typed at the console asks for.

use crate::dispatcher::{AIResponse, AIResponseType};
use crate::process_request::spoken_text;
use crate::request::InteractiveRequest;
use crate::text::reads;
use vstd::prelude::*;

verus! {

/// What a line asks for.
#[derive(Debug, Clone, PartialEq, Eq)]
pub enum Command {
    /// To hear the last answer again.
    Repeat,
    /// To begin the conversation anew.
    Reset,
    /// To leave.
    Exit,
    /// An answer.
    Ask(InteractiveRequest),
}

/// What a request asks for: `/repeat`, `/reset` and `/exit` are commands,
/// everything else is for the model.
pub fn command_of(request: InteractiveRequest) -> (r: Command)
    ensures
        request.request@ == "/repeat"@ ==> r is Repeat,
        request.request@ == "/reset"@ ==> r is Reset,
        request.request@ == "/exit"@ ==> r is Exit,
        request.request@ != "/repeat"@ && request.request@ != "/reset"@ && request.request@
            != "/exit"@ ==> r == Command::Ask(request),
{
    proof {
        reveal_strlit("/repeat");
        reveal_strlit("/reset");
        reveal_strlit("/exit");
        assert("/repeat"@.len() == 7 && "/reset"@.len() == 6 && "/exit"@.len() == 5);
    }
    if reads(&request.request, "/repeat") {
        Command::Repeat
    } else if reads(&request.request, "/reset") {
        Command::Reset
    } else if reads(&request.request, "/exit") {
        Command::Exit
    } else {
        Command::Ask(request)
    }
}

/// The subtitle of an answer: nothing where there is nothing to say; else
/// the raw answer where that is to be shown, and what is said otherwise.
pub open spec fn subtitle(resp: Map<AIResponseType, Seq<char>>, display_raw_resp: bool) -> Option<
    Seq<char>,
> {
    match spoken_text(resp) {
        None => None,
        Some(spoken) => if spoken.len() == 0 {
            None
        } else if !display_raw_resp {
            Some(spoken)
        } else if resp.contains_key(AIResponseType::RawAnswer) {
            Some(resp[AIResponseType::RawAnswer])
        } else {
            None
        },
    }
}

/// The subtitle of an answer. See [`subtitle`].
pub fn subtitle_text(resp: &AIResponse, display_raw_resp: bool) -> (r: Option<String>)
    ensures
        r is Some <==> subtitle(resp@, display_raw_resp) is Some,
        r matches Some(t) ==> Some(t@) == subtitle(resp@, display_raw_resp),
{
    let spoken = match resp.get(AIResponseType::Translated) {
        Some(t) => t,
        None => match resp.get(AIResponseType::RawAnswer) {
            Some(t) => t,
            None => {
                return None;
            },
        },
    };
    if spoken.as_str().is_empty() {
        return None;
    }
    if display_raw_resp {
        match resp.get(AIResponseType::RawAnswer) {
            Some(raw) => Some(raw.clone()),
            None => None,
        }
    } else {
        Some(spoken.clone())
    }
}

} // verus!

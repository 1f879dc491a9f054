//! The requests that the relay's front ends make.

use crate::decimal::{decimal_text, push_decimal};
use crate::dispatcher::AIRequest;
use vstd::prelude::*;
use vstd::string::StringExecFns;

verus! {

/// The language of a request whose language is not known.
pub fn auto() -> (r: String)
    ensures
        r@ == "auto"@,
{
    "auto".to_owned()
}

/// A request with a given text for a given channel.
#[derive(Debug, Clone, PartialEq, Eq)]
pub struct TestRequest {
    pub request: String,
    pub channel: String,
}

impl AIRequest for TestRequest {
    open spec fn text(&self) -> Seq<char> {
        self.request@
    }

    open spec fn channel_key(&self) -> Seq<char> {
        self.channel@
    }

    open spec fn language(&self) -> Seq<char> {
        "auto"@
    }

    fn request(&self) -> (r: String) {
        self.request.clone()
    }

    fn channel(&self) -> (r: String) {
        self.channel.clone()
    }

    fn lang(&self) -> (r: String) {
        auto()
    }
}

/// A request typed or spoken at the console. All of them share one channel.
#[derive(Debug, Clone, PartialEq, Eq)]
pub struct InteractiveRequest {
    pub request: String,
    pub lang: String,
}

impl AIRequest for InteractiveRequest {
    open spec fn text(&self) -> Seq<char> {
        self.request@
    }

    open spec fn channel_key(&self) -> Seq<char> {
        "interactive"@
    }

    open spec fn language(&self) -> Seq<char> {
        self.lang@
    }

    fn request(&self) -> (r: String) {
        self.request.clone()
    }

    fn channel(&self) -> (r: String) {
        "interactive".to_owned()
    }

    fn lang(&self) -> (r: String) {
        self.lang.clone()
    }
}

/// A chat line of a stream viewer. Each viewer is a channel of their own.
#[derive(Debug, Clone, PartialEq, Eq)]
pub struct TwitchRequest {
    pub request: String,
    pub username: String,
}

impl TwitchRequest {
    /// The request as a log line: the viewer, a colon and the text.
    pub fn describe(&self) -> (r: String)
        ensures
            r@ == self.username@ + ": "@ + self.request@,
    {
        let mut r = self.username.clone();
        r.append(": ");
        r.append(self.request.as_str());
        r
    }
}

impl AIRequest for TwitchRequest {
    open spec fn text(&self) -> Seq<char> {
        self.request@
    }

    open spec fn channel_key(&self) -> Seq<char> {
        self.username@
    }

    open spec fn language(&self) -> Seq<char> {
        "auto"@
    }

    fn request(&self) -> (r: String) {
        self.request.clone()
    }

    fn channel(&self) -> (r: String) {
        self.username.clone()
    }

    fn lang(&self) -> (r: String) {
        auto()
    }
}

/// The key of the channel with a given number: `#` and the number.
pub open spec fn numbered_channel(id: u64) -> Seq<char> {
    "#"@ + decimal_text(id as nat)
}

/// The key of the channel with a given number.
pub fn channel_name(id: u64) -> (r: String)
    ensures
        r@ == numbered_channel(id),
{
    let mut r = "#".to_owned();
    push_decimal(&mut r, id);
    r
}

/// A message from a numbered text channel, or the words of a speaker, who
/// then stands in as a channel under their own number.
#[derive(Debug, Clone, PartialEq, Eq)]
pub struct DiscordAIRequest {
    pub request: String,
    pub channel_id: u64,
}

impl DiscordAIRequest {
    /// The request as a log line: the channel, a colon and the text.
    pub fn describe(&self) -> (r: String)
        ensures
            r@ == numbered_channel(self.channel_id) + ": "@ + self.request@,
    {
        let mut r = channel_name(self.channel_id);
        r.append(": ");
        r.append(self.request.as_str());
        r
    }
}

impl AIRequest for DiscordAIRequest {
    open spec fn text(&self) -> Seq<char> {
        self.request@
    }

    open spec fn channel_key(&self) -> Seq<char> {
        numbered_channel(self.channel_id)
    }

    open spec fn language(&self) -> Seq<char> {
        "auto"@
    }

    fn request(&self) -> (r: String) {
        self.request.clone()
    }

    fn channel(&self) -> (r: String) {
        channel_name(self.channel_id)
    }

    fn lang(&self) -> (r: String) {
        auto()
    }
}

/// A request whose text was put into English on its way to the model. In
/// everything else it is the request it was made from.
pub struct TranslatedAIRequest<R: AIRequest> {
    original: R,
    en_text: String,
}

impl<R: AIRequest> TranslatedAIRequest<R> {
    pub fn new(original: R, en_text: String) -> (r: Self)
        ensures
            r.text() == en_text@,
            r.channel_key() == original.channel_key(),
            r.language() == original.language(),
            r.original() == original,
    {
        TranslatedAIRequest { original, en_text }
    }

    /// The request this one was made from.
    pub closed spec fn original(&self) -> R {
        self.original
    }
}

impl<R: AIRequest> AIRequest for TranslatedAIRequest<R> {
    closed spec fn text(&self) -> Seq<char> {
        self.en_text@
    }

    closed spec fn channel_key(&self) -> Seq<char> {
        self.original.channel_key()
    }

    closed spec fn language(&self) -> Seq<char> {
        self.original.language()
    }

    fn request(&self) -> (r: String) {
        self.en_text.clone()
    }

    fn channel(&self) -> (r: String) {
        self.original.channel()
    }

    fn lang(&self) -> (r: String) {
        self.original.lang()
    }
}

} // verus!

//! Which channels the relay serves.

use crate::text::{chars_of, contains, contains_text, texts};
use vstd::prelude::*;
use vstd::string::StringExecFns;

verus! {

/// The set of patterns of the `regex` crate.
#[verifier::external_type_specification]
#[verifier::external_body]
pub struct ExRegexSet(regex::RegexSet);

/// The error type of the `regex` crate.
#[verifier::external_type_specification]
#[verifier::external_body]
pub struct ExRegexError(regex::Error);

/// The patterns that a set was made from, in order.
pub uninterp spec fn set_patterns(set: regex::RegexSet) -> Seq<Seq<char>>;

/// Whether the `regex` crate takes every one of some texts for a pattern
/// and makes a set of them.
pub uninterp spec fn makes_set(patterns: Seq<Seq<char>>) -> bool;

/// Whether a pattern, as the `regex` crate reads it, matches somewhere in a
/// text.
pub uninterp spec fn pattern_matches(pattern: Seq<char>, text: Seq<char>) -> bool;

/// A channel of this name is served under these patterns: one of them
/// matches somewhere in the name.
pub open spec fn allowed(patterns: Seq<Seq<char>>, name: Seq<char>) -> bool {
    exists|i: int| 0 <= i < patterns.len() && pattern_matches(#[trigger] patterns[i], name)
}

/// Calls `regex::RegexSet::new` with the patterns. It returns the set made
/// from them, or an error where one of them is no valid pattern.
#[verifier::external_body]
fn compile_set(patterns: &Vec<String>) -> (r: Result<regex::RegexSet, regex::Error>)
    ensures
        r is Ok <==> makes_set(texts(patterns@)),
        r matches Ok(set) ==> set_patterns(set) == texts(patterns@),
{
    regex::RegexSet::new(patterns)
}

/// Calls `regex::RegexSet::is_match`, which is true if and only if one of
/// the patterns of the set matches somewhere in the text.
#[verifier::external_body]
fn set_matches(set: &regex::RegexSet, text: &str) -> (r: bool)
    ensures
        r == (exists|i: int| 0 <= i < set_patterns(*set).len() && pattern_matches(#[trigger] set_patterns(*set)[i], text@)),
{
    set.is_match(text)
}

/// The channels to serve, by patterns of their names.
pub struct ChannelWhitelist {
    set: regex::RegexSet,
}

impl View for ChannelWhitelist {
    type V = Seq<Seq<char>>;

    closed spec fn view(&self) -> Seq<Seq<char>> {
        set_patterns(self.set)
    }
}

impl ChannelWhitelist {
    /// The whitelist of these patterns, or `None` where the patterns are
    /// refused.
    pub fn new(channel_whitelist: &Vec<String>) -> (r: Option<Self>)
        ensures
            r is Some <==> makes_set(texts(channel_whitelist@)),
            r matches Some(w) ==> w@ == texts(channel_whitelist@),
    {
        match compile_set(channel_whitelist) {
            Ok(set) => Some(ChannelWhitelist { set }),
            Err(_) => None,
        }
    }

    /// Whether a channel of this name is served. No channel is served under
    /// no patterns.
    pub fn is_channel_allowed(&self, name: &str) -> (r: bool)
        ensures
            r == allowed(self@, name@),
            self@.len() == 0 ==> !r,
    {
        set_matches(&self.set, name)
    }
}

/// A channel, as far as its name goes.
#[derive(Debug, Clone, PartialEq, Eq)]
pub enum Channel {
    /// A category of channels, by its name.
    Category(String),
    /// A channel of a guild, by its name.
    Guild(String),
    /// A private channel, by the name of the other side.
    Private(String),
}

/// The name of a channel: its own, and for a private channel the name of
/// the other side with `'s private channel` behind it.
pub fn extract_name(channel: &Channel) -> (name: String)
    ensures
        name@ == match *channel {
            Channel::Category(n) => n@,
            Channel::Guild(n) => n@,
            Channel::Private(recipient) => recipient@ + "'s private channel"@,
        },
{
    match channel {
        Channel::Category(n) => n.clone(),
        Channel::Guild(n) => n.clone(),
        Channel::Private(recipient) => {
            let mut name = recipient.clone();
            name.append("'s private channel");
            name
        },
    }
}

/// Whether a channel of this name is served where the channels to serve
/// are those with `part` in their name.
pub fn name_has_part(name: &str, part: &str) -> (r: bool)
    ensures
        r == contains_text(name@, part@),
{
    contains(&chars_of(name), &chars_of(part))
}

} // verus!

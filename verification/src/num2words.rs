//! Numbers in a text, spelled out for the speech synthesis.

use crate::text::{opt_text, texts};
use vstd::prelude::*;
use vstd::string::StringExecFns;

verus! {

/// The type of compiled patterns of the `regex` crate.
#[verifier::external_type_specification]
#[verifier::external_body]
pub struct ExRegex(regex::Regex);

/// Whether the `regex` crate takes a text for a pattern.
pub uninterp spec fn is_pattern(pattern: Seq<char>) -> bool;

/// The text that a compiled pattern was made from.
pub uninterp spec fn regex_source(re: regex::Regex) -> Seq<char>;

/// What a pattern, as the `regex` crate reads it, matches in a text: the
/// successive matches that do not overlap, in order.
pub uninterp spec fn found(pattern: Seq<char>, text: Seq<char>) -> Seq<Seq<char>>;

/// What a pattern leaves of a text: the stretches before, between and
/// behind its matches, in order.
pub uninterp spec fn between(pattern: Seq<char>, text: Seq<char>) -> Seq<Seq<char>>;

/// Calls `regex::Regex::new`, which compiles the pattern or refuses it.
#[verifier::external_body]
fn compile_pattern(pattern: &str) -> (r: Option<regex::Regex>)
    ensures
        r is Some <==> is_pattern(pattern@),
        r matches Some(re) ==> regex_source(re) == pattern@,
{
    regex::Regex::new(pattern).ok()
}

/// Calls `regex::Regex::find_iter`, which yields the successive matches in
/// the text that do not overlap, and hands out what each of them matched.
#[verifier::external_body]
fn find_all(re: &regex::Regex, text: &str) -> (r: Vec<String>)
    ensures
        texts(r@) == found(regex_source(*re), text@),
{
    re.find_iter(text).map(|m| m.as_str().to_owned()).collect()
}

/// Calls `regex::Regex::split`, which yields the stretches of the text that
/// the matches delimit.
#[verifier::external_body]
fn split_all(re: &regex::Regex, text: &str) -> (r: Vec<String>)
    ensures
        texts(r@) == between(regex_source(*re), text@),
{
    re.split(text).map(|s| s.to_owned()).collect()
}

/// A whole number in English words, as the `num2words` crate spells it;
/// `None` where it has no words for the number.
pub uninterp spec fn cardinal_words(n: i64) -> Option<Seq<char>>;

/// Calls `num2words::Num2Words::new` with the number and `to_words` on it,
/// which spells the number as an English cardinal or fails.
#[verifier::external_body]
fn spell_cardinal(n: i64) -> (r: Option<String>)
    ensures
        opt_text(r) == cardinal_words(n),
{
    num2words::Num2Words::new(n).to_words().ok()
}

/// What to say for a number with these words: the words, with `about`
/// before them if the number was rounded off; the number as it was written
/// where there are no words for it.
pub open spec fn phrase(words: Option<Seq<char>>, rounded_off: bool, written: Seq<char>) -> Seq<
    char,
> {
    match words {
        Some(w) => if rounded_off {
            "about "@ + w
        } else {
            w
        },
        None => written,
    }
}

/// What to say for a number with these words. See [`phrase`].
pub fn number_phrase(words: Option<String>, rounded_off: bool, written: String) -> (r: String)
    ensures
        r@ == phrase(opt_text(words), rounded_off, written@),
{
    match words {
        Some(w) => {
            if rounded_off {
                let mut r = "about ".to_owned();
                r.append(w.as_str());
                r
            } else {
                w
            }
        },
        None => written,
    }
}

/// What to say for a number that was rounded to `rounded`: the phrase of
/// its English words.
pub fn number_in_words(rounded: i64, rounded_off: bool, written: String) -> (r: String)
    ensures
        r@ == phrase(cardinal_words(rounded), rounded_off, written@),
{
    number_phrase(spell_cardinal(rounded), rounded_off, written)
}

/// What counts as a number: digits, then any number of dots, then digits.
pub open spec fn number_pattern() -> Seq<char> {
    "\\d+\\.*\\d+"@
}

/// The first `k + 1` stretches with the first `k` words between them.
pub open spec fn woven_upto(gaps: Seq<Seq<char>>, words: Seq<Seq<char>>, k: nat) -> Seq<char>
    decreases k,
{
    if k == 0 {
        gaps[0]
    } else {
        woven_upto(gaps, words, (k - 1) as nat) + words[k - 1] + gaps[k as int]
    }
}

/// The stretches with the words between them: a stretch, then a word and a
/// stretch for each word.
pub open spec fn woven(gaps: Seq<Seq<char>>, words: Seq<Seq<char>>) -> Seq<char> {
    woven_upto(gaps, words, words.len())
}

/// The numbers of a text can be replaced: the pattern is one, and the text
/// is its matches woven into what they leave of it.
pub open spec fn replaceable(input: Seq<char>) -> bool {
    let numbers = found(number_pattern(), input);
    let gaps = between(number_pattern(), input);
    &&& is_pattern(number_pattern())
    &&& gaps.len() == numbers.len() + 1
    &&& woven(gaps, numbers) == input
}

/// `words[i]` is what `spell` made of the `i`-th number.
pub open spec fn spelled_at<F: Fn(String) -> String>(
    spell: F,
    numbers: Seq<String>,
    words: Seq<String>,
    i: int,
) -> bool {
    call_ensures(spell, (numbers[i],), words[i])
}

/// `words` are what `spell` made of `numbers`, one by one.
pub open spec fn spelled<F: Fn(String) -> String>(
    spell: F,
    numbers: Seq<String>,
    words: Seq<String>,
) -> bool {
    &&& words.len() == numbers.len()
    &&& forall|i: int| 0 <= i < numbers.len() ==> #[trigger] spelled_at(spell, numbers, words, i)
}

/// `output` is `input` with every number replaced by what `spell` made of
/// it. Where the numbers cannot be replaced, `output` is `input`.
pub open spec fn converts<F: Fn(String) -> String>(spell: F, input: Seq<char>, output: Seq<char>) -> bool {
    if replaceable(input) {
        exists|numbers: Seq<String>, words: Seq<String>|
            {
                &&& texts(numbers) == found(number_pattern(), input)
                &&& #[trigger] spelled(spell, numbers, words)
                &&& output == woven(between(number_pattern(), input), texts(words))
            }
    } else {
        output == input
    }
}

/// The stretches with the words between them, where there is one stretch
/// more than there are words. See [`woven`].
pub fn weave(gaps: &Vec<String>, words: &Vec<String>) -> (r: Option<String>)
    ensures
        r is Some <==> gaps.len() == words.len() + 1,
        r matches Some(text) ==> text@ == woven(texts(gaps@), texts(words@)),
{
    if gaps.len() == 0 || gaps.len() - 1 != words.len() {
        return None;
    }
    let mut r = gaps[0].clone();
    let mut k: usize = 0;
    while k < words.len()
        invariant
            k <= words.len(),
            gaps.len() == words.len() + 1,
            r@ == woven_upto(texts(gaps@), texts(words@), k as nat),
        decreases words.len() - k,
    {
        r.append(words[k].as_str());
        r.append(gaps[k + 1].as_str());
        k = k + 1;
    }
    Some(r)
}

/// What was woven up to word `k` does not depend on later words.
proof fn lemma_woven_upto_prefix(
    gaps: Seq<Seq<char>>,
    before: Seq<Seq<char>>,
    after: Seq<Seq<char>>,
    k: nat,
)
    requires
        k <= before.len() <= after.len(),
        forall|i: int| 0 <= i < k ==> before[i] == after[i],
    ensures
        woven_upto(gaps, before, k) == woven_upto(gaps, after, k),
    decreases k,
{
    if k > 0 {
        lemma_woven_upto_prefix(gaps, before, after, (k - 1) as nat);
    }
}

/// Replaces every number in the text by what `spell` makes of it. A number
/// is what [`number_pattern`] matches. See [`converts`].
pub fn convert_numbers2words<F: Fn(String) -> String>(input: String, spell: F) -> (output: String)
    requires
        forall|number: String| call_requires(spell, (number,)),
    ensures
        converts(spell, input@, output@),
{
    let re = match compile_pattern("\\d+\\.*\\d+") {
        Some(re) => re,
        None => {
            return input;
        },
    };
    let numbers = find_all(&re, input.as_str());
    let gaps = split_all(&re, input.as_str());
    match weave(&gaps, &numbers) {
        Some(text) => {
            if text != input {
                return input;
            }
        },
        None => {
            return input;
        },
    }
    let mut words: Vec<String> = Vec::new();
    let mut k: usize = 0;
    while k < numbers.len()
        invariant
            k <= numbers.len(),
            words.len() == k,
            forall|i: int| 0 <= i < k ==> #[trigger] spelled_at(spell, numbers@, words@, i),
            forall|number: String| call_requires(spell, (number,)),
        decreases numbers.len() - k,
    {
        let ghost before = words@;
        let word = spell(numbers[k].clone());
        words.push(word);
        proof {
            assert forall|i: int| 0 <= i < k + 1 implies #[trigger] spelled_at(
                spell,
                numbers@,
                words@,
                i,
            ) by {
                if i < k {
                    assert(spelled_at(spell, numbers@, before, i));
                }
            }
        }
        k = k + 1;
    }
    proof {
        assert(spelled(spell, numbers@, words@));
    }
    match weave(&gaps, &words) {
        Some(output) => output,
        None => input,
    }
}

} // verus!

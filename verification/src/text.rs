//! Strings as sequences of characters.

use vstd::prelude::*;
use vstd::string::StringExecFns;

verus! {

broadcast use vstd::string::group_string_axioms;

/// The texts of some strings.
pub open spec fn texts(strings: Seq<String>) -> Seq<Seq<char>> {
    strings.map_values(|s: String| s@)
}

/// The text of an optional string.
pub open spec fn opt_text(s: Option<String>) -> Option<Seq<char>> {
    match s {
        Some(t) => Some(t@),
        None => None,
    }
}

/// Whether a string reads as a literal does.
pub fn reads(s: &String, literal: &str) -> (r: bool)
    ensures
        r == (s@ == literal@),
{
    let l = literal.to_owned();
    *s == l
}

/// The characters of a string.
pub fn chars_of(s: &str) -> (v: Vec<char>)
    ensures
        v@ == s@,
{
    let mut v: Vec<char> = Vec::new();
    for c in iter: s.chars()
        invariant
            iter.seq() == s@,
            v@ == s@.take(iter.index() as int),
    {
        v.push(c);
        assert(s@.take(iter.index() + 1) =~= s@.take(iter.index() as int).push(c));
    }
    assert(s@.take(s@.len() as int) =~= s@);
    v
}

} // verus!

verus! {

/// The white space of Unicode.
pub open spec fn is_space(c: char) -> bool {
    let n = c as u32;
    ||| 0x9 <= n <= 0xd
    ||| n == 0x20
    ||| n == 0x85
    ||| n == 0xa0
    ||| n == 0x1680
    ||| 0x2000 <= n <= 0x200a
    ||| n == 0x2028
    ||| n == 0x2029
    ||| n == 0x202f
    ||| n == 0x205f
    ||| n == 0x3000
}

/// Whether a character is white space.
pub fn is_whitespace(c: char) -> (r: bool)
    ensures
        r == is_space(c),
{
    let n = c as u32;
    (0x9 <= n && n <= 0xd) || n == 0x20 || n == 0x85 || n == 0xa0 || n == 0x1680 || (0x2000 <= n
        && n <= 0x200a) || n == 0x2028 || n == 0x2029 || n == 0x202f || n == 0x205f || n == 0x3000
}

/// The first position from `i` on that holds no white space, or the length.
pub open spec fn skip_spaces(s: Seq<char>, i: int) -> int
    decreases s.len() - i,
{
    if 0 <= i < s.len() && is_space(s[i]) {
        skip_spaces(s, i + 1)
    } else {
        i
    }
}

/// The first position from `i` on that holds white space, or the length.
pub open spec fn word_end(s: Seq<char>, i: int) -> int
    decreases s.len() - i,
{
    if 0 <= i < s.len() && !is_space(s[i]) {
        word_end(s, i + 1)
    } else {
        i
    }
}

/// The words from position `i` on: the longest stretches without white
/// space, in order.
pub open spec fn words_from(s: Seq<char>, i: int) -> Seq<Seq<char>>
    decreases s.len() - i, 1int,
{
    let a = skip_spaces(s, i);
    if 0 <= i <= a < s.len() {
        let b = word_end(s, a);
        if a < b <= s.len() {
            seq![s.subrange(a, b)] + words_from(s, b)
        } else {
            Seq::empty()
        }
    } else {
        Seq::empty()
    }
}

/// The words of a text.
pub open spec fn words(s: Seq<char>) -> Seq<Seq<char>> {
    words_from(s, 0)
}

proof fn lemma_word_end(s: Seq<char>, i: int)
    requires
        0 <= i <= s.len(),
    ensures
        i <= word_end(s, i) <= s.len(),
        word_end(s, i) < s.len() ==> is_space(s[word_end(s, i)]),
        forall|k: int| i <= k < word_end(s, i) ==> !is_space(#[trigger] s[k]),
        i < s.len() && !is_space(s[i]) ==> word_end(s, i) > i,
    decreases s.len() - i,
{
    if i < s.len() && !is_space(s[i]) {
        lemma_word_end(s, i + 1);
    }
}

/// The words of a text, each as its characters.
pub fn split_whitespace(text: &Vec<char>) -> (ws: Vec<Vec<char>>)
    ensures
        ws@.map_values(|w: Vec<char>| w@) == words(text@),
{
    let mut ws: Vec<Vec<char>> = Vec::new();
    let mut i: usize = 0;
    let ghost view_of = |w: Vec<char>| w@;
    assert(ws@.map_values(view_of) =~= Seq::<Seq<char>>::empty());
    loop
        invariant
            i <= text.len(),
            view_of == |w: Vec<char>| w@,
            ws@.map_values(view_of) + words_from(text@, i as int) == words(text@),
        decreases text.len() - i,
    {
        let ghost start = i;
        // pass over white space
        while i < text.len() && is_whitespace(text[i])
            invariant
                start <= i <= text.len(),
                skip_spaces(text@, i as int) == skip_spaces(text@, start as int),
            decreases text.len() - i,
        {
            i = i + 1;
        }
        if i >= text.len() {
            proof {
                assert(words_from(text@, start as int) =~= Seq::<Seq<char>>::empty());
                assert(ws@.map_values(view_of) + Seq::<Seq<char>>::empty() =~= ws@.map_values(
                    view_of,
                ));
            }
            return ws;
        }
        let a = i;
        let mut word: Vec<char> = Vec::new();
        assert(text@.subrange(a as int, i as int) =~= word@);
        while i < text.len() && !is_whitespace(text[i])
            invariant
                a <= i <= text.len(),
                word_end(text@, i as int) == word_end(text@, a as int),
                word@ == text@.subrange(a as int, i as int),
            decreases text.len() - i,
        {
            word.push(text[i]);
            i = i + 1;
            assert(text@.subrange(a as int, i as int) =~= text@.subrange(a as int, i - 1).push(
                text@[i - 1],
            ));
        }
        proof {
            lemma_word_end(text@, a as int);
            assert(skip_spaces(text@, start as int) == a);
            assert(word_end(text@, a as int) == i);
            assert(words_from(text@, start as int) == seq![word@] + words_from(text@, i as int));
            assert(ws@.push(word).map_values(view_of) =~= ws@.map_values(view_of).push(word@));
            assert(ws@.map_values(view_of).push(word@) + words_from(text@, i as int)
                =~= ws@.map_values(view_of) + (seq![word@] + words_from(text@, i as int)));
        }
        ws.push(word);
    }
}

/// Whether two words are the same.
pub fn same_chars(a: &Vec<char>, b: &Vec<char>) -> (r: bool)
    ensures
        r == (a@ == b@),
{
    if a.len() != b.len() {
        return false;
    }
    let mut i: usize = 0;
    while i < a.len()
        invariant
            i <= a.len(),
            a.len() == b.len(),
            forall|k: int| 0 <= k < i ==> a[k] == b[k],
        decreases a.len() - i,
    {
        if a[i] != b[i] {
            return false;
        }
        i = i + 1;
    }
    assert(a@ =~= b@);
    true
}

/// `part` stands in `s` at position `i`.
pub open spec fn stands_at(s: Seq<char>, part: Seq<char>, i: int) -> bool {
    0 <= i && i + part.len() <= s.len() && s.subrange(i, i + part.len()) == part
}

/// `part` stands somewhere in `s`.
pub open spec fn contains_text(s: Seq<char>, part: Seq<char>) -> bool {
    exists|i: int| stands_at(s, part, i)
}

/// Whether `part` stands in `text` at position `i`.
fn found_at(text: &Vec<char>, part: &Vec<char>, i: usize) -> (r: bool)
    requires
        i + part.len() <= text.len(),
    ensures
        r == stands_at(text@, part@, i as int),
{
    let mut k: usize = 0;
    while k < part.len()
        invariant
            k <= part.len(),
            i + part.len() <= text.len(),
            forall|j: int| 0 <= j < k ==> text[i + j] == part[j],
        decreases part.len() - k,
    {
        if text[i + k] != part[k] {
            assert(text@.subrange(i as int, i + part.len())[k as int] != part@[k as int]);
            return false;
        }
        k = k + 1;
    }
    assert(text@.subrange(i as int, i + part.len()) =~= part@);
    true
}

/// Whether `part` stands somewhere in `text`.
pub fn contains(text: &Vec<char>, part: &Vec<char>) -> (r: bool)
    ensures
        r == contains_text(text@, part@),
{
    if part.len() > text.len() {
        return false;
    }
    let last = text.len() - part.len();
    let mut i: usize = 0;
    loop
        invariant
            i <= last,
            last == text.len() - part.len(),
            forall|j: int| 0 <= j < i ==> !stands_at(text@, part@, j),
        decreases last - i,
    {
        if found_at(text, part, i) {
            return true;
        }
        if i == last {
            return false;
        }
        i = i + 1;
    }
}

/// The text without the white space at its ends.
pub open spec fn trimmed(s: Seq<char>) -> Seq<char> {
    let a = skip_spaces(s, 0);
    s.subrange(a, trim_end(s, a, s.len() as int))
}

/// The end of the text from `a` without the white space before `b`.
pub open spec fn trim_end(s: Seq<char>, a: int, b: int) -> int
    decreases b,
{
    if 0 <= a < b <= s.len() && is_space(s[b - 1]) {
        trim_end(s, a, b - 1)
    } else {
        b
    }
}

/// The bounds of the text without the white space at its ends.
pub fn trim_bounds(text: &Vec<char>) -> (r: (usize, usize))
    ensures
        r.0 <= r.1 <= text.len(),
        text@.subrange(r.0 as int, r.1 as int) == trimmed(text@),
        r.0 == skip_spaces(text@, 0),
        r.1 == trim_end(text@, r.0 as int, text.len() as int),
{
    let mut a: usize = 0;
    while a < text.len() && is_whitespace(text[a])
        invariant
            a <= text.len(),
            skip_spaces(text@, a as int) == skip_spaces(text@, 0),
        decreases text.len() - a,
    {
        a = a + 1;
    }
    let mut b: usize = text.len();
    while a < b && is_whitespace(text[b - 1])
        invariant
            a <= b <= text.len(),
            trim_end(text@, a as int, b as int) == trim_end(text@, a as int, text.len() as int),
        decreases b,
    {
        b = b - 1;
    }
    (a, b)
}

} // verus!

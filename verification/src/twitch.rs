//! Which chat lines of a stream are worth an answer.

use crate::request::TwitchRequest;
use crate::text::{
    chars_of, contains, contains_text, same_chars, split_whitespace, trim_bounds, trimmed, words,
};
use vstd::prelude::*;
use vstd::string::StrSliceExecFns;

verus! {

/// A text repeats itself: it has more than one word, and more than two of
/// its words were there before.
pub open spec fn repeats(text: Seq<char>) -> bool {
    let ws = words(text);
    let distinct = ws.to_set().len();
    distinct > 1 && ws.len() - distinct > 2
}

/// How many different words there are.
fn count_distinct(ws: &Vec<Vec<char>>) -> (n: usize)
    ensures
        n == ws@.map_values(|w: Vec<char>| w@).to_set().len(),
        n <= ws.len(),
{
    let ghost view_of = |w: Vec<char>| w@;
    let ghost all = ws@.map_values(view_of);
    let mut n: usize = 0;
    let mut i: usize = 0;
    assert(all.take(0).to_set() =~= Set::<Seq<char>>::empty());
    while i < ws.len()
        invariant
            i <= ws.len(),
            view_of == |w: Vec<char>| w@,
            all == ws@.map_values(view_of),
            all.take(i as int).to_set().finite(),
            n == all.take(i as int).to_set().len(),
            n <= i,
        decreases ws.len() - i,
    {
        let mut seen = false;
        let mut j: usize = 0;
        while j < i
            invariant
                j <= i < ws.len(),
                view_of == |w: Vec<char>| w@,
                all == ws@.map_values(view_of),
                seen == exists|k: int| 0 <= k < j && all[k] == all[i as int],
            decreases i - j,
        {
            if same_chars(&ws[j], &ws[i]) {
                assert(all[j as int] == all[i as int]);
                seen = true;
            }
            j = j + 1;
        }
        proof {
            let before = all.take(i as int);
            let word = all[i as int];
            assert(all.take(i + 1) =~= before.push(word));
            assert(before.push(word).to_set() =~= before.to_set().insert(word)) by {
                assert forall|x: Seq<char>| before.push(word).to_set().contains(x) implies before.to_set().insert(
                    word,
                ).contains(x) by {
                    let k = choose|k: int| 0 <= k < before.push(word).len() && before.push(word)[k] == x;
                    if k < before.len() {
                        assert(before[k] == x);
                    }
                }
                assert forall|x: Seq<char>| before.to_set().insert(word).contains(x) implies before.push(
                    word,
                ).to_set().contains(x) by {
                    if x == word {
                        assert(before.push(word)[before.len() as int] == x);
                    } else {
                        let k = choose|k: int| 0 <= k < before.len() && before[k] == x;
                        assert(before.push(word)[k] == x);
                    }
                }
            }
            if seen {
                let k = choose|k: int| 0 <= k < i && all[k] == all[i as int];
                assert(before[k] == word);
                assert(before.to_set().contains(word));
            } else {
                if before.to_set().contains(word) {
                    let k = choose|k: int| 0 <= k < before.len() && before[k] == word;
                    assert(all[k] == all[i as int]);
                }
            }
        }
        if !seen {
            n = n + 1;
        }
        i = i + 1;
    }
    assert(all.take(ws.len() as int) =~= all);
    n
}

/// Whether the text repeats itself. See [`repeats`].
pub fn contains_repititions(text: &str) -> (r: bool)
    ensures
        r == repeats(text@),
{
    let chars = chars_of(text);
    let ws = split_whitespace(&chars);
    let distinct = count_distinct(&ws);
    distinct > 1 && ws.len() - distinct > 2
}

/// A chat line is worth an answer: without the white space at its ends it
/// names nobody, links nowhere, shouts nothing, takes at least five bytes
/// and has a space in it, and the line does not repeat itself.
pub open spec fn worth_answering(line: Seq<char>) -> bool {
    let text = trimmed(line);
    &&& !contains_text(text, "@"@)
    &&& !contains_text(text, "http"@)
    &&& !contains_text(text, "!"@)
    &&& vstd::utf8::encode_utf8(text).len() >= 5
    &&& contains_text(text, " "@)
    &&& !repeats(line)
}

/// The request that a chat line of `sender` makes, if the line is worth an
/// answer: the line without the white space at its ends.
pub fn chat_request(line: &str, sender: String) -> (r: Option<TwitchRequest>)
    ensures
        r is Some <==> worth_answering(line@),
        r matches Some(request) ==> request.request@ == trimmed(line@) && request.username
            == sender,
{
    let chars = chars_of(line);
    let (a, b) = trim_bounds(&chars);
    let text_str = line.substring_char(a, b);
    let text = chars_of(text_str);
    let at = chars_of("@");
    let http = chars_of("http");
    let bang = chars_of("!");
    let space = chars_of(" ");
    if contains(&text, &at) || contains(&text, &http) || contains(&text, &bang)
        || text_str.as_bytes().len() < 5 || !contains(&text, &space) || contains_repititions(line) {
        return None;
    }
    Some(TwitchRequest { request: text_str.to_owned(), username: sender })
}

} // verus!

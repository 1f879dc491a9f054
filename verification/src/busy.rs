//! What to say when the session is taken.

use vstd::prelude::*;

verus! {

/// Draws an index below `len` with `rand::Rng::gen_range` on the generator
/// of the thread. The range must not be empty.
#[verifier::external_body]
fn random_index(len: usize) -> (i: usize)
    requires
        len > 0,
    ensures
        i < len,
{
    rand::Rng::gen_range(&mut rand::thread_rng(), 0..len)
}

/// The message at `index`, if there is one.
pub fn message_at(busy_messages: &Vec<String>, index: usize) -> (r: Option<String>)
    ensures
        r is Some <==> index < busy_messages.len(),
        r matches Some(m) ==> m@ == busy_messages[index as int]@,
{
    if index < busy_messages.len() {
        Some(busy_messages[index].clone())
    } else {
        None
    }
}

/// One of the messages, drawn at random; `None` where there is none to draw
/// from.
pub fn busy_message(busy_messages: &Vec<String>) -> (r: Option<String>)
    ensures
        r is Some <==> busy_messages.len() > 0,
        r matches Some(m) ==> exists|i: int|
            0 <= i < busy_messages.len() && m@ == (#[trigger] busy_messages[i])@,
{
    if busy_messages.len() == 0 {
        None
    } else {
        message_at(busy_messages, random_index(busy_messages.len()))
    }
}

} // verus!

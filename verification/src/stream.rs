//! Answers that arrive in pieces.
//!
//! A streamed answer is a finite sequence of chunks: a message begins, its
//! content arrives piece by piece, the message closes, and at last the
//! stream is done. Several messages may be under way at once, each under its
//! index.

use crate::conversation::{messages, ChatMessage, Conversation, Role};
use crate::dispatcher::AIError;
use vstd::prelude::*;
use vstd::string::StringExecFns;

verus! {

/// One chunk of a streamed answer.
#[derive(Debug, Clone, PartialEq, Eq)]
pub enum ResponseChunk {
    /// A piece of the content of a message.
    Content { delta: String, response_index: usize },
    /// A message begins, without content yet.
    BeginResponse { role: Role, response_index: usize },
    /// A message is finished.
    CloseResponse { response_index: usize },
    /// The stream is at its end.
    Done,
}

/// The messages that chunks make, or `None` where content arrives for a
/// message that has not begun.
///
/// The messages stand in the order in which they began, and the content of
/// each is its pieces in the order in which they arrived.
pub open spec fn assembled(chunks: Seq<ResponseChunk>) -> Option<Seq<(Role, Seq<char>)>>
    decreases chunks.len(),
{
    if chunks.len() == 0 {
        Some(Seq::empty())
    } else {
        match assembled(chunks.drop_last()) {
            None => None,
            Some(made) => match chunks.last() {
                ResponseChunk::BeginResponse { role, response_index } => Some(
                    made.push((role, Seq::empty())),
                ),
                ResponseChunk::Content { delta, response_index } => if response_index < made.len() {
                    Some(
                        made.update(
                            response_index as int,
                            (made[response_index as int].0, made[response_index as int].1 + delta@),
                        ),
                    )
                } else {
                    None
                },
                _ => Some(made),
            },
        }
    }
}

/// The messages that the chunks make. See [`assembled`].
pub fn from_response_chunks(chunks: &Vec<ResponseChunk>) -> (r: Option<Vec<ChatMessage>>)
    ensures
        r is Some <==> assembled(chunks@) is Some,
        r matches Some(made) ==> Some(messages(made@)) == assembled(chunks@),
{
    let mut result: Vec<ChatMessage> = Vec::new();
    let mut i: usize = 0;
    assert(chunks@.take(0) =~= Seq::<ResponseChunk>::empty());
    assert(messages(result@) =~= Seq::<(Role, Seq<char>)>::empty());
    while i < chunks.len()
        invariant
            i <= chunks.len(),
            assembled(chunks@.take(i as int)) == Some(messages(result@)),
        decreases chunks.len() - i,
    {
        proof {
            assert(chunks@.take(i + 1).drop_last() =~= chunks@.take(i as int));
            assert(chunks@.take(i + 1).last() == chunks@[i as int]);
        }
        let ghost before = messages(result@);
        match &chunks[i] {
            ResponseChunk::BeginResponse { role, response_index: _ } => {
                result.push(ChatMessage { role: *role, content: String::new() });
                assert(messages(result@) =~= before.push((*role, Seq::<char>::empty())));
            },
            ResponseChunk::Content { delta, response_index } => {
                let at = *response_index;
                if at >= result.len() {
                    proof {
                        lemma_failure_stays(chunks@, i + 1);
                    }
                    return None;
                }
                let ChatMessage { role, content } = result.remove(at);
                let mut content = content;
                content.append(delta.as_str());
                result.insert(at, ChatMessage { role, content });
                assert(messages(result@) =~= before.update(
                    at as int,
                    (before[at as int].0, before[at as int].1 + delta@),
                ));
            },
            _ => {},
        }
        i = i + 1;
    }
    assert(chunks@.take(chunks.len() as int) =~= chunks@);
    Some(result)
}

/// Chunks that make no messages make none with more chunks behind them.
proof fn lemma_failure_stays(chunks: Seq<ResponseChunk>, k: int)
    requires
        0 <= k <= chunks.len(),
        assembled(chunks.take(k)) is None,
    ensures
        assembled(chunks) is None,
    decreases chunks.len() - k,
{
    if k < chunks.len() {
        assert(chunks.take(k + 1).drop_last() =~= chunks.take(k));
        lemma_failure_stays(chunks, k + 1);
    } else {
        assert(chunks.take(k) =~= chunks);
    }
}

impl Conversation {
    /// Adds the messages of a streamed answer to the conversation. Chunks
    /// that make no messages are an error, and the conversation stays as it
    /// is.
    pub fn push_streamed(&mut self, chunks: &Vec<ResponseChunk>) -> (r: Result<(), AIError>)
        ensures
            match assembled(chunks@) {
                Some(made) => r is Ok && final(self)@ == old(self)@ + made,
                None => r == Err::<(), AIError>(AIError::UnknownError) && final(self).history@ == old(
                    self,
                ).history@,
            },
    {
        match from_response_chunks(chunks) {
            Some(made) => {
                let mut made = made;
                let ghost added = made@;
                self.history.append(&mut made);
                assert(self@ =~= old(self)@ + messages(added));
                Ok(())
            },
            None => Err(AIError::UnknownError),
        }
    }
}

} // verus!

//! The history of one conversation.

use crate::dispatcher::{AIError, AIResponse, AIResponseType};
use vstd::prelude::*;

verus! {

/// Who said a message.
#[derive(Debug, Clone, Copy, PartialEq, Eq, Structural)]
pub enum Role {
    /// The directive that opens a conversation.
    System,
    /// The model.
    Assistant,
    /// The user.
    User,
    /// A function that the model called.
    Function,
}

/// One message of a conversation.
#[derive(Debug, Clone, PartialEq, Eq)]
pub struct ChatMessage {
    pub role: Role,
    pub content: String,
}

impl View for ChatMessage {
    type V = (Role, Seq<char>);

    open spec fn view(&self) -> (Role, Seq<char>) {
        (self.role, self.content@)
    }
}

/// The messages of a history, each as its role and text.
pub open spec fn messages(history: Seq<ChatMessage>) -> Seq<(Role, Seq<char>)> {
    history.map_values(|m: ChatMessage| m@)
}

/// A conversation: all messages sent and received, beginning with the
/// directive that opened it.
#[derive(Debug, Clone, PartialEq, Eq)]
pub struct Conversation {
    pub history: Vec<ChatMessage>,
}

impl View for Conversation {
    type V = Seq<(Role, Seq<char>)>;

    open spec fn view(&self) -> Seq<(Role, Seq<char>)> {
        messages(self.history@)
    }
}

impl Conversation {
    /// A conversation that holds its directive and nothing else.
    pub fn new(first_message: String) -> (c: Self)
        ensures
            c@ == seq![(Role::System, first_message@)],
            c.history.len() == 1,
            c.exchanges() == 0,
    {
        let mut history: Vec<ChatMessage> = Vec::new();
        history.push(ChatMessage { role: Role::System, content: first_message });
        let c = Conversation { history };
        assert(c@ =~= seq![(Role::System, first_message@)]);
        c
    }

    /// A conversation that goes on from `history`.
    pub fn new_with_history(history: Vec<ChatMessage>) -> (c: Self)
        ensures
            c.history == history,
    {
        Conversation { history }
    }

    /// How many messages the conversation holds beyond its directive.
    pub open spec fn exchanges(&self) -> nat {
        if self.history.len() > 0 {
            (self.history.len() - 1) as nat
        } else {
            0
        }
    }

    /// Adds a message of the user.
    pub fn push_request(&mut self, text: String)
        ensures
            final(self)@ == old(self)@.push((Role::User, text@)),
    {
        self.history.push(ChatMessage { role: Role::User, content: text });
        assert(self@ =~= old(self)@.push((Role::User, text@)));
    }

    /// Adds an answer of the model.
    pub fn push_answer(&mut self, text: String)
        ensures
            final(self)@ == old(self)@.push((Role::Assistant, text@)),
    {
        self.history.push(ChatMessage { role: Role::Assistant, content: text });
        assert(self@ =~= old(self)@.push((Role::Assistant, text@)));
    }

    /// The last message, if there is one.
    pub fn last(&self) -> (r: Option<&ChatMessage>)
        ensures
            r is Some <==> self.history.len() > 0,
            r matches Some(m) ==> *m == self.history[self.history.len() - 1],
    {
        let n = self.history.len();
        if n == 0 {
            None
        } else {
            Some(&self.history[n - 1])
        }
    }

    /// The answer of an exchange that just ended: the last message as a raw
    /// answer. A conversation without messages has none.
    pub fn last_answer(&self) -> (r: Result<AIResponse, AIError>)
        ensures
            self.history.len() == 0 ==> r == Err::<AIResponse, AIError>(AIError::UnknownError),
            self.history.len() > 0 ==> (r matches Ok(response) && response@ == Map::<
                AIResponseType,
                Seq<char>,
            >::empty().insert(
                AIResponseType::RawAnswer,
                self.history[self.history.len() - 1].content@,
            )),
    {
        match self.last() {
            Some(m) => Ok(AIResponse::raw(m.content.clone())),
            None => Err(AIError::UnknownError),
        }
    }

    /// Takes the last exchange back: removes the last message and the one
    /// before it, and returns the last.
    pub fn rollback(&mut self) -> (last: Option<ChatMessage>)
        ensures
            old(self).history.len() == 0 ==> last is None && final(self).history@ == old(
                self,
            ).history@,
            old(self).history.len() > 0 ==> last == Some(
                old(self).history[old(self).history.len() - 1],
            ),
            old(self).history.len() == 1 ==> final(self).history@ == Seq::<ChatMessage>::empty(),
            old(self).history.len() >= 2 ==> final(self).history@ == old(self).history@.take(
                old(self).history.len() - 2,
            ),
    {
        let last = self.history.pop();
        let _ = self.history.pop();
        proof {
            let h = old(self).history@;
            if h.len() == 1 {
                assert(self.history@ =~= Seq::<ChatMessage>::empty());
            }
            if h.len() >= 2 {
                assert(self.history@ =~= h.take(h.len() - 2));
            }
        }
        last
    }

    /// Forgets everything but the directive. A conversation that holds no
    /// more than its directive has nothing to forget: that is an error, and
    /// the conversation stays as it is.
    pub fn reset(&mut self) -> (r: Result<(), AIError>)
        ensures
            old(self).exchanges() == 0 ==> r == Err::<(), AIError>(AIError::ResetErrorEmpty)
                && final(self).history@ == old(self).history@,
            old(self).exchanges() > 0 ==> r is Ok && final(self).history@ == old(
                self,
            ).history@.take(1),
    {
        if self.history.len() <= 1 {
            Err(AIError::ResetErrorEmpty)
        } else {
            self.history.truncate(1);
            assert(self.history@ =~= old(self).history@.take(1));
            Ok(())
        }
    }
}

} // verus!

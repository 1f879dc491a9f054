//! A backend that needs no model: it answers every request with the
//! request's own text.

use crate::conversation::{Conversation, Role};
use crate::dispatcher::{AIBuilder, AIError, AIRequest, AIResponse, AIResponseType, AIinterface, ContextFile};
use vstd::prelude::*;

verus! {

/// The echo backend. It keeps its exchanges like any other backend, so that
/// there is something to reset.
#[derive(Debug, Clone, PartialEq, Eq)]
pub struct DummyAI {
    pub conversation: Conversation,
}

impl DummyAI {
    /// An echo backend with an empty directive and no exchanges.
    pub fn new() -> (ai: Self)
        ensures
            ai.conversation@ == seq![(Role::System, Seq::<char>::empty())],
            ai.conversation.exchanges() == 0,
    {
        DummyAI { conversation: Conversation::new(String::new()) }
    }
}

impl AIinterface for DummyAI {
    /// The answer is the text, and the exchange is kept.
    open spec fn answers(
        &self,
        text: Seq<char>,
        channel: Seq<char>,
        lang: Seq<char>,
        after: &Self,
        r: Result<AIResponse, AIError>,
    ) -> bool {
        &&& r matches Ok(response)
        &&& response@ == Map::<AIResponseType, Seq<char>>::empty().insert(
            AIResponseType::RawAnswer,
            text,
        )
        &&& after.conversation@ == self.conversation@.push((Role::User, text)).push(
            (Role::Assistant, text),
        )
    }

    open spec fn resets(&self, after: &Self, r: Result<(), AIError>) -> bool {
        if self.conversation.exchanges() == 0 {
            r == Err::<(), AIError>(AIError::ResetErrorEmpty) && after.conversation.history@
                == self.conversation.history@
        } else {
            r is Ok && after.conversation.history@ == self.conversation.history@.take(1)
        }
    }

    /// Nothing is written.
    open spec fn saves(&self, file: (Seq<char>, Seq<char>), after: &Self, r: Result<(), AIError>) -> bool {
        r is Ok && *after == *self
    }

    /// Nothing is read.
    open spec fn loads(&self, file: (Seq<char>, Seq<char>), after: &Self, r: Result<(), AIError>) -> bool {
        r is Ok && *after == *self
    }

    fn process<R: AIRequest>(&mut self, request: R) -> (r: Result<AIResponse, AIError>) {
        let text = request.request();
        self.conversation.push_request(text.clone());
        self.conversation.push_answer(text.clone());
        Ok(AIResponse::raw(text))
    }

    fn reset(&mut self) -> (r: Result<(), AIError>) {
        self.conversation.reset()
    }

    fn save_context(&mut self, file: &ContextFile) -> (r: Result<(), AIError>) {
        Ok(())
    }

    fn load_context(&mut self, file: &ContextFile) -> (r: Result<(), AIError>) {
        Ok(())
    }
}

/// Builds echo backends.
#[derive(Debug, Clone, Copy, PartialEq, Eq)]
pub struct DummyAIBuilder;

impl AIBuilder for DummyAIBuilder {
    type AI = DummyAI;

    open spec fn builds(&self, after: &Self, ai: DummyAI) -> bool {
        ai.conversation@ == seq![(Role::System, Seq::<char>::empty())]
    }

    fn build(&mut self) -> (ai: DummyAI) {
        DummyAI::new()
    }
}

} // verus!

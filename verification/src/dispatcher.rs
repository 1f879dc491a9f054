//! The per-channel conversation dispatcher.
//!
//! Every request names a channel. The dispatcher keeps one conversation
//! session per channel key, builds it on first use, and lets at most one
//! exchange run on it at a time: while an exchange is in flight the session's
//! backend is checked out, and a second request for the same channel is turned
//! away with [`AIError::Busy`] instead of being queued.

use vstd::prelude::*;

verus! {

/// What can go wrong with a request.
#[derive(Debug, Clone, PartialEq, Eq)]
pub enum AIError {
    /// The session of the channel is taken by an exchange in flight.
    Busy,
    /// The backend could not be reached.
    NetworkError,
    /// A translation stage failed.
    TranslateError(String),
    /// The backend answered with an error.
    AnswerError(String),
    /// Anything else.
    UnknownError,
    /// There was nothing to reset.
    ResetErrorEmpty,
    /// The stored context could not be written or read.
    ContextError,
}

/// The kinds of text a response can carry.
#[derive(Debug, Clone, Copy, PartialEq, Eq, Hash, Structural)]
pub enum AIResponseType {
    /// The answer as the model gave it.
    RawAnswer,
    /// The answer with its numbers spelled out.
    NoDigits,
    /// The answer in the language of the user.
    Translated,
}

/// A response: for each kind of text, the text if the response carries it.
///
/// A later stage that failed without failing the exchange leaves its kind out.
#[derive(Debug, Clone, PartialEq, Eq)]
pub struct AIResponse {
    pub raw_answer: Option<String>,
    pub no_digits: Option<String>,
    pub translated: Option<String>,
}

/// The text of an optional string, as a map entry under `kind`.
pub open spec fn with_entry(
    m: Map<AIResponseType, Seq<char>>,
    kind: AIResponseType,
    text: Option<String>,
) -> Map<AIResponseType, Seq<char>> {
    match text {
        Some(s) => m.insert(kind, s@),
        None => m,
    }
}

impl View for AIResponse {
    type V = Map<AIResponseType, Seq<char>>;

    open spec fn view(&self) -> Map<AIResponseType, Seq<char>> {
        with_entry(
            with_entry(
                with_entry(Map::empty(), AIResponseType::RawAnswer, self.raw_answer),
                AIResponseType::NoDigits,
                self.no_digits,
            ),
            AIResponseType::Translated,
            self.translated,
        )
    }
}

impl AIResponse {
    /// A response that carries nothing.
    pub fn new() -> (r: Self)
        ensures
            r@ == Map::<AIResponseType, Seq<char>>::empty(),
    {
        AIResponse { raw_answer: None, no_digits: None, translated: None }
    }

    /// A response that carries `text` as its raw answer and nothing else.
    pub fn raw(text: String) -> (r: Self)
        ensures
            r@ == Map::<AIResponseType, Seq<char>>::empty().insert(AIResponseType::RawAnswer, text@),
            r.raw_answer == Some(text),
            r.no_digits is None,
            r.translated is None,
    {
        AIResponse { raw_answer: Some(text), no_digits: None, translated: None }
    }

    /// The text of one kind.
    pub fn get(&self, kind: AIResponseType) -> (r: Option<&String>)
        ensures
            r is Some <==> self@.contains_key(kind),
            r matches Some(s) ==> s@ == self@[kind],
    {
        match kind {
            AIResponseType::RawAnswer => self.raw_answer.as_ref(),
            AIResponseType::NoDigits => self.no_digits.as_ref(),
            AIResponseType::Translated => self.translated.as_ref(),
        }
    }

    /// Sets the text of one kind, replacing what was there.
    pub fn insert(&mut self, kind: AIResponseType, text: String)
        ensures
            final(self)@ == old(self)@.insert(kind, text@),
    {
        match kind {
            AIResponseType::RawAnswer => {
                self.raw_answer = Some(text);
            },
            AIResponseType::NoDigits => {
                self.no_digits = Some(text);
            },
            AIResponseType::Translated => {
                self.translated = Some(text);
            },
        }
        assert(self@ =~= old(self)@.insert(kind, text@));
    }

    /// How many kinds of text the response carries.
    pub fn len(&self) -> (n: usize)
        ensures
            n == self@.dom().len(),
            n <= 3,
    {
        let mut n: usize = 0;
        let ghost m0 = Map::<AIResponseType, Seq<char>>::empty();
        let ghost m1 = with_entry(m0, AIResponseType::RawAnswer, self.raw_answer);
        let ghost m2 = with_entry(m1, AIResponseType::NoDigits, self.no_digits);
        assert(m0.dom() =~= Set::<AIResponseType>::empty());
        if self.raw_answer.is_some() {
            n = n + 1;
            assert(m1.dom() =~= m0.dom().insert(AIResponseType::RawAnswer));
        }
        assert(m1.dom().finite() && m1.dom().len() == n && !m1.dom().contains(
            AIResponseType::NoDigits,
        ) && !m1.dom().contains(AIResponseType::Translated));
        if self.no_digits.is_some() {
            n = n + 1;
            assert(m2.dom() =~= m1.dom().insert(AIResponseType::NoDigits));
        }
        assert(m2.dom().finite() && m2.dom().len() == n && !m2.dom().contains(
            AIResponseType::Translated,
        ));
        if self.translated.is_some() {
            n = n + 1;
            assert(self@.dom() =~= m2.dom().insert(AIResponseType::Translated));
        }
        n
    }
}

/// The response to a request without text: an empty raw answer.
pub open spec fn empty_reply() -> Map<AIResponseType, Seq<char>> {
    Map::<AIResponseType, Seq<char>>::empty().insert(AIResponseType::RawAnswer, Seq::<char>::empty())
}

/// A request: its text, the channel it belongs to, and its language.
pub trait AIRequest {
    /// The text of the request.
    spec fn text(&self) -> Seq<char>;

    /// The key of the channel the request came from.
    spec fn channel_key(&self) -> Seq<char>;

    /// The language of the text, or `auto`.
    spec fn language(&self) -> Seq<char>;

    fn request(&self) -> (r: String)
        ensures
            r@ == self.text(),
    ;

    fn channel(&self) -> (r: String)
        ensures
            r@ == self.channel_key(),
    ;

    fn lang(&self) -> (r: String)
        ensures
            r@ == self.language(),
    ;
}

/// Where the context of one channel is kept: the directory the dispatcher was
/// given, and the channel key that names the entry in it.
#[derive(Debug, Clone, PartialEq, Eq)]
pub struct ContextFile {
    pub directory: String,
    pub channel: String,
}

impl View for ContextFile {
    type V = (Seq<char>, Seq<char>);

    open spec fn view(&self) -> (Seq<char>, Seq<char>) {
        (self.directory@, self.channel@)
    }
}

/// A conversation backend.
///
/// What a backend answers is its own affair. Each method comes with a relation
/// that says what the method may do. As the trait gives them, the relations
/// hold of everything; a backend that defines them narrows them to what it
/// does, and code written against that backend can then be exact about it.
pub trait AIinterface: Sized {
    /// `process` on `self` with a request of this text, channel and language
    /// may leave `after` and return `r`.
    open spec fn answers(
        &self,
        text: Seq<char>,
        channel: Seq<char>,
        lang: Seq<char>,
        after: &Self,
        r: Result<AIResponse, AIError>,
    ) -> bool {
        true
    }

    /// `reset` on `self` may leave `after` and return `r`.
    open spec fn resets(&self, after: &Self, r: Result<(), AIError>) -> bool {
        true
    }

    /// `save_context` on `self` may leave `after` and return `r`.
    open spec fn saves(&self, file: (Seq<char>, Seq<char>), after: &Self, r: Result<(), AIError>) -> bool {
        true
    }

    /// `load_context` on `self` may leave `after` and return `r`.
    open spec fn loads(&self, file: (Seq<char>, Seq<char>), after: &Self, r: Result<(), AIError>) -> bool {
        true
    }

    /// Answers one request. Busy is the dispatcher's word, never a backend's.
    fn process<R: AIRequest>(&mut self, request: R) -> (r: Result<AIResponse, AIError>)
        ensures
            old(self).answers(
                request.text(),
                request.channel_key(),
                request.language(),
                final(self),
                r,
            ),
            !(r matches Err(AIError::Busy)),
    ;

    /// Forgets everything but the initial directive. With nothing to forget
    /// this is an error, not a silent success.
    fn reset(&mut self) -> (r: Result<(), AIError>)
        ensures
            old(self).resets(final(self), r),
            !(r matches Err(AIError::Busy)),
    ;

    /// Writes the conversation to `file`.
    fn save_context(&mut self, file: &ContextFile) -> (r: Result<(), AIError>)
        ensures
            old(self).saves(file@, final(self), r),
    ;

    /// Replaces the conversation by the one kept in `file`.
    fn load_context(&mut self, file: &ContextFile) -> (r: Result<(), AIError>)
        ensures
            old(self).loads(file@, final(self), r),
    ;
}

/// Makes the backend of a new session.
pub trait AIBuilder: Sized {
    type AI: AIinterface;

    /// `build` on `self` may leave `after` and return `ai`. As the trait
    /// gives it, the relation holds of everything.
    open spec fn builds(&self, after: &Self, ai: Self::AI) -> bool {
        true
    }

    fn build(&mut self) -> (ai: Self::AI)
        ensures
            old(self).builds(final(self), ai),
    ;
}

/// What the dispatcher is, as far as its contracts go.
pub struct DispatcherState<AIB: AIBuilder> {
    /// The session of each channel that has one: its backend, or `None` while
    /// an exchange in flight has it.
    pub sessions: Map<Seq<char>, Option<AIB::AI>>,
    /// The builder of new sessions.
    pub constructor: AIB,
    /// The directory of the stored contexts, if contexts are stored.
    pub directory: Option<Seq<char>>,
}

impl<AIB: AIBuilder> DispatcherState<AIB> {
    /// The channel has a session.
    pub open spec fn has_session(self, channel: Seq<char>) -> bool {
        self.sessions.contains_key(channel)
    }

    /// The channel has a session, and an exchange in flight holds it.
    pub open spec fn is_busy(self, channel: Seq<char>) -> bool {
        self.sessions.contains_key(channel) && self.sessions[channel] is None
    }

    /// Where the context of `channel` is kept, if contexts are stored.
    pub open spec fn context_file(self, channel: Seq<char>) -> Option<(Seq<char>, Seq<char>)> {
        match self.directory {
            Some(d) => Some((d, channel)),
            None => None,
        }
    }

    /// `ready` is `fresh` after the attempt to restore the context of
    /// `channel`. Whether the attempt succeeded does not matter.
    pub open spec fn restores(self, channel: Seq<char>, fresh: AIB::AI, ready: AIB::AI) -> bool {
        match self.directory {
            Some(d) => exists|r: Result<(), AIError>| #[trigger] fresh.loads((d, channel), &ready, r),
            None => ready == fresh,
        }
    }

    /// `post` is `self` once `channel` has its session: nothing changes where
    /// it had one, else one is built, restored and put in.
    pub open spec fn opens(self, channel: Seq<char>, post: Self) -> bool {
        &&& post.directory == self.directory
        &&& if self.has_session(channel) {
            post == self
        } else {
            exists|fresh: AIB::AI, ready: AIB::AI|
                {
                    &&& #[trigger] self.constructor.builds(&post.constructor, fresh)
                    &&& #[trigger] self.restores(channel, fresh, ready)
                    &&& post.sessions == self.sessions.insert(channel, Some(ready))
                }
        }
    }

    /// The same state with the session of `channel` set to `backend`.
    pub open spec fn with_session(self, channel: Seq<char>, backend: Option<AIB::AI>) -> Self {
        DispatcherState {
            sessions: self.sessions.insert(channel, backend),
            constructor: self.constructor,
            directory: self.directory,
        }
    }

    /// Admission of a request: from `self`, a request with this text for this
    /// channel leaves `post` and is told `step`.
    ///
    /// The session is opened first. A request without text is answered at
    /// once and leaves the guard alone. Otherwise the request is turned away
    /// if the session is taken, and else takes the session's backend with it.
    pub open spec fn admits(
        self,
        text: Seq<char>,
        channel: Seq<char>,
        post: Self,
        step: Admission<AIB::AI>,
    ) -> bool {
        exists|opened: Self| #[trigger]
            self.opens(channel, opened) && if text.len() == 0 {
                &&& post == opened
                &&& step matches Admission::Reply(reply)
                &&& reply@ == empty_reply()
            } else if opened.is_busy(channel) {
                &&& post == opened
                &&& step is Busy
            } else {
                &&& post == opened.with_session(channel, None)
                &&& step == Admission::Forward(opened.sessions[channel]->Some_0)
            }
    }

    /// Return of a backend: `self` with the backend put back where `channel`
    /// has a session that is taken; `handed_back` is `None` then. Anywhere
    /// else nothing changes and the backend is handed back.
    pub open spec fn releases(
        self,
        channel: Seq<char>,
        backend: AIB::AI,
        post: Self,
        handed_back: Option<AIB::AI>,
    ) -> bool {
        if self.is_busy(channel) {
            post == self.with_session(channel, Some(backend)) && handed_back is None
        } else {
            post == self && handed_back == Some(backend)
        }
    }

    /// `kept` is `done` after the context was saved where an exchange that
    /// ended in `outcome` asks for it: on success, if contexts are stored.
    /// Whether saving succeeded does not matter.
    pub open spec fn persists(
        self,
        channel: Seq<char>,
        outcome: Result<AIResponse, AIError>,
        done: AIB::AI,
        kept: AIB::AI,
    ) -> bool {
        match (outcome, self.directory) {
            (Ok(_), Some(d)) => exists|s: Result<(), AIError>| #[trigger]
                done.saves((d, channel), &kept, s),
            _ => kept == done,
        }
    }

    /// A whole exchange: from `self`, a request with this text, channel and
    /// language leaves `post` and returns `r`.
    pub open spec fn dispatches(
        self,
        text: Seq<char>,
        channel: Seq<char>,
        lang: Seq<char>,
        post: Self,
        r: Result<AIResponse, AIError>,
    ) -> bool {
        exists|opened: Self| #[trigger]
            self.opens(channel, opened) && if text.len() == 0 {
                &&& post == opened
                &&& r matches Ok(reply)
                &&& reply@ == empty_reply()
            } else if opened.is_busy(channel) {
                &&& post == opened
                &&& r == Err::<AIResponse, AIError>(AIError::Busy)
            } else {
                exists|done: AIB::AI, kept: AIB::AI|
                    {
                        &&& #[trigger] (opened.sessions[channel]->Some_0).answers(
                            text,
                            channel,
                            lang,
                            &done,
                            r,
                        )
                        &&& #[trigger] opened.persists(channel, r, done, kept)
                        &&& post == opened.with_session(channel, Some(kept))
                        &&& !(r matches Err(AIError::Busy))
                    }
            }
    }

    /// Admission of a reset: without a session there is nothing to reset, a
    /// taken session is busy, and else the reset takes the backend with it.
    pub open spec fn admits_reset(
        self,
        channel: Seq<char>,
        post: Self,
        step: Result<AIB::AI, AIError>,
    ) -> bool {
        if !self.has_session(channel) {
            post == self && step == Err::<AIB::AI, AIError>(AIError::ResetErrorEmpty)
        } else if self.is_busy(channel) {
            post == self && step == Err::<AIB::AI, AIError>(AIError::Busy)
        } else {
            post == self.with_session(channel, None) && step == Ok::<AIB::AI, AIError>(
                self.sessions[channel]->Some_0,
            )
        }
    }

    /// What the caller of a reset is told once the backend returned
    /// `outcome`: the backend's error, or on success the stored context that
    /// is stale now and has to go, if contexts are stored.
    pub open spec fn reset_verdict(self, channel: Seq<char>, outcome: Result<(), AIError>) -> Result<
        Option<(Seq<char>, Seq<char>)>,
        AIError,
    > {
        match outcome {
            Ok(_) => Ok(self.context_file(channel)),
            Err(e) => Err(e),
        }
    }

    /// A whole reset: from `self`, a reset of `channel` leaves `post` and
    /// returns `r`.
    pub open spec fn resets(
        self,
        channel: Seq<char>,
        post: Self,
        r: Result<Option<ContextFile>, AIError>,
    ) -> bool {
        if !self.has_session(channel) {
            post == self && r == Err::<Option<ContextFile>, AIError>(AIError::ResetErrorEmpty)
        } else if self.is_busy(channel) {
            post == self && r == Err::<Option<ContextFile>, AIError>(AIError::Busy)
        } else {
            exists|cleared: AIB::AI, outcome: Result<(), AIError>|
                {
                    &&& #[trigger] (self.sessions[channel]->Some_0).resets(&cleared, outcome)
                    &&& !(outcome matches Err(AIError::Busy))
                    &&& post == self.with_session(channel, Some(cleared))
                    &&& same_verdict(r, self.reset_verdict(channel, outcome))
                }
        }
    }
}

/// A verdict of a reset says what its model says.
pub open spec fn same_verdict(
    r: Result<Option<ContextFile>, AIError>,
    model: Result<Option<(Seq<char>, Seq<char>)>, AIError>,
) -> bool {
    match (r, model) {
        (Ok(Some(f)), Ok(Some(m))) => f@ == m,
        (Ok(None), Ok(None)) => true,
        (Err(e), Err(m)) => e == m,
        _ => false,
    }
}

/// A dispatcher: the one way in for requests and resets.
pub trait Dispatcher {
    /// The dispatcher is as it was made or as its methods left it.
    open spec fn valid(&self) -> bool {
        true
    }

    /// Hands the request to the session of its channel and returns the
    /// backend's answer, or `Busy` at once if the session is taken.
    fn try_process_request<R: AIRequest>(&mut self, request: R) -> (r: Result<AIResponse, AIError>)
        requires
            old(self).valid(),
        ensures
            final(self).valid(),
    ;

    /// Resets the conversation of a channel. On success the result names the
    /// stored context that is stale now, if contexts are stored: its removal
    /// is left to the caller.
    fn reset(&mut self, channel: String) -> (r: Result<Option<ContextFile>, AIError>)
        requires
            old(self).valid(),
        ensures
            final(self).valid(),
    ;
}

/// What a request is told on arrival.
#[derive(Debug)]
pub enum Admission<AI> {
    /// The request had no text: here is its answer, no backend was asked.
    Reply(AIResponse),
    /// The session of the channel is taken.
    Busy,
    /// The session was free and is taken now: here is its backend. Give it
    /// back with `finish_request` when the exchange is over.
    Forward(AI),
}

} // verus!

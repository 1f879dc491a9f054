//! The dispatcher itself: the sessions it keeps and the steps of an exchange.

use crate::dispatcher::{
    same_verdict, AIBuilder, AIError, AIRequest, AIResponse, AIinterface, Admission, ContextFile,
    Dispatcher, DispatcherState,
};
use crate::text::opt_text;
use vstd::hash_map::StringHashMap;
use vstd::prelude::*;

verus! {

/// One conversation session: the channel it belongs to and its backend.
///
/// The backend is the guard. While an exchange is in flight the backend is
/// with the exchange and the slot is empty.
struct ConversationSession<AI> {
    key: String,
    backend: Option<AI>,
}

/// No two sessions belong to the same channel.
spec fn distinct_keys<AI>(s: Seq<ConversationSession<AI>>) -> bool {
    forall|i: int, j: int|
        0 <= i < s.len() && 0 <= j < s.len() && #[trigger] s[i].key@ == #[trigger] s[j].key@ ==> i
            == j
}

/// The channel has a session among `s`.
spec fn has_key<AI>(s: Seq<ConversationSession<AI>>, k: Seq<char>) -> bool {
    exists|i: int| 0 <= i < s.len() && #[trigger] s[i].key@ == k
}

/// The sessions as a map from channel key to backend slot.
spec fn sessions_map<AI>(s: Seq<ConversationSession<AI>>) -> Map<Seq<char>, Option<AI>> {
    Map::new(
        |k: Seq<char>| has_key(s, k),
        |k: Seq<char>| s[choose|i: int| 0 <= i < s.len() && #[trigger] s[i].key@ == k].backend,
    )
}

proof fn lemma_lookup<AI>(s: Seq<ConversationSession<AI>>, i: int)
    requires
        distinct_keys(s),
        0 <= i < s.len(),
    ensures
        sessions_map(s).contains_key(s[i].key@),
        sessions_map(s)[s[i].key@] == s[i].backend,
{
    let k = s[i].key@;
    assert(has_key(s, k));
    let j = choose|j: int| 0 <= j < s.len() && #[trigger] s[j].key@ == k;
    assert(j == i);
}

proof fn lemma_absent<AI>(s: Seq<ConversationSession<AI>>, k: Seq<char>)
    requires
        forall|i: int| 0 <= i < s.len() ==> #[trigger] s[i].key@ != k,
    ensures
        !sessions_map(s).contains_key(k),
{
}

proof fn lemma_push<AI>(s: Seq<ConversationSession<AI>>, session: ConversationSession<AI>)
    requires
        distinct_keys(s),
        !has_key(s, session.key@),
    ensures
        distinct_keys(s.push(session)),
        sessions_map(s.push(session)) == sessions_map(s).insert(session.key@, session.backend),
{
    let t = s.push(session);
    assert forall|i: int, j: int|
        0 <= i < t.len() && 0 <= j < t.len() && #[trigger] t[i].key@ == #[trigger] t[j].key@ implies i
        == j by {
        if i < s.len() && j < s.len() {
            assert(s[i].key@ == s[j].key@);
        } else if i < s.len() {
            assert(s[i].key@ == session.key@);
        } else if j < s.len() {
            assert(s[j].key@ == session.key@);
        }
    }
    assert forall|k: Seq<char>| has_key(t, k) <==> (has_key(s, k) || k == session.key@) by {
        if has_key(s, k) {
            let i = choose|i: int| 0 <= i < s.len() && #[trigger] s[i].key@ == k;
            assert(t[i].key@ == k);
        }
        if k == session.key@ {
            assert(t[s.len() as int].key@ == k);
        }
        if has_key(t, k) {
            let i = choose|i: int| 0 <= i < t.len() && #[trigger] t[i].key@ == k;
            if i < s.len() {
                assert(s[i].key@ == k);
            }
        }
    }
    assert forall|k: Seq<char>| has_key(t, k) implies sessions_map(t)[k] == sessions_map(s).insert(
        session.key@,
        session.backend,
    )[k] by {
        let i = choose|i: int| 0 <= i < t.len() && #[trigger] t[i].key@ == k;
        lemma_lookup(t, i);
        if i < s.len() {
            assert(s[i].key@ == k);
            lemma_lookup(s, i);
        }
    }
    assert(sessions_map(t) =~= sessions_map(s).insert(session.key@, session.backend));
}

proof fn lemma_update<AI>(
    s: Seq<ConversationSession<AI>>,
    i: int,
    session: ConversationSession<AI>,
)
    requires
        distinct_keys(s),
        0 <= i < s.len(),
        session.key@ == s[i].key@,
    ensures
        distinct_keys(s.update(i, session)),
        sessions_map(s.update(i, session)) == sessions_map(s).insert(s[i].key@, session.backend),
{
    let t = s.update(i, session);
    assert forall|a: int, b: int|
        0 <= a < t.len() && 0 <= b < t.len() && #[trigger] t[a].key@ == #[trigger] t[b].key@ implies a
        == b by {
        assert(t[a].key@ == s[a].key@);
        assert(t[b].key@ == s[b].key@);
    }
    assert forall|k: Seq<char>| has_key(t, k) <==> has_key(s, k) by {
        if has_key(s, k) {
            let a = choose|a: int| 0 <= a < s.len() && #[trigger] s[a].key@ == k;
            assert(t[a].key@ == k);
        }
        if has_key(t, k) {
            let a = choose|a: int| 0 <= a < t.len() && #[trigger] t[a].key@ == k;
            assert(s[a].key@ == k);
        }
    }
    assert(has_key(s, s[i].key@));
    assert forall|k: Seq<char>| has_key(t, k) implies sessions_map(t)[k] == sessions_map(s).insert(
        s[i].key@,
        session.backend,
    )[k] by {
        let a = choose|a: int| 0 <= a < t.len() && #[trigger] t[a].key@ == k;
        lemma_lookup(t, a);
        assert(s[a].key@ == k);
        lemma_lookup(s, a);
    }
    assert(sessions_map(t) =~= sessions_map(s).insert(s[i].key@, session.backend));
}

/// Each channel's place among the sessions is the one the index gives it.
spec fn indexed<AI>(index: Map<Seq<char>, usize>, s: Seq<ConversationSession<AI>>) -> bool {
    &&& forall|k: Seq<char>| #[trigger] index.contains_key(k) <==> has_key(s, k)
    &&& forall|i: int| 0 <= i < s.len() ==> index[#[trigger] s[i].key@] == i
}

/// The dispatcher: one session per channel, built on first use.
pub struct AIDispatcher<AIB: AIBuilder> {
    ai_constructor: AIB,
    /// The sessions, in the order in which they were built.
    sessions: Vec<ConversationSession<AIB::AI>>,
    /// Where among the sessions each channel's is.
    user_map: StringHashMap<usize>,
    context_path: Option<String>,
}

impl<AIB: AIBuilder> View for AIDispatcher<AIB> {
    type V = DispatcherState<AIB>;

    closed spec fn view(&self) -> DispatcherState<AIB> {
        DispatcherState {
            sessions: sessions_map(self.sessions@),
            constructor: self.ai_constructor,
            directory: opt_text(self.context_path),
        }
    }
}

impl<AIB: AIBuilder> AIDispatcher<AIB> {
    /// No channel has two sessions. Every dispatcher that `new` made and
    /// the methods below changed is well formed.
    pub closed spec fn wf(&self) -> bool {
        distinct_keys(self.sessions@) && indexed(self.user_map@, self.sessions@)
    }

    /// A dispatcher without sessions. With a `context_path`, the context of
    /// each channel is kept under that directory.
    pub fn new(ai_constructor: AIB, context_path: Option<String>) -> (d: Self)
        ensures
            d.wf(),
            d@.sessions == Map::<Seq<char>, Option<AIB::AI>>::empty(),
            d@.constructor == ai_constructor,
            d@.directory == opt_text(context_path),
    {
        let d = AIDispatcher {
            ai_constructor,
            sessions: Vec::new(),
            user_map: StringHashMap::new(),
            context_path,
        };
        proof {
            assert(sessions_map(d.sessions@) =~= Map::<Seq<char>, Option<AIB::AI>>::empty());
        }
        d
    }

    /// Where the context of `channel` is kept, if contexts are stored.
    pub fn context_path(&self, channel: &String) -> (r: Option<ContextFile>)
        ensures
            r is Some <==> self@.directory is Some,
            r matches Some(f) ==> Some(f@) == self@.context_file(channel@),
    {
        match &self.context_path {
            Some(directory) => Some(
                ContextFile { directory: directory.clone(), channel: channel.clone() },
            ),
            None => None,
        }
    }

    /// How many channels have a session.
    pub fn session_count(&self) -> (n: usize)
        requires
            self.wf(),
        ensures
            n == self@.sessions.dom().len(),
            self@.sessions.dom().finite(),
    {
        proof {
            lemma_count(self.sessions@);
        }
        self.sessions.len()
    }

    /// Whether the channel has a session.
    pub fn has_session(&self, channel: &String) -> (r: bool)
        requires
            self.wf(),
        ensures
            r == self@.has_session(channel@),
    {
        self.session_index(channel).is_some()
    }

    /// Whether the channel has a session that an exchange in flight holds.
    pub fn is_busy(&self, channel: &String) -> (r: bool)
        requires
            self.wf(),
        ensures
            r == self@.is_busy(channel@),
    {
        match self.session_index(channel) {
            Some(i) => self.sessions[i].backend.is_none(),
            None => false,
        }
    }

    /// The backend of the channel's session, if it has one and no exchange
    /// holds it.
    pub fn backend(&self, channel: &String) -> (r: Option<&AIB::AI>)
        requires
            self.wf(),
        ensures
            r is Some <==> self@.has_session(channel@) && !self@.is_busy(channel@),
            r matches Some(ai) ==> Some(*ai) == self@.sessions[channel@],
    {
        match self.session_index(channel) {
            Some(i) => self.sessions[i].backend.as_ref(),
            None => None,
        }
    }

    /// Where among the sessions the channel's is.
    fn session_index(&self, channel: &String) -> (r: Option<usize>)
        requires
            self.wf(),
        ensures
            r is Some <==> self@.sessions.contains_key(channel@),
            r matches Some(i) ==> i < self.sessions.len() && self.sessions[i as int].key@
                == channel@ && self@.sessions[channel@] == self.sessions[i as int].backend,
            r is None ==> !has_key(self.sessions@, channel@),
    {
        match self.user_map.get(channel.as_str()) {
            Some(i) => {
                proof {
                    let j = choose|j: int|
                        0 <= j < self.sessions.len() && #[trigger] self.sessions[j].key@
                            == channel@;
                    assert(self.user_map@[self.sessions[j].key@] == j);
                    lemma_lookup(self.sessions@, j);
                }
                Some(*i)
            },
            None => {
                proof {
                    lemma_absent(self.sessions@, channel@);
                }
                None
            },
        }
    }

    /// Finds the session of the channel, or builds it: a backend from the
    /// builder, with the channel's stored context restored where contexts are
    /// stored. A context that cannot be read is skipped.
    fn get_channel(&mut self, channel: &String) -> (i: usize)
        requires
            old(self).wf(),
        ensures
            final(self).wf(),
            old(self)@.opens(channel@, final(self)@),
            i < final(self).sessions.len(),
            final(self).sessions[i as int].key@ == channel@,
            final(self)@.sessions.contains_key(channel@),
            final(self)@.sessions[channel@] == final(self).sessions[i as int].backend,
    {
        match self.session_index(channel) {
            Some(i) => {
                assert(self@ == old(self)@);
                i
            },
            None => {
                let mut ai = self.ai_constructor.build();
                let ghost fresh = ai;
                match &self.context_path {
                    Some(directory) => {
                        let file = ContextFile {
                            directory: directory.clone(),
                            channel: channel.clone(),
                        };
                        let _ = ai.load_context(&file);
                    },
                    None => {},
                }
                let session = ConversationSession { key: channel.clone(), backend: Some(ai) };
                proof {
                    lemma_push(self.sessions@, session);
                    lemma_lookup(self.sessions@.push(session), self.sessions@.len() as int);
                }
                self.sessions.push(session);
                self.user_map.insert(channel.clone(), self.sessions.len() - 1);
                proof {
                    let s0 = old(self).sessions@;
                    let s1 = self.sessions@;
                    assert forall|k: Seq<char>| #[trigger]
                        self.user_map@.contains_key(k) <==> has_key(s1, k) by {
                        if has_key(s0, k) {
                            let j = choose|j: int| 0 <= j < s0.len() && #[trigger] s0[j].key@ == k;
                            assert(s1[j].key@ == k);
                        }
                        if k == channel@ {
                            assert(s1[s0.len() as int].key@ == k);
                        }
                        if has_key(s1, k) {
                            let j = choose|j: int| 0 <= j < s1.len() && #[trigger] s1[j].key@ == k;
                            if j < s0.len() {
                                assert(s0[j].key@ == k);
                            }
                        }
                    }
                    assert forall|j: int| 0 <= j < s1.len() implies self.user_map@[#[trigger] s1[j].key@]
                        == j by {
                        if j < s0.len() {
                            assert(s0[j].key@ == s1[j].key@);
                            assert(has_key(s0, s0[j].key@));
                        }
                    }
                }
                proof {
                    assert(old(self)@.restores(channel@, fresh, ai));
                    assert(old(self)@.constructor.builds(&self@.constructor, fresh));
                }
                self.sessions.len() - 1
            },
        }
    }

    /// Puts `backend` into the slot of session `i`.
    fn set_backend(&mut self, i: usize, backend: Option<AIB::AI>) -> (was: Option<AIB::AI>)
        requires
            old(self).wf(),
            i < old(self).sessions.len(),
        ensures
            final(self).wf(),
            was == old(self).sessions[i as int].backend,
            final(self)@ == old(self)@.with_session(old(self).sessions[i as int].key@, backend),
            final(self).sessions.len() == old(self).sessions.len(),
    {
        let ghost before = self.sessions@;
        let slot = &mut self.sessions[i];
        let was = slot.backend.take();
        slot.backend = backend;
        proof {
            let put = self.sessions@[i as int];
            let after = self.sessions@;
            assert(after =~= before.update(i as int, put));
            lemma_update(before, i as int, put);
            assert forall|k: Seq<char>| #[trigger]
                self.user_map@.contains_key(k) <==> has_key(after, k) by {
                if has_key(before, k) {
                    let j = choose|j: int| 0 <= j < before.len() && #[trigger] before[j].key@ == k;
                    assert(after[j].key@ == k);
                }
                if has_key(after, k) {
                    let j = choose|j: int| 0 <= j < after.len() && #[trigger] after[j].key@ == k;
                    assert(before[j].key@ == k);
                }
            }
            assert forall|j: int| 0 <= j < after.len() implies self.user_map@[#[trigger] after[j].key@]
                == j by {
                assert(before[j].key@ == after[j].key@);
            }
        }
        was
    }

    /// The first step of an exchange. See [`DispatcherState::admits`].
    pub fn begin_request<R: AIRequest>(&mut self, request: &R) -> (step: Admission<AIB::AI>)
        requires
            old(self).wf(),
        ensures
            final(self).wf(),
            old(self)@.admits(request.text(), request.channel_key(), final(self)@, step),
    {
        let channel = request.channel();
        let text = request.request();
        let i = self.get_channel(&channel);
        let ghost opened = self@;
        if text.as_str().is_empty() {
            return Admission::Reply(AIResponse::raw(String::new()));
        }
        let was = self.set_backend(i, None);
        match was {
            Some(ai) => Admission::Forward(ai),
            None => {
                assert(self@ == opened) by {
                    assert(self@.sessions =~= opened.sessions);
                }
                Admission::Busy
            },
        }
    }

    /// The context file that an exchange which ended in `outcome` has to be
    /// saved to before its backend goes back: on success, if contexts are
    /// stored.
    pub fn persist_target(&self, channel: &String, outcome: &Result<AIResponse, AIError>) -> (r:
        Option<ContextFile>)
        ensures
            r is Some <==> outcome is Ok && self@.directory is Some,
            r matches Some(f) ==> Some(f@) == self@.context_file(channel@),
    {
        match outcome {
            Ok(_) => self.context_path(channel),
            Err(_) => None,
        }
    }

    /// The last step of an exchange or of a reset: the backend goes back to
    /// the session of `channel`, which is free again.
    /// See [`DispatcherState::releases`].
    pub fn finish_request(&mut self, channel: &String, backend: AIB::AI) -> (handed_back: Option<
        AIB::AI,
    >)
        requires
            old(self).wf(),
        ensures
            final(self).wf(),
            old(self)@.releases(channel@, backend, final(self)@, handed_back),
    {
        match self.session_index(channel) {
            Some(i) => {
                if self.sessions[i].backend.is_none() {
                    let _ = self.set_backend(i, Some(backend));
                    None
                } else {
                    Some(backend)
                }
            },
            None => Some(backend),
        }
    }

    /// The first step of a reset. See [`DispatcherState::admits_reset`].
    pub fn begin_reset(&mut self, channel: &String) -> (step: Result<AIB::AI, AIError>)
        requires
            old(self).wf(),
        ensures
            final(self).wf(),
            old(self)@.admits_reset(channel@, final(self)@, step),
    {
        match self.session_index(channel) {
            Some(i) => {
                let was = self.set_backend(i, None);
                match was {
                    Some(ai) => Ok(ai),
                    None => {
                        assert(self@ == old(self)@) by {
                            assert(self@.sessions =~= old(self)@.sessions);
                        }
                        Err(AIError::Busy)
                    },
                }
            },
            None => Err(AIError::ResetErrorEmpty),
        }
    }

    /// What the caller of a reset is told once the backend returned
    /// `outcome`. See [`DispatcherState::reset_verdict`].
    pub fn settle_reset(&self, channel: &String, outcome: Result<(), AIError>) -> (r: Result<
        Option<ContextFile>,
        AIError,
    >)
        ensures
            same_verdict(r, self@.reset_verdict(channel@, outcome)),
    {
        match outcome {
            Ok(_) => Ok(self.context_path(channel)),
            Err(e) => Err(e),
        }
    }
}

impl<AIB: AIBuilder> Dispatcher for AIDispatcher<AIB> {
    open spec fn valid(&self) -> bool {
        self.wf()
    }

    /// A whole exchange in one call, for a backend that answers on the spot.
    /// See [`DispatcherState::dispatches`].
    fn try_process_request<R: AIRequest>(&mut self, request: R) -> (r: Result<AIResponse, AIError>)
        ensures
            old(self)@.dispatches(
                request.text(),
                request.channel_key(),
                request.language(),
                final(self)@,
                r,
            ),
    {
        let channel = request.channel();
        let step = self.begin_request(&request);
        let ghost before = old(self)@;
        let ghost taken = self@;
        let ghost opened = choose|opened: DispatcherState<AIB>| #[trigger]
            before.opens(channel@, opened) && if request.text().len() == 0 {
                &&& taken == opened
                &&& step matches Admission::Reply(reply)
                &&& reply@ == crate::dispatcher::empty_reply()
            } else if opened.is_busy(channel@) {
                &&& taken == opened
                &&& step is Busy
            } else {
                &&& taken == opened.with_session(channel@, None)
                &&& step == Admission::Forward(opened.sessions[channel@]->Some_0)
            };
        match step {
            Admission::Reply(reply) => Ok(reply),
            Admission::Busy => Err(AIError::Busy),
            Admission::Forward(ai) => {
                let mut ai = ai;
                let ghost held = ai;
                let outcome = ai.process(request);
                let ghost done = ai;
                match self.persist_target(&channel, &outcome) {
                    Some(file) => {
                        let _ = ai.save_context(&file);
                    },
                    None => {},
                }
                let ghost kept = ai;
                let _ = self.finish_request(&channel, ai);
                proof {
                    assert(opened.persists(channel@, outcome, done, kept));
                    assert(taken.is_busy(channel@));
                    assert(self@.sessions =~= opened.with_session(channel@, Some(kept)).sessions);
                    assert(self@ == opened.with_session(channel@, Some(kept)));
                    assert(held.answers(
                        request.text(),
                        channel@,
                        request.language(),
                        &done,
                        outcome,
                    ));
                }
                outcome
            },
        }
    }

    /// A whole reset in one call. See [`DispatcherState::resets`].
    fn reset(&mut self, channel: String) -> (r: Result<Option<ContextFile>, AIError>)
        ensures
            old(self)@.resets(channel@, final(self)@, r),
    {
        match self.begin_reset(&channel) {
            Err(e) => Err(e),
            Ok(ai) => {
                let mut ai = ai;
                let ghost held = ai;
                let ghost taken = self@;
                let outcome = ai.reset();
                let ghost cleared = ai;
                let verdict = self.settle_reset(&channel, outcome);
                let _ = self.finish_request(&channel, ai);
                proof {
                    assert(taken.is_busy(channel@));
                    assert(self@.sessions =~= old(self)@.with_session(
                        channel@,
                        Some(cleared),
                    ).sessions);
                    assert(self@ == old(self)@.with_session(channel@, Some(cleared)));
                    assert(held.resets(&cleared, outcome));
                    assert(same_verdict(verdict, old(self)@.reset_verdict(channel@, outcome)));
                }
                verdict
            },
        }
    }
}

proof fn lemma_count<AI>(s: Seq<ConversationSession<AI>>)
    requires
        distinct_keys(s),
    ensures
        sessions_map(s).dom().finite(),
        sessions_map(s).dom().len() == s.len(),
    decreases s.len(),
{
    if s.len() == 0 {
        assert(sessions_map(s).dom() =~= Set::<Seq<char>>::empty());
    } else {
        let last = s.last();
        let rest = s.drop_last();
        assert forall|i: int, j: int|
            0 <= i < rest.len() && 0 <= j < rest.len() && #[trigger] rest[i].key@
                == #[trigger] rest[j].key@ implies i == j by {
            assert(s[i].key@ == s[j].key@);
        }
        lemma_count(rest);
        if has_key(rest, last.key@) {
            let i = choose|i: int| 0 <= i < rest.len() && #[trigger] rest[i].key@ == last.key@;
            assert(s[i].key@ == s[s.len() - 1].key@);
        }
        lemma_push(rest, last);
        assert(rest.push(last) =~= s);
        assert(sessions_map(s).dom() =~= sessions_map(rest).dom().insert(last.key@));
        assert(!sessions_map(rest).dom().contains(last.key@));
    }
}

} // verus!

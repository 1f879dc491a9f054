//! What holds of every dispatcher, whatever its backends do.

use crate::conversation::Role;
use crate::dispatcher::{
    same_verdict, AIBuilder, AIError, AIResponse, AIResponseType, AIinterface, Admission,
    ContextFile, DispatcherState,
};
use crate::dummy_ai::{DummyAI, DummyAIBuilder};
use vstd::prelude::*;

verus! {

/// Opening the session of one channel leaves every other channel as it was,
/// and never takes a session.
pub proof fn opening_touches_one_channel<AIB: AIBuilder>(
    s0: DispatcherState<AIB>,
    a: Seq<char>,
    s1: DispatcherState<AIB>,
    b: Seq<char>,
)
    requires
        s0.opens(a, s1),
    ensures
        s1.has_session(a),
        s1.is_busy(a) == s0.is_busy(a),
        a != b ==> s1.has_session(b) == s0.has_session(b),
        a != b ==> s1.is_busy(b) == s0.is_busy(b),
        a != b && s0.has_session(b) ==> s1.sessions[b] == s0.sessions[b],
{
}

/// Admission of a request for one channel leaves every other channel as it
/// was.
pub proof fn admission_touches_one_channel<AIB: AIBuilder>(
    s0: DispatcherState<AIB>,
    text: Seq<char>,
    a: Seq<char>,
    s1: DispatcherState<AIB>,
    step: Admission<AIB::AI>,
    b: Seq<char>,
)
    requires
        s0.admits(text, a, s1, step),
        a != b,
    ensures
        s1.has_session(b) == s0.has_session(b),
        s1.is_busy(b) == s0.is_busy(b),
        s0.has_session(b) ==> s1.sessions[b] == s0.sessions[b],
{
    let opened = choose|opened: DispatcherState<AIB>| #[trigger]
        s0.opens(a, opened) && if text.len() == 0 {
            &&& s1 == opened
            &&& step matches Admission::Reply(reply)
            &&& reply@ == crate::dispatcher::empty_reply()
        } else if opened.is_busy(a) {
            &&& s1 == opened
            &&& step is Busy
        } else {
            &&& s1 == opened.with_session(a, None)
            &&& step == Admission::Forward(opened.sessions[a]->Some_0)
        };
    opening_touches_one_channel(s0, a, opened, b);
}

/// A request with text is turned away if and only if the session of its
/// channel is taken; one without text is answered either way.
pub proof fn busy_means_taken<AIB: AIBuilder>(
    s0: DispatcherState<AIB>,
    text: Seq<char>,
    a: Seq<char>,
    s1: DispatcherState<AIB>,
    step: Admission<AIB::AI>,
)
    requires
        s0.admits(text, a, s1, step),
    ensures
        step is Busy <==> text.len() > 0 && s0.is_busy(a),
        step is Reply <==> text.len() == 0,
        step is Forward <==> text.len() > 0 && !s0.is_busy(a),
        step is Forward ==> s1.is_busy(a),
        !(step is Forward) ==> s1.is_busy(a) == s0.is_busy(a),
{
    let opened = choose|opened: DispatcherState<AIB>| #[trigger]
        s0.opens(a, opened) && if text.len() == 0 {
            &&& s1 == opened
            &&& step matches Admission::Reply(reply)
            &&& reply@ == crate::dispatcher::empty_reply()
        } else if opened.is_busy(a) {
            &&& s1 == opened
            &&& step is Busy
        } else {
            &&& s1 == opened.with_session(a, None)
            &&& step == Admission::Forward(opened.sessions[a]->Some_0)
        };
    opening_touches_one_channel(s0, a, opened, a);
}

/// Requests for two different channels do not stand in each other's way:
/// if neither session is taken, both requests are let in, the second while
/// the first is still in flight.
pub proof fn different_channels_do_not_contend<AIB: AIBuilder>(
    s0: DispatcherState<AIB>,
    text_a: Seq<char>,
    a: Seq<char>,
    s1: DispatcherState<AIB>,
    step_a: Admission<AIB::AI>,
    text_b: Seq<char>,
    b: Seq<char>,
    s2: DispatcherState<AIB>,
    step_b: Admission<AIB::AI>,
)
    requires
        a != b,
        !s0.is_busy(a),
        !s0.is_busy(b),
        s0.admits(text_a, a, s1, step_a),
        s1.admits(text_b, b, s2, step_b),
    ensures
        !(step_a is Busy),
        !(step_b is Busy),
        text_a.len() > 0 ==> step_a is Forward && s2.is_busy(a),
        text_b.len() > 0 ==> step_b is Forward && s2.is_busy(b),
{
    busy_means_taken(s0, text_a, a, s1, step_a);
    admission_touches_one_channel(s0, text_a, a, s1, step_a, b);
    busy_means_taken(s1, text_b, b, s2, step_b);
    admission_touches_one_channel(s1, text_b, b, s2, step_b, a);
}

/// Of two requests for one channel, the second is turned away if it arrives
/// while the first is in flight, and the dispatcher stays as it was.
pub proof fn second_request_is_turned_away<AIB: AIBuilder>(
    s0: DispatcherState<AIB>,
    first: Seq<char>,
    a: Seq<char>,
    s1: DispatcherState<AIB>,
    step1: Admission<AIB::AI>,
    second: Seq<char>,
    s2: DispatcherState<AIB>,
    step2: Admission<AIB::AI>,
)
    requires
        step1 is Forward,
        second.len() > 0,
        s0.admits(first, a, s1, step1),
        s1.admits(second, a, s2, step2),
    ensures
        step2 is Busy,
        s2 == s1,
{
    busy_means_taken(s0, first, a, s1, step1);
    busy_means_taken(s1, second, a, s2, step2);
    let opened = choose|opened: DispatcherState<AIB>| #[trigger]
        s1.opens(a, opened) && if second.len() == 0 {
            &&& s2 == opened
            &&& step2 matches Admission::Reply(reply)
            &&& reply@ == crate::dispatcher::empty_reply()
        } else if opened.is_busy(a) {
            &&& s2 == opened
            &&& step2 is Busy
        } else {
            &&& s2 == opened.with_session(a, None)
            &&& step2 == Admission::Forward(opened.sessions[a]->Some_0)
        };
    assert(opened == s1);
}

/// A whole exchange that arrives while another one for its channel is in
/// flight returns `Busy`, and the dispatcher stays as it was.
pub proof fn exchange_in_flight_means_busy<AIB: AIBuilder>(
    s0: DispatcherState<AIB>,
    text: Seq<char>,
    a: Seq<char>,
    lang: Seq<char>,
    s1: DispatcherState<AIB>,
    r: Result<AIResponse, AIError>,
)
    requires
        s0.dispatches(text, a, lang, s1, r),
        text.len() > 0,
    ensures
        s0.is_busy(a) ==> r == Err::<AIResponse, AIError>(AIError::Busy) && s1 == s0,
        !s0.is_busy(a) ==> !(r matches Err(AIError::Busy)),
{
}

/// An exchange gives back the guard it took, however it ends: a session
/// that was free before the exchange is free after it.
pub proof fn exchange_releases_guard<AIB: AIBuilder>(
    s0: DispatcherState<AIB>,
    text: Seq<char>,
    a: Seq<char>,
    lang: Seq<char>,
    s1: DispatcherState<AIB>,
    r: Result<AIResponse, AIError>,
    b: Seq<char>,
)
    requires
        s0.dispatches(text, a, lang, s1, r),
    ensures
        s1.has_session(a),
        s1.is_busy(a) == s0.is_busy(a),
        a != b ==> s1.has_session(b) == s0.has_session(b),
        a != b ==> s1.is_busy(b) == s0.is_busy(b),
{
}

/// A backend that was taken and given back is where it was taken from, and
/// the session is free again.
pub proof fn release_undoes_admission<AIB: AIBuilder>(
    s0: DispatcherState<AIB>,
    text: Seq<char>,
    a: Seq<char>,
    s1: DispatcherState<AIB>,
    step: Admission<AIB::AI>,
    s2: DispatcherState<AIB>,
    handed_back: Option<AIB::AI>,
)
    requires
        s0.admits(text, a, s1, step),
        step is Forward,
        s1.releases(a, step->Forward_0, s2, handed_back),
    ensures
        handed_back is None,
        !s2.is_busy(a),
        s2.sessions[a] == Some(step->Forward_0),
        s0.has_session(a) ==> s2 == s0,
{
    let opened = choose|opened: DispatcherState<AIB>| #[trigger]
        s0.opens(a, opened) && if text.len() == 0 {
            &&& s1 == opened
            &&& step matches Admission::Reply(reply)
            &&& reply@ == crate::dispatcher::empty_reply()
        } else if opened.is_busy(a) {
            &&& s1 == opened
            &&& step is Busy
        } else {
            &&& s1 == opened.with_session(a, None)
            &&& step == Admission::Forward(opened.sessions[a]->Some_0)
        };
    if s0.has_session(a) {
        assert(opened == s0);
        assert(s2.sessions =~= s0.sessions);
    }
}

/// The builder is asked once per channel: a request for a channel that has
/// its session leaves the builder alone.
pub proof fn session_is_built_once<AIB: AIBuilder>(
    s0: DispatcherState<AIB>,
    text: Seq<char>,
    a: Seq<char>,
    s1: DispatcherState<AIB>,
    step: Admission<AIB::AI>,
)
    requires
        s0.admits(text, a, s1, step),
        s0.has_session(a),
    ensures
        s1.constructor == s0.constructor,
        s1.sessions.dom() == s0.sessions.dom(),
{
    let opened = choose|opened: DispatcherState<AIB>| #[trigger]
        s0.opens(a, opened) && if text.len() == 0 {
            &&& s1 == opened
            &&& step matches Admission::Reply(reply)
            &&& reply@ == crate::dispatcher::empty_reply()
        } else if opened.is_busy(a) {
            &&& s1 == opened
            &&& step is Busy
        } else {
            &&& s1 == opened.with_session(a, None)
            &&& step == Admission::Forward(opened.sessions[a]->Some_0)
        };
    assert(opened == s0);
    assert(s1.sessions.dom() =~= s0.sessions.dom());
}

/// A reset of a channel that no request was ever made for has nothing to
/// reset.
pub proof fn reset_without_session<AIB: AIBuilder>(
    s0: DispatcherState<AIB>,
    a: Seq<char>,
    s1: DispatcherState<AIB>,
    r: Result<Option<ContextFile>, AIError>,
)
    requires
        !s0.has_session(a),
        s0.resets(a, s1, r),
    ensures
        r == Err::<Option<ContextFile>, AIError>(AIError::ResetErrorEmpty),
        s1 == s0,
{
}

/// A reset of a channel whose session is taken is turned away.
pub proof fn reset_in_flight_means_busy<AIB: AIBuilder>(
    s0: DispatcherState<AIB>,
    a: Seq<char>,
    s1: DispatcherState<AIB>,
    r: Result<Option<ContextFile>, AIError>,
)
    requires
        s0.resets(a, s1, r),
    ensures
        s0.is_busy(a) <==> r == Err::<Option<ContextFile>, AIError>(AIError::Busy),
        s0.is_busy(a) ==> s1 == s0,
        s1.is_busy(a) == s0.is_busy(a),
{
}

/// After a reset that succeeded, the next request for the channel is
/// answered by the backend as the reset left it: the dispatcher keeps no
/// other copy of the conversation, and the stored context, whose removal the
/// reset asked for, is not read again.
pub proof fn reset_then_dispatch_asks_the_cleared_backend<AIB: AIBuilder>(
    s0: DispatcherState<AIB>,
    a: Seq<char>,
    s1: DispatcherState<AIB>,
    stale: Option<ContextFile>,
    text: Seq<char>,
    lang: Seq<char>,
    s2: DispatcherState<AIB>,
    r: Result<AIResponse, AIError>,
)
    requires
        s0.resets(a, s1, Ok(stale)),
        text.len() > 0,
        s1.dispatches(text, a, lang, s2, r),
    ensures
        s0.has_session(a) && !s0.is_busy(a),
        same_verdict(Ok(stale), Ok(s0.context_file(a))),
        s2.constructor == s0.constructor,
        exists|cleared: AIB::AI, done: AIB::AI|
            {
                &&& #[trigger] (s0.sessions[a]->Some_0).resets(&cleared, Ok(()))
                &&& s1.sessions[a] == Some(cleared)
                &&& #[trigger] cleared.answers(text, a, lang, &done, r)
            },
{
    let (cleared, outcome) = choose|cleared: AIB::AI, outcome: Result<(), AIError>|
        {
            &&& #[trigger] (s0.sessions[a]->Some_0).resets(&cleared, outcome)
            &&& !(outcome matches Err(AIError::Busy))
            &&& s1 == s0.with_session(a, Some(cleared))
            &&& same_verdict(Ok(stale), s0.reset_verdict(a, outcome))
        };
    assert(outcome is Ok);
    assert(outcome->Ok_0 == ());
    assert(outcome =~= Ok::<(), AIError>(()));
    let opened = choose|opened: DispatcherState<AIB>| #[trigger]
        s1.opens(a, opened) && {
            exists|done: AIB::AI, kept: AIB::AI|
                {
                    &&& #[trigger] (opened.sessions[a]->Some_0).answers(text, a, lang, &done, r)
                    &&& #[trigger] opened.persists(a, r, done, kept)
                    &&& s2 == opened.with_session(a, Some(kept))
                    &&& !(r matches Err(AIError::Busy))
                }
        };
    assert(opened == s1);
    let (done, kept) = choose|done: AIB::AI, kept: AIB::AI|
        {
            &&& #[trigger] (opened.sessions[a]->Some_0).answers(text, a, lang, &done, r)
            &&& #[trigger] opened.persists(a, r, done, kept)
            &&& s2 == opened.with_session(a, Some(kept))
            &&& !(r matches Err(AIError::Busy))
        };
    assert(cleared.answers(text, a, lang, &done, r));
}

/// With echo backends, what a request after a reset is answered and what is
/// remembered afterwards holds nothing from before the reset: the answer is
/// the request's own text, and the conversation is the directive and this
/// one exchange.
pub proof fn echo_forgets_after_reset(
    s0: DispatcherState<DummyAIBuilder>,
    a: Seq<char>,
    s1: DispatcherState<DummyAIBuilder>,
    stale: Option<ContextFile>,
    text: Seq<char>,
    lang: Seq<char>,
    s2: DispatcherState<DummyAIBuilder>,
    r: Result<AIResponse, AIError>,
)
    requires
        s0.resets(a, s1, Ok(stale)),
        text.len() > 0,
        s1.dispatches(text, a, lang, s2, r),
    ensures
        r matches Ok(response) && response@ == Map::<AIResponseType, Seq<char>>::empty().insert(
            AIResponseType::RawAnswer,
            text,
        ),
        s2.sessions[a] matches Some(ai) && ai.conversation@ == seq![
            (s0.sessions[a]->Some_0).conversation@[0],
            (Role::User, text),
            (Role::Assistant, text),
        ],
{
    let (cleared, outcome) = choose|cleared: DummyAI, outcome: Result<(), AIError>|
        {
            &&& #[trigger] (s0.sessions[a]->Some_0).resets(&cleared, outcome)
            &&& !(outcome matches Err(AIError::Busy))
            &&& s1 == s0.with_session(a, Some(cleared))
            &&& same_verdict(Ok(stale), s0.reset_verdict(a, outcome))
        };
    let before = s0.sessions[a]->Some_0;
    assert(outcome is Ok);
    assert(cleared.conversation.history@ == before.conversation.history@.take(1));
    assert(cleared.conversation@ =~= seq![before.conversation@[0]]);
    let opened = choose|opened: DispatcherState<DummyAIBuilder>| #[trigger]
        s1.opens(a, opened) && {
            exists|done: DummyAI, kept: DummyAI|
                {
                    &&& #[trigger] (opened.sessions[a]->Some_0).answers(text, a, lang, &done, r)
                    &&& #[trigger] opened.persists(a, r, done, kept)
                    &&& s2 == opened.with_session(a, Some(kept))
                    &&& !(r matches Err(AIError::Busy))
                }
        };
    assert(opened == s1);
    let (done, kept) = choose|done: DummyAI, kept: DummyAI|
        {
            &&& #[trigger] (opened.sessions[a]->Some_0).answers(text, a, lang, &done, r)
            &&& #[trigger] opened.persists(a, r, done, kept)
            &&& s2 == opened.with_session(a, Some(kept))
            &&& !(r matches Err(AIError::Busy))
        };
    assert(kept == done);
    assert(done.conversation@ =~= seq![
        before.conversation@[0],
        (Role::User, text),
        (Role::Assistant, text),
    ]);
}

} // verus!

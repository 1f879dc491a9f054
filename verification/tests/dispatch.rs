use ai_waifu::ai_dispatcher::AIDispatcher;
use ai_waifu::conversation::Role;
use ai_waifu::dispatcher::{
    AIBuilder, AIError, AIRequest, AIResponse, AIResponseType, AIinterface, Admission, ContextFile,
    Dispatcher,
};
use ai_waifu::dummy_ai::{DummyAI, DummyAIBuilder};
use ai_waifu::request::TestRequest;

fn req(channel: &str, text: &str) -> TestRequest {
    TestRequest { request: text.to_string(), channel: channel.to_string() }
}

fn key(channel: &str) -> String {
    channel.to_string()
}

/// A backend of the test's own: counts its calls, records what it is asked
/// to save and load, and fails on demand.
#[derive(Debug)]
struct Counting {
    calls: u32,
    saved: Vec<ContextFile>,
    loaded: Vec<ContextFile>,
    fail: bool,
}

impl AIinterface for Counting {
    fn process<R: AIRequest>(&mut self, request: R) -> Result<AIResponse, AIError> {
        self.calls += 1;
        if self.fail {
            Err(AIError::AnswerError(request.request()))
        } else {
            Ok(AIResponse::raw(format!("{}:{}", request.channel(), request.request())))
        }
    }

    fn reset(&mut self) -> Result<(), AIError> {
        if self.calls == 0 {
            Err(AIError::ResetErrorEmpty)
        } else {
            self.calls = 0;
            Ok(())
        }
    }

    fn save_context(&mut self, file: &ContextFile) -> Result<(), AIError> {
        self.saved.push(file.clone());
        Err(AIError::ContextError)
    }

    fn load_context(&mut self, file: &ContextFile) -> Result<(), AIError> {
        self.loaded.push(file.clone());
        Err(AIError::ContextError)
    }
}

struct CountingBuilder {
    built: u32,
    fail: bool,
}

impl AIBuilder for CountingBuilder {
    type AI = Counting;

    fn build(&mut self) -> Counting {
        self.built += 1;
        Counting { calls: 0, saved: Vec::new(), loaded: Vec::new(), fail: self.fail }
    }
}

#[test]
fn echo_answers_with_the_request() {
    let mut d = AIDispatcher::new(DummyAIBuilder, None);
    let r = d.try_process_request(req("c1", "hello")).unwrap();
    assert_eq!(r.get(AIResponseType::RawAnswer), Some(&"hello".to_string()));
    assert_eq!(r.get(AIResponseType::Translated), None);
    assert_eq!(r.len(), 1);
    assert!(d.has_session(&key("c1")));
    assert!(!d.is_busy(&key("c1")));
    assert_eq!(d.session_count(), 1);
}

#[test]
fn empty_text_is_answered_without_the_backend() {
    let mut d = AIDispatcher::new(CountingBuilder { built: 0, fail: true }, None);
    let r = d.try_process_request(req("c1", "")).unwrap();
    assert_eq!(r, AIResponse::raw(String::new()));
    assert_eq!(d.backend(&key("c1")).unwrap().calls, 0);
}

#[test]
fn empty_text_is_answered_while_the_session_is_taken() {
    let mut d = AIDispatcher::new(DummyAIBuilder, None);
    let first = d.begin_request(&req("c1", "hello"));
    assert!(matches!(first, Admission::Forward(_)));
    let r = d.try_process_request(req("c1", ""));
    assert_eq!(r, Ok(AIResponse::raw(String::new())));
    assert!(d.is_busy(&key("c1")));
}

#[test]
fn second_request_in_flight_is_busy() {
    let mut d = AIDispatcher::new(DummyAIBuilder, None);
    let first = d.begin_request(&req("c1", "hello"));
    let ai = match first {
        Admission::Forward(ai) => ai,
        other => panic!("not let in: {:?}", other),
    };
    assert!(d.is_busy(&key("c1")));
    assert_eq!(d.try_process_request(req("c1", "again")), Err(AIError::Busy));
    assert!(matches!(d.begin_request(&req("c1", "again")), Admission::Busy));
    assert_eq!(d.reset(key("c1")), Err(AIError::Busy));
    // the first exchange ends: the session is free again
    assert_eq!(d.finish_request(&key("c1"), ai), None);
    assert!(!d.is_busy(&key("c1")));
    let r = d.try_process_request(req("c1", "again")).unwrap();
    assert_eq!(r.raw_answer, Some("again".to_string()));
}

#[test]
fn different_channels_do_not_wait_for_each_other() {
    let mut d = AIDispatcher::new(DummyAIBuilder, None);
    let a = d.begin_request(&req("a", "one"));
    assert!(matches!(a, Admission::Forward(_)));
    // b is served while a is in flight
    let r = d.try_process_request(req("b", "two")).unwrap();
    assert_eq!(r.raw_answer, Some("two".to_string()));
    let b = d.begin_request(&req("b", "three"));
    assert!(matches!(b, Admission::Forward(_)));
    assert!(d.is_busy(&key("a")));
    assert!(d.is_busy(&key("b")));
    assert_eq!(d.session_count(), 2);
}

#[test]
fn reset_without_session_is_an_error() {
    let mut d = AIDispatcher::new(DummyAIBuilder, Some("ctx".to_string()));
    assert_eq!(d.reset(key("c1")), Err(AIError::ResetErrorEmpty));
    assert!(!d.has_session(&key("c1")));
    assert_eq!(d.session_count(), 0);
    assert_eq!(d.begin_reset(&key("c1")).unwrap_err(), AIError::ResetErrorEmpty);
}

#[test]
fn reset_without_exchange_is_an_error() {
    let mut d = AIDispatcher::new(DummyAIBuilder, None);
    let _ = d.try_process_request(req("c1", "")).unwrap();
    assert!(d.has_session(&key("c1")));
    assert_eq!(d.reset(key("c1")), Err(AIError::ResetErrorEmpty));
    assert!(!d.is_busy(&key("c1")));
}

#[test]
fn reset_then_dispatch_starts_from_the_directive() {
    let mut d = AIDispatcher::new(DummyAIBuilder, None);
    let _ = d.try_process_request(req("c1", "hello")).unwrap();
    let _ = d.try_process_request(req("c1", "more")).unwrap();
    assert_eq!(d.backend(&key("c1")).unwrap().conversation.history.len(), 5);
    assert_eq!(d.reset(key("c1")), Ok(None));
    {
        let ai = d.backend(&key("c1")).unwrap();
        assert_eq!(ai.conversation.history.len(), 1);
        assert_eq!(ai.conversation.history[0].role, Role::System);
    }
    let r = d.try_process_request(req("c1", "fresh")).unwrap();
    assert_eq!(r.raw_answer, Some("fresh".to_string()));
    let ai = d.backend(&key("c1")).unwrap();
    let said: Vec<&str> = ai.conversation.history.iter().map(|m| m.content.as_str()).collect();
    assert_eq!(said, vec!["", "fresh", "fresh"]);
}

#[test]
fn reset_names_the_stale_context() {
    let mut d = AIDispatcher::new(CountingBuilder { built: 0, fail: false }, Some("ctx".to_string()));
    let _ = d.try_process_request(req("c1", "hello")).unwrap();
    let stale = d.reset(key("c1")).unwrap();
    assert_eq!(
        stale,
        Some(ContextFile { directory: "ctx".to_string(), channel: "c1".to_string() })
    );
    assert_eq!(d.backend(&key("c1")).unwrap().calls, 0);
}

#[test]
fn backend_errors_pass_through_and_leave_the_session_usable() {
    let mut d = AIDispatcher::new(CountingBuilder { built: 0, fail: true }, Some("ctx".to_string()));
    let r = d.try_process_request(req("c1", "hello"));
    assert_eq!(r, Err(AIError::AnswerError("hello".to_string())));
    {
        let ai = d.backend(&key("c1")).unwrap();
        assert_eq!(ai.calls, 1);
        // nothing is saved after a failure
        assert!(ai.saved.is_empty());
    }
    let r = d.try_process_request(req("c1", "again"));
    assert_eq!(r, Err(AIError::AnswerError("again".to_string())));
    assert_eq!(d.backend(&key("c1")).unwrap().calls, 2);
}

#[test]
fn context_is_loaded_once_and_saved_after_each_success() {
    let mut d = AIDispatcher::new(CountingBuilder { built: 0, fail: false }, Some("ctx".to_string()));
    let file = ContextFile { directory: "ctx".to_string(), channel: "c1".to_string() };
    // saving fails in this backend: the exchange succeeds all the same
    let r = d.try_process_request(req("c1", "hello")).unwrap();
    assert_eq!(r.raw_answer, Some("c1:hello".to_string()));
    let _ = d.try_process_request(req("c1", "more")).unwrap();
    let ai = d.backend(&key("c1")).unwrap();
    assert_eq!(ai.loaded, vec![file.clone()]);
    assert_eq!(ai.saved, vec![file.clone(), file.clone()]);
    assert_eq!(d.context_path(&key("c1")), Some(file));
}

#[test]
fn without_context_directory_nothing_is_loaded_or_saved() {
    let mut d = AIDispatcher::new(CountingBuilder { built: 0, fail: false }, None);
    let _ = d.try_process_request(req("c1", "hello")).unwrap();
    let ai = d.backend(&key("c1")).unwrap();
    assert!(ai.loaded.is_empty());
    assert!(ai.saved.is_empty());
    assert_eq!(d.context_path(&key("c1")), None);
    assert_eq!(d.persist_target(&key("c1"), &Ok(AIResponse::new())), None);
}

#[test]
fn persist_target_is_set_on_success_only() {
    let d = AIDispatcher::new(DummyAIBuilder, Some("ctx".to_string()));
    let file = ContextFile { directory: "ctx".to_string(), channel: "c1".to_string() };
    assert_eq!(d.persist_target(&key("c1"), &Ok(AIResponse::new())), Some(file.clone()));
    assert_eq!(d.persist_target(&key("c1"), &Err(AIError::NetworkError)), None);
    assert_eq!(d.settle_reset(&key("c1"), Ok(())), Ok(Some(file)));
    assert_eq!(d.settle_reset(&key("c1"), Err(AIError::ResetErrorEmpty)), Err(AIError::ResetErrorEmpty));
}

#[test]
fn finish_without_a_taken_session_hands_the_backend_back() {
    let mut d = AIDispatcher::new(DummyAIBuilder, None);
    let stray = DummyAI::new();
    assert_eq!(d.finish_request(&key("nowhere"), stray.clone()), Some(stray.clone()));
    let _ = d.try_process_request(req("c1", "hello")).unwrap();
    assert_eq!(d.finish_request(&key("c1"), stray.clone()), Some(stray));
    assert_eq!(d.backend(&key("c1")).unwrap().conversation.history.len(), 3);
}

#[test]
fn session_is_built_once_per_channel() {
    let mut d = AIDispatcher::new(CountingBuilder { built: 0, fail: false }, None);
    let _ = d.try_process_request(req("a", "1")).unwrap();
    let _ = d.try_process_request(req("a", "2")).unwrap();
    let _ = d.try_process_request(req("b", "3")).unwrap();
    let _ = d.try_process_request(req("a", "")).unwrap();
    assert_eq!(d.session_count(), 2);
    assert_eq!(d.backend(&key("a")).unwrap().calls, 2);
    assert_eq!(d.backend(&key("b")).unwrap().calls, 1);
}

#[test]
fn response_holds_what_was_put_in() {
    let mut r = AIResponse::new();
    assert_eq!(r.len(), 0);
    r.insert(AIResponseType::RawAnswer, "a".to_string());
    r.insert(AIResponseType::Translated, "b".to_string());
    r.insert(AIResponseType::RawAnswer, "c".to_string());
    assert_eq!(r.len(), 2);
    assert_eq!(r.get(AIResponseType::RawAnswer), Some(&"c".to_string()));
    assert_eq!(r.get(AIResponseType::NoDigits), None);
    assert_eq!(r.get(AIResponseType::Translated), Some(&"b".to_string()));
}

#[test]
fn one_channel_from_first_request_to_reset() {
    let mut d = AIDispatcher::new(DummyAIBuilder, None);
    // the echo answers with the request
    let r = d.try_process_request(req("c1", "hello")).unwrap();
    assert!(r.get(AIResponseType::RawAnswer).unwrap().contains("hello"));
    // a request without text is answered with nothing, and the backend is not asked
    let before = d.backend(&key("c1")).unwrap().clone();
    let r = d.try_process_request(req("c1", "")).unwrap();
    assert_eq!(r.get(AIResponseType::RawAnswer), Some(&String::new()));
    assert_eq!(r.len(), 1);
    assert_eq!(d.backend(&key("c1")).unwrap(), &before);
    // while an exchange is pending, the next one is turned away
    let pending = match d.begin_request(&req("c1", "slow")) {
        Admission::Forward(ai) => ai,
        other => panic!("not let in: {:?}", other),
    };
    assert_eq!(d.try_process_request(req("c1", "hasty")), Err(AIError::Busy));
    assert_eq!(d.finish_request(&key("c1"), pending), None);
    // after a reset the conversation is the directive alone
    assert_eq!(d.reset(key("c1")), Ok(None));
    assert_eq!(d.backend(&key("c1")).unwrap(), &DummyAI::new());
    let r = d.try_process_request(req("c1", "again")).unwrap();
    assert_eq!(r.raw_answer, Some("again".to_string()));
    let history = &d.backend(&key("c1")).unwrap().conversation.history;
    assert_eq!(history.len(), 3);
    assert!(history.iter().all(|m| !m.content.contains("hello")));
}

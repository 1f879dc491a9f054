use ai_waifu::busy::{busy_message, message_at};
use ai_waifu::channel_filter::{extract_name, name_has_part, Channel, ChannelWhitelist};
use ai_waifu::decimal::{decimal, push_decimal, push_signed};
use ai_waifu::dispatcher::AIRequest;
use ai_waifu::request::{
    channel_name, DiscordAIRequest, InteractiveRequest, TestRequest, TranslatedAIRequest,
    TwitchRequest,
};
use ai_waifu::text::{
    chars_of, contains, is_whitespace, same_chars, split_whitespace, trim_bounds,
};
use ai_waifu::twitch::{chat_request, contains_repititions};

fn chars(s: &str) -> Vec<char> {
    s.chars().collect()
}

#[test]
fn decimal_digits() {
    assert_eq!(decimal(0), "0");
    assert_eq!(decimal(7), "7");
    assert_eq!(decimal(10), "10");
    assert_eq!(decimal(8961), "8961");
    assert_eq!(decimal(u64::MAX), "18446744073709551615");
    let mut s = "port ".to_string();
    push_decimal(&mut s, 3154);
    assert_eq!(s, "port 3154");
}

#[test]
fn signed_digits() {
    let mut s = String::new();
    push_signed(&mut s, -32600);
    s.push(' ');
    push_signed(&mut s, 0);
    s.push(' ');
    push_signed(&mut s, i64::MIN);
    s.push(' ');
    push_signed(&mut s, i64::MAX);
    assert_eq!(s, "-32600 0 -9223372036854775808 9223372036854775807");
}

#[test]
fn requests_name_their_channels() {
    let t = TestRequest { request: "hi".to_string(), channel: "Master".to_string() };
    assert_eq!((t.request(), t.channel(), t.lang()), ("hi".into(), "Master".into(), "auto".into()));
    let i = InteractiveRequest { request: "hi".to_string(), lang: "ru".to_string() };
    assert_eq!((i.request(), i.channel(), i.lang()), ("hi".into(), "interactive".into(), "ru".into()));
    let w = TwitchRequest { request: "hi there".to_string(), username: "viewer".to_string() };
    assert_eq!((w.request(), w.channel(), w.lang()), ("hi there".into(), "viewer".into(), "auto".into()));
    assert_eq!(w.describe(), "viewer: hi there");
    let d = DiscordAIRequest { request: "hi".to_string(), channel_id: 1234567890123 };
    assert_eq!((d.request(), d.channel(), d.lang()), ("hi".into(), "#1234567890123".into(), "auto".into()));
    assert_eq!(d.describe(), "#1234567890123: hi");
    assert_eq!(channel_name(0), "#0");
    assert_eq!(ai_waifu::request::auto(), "auto");
}

#[test]
fn translated_request_keeps_channel_and_language() {
    let asked = InteractiveRequest { request: "Привет".to_string(), lang: "ru".to_string() };
    let t = TranslatedAIRequest::new(asked, "Hello".to_string());
    assert_eq!(t.request(), "Hello");
    assert_eq!(t.channel(), "interactive");
    assert_eq!(t.lang(), "ru");
}

#[test]
fn characters_and_words() {
    assert_eq!(chars_of("aб€"), vec!['a', 'б', '€']);
    assert!(chars_of("").is_empty());
    assert!(is_whitespace(' ') && is_whitespace('\t') && is_whitespace('\n'));
    assert!(is_whitespace('\u{a0}') && is_whitespace('\u{3000}') && is_whitespace('\u{2003}'));
    assert!(!is_whitespace('a') && !is_whitespace('\u{200b}') && !is_whitespace('_'));
    let ws = split_whitespace(&chars("  one\ttwo \n three  "));
    assert_eq!(ws, vec![chars("one"), chars("two"), chars("three")]);
    assert!(split_whitespace(&chars(" \t ")).is_empty());
    assert!(split_whitespace(&chars("")).is_empty());
    assert_eq!(split_whitespace(&chars("x")), vec![chars("x")]);
    assert!(same_chars(&chars("abc"), &chars("abc")));
    assert!(!same_chars(&chars("abc"), &chars("abd")));
    assert!(!same_chars(&chars("abc"), &chars("ab")));
}

#[test]
fn every_char_is_white_space_as_std_says() {
    for n in 0..=0x10ffffu32 {
        if let Some(c) = char::from_u32(n) {
            assert_eq!(is_whitespace(c), c.is_whitespace(), "U+{:04X}", n);
        }
    }
}

#[test]
fn parts_of_a_text() {
    assert!(contains(&chars("see http://x"), &chars("http")));
    assert!(contains(&chars("http"), &chars("http")));
    assert!(!contains(&chars("htt"), &chars("http")));
    assert!(!contains(&chars("h t t p"), &chars("http")));
    assert!(contains(&chars("abc"), &chars("")));
    assert!(contains(&chars(""), &chars("")));
    assert!(contains(&chars("aab"), &chars("ab")));
    assert!(name_has_part("ai-waifu-chat", "waifu"));
    assert!(!name_has_part("general", "waifu"));
}

#[test]
fn trimming() {
    assert_eq!(trim_bounds(&chars("  ab c \n")), (2, 6));
    assert_eq!(trim_bounds(&chars("abc")), (0, 3));
    assert_eq!(trim_bounds(&chars("   ")), (3, 3));
    assert_eq!(trim_bounds(&chars("")), (0, 0));
}

#[test]
fn repetitions() {
    // six words, two of them different: four repeats
    assert!(contains_repititions("ha ha ha ha ho ho"));
    // one word only, however often
    assert!(!contains_repititions("ha ha ha ha ha"));
    // five words, three different: two repeats are let pass
    assert!(!contains_repititions("a b c a b"));
    // six words, three different: three repeats
    assert!(contains_repititions("a b c a b c"));
    assert!(!contains_repititions("all words are different here"));
    assert!(!contains_repititions(""));
}

#[test]
fn chat_lines_worth_an_answer() {
    let r = chat_request("  how are you today  ", "viewer".to_string()).unwrap();
    assert_eq!(r.request, "how are you today");
    assert_eq!(r.username, "viewer");
    assert!(chat_request("hello @bot how are you", "v".to_string()).is_none());
    assert!(chat_request("look at http://spam", "v".to_string()).is_none());
    assert!(chat_request("wow so cool!", "v".to_string()).is_none());
    assert!(chat_request("a b", "v".to_string()).is_none());
    assert!(chat_request("oneword", "v".to_string()).is_none());
    assert!(chat_request("a b c a b c", "v".to_string()).is_none());
    // five bytes in three characters
    assert!(chat_request("я я", "v".to_string()).is_some());
    assert!(chat_request("a bcd", "v".to_string()).is_some());
    assert!(chat_request("a bc", "v".to_string()).is_none());
}

#[test]
fn whitelist_of_channel_names() {
    let w = ChannelWhitelist::new(&vec!["^ai-.*$".to_string(), "bot".to_string()]).unwrap();
    assert!(w.is_channel_allowed("ai-waifu"));
    assert!(w.is_channel_allowed("the-bot-room"));
    assert!(!w.is_channel_allowed("general"));
    let none = ChannelWhitelist::new(&Vec::new()).unwrap();
    assert!(!none.is_channel_allowed("general"));
    assert!(!none.is_channel_allowed(""));
    assert!(ChannelWhitelist::new(&vec!["(".to_string()]).is_none());
    assert_eq!(extract_name(&Channel::Guild("general".to_string())), "general");
    assert_eq!(extract_name(&Channel::Category("Talk".to_string())), "Talk");
    assert_eq!(extract_name(&Channel::Private("Ann".to_string())), "Ann's private channel");
}

#[test]
fn busy_messages_are_drawn_from_the_list() {
    assert_eq!(busy_message(&Vec::new()), None);
    let one = vec!["wait".to_string()];
    assert_eq!(busy_message(&one), Some("wait".to_string()));
    let some = vec!["a".to_string(), "b".to_string(), "c".to_string()];
    let mut seen = std::collections::HashSet::new();
    for _ in 0..200 {
        let m = busy_message(&some).unwrap();
        assert!(some.contains(&m));
        seen.insert(m);
    }
    assert!(seen.len() > 1);
    assert_eq!(message_at(&some, 2), Some("c".to_string()));
    assert_eq!(message_at(&some, 3), None);
}

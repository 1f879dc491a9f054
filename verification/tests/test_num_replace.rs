use ai_waifu::num2words::{convert_numbers2words, number_in_words, number_phrase, weave};

/// A number as it stands in a text, in words: rounded to a whole number,
/// with `about` where rounding changed it.
fn spell(number_src: String) -> String {
    let number = match number_src.parse::<f32>() {
        Ok(v) => v,
        Err(_) => return number_src,
    };
    let r_number = number.round();
    number_in_words(r_number as i64, number != r_number, number.to_string())
}

#[test]
fn test_num_replace() {
    let text = convert_numbers2words("I have 42 apples".to_string(), spell);
    assert_eq!(text, "I have forty-two apples");
}

#[test]
fn test_num_replace_precision() {
    let text = convert_numbers2words("I have 42.53 apples".to_string(), spell);
    assert_eq!(text, "I have about forty-three apples");
}

#[test]
fn test_num_replace_multy() {
    let text =
        convert_numbers2words("I have 42.43 apples and 1.5 bananas".to_string(), spell);
    assert_eq!(text, "I have about forty-two apples and about two bananas");
}

#[test]
fn single_digits_are_no_numbers() {
    let text = convert_numbers2words("1 and 2 and 3.".to_string(), spell);
    assert_eq!(text, "1 and 2 and 3.");
}

#[test]
fn text_without_numbers_stays() {
    assert_eq!(convert_numbers2words(String::new(), spell), "");
    assert_eq!(convert_numbers2words("no numbers".to_string(), spell), "no numbers");
}

#[test]
fn numbers_at_the_ends_and_side_by_side() {
    let text = convert_numbers2words("10 20,30".to_string(), spell);
    assert_eq!(text, "ten twenty,thirty");
}

#[test]
fn number_with_two_dots_stays_as_written() {
    let text = convert_numbers2words("x 1..5 y".to_string(), spell);
    assert_eq!(text, "x 1..5 y");
}

#[test]
fn positions_are_counted_in_characters() {
    let text = convert_numbers2words("Мама мыла 12 рам, a 34".to_string(), spell);
    assert_eq!(text, "Мама мыла twelve рам, a thirty-four");
}

#[test]
fn every_number_is_handed_to_the_speller_once() {
    let seen = std::cell::RefCell::new(Vec::new());
    let text = convert_numbers2words("a 11 b 2.5 c 7 d 100".to_string(), |n: String| {
        seen.borrow_mut().push(n.clone());
        format!("<{}>", n)
    });
    assert_eq!(text, "a <11> b <2.5> c 7 d <100>");
    assert_eq!(*seen.borrow(), vec!["11".to_string(), "2.5".to_string(), "100".to_string()]);
}

#[test]
fn words_of_whole_numbers() {
    assert_eq!(number_in_words(0, false, "0".to_string()), "zero");
    assert_eq!(number_in_words(42, false, "42".to_string()), "forty-two");
    assert_eq!(number_in_words(43, true, "42.53".to_string()), "about forty-three");
    assert_eq!(number_in_words(-7, false, "-7".to_string()), "minus seven");
    assert_eq!(
        number_in_words(1_000_001, false, "1000001".to_string()),
        "one million and one"
    );
}

#[test]
fn phrases_of_numbers() {
    assert_eq!(number_phrase(Some("two".to_string()), true, "1.5".to_string()), "about two");
    assert_eq!(number_phrase(Some("two".to_string()), false, "2".to_string()), "two");
    assert_eq!(number_phrase(None, true, "1e99".to_string()), "1e99");
}

#[test]
fn words_woven_into_stretches() {
    let v = |items: &[&str]| items.iter().map(|s| s.to_string()).collect::<Vec<_>>();
    assert_eq!(weave(&v(&["a ", " b ", ""]), &v(&["one", "two"])), Some("a one b two".to_string()));
    assert_eq!(weave(&v(&["alone"]), &v(&[])), Some("alone".to_string()));
    assert_eq!(weave(&v(&["", ""]), &v(&["x"])), Some("x".to_string()));
    assert_eq!(weave(&v(&[]), &v(&[])), None);
    assert_eq!(weave(&v(&["a", "b"]), &v(&[])), None);
    assert_eq!(weave(&v(&["a"]), &v(&["x"])), None);
}

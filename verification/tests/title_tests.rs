use muednote::ident::id_text;
use muednote::title::{derive_title, head, TITLE_CHARS};

fn repeated(unit: &str, times: usize) -> String {
    let mut out = String::new();
    let mut i: usize = 0;
    while i < times {
        out.push_str(unit);
        i += 1;
    }
    out
}

#[test]
fn title_of_short_text_is_the_text() {
    assert_eq!(derive_title("hello world"), "hello world");
}

#[test]
fn title_of_empty_text_is_empty() {
    assert_eq!(derive_title(""), "");
}

#[test]
fn title_of_fifty_characters_has_no_marker() {
    let text = repeated("b", 50);
    assert_eq!(derive_title(&text), text);
}

#[test]
fn title_of_fifty_one_characters_is_cut() {
    let text = repeated("b", 51);
    assert_eq!(derive_title(&text), format!("{}...", repeated("b", 50)));
}

#[test]
fn title_of_fifty_five_characters_is_cut_to_fifty_and_marker() {
    let text = repeated("a", 55);
    let title = derive_title(&text);
    assert_eq!(title, format!("{}...", repeated("a", 50)));
    assert_eq!(title.chars().count(), 53);
}

#[test]
fn title_counts_characters_not_bytes() {
    let text = repeated("あ", 60);
    assert_eq!(text.len(), 180);
    let title = derive_title(&text);
    assert_eq!(title, format!("{}...", repeated("あ", 50)));
    assert_eq!(title.chars().count(), 53);
    assert_eq!(title.len(), 153);
}

#[test]
fn title_of_short_multibyte_text_is_the_text() {
    let text = repeated("é", 50);
    assert_eq!(derive_title(&text), text);
}

#[test]
fn title_of_mixed_width_text_keeps_whole_characters() {
    let text = format!("{}{}", repeated("a", 49), repeated("日", 5));
    let title = derive_title(&text);
    assert_eq!(title, format!("{}日...", repeated("a", 49)));
}

#[test]
fn title_of_text_that_ends_in_dots_is_unchanged_when_short() {
    assert_eq!(derive_title("wait..."), "wait...");
}

#[test]
fn title_limit_is_fifty() {
    assert_eq!(TITLE_CHARS, 50);
}

#[test]
fn head_takes_the_first_characters() {
    assert_eq!(head("hello world", 5), "hello");
    assert_eq!(head("hello", 5), "hello");
    assert_eq!(head("hello", 9), "hello");
    assert_eq!(head("hello", 0), "");
    assert_eq!(head("日本語のテキスト", 3), "日本語");
}

#[test]
fn identifiers_are_decimal_numerals() {
    assert_eq!(id_text(0), "0");
    assert_eq!(id_text(7), "7");
    assert_eq!(id_text(9), "9");
    assert_eq!(id_text(10), "10");
    assert_eq!(id_text(109), "109");
    assert_eq!(id_text(1234567890), "1234567890");
    assert_eq!(id_text(u64::MAX), "18446744073709551615");
}

#[test]
fn identifiers_of_different_ticks_differ() {
    let mut n: u64 = 0;
    while n < 200 {
        assert_ne!(id_text(n), id_text(n + 1));
        assert_eq!(id_text(n), n.to_string());
        n += 1;
    }
}

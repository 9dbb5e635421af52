use gitlink::text::{
    chars_of, find_chars, pad_chars, parse_i32, to_lowercase, to_uppercase, trim, words_chars,
};
use gitlink::tui::suggest::levenshtein;

fn cs(s: &str) -> Vec<char> {
    s.chars().collect()
}

#[test]
fn parse_i32_like_str_parse() {
    assert_eq!(parse_i32(&cs("42")), Some(42));
    assert_eq!(parse_i32(&cs("-7")), Some(-7));
    assert_eq!(parse_i32(&cs("+3")), Some(3));
    assert_eq!(parse_i32(&cs("007")), Some(7));
    assert_eq!(parse_i32(&cs("")), None);
    assert_eq!(parse_i32(&cs("-")), None);
    assert_eq!(parse_i32(&cs("12a")), None);
    assert_eq!(parse_i32(&cs(" 1")), None);
    assert_eq!(parse_i32(&cs("2147483647")), Some(i32::MAX));
    assert_eq!(parse_i32(&cs("2147483648")), None);
    assert_eq!(parse_i32(&cs("-2147483648")), Some(i32::MIN));
    assert_eq!(parse_i32(&cs("-2147483649")), None);
    assert_eq!(parse_i32(&cs("99999999999999999999")), None);
}

#[test]
fn words_like_split_whitespace() {
    let w = words_chars(&cs("  a bc\td \n"));
    let got: Vec<String> = w.iter().map(|x| x.iter().collect()).collect();
    assert_eq!(got, vec!["a", "bc", "d"]);
    assert!(words_chars(&cs("   ")).is_empty());
}

#[test]
fn find_and_pad() {
    assert_eq!(find_chars(&cs("a — b — c"), &cs(" — ")), Some(1));
    assert_eq!(find_chars(&cs("abc"), &cs("x")), None);
    assert_eq!(find_chars(&cs("abc"), &cs("")), Some(0));
    let p: String = pad_chars(&cs("ab"), 5).into_iter().collect();
    assert_eq!(p, "ab   ");
    let q: String = pad_chars(&cs("abcdef"), 3).into_iter().collect();
    assert_eq!(q, "abcdef");
}

#[test]
fn case_and_trim() {
    assert_eq!(to_lowercase("HeLLo"), "hello");
    assert_eq!(to_uppercase("abc"), "ABC");
    assert_eq!(trim("  x y \t"), "x y");
    assert_eq!(chars_of("héllo").len(), 5);
}

#[test]
fn levenshtein_distances() {
    assert_eq!(levenshtein("kitten", "sitting"), 3);
    assert_eq!(levenshtein("", "abc"), 3);
    assert_eq!(levenshtein("commits", "commits"), 0);
    assert_eq!(levenshtein("comits", "commits"), levenshtein("commits", "comits"));
}

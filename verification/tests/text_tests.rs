use oauth_server::text::{
    chars_of, replace_chars, split_chars, split_whitespace, string_from_chars, white_space,
};

fn chars(s: &str) -> Vec<char> {
    s.chars().collect()
}

fn texts(v: &Vec<Vec<char>>) -> Vec<String> {
    v.iter().map(|w| w.iter().collect()).collect()
}

#[test]
fn white_space_agrees_with_std_on_every_char() {
    for n in 0u32..=0x10FFFF {
        if let Some(c) = char::from_u32(n) {
            assert_eq!(white_space(c), c.is_whitespace(), "char {:#x}", n);
        }
    }
}

#[test]
fn chars_of_and_back() {
    let v = chars_of("héllo wörld");
    assert_eq!(v, chars("héllo wörld"));
    assert_eq!(string_from_chars(&v), "héllo wörld");
    assert_eq!(chars_of(""), Vec::<char>::new());
}

#[test]
fn split_whitespace_finds_words() {
    let w = split_whitespace(&chars("  read  write\tadmin\n"));
    assert_eq!(texts(&w), vec!["read", "write", "admin"]);
    assert!(split_whitespace(&chars("")).is_empty());
    assert!(split_whitespace(&chars(" \t\u{3000}\n")).is_empty());
    let w = split_whitespace(&chars("a\u{a0}b"));
    assert_eq!(texts(&w), vec!["a", "b"]);
}

#[test]
fn split_whitespace_agrees_with_std() {
    for s in ["", "x", " x ", "a  b c", "\u{2028}q\u{85}r", "one\u{200b}two"] {
        let ours = texts(&split_whitespace(&chars(s)));
        let std: Vec<String> = s.split_whitespace().map(|w| w.to_string()).collect();
        assert_eq!(ours, std, "{:?}", s);
    }
}

#[test]
fn replace_chars_replaces_from_the_left() {
    let none: Vec<char> = Vec::new();
    let r = replace_chars(&chars("scope_readscope_write"), &chars("scope_"), &none);
    assert_eq!(r, chars("readwrite"));
    let r = replace_chars(&chars("aaa"), &chars("aa"), &chars("b"));
    assert_eq!(r, chars("ba"));
    let r = replace_chars(&chars("no match"), &chars("xyz"), &chars("b"));
    assert_eq!(r, chars("no match"));
    for (s, p, w) in [("basic basic x", "basic ", ""), ("aXbXc", "X", "--"), ("", "a", "b")] {
        let ours: String = replace_chars(&chars(s), &chars(p), &chars(w)).iter().collect();
        assert_eq!(ours, s.replace(p, w));
    }
}

#[test]
fn split_chars_cuts_at_each_separator() {
    assert_eq!(texts(&split_chars(&chars("a::b"), ':')), vec!["a", "", "b"]);
    assert_eq!(texts(&split_chars(&chars(""), ':')), vec![""]);
    assert_eq!(texts(&split_chars(&chars("id:secret"), ':')), vec!["id", "secret"]);
    for s in [":", "a:", ":b", "x:y:z"] {
        let ours = texts(&split_chars(&chars(s), ':'));
        let std: Vec<String> = s.split(':').map(|w| w.to_string()).collect();
        assert_eq!(ours, std);
    }
}

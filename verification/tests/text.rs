use parknotes::text::{decimal_text, is_whitespace_char, name_listed, same_text, trim};

#[test]
fn trim_cuts_whitespace_at_both_ends() {
    assert_eq!(trim("  a b  "), "a b");
    assert_eq!(trim("\n\tword\r\n"), "word");
    assert_eq!(trim("word"), "word");
    assert_eq!(trim("x "), "x");
    assert_eq!(trim(" x"), "x");
}

#[test]
fn trim_leaves_nothing_of_blank_text() {
    assert_eq!(trim(""), "");
    assert_eq!(trim(" "), "");
    assert_eq!(trim(" \t\n\u{3000}"), "");
}

#[test]
fn trim_counts_characters_not_bytes() {
    assert_eq!(trim("\u{2003}é ü\u{a0}"), "é ü");
    assert_eq!(trim("ü"), "ü");
}

#[test]
fn trim_agrees_with_the_standard_library() {
    for text in [
        "", " ", "a", " a", "a ", " a b ", "\u{85}x\u{85}", "\u{1680}y", "z\u{2028}\u{2029}",
        "\u{200b}q\u{200b}", "\u{202f}\u{205f}w", "\u{feff}v",
    ] {
        assert_eq!(trim(text), text.trim());
    }
}

#[test]
fn whitespace_is_what_the_standard_library_calls_whitespace() {
    for code in 0u32..0x3100 {
        if let Some(c) = char::from_u32(code) {
            assert_eq!(is_whitespace_char(c), c.is_whitespace());
        }
    }
}

#[test]
fn same_text_compares_all_characters() {
    assert!(same_text("", ""));
    assert!(same_text("abc", "abc"));
    assert!(!same_text("abc", "abd"));
    assert!(!same_text("abc", "ab"));
    assert!(!same_text("é", "e"));
}

#[test]
fn numbers_are_written_in_decimal() {
    assert_eq!(decimal_text(0), "0");
    assert_eq!(decimal_text(7), "7");
    assert_eq!(decimal_text(10), "10");
    assert_eq!(decimal_text(909), "909");
    assert_eq!(decimal_text(1234567890), "1234567890");
    for n in 0..2000usize {
        assert_eq!(decimal_text(n), n.to_string());
    }
}

#[test]
fn name_listed_looks_for_the_whole_name() {
    let names = vec![String::from("bin"), String::from(".git")];
    assert!(name_listed(&names, &String::from("bin")));
    assert!(name_listed(&names, &String::from(".git")));
    assert!(!name_listed(&names, &String::from("bi")));
    assert!(!name_listed(&names, &String::from("bins")));
    assert!(!name_listed(&vec![], &String::from("bin")));
}

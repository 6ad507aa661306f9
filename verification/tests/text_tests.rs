use whistle::text::{str_eq, str_lt};

#[test]
fn lexicographic_order_on_ascii() {
    assert!(str_lt("100", "120"));
    assert!(!str_lt("120", "100"));
    assert!(!str_lt("100", "100"));
    assert!(str_lt("", "a"));
    assert!(!str_lt("a", ""));
    assert!(!str_lt("", ""));
    assert!(str_lt("abc", "abd"));
    assert!(str_lt("ab", "abc"));
    assert!(!str_lt("9", "10"));
}

#[test]
fn order_agrees_with_rust_on_multibyte_text() {
    let samples = ["", "a", "z", "é", "あ", "aé", "a\u{10FFFF}", "\u{0}b"];
    for a in samples {
        for b in samples {
            assert_eq!(str_lt(a, b), a < b, "order of {a:?} and {b:?}");
            assert_eq!(str_eq(a, b), a == b, "equality of {a:?} and {b:?}");
        }
    }
}

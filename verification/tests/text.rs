use adaptive_reasoner::text::{char_is_white_space, concat3, trim};

#[test]
fn trim_removes_white_space_at_both_ends() {
    assert_eq!(trim("  Let me think...\n"), "Let me think...");
    assert_eq!(trim("a b"), "a b");
    assert_eq!(trim(" \t a  b \r\n "), "a  b");
    assert_eq!(trim(""), "");
    assert_eq!(trim(" \n\t "), "");
    assert_eq!(trim("x"), "x");
}

#[test]
fn trim_agrees_with_the_standard_library_on_every_white_space_character() {
    let mut n: u32 = 0;
    while n <= 0x3100 {
        if let Some(c) = char::from_u32(n) {
            assert_eq!(char_is_white_space(c), c.is_whitespace(), "U+{:04X}", n);
            let s = format!("{}a{}b{}", c, c, c);
            assert_eq!(trim(&s), s.trim(), "U+{:04X}", n);
        }
        n += 1;
    }
}

#[test]
fn trim_keeps_characters_of_several_bytes() {
    assert_eq!(trim("\u{2003}\u{00e9}t\u{00e9}\u{3000}"), "\u{00e9}t\u{00e9}");
}

#[test]
fn concat3_joins_in_order() {
    assert_eq!(concat3("<think>", "x", "</think>"), "<think>x</think>");
    assert_eq!(concat3("", "", ""), "");
}

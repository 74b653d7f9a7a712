use regex::Regex;
use warp_sqlite_mcp::ident::is_valid_ident;

#[test]
fn leading_digit_is_rejected() {
    assert!(!is_valid_ident("1abc"));
}

#[test]
fn underscore_then_letters_and_digit_is_accepted() {
    assert!(is_valid_ident("_abc9"));
}

#[test]
fn empty_name_is_rejected() {
    assert!(!is_valid_ident(""));
}

#[test]
fn single_characters() {
    assert!(is_valid_ident("a"));
    assert!(is_valid_ident("Z"));
    assert!(is_valid_ident("_"));
    assert!(!is_valid_ident("0"));
    assert!(!is_valid_ident("-"));
    assert!(!is_valid_ident(" "));
}

#[test]
fn boundaries_of_the_character_classes() {
    for c in ['@', '[', '`', '{', '/', ':'] {
        let head = format!("{}a", c);
        let tail = format!("a{}", c);
        assert!(!is_valid_ident(&head));
        assert!(!is_valid_ident(&tail));
    }
    for c in ['A', 'Z', 'a', 'z', '_'] {
        let head = format!("{}a", c);
        assert!(is_valid_ident(&head));
    }
    for c in ['0', '9'] {
        let tail = format!("a{}", c);
        assert!(is_valid_ident(&tail));
    }
}

#[test]
fn embedded_special_characters_are_rejected() {
    assert!(!is_valid_ident("a b"));
    assert!(!is_valid_ident("a;b"));
    assert!(!is_valid_ident("users; DROP TABLE users"));
    assert!(!is_valid_ident("a\"b"));
    assert!(!is_valid_ident("a'b"));
    assert!(!is_valid_ident("a.b"));
    assert!(!is_valid_ident("a-b"));
    assert!(!is_valid_ident("a\0"));
}

#[test]
fn trailing_newline_is_rejected() {
    assert!(!is_valid_ident("abc\n"));
    assert!(!is_valid_ident("\nabc"));
}

#[test]
fn non_ascii_letters_are_rejected() {
    assert!(!is_valid_ident("caf\u{e9}"));
    assert!(!is_valid_ident("\u{e9}cole"));
    assert!(!is_valid_ident("a\u{1F600}"));
    assert!(!is_valid_ident("\u{ff21}bc"));
}

#[test]
fn agrees_with_the_pattern_on_generated_strings() {
    let re = Regex::new(r"^[A-Za-z_][A-Za-z0-9_]*$").unwrap();
    let alphabet = ['a', 'Z', '_', '0', '9', ' ', '-', ';', '\n', '\u{e9}', '$', '^'];
    let mut state: u64 = 0x9e37_79b9_7f4a_7c15;
    for _ in 0..4000 {
        let mut s = String::new();
        state = state.wrapping_mul(6364136223846793005).wrapping_add(1442695040888963407);
        let len = (state >> 60) as usize % 6;
        for _ in 0..len {
            state = state.wrapping_mul(6364136223846793005).wrapping_add(1442695040888963407);
            s.push(alphabet[(state >> 33) as usize % alphabet.len()]);
        }
        assert_eq!(is_valid_ident(&s), re.is_match(&s), "on {:?}", s);
    }
}

#[test]
fn agrees_with_the_pattern_on_every_short_ascii_string() {
    let re = Regex::new(r"^[A-Za-z_][A-Za-z0-9_]*$").unwrap();
    for a in 0u8..128 {
        let one = (a as char).to_string();
        assert_eq!(is_valid_ident(&one), re.is_match(&one));
        for b in 0u8..128 {
            let mut two = one.clone();
            two.push(b as char);
            assert_eq!(is_valid_ident(&two), re.is_match(&two));
        }
    }
}

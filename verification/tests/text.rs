use bot_fleet::text::{
    find, has, matches_at, name, name_char, same, scan, scan_back, to_chars, trimmed, whitespace,
    CharClass,
};

fn chars(s: &str) -> Vec<char> {
    s.chars().collect()
}

#[test]
fn to_chars_keeps_every_character() {
    assert_eq!(to_chars("a\u{e9}\u{1f600}"), vec!['a', '\u{e9}', '\u{1f600}']);
    assert_eq!(to_chars(""), Vec::<char>::new());
}

#[test]
fn name_characters() {
    for c in ['a', 'z', 'A', 'Z', '0', '9', '_'] {
        assert!(name_char(c));
    }
    for c in ['-', ' ', '[', '`', '{', '@', '/', ':', '\u{e9}'] {
        assert!(!name_char(c));
    }
}

#[test]
fn white_space_agrees_with_unicode() {
    for code in 0u32..0x3100 {
        let c = char::from_u32(code).unwrap();
        assert_eq!(whitespace(c), c.is_whitespace(), "U+{:04X}", code);
    }
}

#[test]
fn names_have_two_to_sixteen_characters() {
    assert!(!name(&chars("")));
    assert!(!name(&chars("a")));
    assert!(name(&chars("ab")));
    assert!(name(&chars("abcdefghijklmnop")));
    assert!(!name(&chars("abcdefghijklmnopq")));
    assert!(!name(&chars("ab cd")));
}

#[test]
fn scan_finds_the_end_of_a_run() {
    let s = chars("abc  def");
    assert_eq!(scan(&s, 0, CharClass::Name), 3);
    assert_eq!(scan(&s, 3, CharClass::Space), 5);
    assert_eq!(scan(&s, 5, CharClass::Word), 8);
    assert_eq!(scan(&s, 3, CharClass::Name), 3);
    assert_eq!(scan(&s, 8, CharClass::Name), 8);
    assert_eq!(scan(&chars("a,b"), 0, CharClass::Entry), 1);
}

#[test]
fn scan_back_stops_at_the_bound() {
    let s = chars("ab   ");
    assert_eq!(scan_back(&s, 0, 5), 2);
    assert_eq!(scan_back(&s, 3, 5), 3);
    assert_eq!(scan_back(&chars("   "), 0, 3), 0);
    assert_eq!(scan_back(&chars("abc"), 0, 3), 3);
}

#[test]
fn trimmed_drops_outer_white_space_only() {
    assert_eq!(trimmed("  a  b \t"), "a  b");
    assert_eq!(trimmed("\u{a0}x\u{2003}"), "x");
    assert_eq!(trimmed("   "), "");
    assert_eq!(trimmed(""), "");
    assert_eq!(trimmed("abc"), "abc");
    for s in ["", " ", " a", "a ", " \u{e9} b \n", "\u{3000}\u{3000}", "x\u{85}"] {
        assert_eq!(trimmed(s), s.trim());
    }
}

#[test]
fn find_gives_the_first_occurrence() {
    assert_eq!(find(&chars("abcabc"), &chars("bc")), Some(1));
    assert_eq!(find(&chars("abcabc"), &chars("abc")), Some(0));
    assert_eq!(find(&chars("abcabc"), &chars("cab")), Some(2));
    assert_eq!(find(&chars("abcabc"), &chars("abcabc")), Some(0));
    assert_eq!(find(&chars("abcabc"), &chars("abcabcd")), None);
    assert_eq!(find(&chars("abcabc"), &chars("x")), None);
    assert_eq!(find(&chars("abc"), &chars("")), Some(0));
    assert_eq!(find(&chars(""), &chars("")), Some(0));
    assert_eq!(find(&chars(""), &chars("a")), None);
    assert_eq!(find(&chars("aab"), &chars("ab")), Some(1));
}

#[test]
fn has_agrees_with_contains() {
    for (hay, needle) in [("hello", "ll"), ("hello", "lo"), ("hello", "ol"), ("", ""), ("a", "")] {
        assert_eq!(has(&chars(hay), &chars(needle)), hay.contains(needle));
    }
}

#[test]
fn matches_at_checks_one_place() {
    let s = chars("hello");
    assert!(matches_at(&s, &chars("ell"), 1));
    assert!(!matches_at(&s, &chars("ell"), 0));
    assert!(!matches_at(&s, &chars("lo"), 4));
    assert!(matches_at(&s, &chars("lo"), 3));
    assert!(matches_at(&s, &chars(""), 5));
    assert!(!matches_at(&s, &chars(""), 6));
    assert!(!matches_at(&s, &chars("x"), usize::MAX));
}

#[test]
fn same_compares_characters() {
    assert!(same("abc", "abc"));
    assert!(same("", ""));
    assert!(!same("abc", "abd"));
    assert!(!same("abc", "ab"));
    assert!(!same("ab", "abc"));
}

use ota_flasher::text::{
    chars_of, contains, is_whitespace, same, split, starts_with, trim, trim_end_char, word,
};

#[test]
fn white_space_is_what_std_takes_for_it() {
    let mut n: u32 = 0;
    while n <= 0x10ffff {
        if let Some(c) = char::from_u32(n) {
            assert_eq!(is_whitespace(c), c.is_whitespace(), "{:x}", n);
        }
        n += 1;
    }
}

#[test]
fn trim_works() {
    assert_eq!(trim(" \u{3000}a b\t"), "a b");
    assert_eq!(trim(""), "");
    assert_eq!(trim(" \n "), "");
    assert_eq!(trim("é"), "é");
    assert_eq!(trim(&trim("  x ")), "x");
}

#[test]
fn split_works_as_in_std() {
    for s in ["", "a", "a/b", "/a//b/", "///", "ä/ö/ü", "no separator"] {
        let expected: Vec<String> = s.split('/').map(|p| p.to_string()).collect();
        assert_eq!(split(s, '/'), expected);
    }
}

#[test]
fn contains_works_as_in_std() {
    for hay in ["", "a", "abc", "aab", "Überlänge", "error: x"] {
        for needle in ["", "a", "ab", "b", "länge", "error:", "longer than any of them"] {
            assert_eq!(contains(hay, needle), hay.contains(needle), "{} in {}", needle, hay);
            assert_eq!(starts_with(hay, needle), hay.starts_with(needle));
            assert_eq!(same(hay, needle), hay == needle);
        }
    }
}

#[test]
fn words_are_split_at_white_space() {
    for s in ["", "  ", "a", " a b", "1.0.1\tx", "\u{2003}é é"] {
        assert_eq!(word(s), s.split_whitespace().next().map(|w| w.to_string()));
    }
}

#[test]
fn trailing_characters_are_removed() {
    assert_eq!(trim_end_char("http://vps/firmware//", '/'), "http://vps/firmware");
    assert_eq!(trim_end_char("///", '/'), "");
    assert_eq!(trim_end_char("a/b", '/'), "a/b");
    assert_eq!(chars_of("aé"), vec!['a', 'é']);
}

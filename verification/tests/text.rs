use goose_plugins::text::{char_is_white_space, split_segments, str_is_blank};

#[test]
fn white_space_agrees_with_the_standard_library_on_every_char() {
    let mut code: u32 = 0;
    while code <= 0x10FFFF {
        if let Some(c) = char::from_u32(code) {
            assert_eq!(char_is_white_space(c), c.is_whitespace(), "U+{:04X}", code);
        }
        code += 1;
    }
}

#[test]
fn blank_texts() {
    assert!(str_is_blank(""));
    assert!(str_is_blank(" "));
    assert!(str_is_blank(" \t\r\n"));
    assert!(str_is_blank("\u{3000}\u{2003}"));
    assert!(!str_is_blank("a"));
    assert!(!str_is_blank("  a  "));
    assert!(!str_is_blank("\u{200B}"));
}

#[test]
fn blank_agrees_with_trim() {
    let samples = ["", " ", "x", " x", "x ", "\t\n", " \u{A0} ", "\u{FEFF}", "org/name", "é", " é "];
    for sample in samples {
        assert_eq!(str_is_blank(sample), sample.trim().is_empty(), "{:?}", sample);
    }
}

#[test]
fn segments_of_a_plain_identifier() {
    assert_eq!(split_segments("org/name", '/'), vec!["org".to_string(), "name".to_string()]);
}

#[test]
fn segments_skip_empty_parts() {
    assert_eq!(split_segments("", '/'), Vec::<String>::new());
    assert_eq!(split_segments("/", '/'), Vec::<String>::new());
    assert_eq!(split_segments("///", '/'), Vec::<String>::new());
    assert_eq!(split_segments("/org//name/", '/'), vec!["org".to_string(), "name".to_string()]);
    assert_eq!(split_segments("single", '/'), vec!["single".to_string()]);
}

#[test]
fn segments_keep_multibyte_characters_whole() {
    assert_eq!(
        split_segments("mod\u{e8}le/\u{65e5}\u{672c}/x", '/'),
        vec!["mod\u{e8}le".to_string(), "\u{65e5}\u{672c}".to_string(), "x".to_string()]
    );
}

#[test]
fn segments_agree_with_split_and_filter() {
    let samples = ["a/b/c", "//a", "a//", "a/b//c/", "", "/", "no-slash", " / ", "a/ /b"];
    for sample in samples {
        let expected: Vec<String> =
            sample.split('/').filter(|part| !part.is_empty()).map(|part| part.to_string()).collect();
        assert_eq!(split_segments(sample, '/'), expected, "{:?}", sample);
    }
}

use catalog_backend::cookie::{char_is_whitespace, extract_token, find_cookie};

#[test]
fn token_is_found_between_other_pairs() {
    assert_eq!(extract_token("a=1; token=abc123; b=2"), Some("abc123"));
}

#[test]
fn header_without_token_gives_none() {
    assert_eq!(extract_token("a=1"), None);
}

#[test]
fn empty_header_gives_none() {
    assert_eq!(extract_token(""), None);
    assert_eq!(extract_token(";"), None);
    assert_eq!(extract_token("   "), None);
}

#[test]
fn token_alone_is_found() {
    assert_eq!(extract_token("token=abc123"), Some("abc123"));
}

#[test]
fn first_token_wins() {
    assert_eq!(extract_token("token=first; token=second"), Some("first"));
}

#[test]
fn value_ends_at_the_semicolon() {
    assert_eq!(extract_token("token=abc;def"), Some("abc"));
    assert_eq!(extract_token("token=abc;"), Some("abc"));
}

#[test]
fn value_may_be_empty() {
    assert_eq!(extract_token("token="), Some(""));
    assert_eq!(extract_token("a=1;token=;b=2"), Some(""));
}

#[test]
fn value_keeps_what_follows_the_first_equals_sign() {
    assert_eq!(extract_token("token=a=b=c"), Some("a=b=c"));
    assert_eq!(extract_token("token==="), Some("=="));
}

#[test]
fn surrounding_whitespace_is_trimmed() {
    assert_eq!(extract_token("  token=abc  "), Some("abc"));
    assert_eq!(extract_token("a=1;\ttoken=abc\r\n;b=2"), Some("abc"));
    assert_eq!(extract_token("a=1;\u{00A0}\u{3000}token=abc\u{2003}"), Some("abc"));
}

#[test]
fn whitespace_inside_the_value_is_kept() {
    assert_eq!(extract_token("token=a b  c"), Some("a b  c"));
    assert_eq!(extract_token("token= abc"), Some(" abc"));
}

#[test]
fn name_must_match_exactly_at_the_start_of_the_pair() {
    assert_eq!(extract_token("xtoken=abc"), None);
    assert_eq!(extract_token("mytoken=abc; b=2"), None);
    assert_eq!(extract_token("token =abc"), None);
    assert_eq!(extract_token("Token=abc"), None);
    assert_eq!(extract_token("TOKEN=abc"), None);
    assert_eq!(extract_token("token"), None);
    assert_eq!(extract_token("toke=n"), None);
    assert_eq!(extract_token("a=token=abc"), None);
}

#[test]
fn a_pair_that_only_mentions_the_name_is_passed_over() {
    assert_eq!(extract_token("a=token=abc; token=real"), Some("real"));
    assert_eq!(extract_token("xtoken=abc;token=real"), Some("real"));
}

#[test]
fn value_outside_ascii_is_returned_whole() {
    assert_eq!(extract_token("a=é; token=né\u{1F600}x ; b=2"), Some("né\u{1F600}x"));
}

#[test]
fn any_named_pair_can_be_found() {
    assert_eq!(find_cookie("a=1; token=abc123; b=2", "b="), Some("2"));
    assert_eq!(find_cookie("a=1; token=abc123; b=2", "a="), Some("1"));
    assert_eq!(find_cookie("a=1; token=abc123; b=2", "c="), None);
    assert_eq!(find_cookie("a=1; token=abc123; b=2", ""), Some("a=1"));
}

#[test]
fn extraction_agrees_with_split_trim_strip() {
    let headers = [
        "a=1; token=abc123; b=2",
        "a=1",
        "",
        ";;;",
        " ; token=x ;",
        "token=;token=y",
        "\u{2028}token=z\u{0085}",
        "tok;en=1;token=2",
        "token=a;b",
    ];
    for header in headers {
        let expected = header.split(';').find_map(|pair| pair.trim().strip_prefix("token="));
        assert_eq!(extract_token(header), expected);
    }
}

#[test]
fn whitespace_is_what_the_standard_library_says() {
    let mut code: u32 = 0;
    while code <= 0x10FFFF {
        if let Some(c) = char::from_u32(code) {
            assert_eq!(char_is_whitespace(c), c.is_whitespace());
        }
        code += 1;
    }
}

#[test]
fn the_usual_blanks_are_whitespace_and_letters_are_not() {
    for c in [' ', '\t', '\n', '\r', '\u{000B}', '\u{000C}', '\u{00A0}', '\u{3000}'] {
        assert!(char_is_whitespace(c));
    }
    for c in ['a', ';', '=', '0', '\u{200B}', '\u{001F}', '\u{000E}'] {
        assert!(!char_is_whitespace(c));
    }
}

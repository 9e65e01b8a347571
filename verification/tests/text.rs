use interface_monitor::text::{
    chars_of, is_whitespace, label, last_token_range, ordinal, parse_number, push_decimal,
};

#[test]
fn ordinal_is_last_token() {
    assert_eq!(ordinal("server 3"), Some(3));
    assert_eq!(ordinal("server 12"), Some(12));
    assert_eq!(ordinal("a b c 40"), Some(40));
    assert_eq!(ordinal("7"), Some(7));
    assert_eq!(ordinal("server 0"), Some(0));
}

#[test]
fn ordinal_ignores_surrounding_space() {
    assert_eq!(ordinal("server 3   "), Some(3));
    assert_eq!(ordinal("  server\t3\n"), Some(3));
    assert_eq!(ordinal("server\u{a0}5"), Some(5));
    assert_eq!(ordinal("server\u{3000}6\u{2003}"), Some(6));
}

#[test]
fn ordinal_needs_a_number() {
    assert_eq!(ordinal(""), None);
    assert_eq!(ordinal("   "), None);
    assert_eq!(ordinal("server"), None);
    assert_eq!(ordinal("publisher abc"), None);
    assert_eq!(ordinal("server3"), None);
    assert_eq!(ordinal("server 3a"), None);
    assert_eq!(ordinal("server -3"), None);
    assert_eq!(ordinal("server 3.0"), None);
    assert_eq!(ordinal("server 0x10"), None);
    assert_eq!(ordinal("server +"), None);
    assert_eq!(ordinal("server \u{663}"), None);
}

#[test]
fn ordinal_takes_plus_and_leading_zeros() {
    assert_eq!(ordinal("server +3"), Some(3));
    assert_eq!(ordinal("server 007"), Some(7));
    assert_eq!(ordinal("server +0"), Some(0));
    assert_eq!(ordinal("server ++3"), None);
}

#[test]
fn ordinal_must_fit_usize() {
    let most = format!("server {}", usize::MAX);
    assert_eq!(ordinal(&most), Some(usize::MAX));
    let more = format!("server {}0", usize::MAX);
    assert_eq!(ordinal(&more), None);
    assert_eq!(ordinal("server 340282366920938463463374607431768211456"), None);
}

#[test]
fn ordinal_agrees_with_std() {
    let names = [
        "server 3", "server 03", " 5 ", "x +9", "x -9", "x 1e3", "x 1_000", "", " ", "12 monkeys",
        "a\u{2028}44", "a\u{200b}44", "a\u{85}8", "a\u{1680}9", "a\u{180e}9", "18446744073709551615",
        "18446744073709551616",
    ];
    for name in names {
        let expected = name.split_whitespace().last().and_then(|n| n.parse::<usize>().ok());
        assert_eq!(ordinal(name), expected, "{:?}", name);
    }
}

#[test]
fn whitespace_agrees_with_std() {
    let mut code: u32 = 0;
    while code <= 0x10FFFF {
        if let Some(c) = char::from_u32(code) {
            assert_eq!(is_whitespace(c), c.is_whitespace(), "U+{:04X}", code);
        }
        code += 1;
    }
}

#[test]
fn chars_of_keeps_every_character() {
    assert_eq!(chars_of("a\u{e9}\u{6f22}"), vec!['a', '\u{e9}', '\u{6f22}']);
    assert_eq!(chars_of(""), Vec::<char>::new());
}

#[test]
fn last_token_range_finds_the_token() {
    let chars = chars_of("ab  cde  ");
    assert_eq!(last_token_range(&chars), (4, 7));
    let chars = chars_of("cde");
    assert_eq!(last_token_range(&chars), (0, 3));
    let chars = chars_of("   ");
    let (start, end) = last_token_range(&chars);
    assert_eq!(start, end);
    let chars = chars_of("");
    assert_eq!(last_token_range(&chars), (0, 0));
}

#[test]
fn parse_number_reads_a_range() {
    let chars = chars_of("ab 120 x");
    assert_eq!(parse_number(&chars, 3, 6), Some(120));
    assert_eq!(parse_number(&chars, 3, 5), Some(12));
    assert_eq!(parse_number(&chars, 3, 3), None);
    assert_eq!(parse_number(&chars, 2, 6), None);
    assert_eq!(parse_number(&chars, 0, 2), None);
}

#[test]
fn label_is_title_space_ordinal() {
    assert_eq!(label("Server", 1), "Server 1");
    assert_eq!(label("Publisher", 10), "Publisher 10");
    assert_eq!(label("Subscriber", 205), "Subscriber 205");
    assert_eq!(label("", 0), " 0");
    assert_eq!(label("Server", usize::MAX), format!("Server {}", usize::MAX));
}

#[test]
fn push_decimal_appends_digits() {
    let mut text = String::from("n=");
    push_decimal(&mut text, 0);
    assert_eq!(text, "n=0");
    push_decimal(&mut text, 9071);
    assert_eq!(text, "n=09071");
}

#[test]
fn label_reads_back_as_its_ordinal() {
    for k in [0usize, 1, 9, 10, 99, 100, 12345, usize::MAX] {
        assert_eq!(ordinal(&label("Server", k)), Some(k));
    }
}

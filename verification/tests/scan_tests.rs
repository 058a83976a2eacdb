use ultra_fast_file_search::scan::{find_value_before, find_word_after, parse_u64, trim, whitespace};

#[test]
fn white_space_is_what_unicode_says() {
    for code in 0..=0x11_0000u32 {
        if let Some(c) = char::from_u32(code) {
            assert_eq!(whitespace(c), c.is_whitespace(), "{:x}", code);
        }
    }
}

#[test]
fn trimming_agrees_with_the_standard_library() {
    let samples = [
        "",
        " ",
        "a",
        " a",
        "a ",
        "  a b  ",
        "\t\r\n x \u{a0}\u{2003}",
        "\u{3000}\u{3000}",
        "\u{200b}zero width\u{200b}",
        "no space",
        "\n\n512\n",
        "\u{85}next line\u{2028}",
    ];
    for sample in samples {
        assert_eq!(trim(sample), sample.trim(), "{:?}", sample);
    }
}

#[test]
fn numbers_are_parsed_as_the_standard_library_parses_them() {
    let samples = [
        "",
        "+",
        "-",
        "0",
        "+0",
        "-0",
        "00",
        "1",
        "+1",
        "++1",
        "1+",
        "12a",
        "a12",
        " 1",
        "1 ",
        "1_000",
        "0x10",
        "18446744073709551615",
        "18446744073709551616",
        "+18446744073709551615",
        "99999999999999999999999999",
        "000000000000000000000000000001",
        "\u{661}",
        "1.0",
    ];
    for sample in samples {
        assert_eq!(parse_u64(sample), sample.parse::<u64>().ok(), "{:?}", sample);
    }
    assert_eq!(parse_u64("4096"), Some(4096));
    assert_eq!(parse_u64("18446744073709551616"), None);
}

#[test]
fn a_value_ends_at_the_stop_or_at_the_next_marker() {
    assert_eq!(find_value_before("key=[a] key=[b]", "key=[", ']'), Some("a".to_string()));
    assert_eq!(find_value_before("key=[akey=[b]", "key=[", ']'), Some("a".to_string()));
    assert_eq!(find_value_before("key=[a", "key=[", ']'), Some("a".to_string()));
    assert_eq!(find_value_before("key=[", "key=[", ']'), Some(String::new()));
    assert_eq!(find_value_before("key=", "key=[", ']'), None);
    assert_eq!(find_value_before("", "key=[", ']'), None);
    assert_eq!(find_value_before("abc", "", 'c'), Some(String::new()));
}

#[test]
fn values_agree_with_splitting() {
    let texts = ["", "a", "aa", "aaa", "aXb", "XaXbX", "aaXaaYaa", "YXY", "aaaa;aa", "a;aa;aaa"];
    let markers = ["a", "aa", "X", "aX", ";"];
    for text in texts {
        for marker in markers {
            let by_value = text.split(marker).nth(1).map(|rest| rest.split('Y').next().unwrap_or("").to_string());
            assert_eq!(find_value_before(text, marker, 'Y'), by_value, "{:?} {:?}", text, marker);
            let by_word = text.split(marker).nth(1).map(|rest| rest.split_whitespace().next().unwrap_or("").to_string());
            assert_eq!(find_word_after(text, marker), by_word, "{:?} {:?}", text, marker);
        }
    }
}

#[test]
fn a_word_is_found_behind_white_space() {
    assert_eq!(find_word_after("Name:    value rest", "Name:"), Some("value".to_string()));
    assert_eq!(find_word_after("Name:value", "Name:"), Some("value".to_string()));
    assert_eq!(find_word_after("Name: \n\t value\n", "Name:"), Some("value".to_string()));
    assert_eq!(find_word_after("Name:   ", "Name:"), Some(String::new()));
    assert_eq!(find_word_after("Name: a Name: b", "Name:"), Some("a".to_string()));
    assert_eq!(find_word_after("Name: Name: b", "Name:"), Some(String::new()));
    assert_eq!(find_word_after("nothing here", "Name:"), None);
}

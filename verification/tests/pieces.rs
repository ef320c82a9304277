use rs_libinjection::fingerprint::{decode_fingerprint, sqli_scratch_size, FINGERPRINT_SLOT};
use rs_libinjection::query::{sqli_outcome, xss_outcome};
use rs_libinjection::text::{chars_of, is_white_space, string_of, trim};
use rs_libinjection::QueryError;

#[test]
fn fingerprint_ends_at_the_first_zero() {
    assert_eq!(decode_fingerprint(b"s&sos\0\0\0\0"), "s&sos");
    assert_eq!(decode_fingerprint(b"sc\0os\0xyz"), "sc");
    assert_eq!(decode_fingerprint(b"\0&sos\0\0\0\0"), "");
    assert_eq!(decode_fingerprint(b""), "");
}

#[test]
fn fingerprint_without_a_zero_fills_the_slot() {
    assert_eq!(decode_fingerprint(b"123456789"), "123456789");
    assert_eq!(decode_fingerprint(b"12345678\0"), "12345678");
}

#[test]
fn fingerprint_bytes_are_character_codes() {
    assert_eq!(decode_fingerprint(&[0x41, 0x7f, 0x80, 0xe9, 0xff, 0x00]), "A\u{7f}\u{80}é\u{ff}");
}

#[test]
fn scratch_region_is_the_text_and_the_slot() {
    assert_eq!(FINGERPRINT_SLOT, 9);
    assert_eq!(sqli_scratch_size(0), Some(9));
    assert_eq!(sqli_scratch_size(17), Some(26));
    assert_eq!(sqli_scratch_size(4294967286), Some(4294967295));
    assert_eq!(sqli_scratch_size(4294967287), None);
    assert_eq!(sqli_scratch_size(usize::MAX), None);
}

#[test]
fn sqli_outcome_by_cases() {
    let slot = b"s&sos\0\0\0\0".to_vec();
    assert_eq!(sqli_outcome(1, Some(slot.clone()), true), Ok((true, "s&sos".to_string())));
    assert_eq!(sqli_outcome(7, Some(slot.clone()), true), Ok((true, "s&sos".to_string())));
    assert_eq!(sqli_outcome(0, Some(slot.clone()), true), Ok((false, "s&sos".to_string())));
    assert_eq!(sqli_outcome(0, Some(vec![0; 9]), true), Ok((false, String::new())));
    assert_eq!(sqli_outcome(1, Some(slot.clone()), false), Err(QueryError::ReleaseFailed));
    assert_eq!(sqli_outcome(1, None, true), Err(QueryError::OutOfBounds));
    assert_eq!(sqli_outcome(1, None, false), Err(QueryError::OutOfBounds));
}

#[test]
fn xss_outcome_by_cases() {
    assert_eq!(xss_outcome(Some(1), true), Ok(true));
    assert_eq!(xss_outcome(Some(u32::MAX), true), Ok(true));
    assert_eq!(xss_outcome(Some(0), true), Ok(false));
    assert_eq!(xss_outcome(Some(1), false), Err(QueryError::ReleaseFailed));
    assert_eq!(xss_outcome(None, true), Err(QueryError::DetectFailed));
    assert_eq!(xss_outcome(None, false), Err(QueryError::DetectFailed));
}

#[test]
fn white_space_is_what_the_standard_library_calls_so() {
    let mut code: u32 = 0;
    let mut spaces = 0;
    while code <= 0x10ffff {
        if let Some(c) = char::from_u32(code) {
            assert_eq!(is_white_space(c), c.is_whitespace(), "U+{:04X}", code);
            if is_white_space(c) {
                spaces += 1;
            }
        }
        code += 1;
    }
    assert_eq!(spaces, 25);
}

#[test]
fn trim_is_what_the_standard_library_does() {
    let texts = [
        "",
        " ",
        "a",
        " a",
        "a ",
        "  a b  ",
        "\t\n\r a\u{b}\u{c}",
        "\u{85}x\u{a0}",
        "\u{1680}\u{2000}\u{200a}mid dle\u{2028}\u{2029}\u{202f}\u{205f}\u{3000}",
        "\u{200b}zero width is no space\u{200b}",
        " \u{feff} ",
        "   \t  ",
    ];
    for text in texts {
        assert_eq!(trim(&chars_of(text)), text.trim(), "{:?}", text);
    }
    assert_eq!(trim(&chars_of("  a b  ")), "a b");
}

#[test]
fn characters_and_back() {
    let text = "aß≠\u{1f980}\0z";
    let chars = chars_of(text);
    assert_eq!(chars, vec!['a', 'ß', '≠', '\u{1f980}', '\0', 'z']);
    assert_eq!(string_of(&chars, 0, 6), text);
    assert_eq!(string_of(&chars, 1, 4), "ß≠\u{1f980}");
    assert_eq!(string_of(&chars, 3, 3), "");
    assert_eq!(chars_of(""), Vec::<char>::new());
}

use metube::digest::{contentId, hexText, sha256Hash};
use metube::text::{
    charsOf, decimalText, fixedDigitChars, lowerChars, sameText, signedDecimalText, sliceText,
    twoDigitChars,
};

fn text(chars: Vec<char>) -> String {
    chars.into_iter().collect()
}

#[test]
fn chars_and_slices() {
    assert_eq!(charsOf("a\u{e9}z"), vec!['a', '\u{e9}', 'z']);
    assert_eq!(charsOf(""), Vec::<char>::new());
    let chars = charsOf("h\u{e9}llo");
    assert_eq!(sliceText(&chars, 1, 3), "\u{e9}l");
    assert_eq!(sliceText(&chars, 0, 5), "h\u{e9}llo");
    assert_eq!(sliceText(&chars, 2, 2), "");
}

#[test]
fn same_text() {
    assert!(sameText("FORMAT", "FORMAT"));
    assert!(!sameText("FORMAT", "format"));
    assert!(!sameText("FORMAT", "FORMAT "));
    assert!(sameText("", ""));
}

#[test]
fn decimal_of_numbers() {
    assert_eq!(decimalText(0), "0");
    assert_eq!(decimalText(7), "7");
    assert_eq!(decimalText(10), "10");
    assert_eq!(decimalText(8080), "8080");
    assert_eq!(decimalText(u64::MAX as u128), "18446744073709551615");
    assert_eq!(decimalText(u128::MAX), u128::MAX.to_string());
}

#[test]
fn decimal_with_sign() {
    assert_eq!(signedDecimalText(0), "0");
    assert_eq!(signedDecimalText(1), "1");
    assert_eq!(signedDecimalText(-1), "-1");
    assert_eq!(signedDecimalText(-120), "-120");
    assert_eq!(signedDecimalText(i64::MIN), i64::MIN.to_string());
    assert_eq!(signedDecimalText(i64::MAX), i64::MAX.to_string());
}

#[test]
fn decimal_with_padding() {
    assert_eq!(text(twoDigitChars(0)), "00");
    assert_eq!(text(twoDigitChars(9)), "09");
    assert_eq!(text(twoDigitChars(10)), "10");
    assert_eq!(text(twoDigitChars(123)), "123");
    assert_eq!(text(fixedDigitChars(333_333_333, 9)), "333333333");
    assert_eq!(text(fixedDigitChars(5, 9)), "000000005");
    assert_eq!(text(fixedDigitChars(1234, 2)), "34");
    assert_eq!(text(fixedDigitChars(1234, 0)), "");
}

#[test]
fn lower_case_is_ascii_only() {
    assert_eq!(text(lowerChars("WebM")), "webm");
    assert_eq!(text(lowerChars("MP4")), "mp4");
    assert_eq!(text(lowerChars("AZaz09@[`{")), "azaz09@[`{");
    assert_eq!(text(lowerChars("\u{c9}T\u{c9}")), "\u{c9}t\u{c9}");
    for sample in ["", "Hello, World", "\u{130}stanbul", "STRASSE \u{1e9e}"] {
        assert_eq!(text(lowerChars(sample)), sample.to_ascii_lowercase());
    }
}

#[test]
fn hex_of_bytes() {
    assert_eq!(hexText(&[]), "");
    assert_eq!(hexText(&[0x00, 0x0f, 0xf0, 0xff]), "000ff0ff");
    assert_eq!(hexText(&[0x12, 0x34, 0xab, 0xcd, 0xef, 0x09, 0x9a]), "1234abcdef099a");
}

#[test]
fn sha256_of_known_inputs() {
    assert_eq!(
        sha256Hash(b"abc"),
        "ba7816bf8f01cfea414140de5dae2223b00361a396177a9cb410ff61f20015ad"
    );
    assert_eq!(
        sha256Hash(b""),
        "e3b0c44298fc1c149afbf4c8996fb92427ae41e4649b934ca495991b7852b855"
    );
}

#[test]
fn content_id_is_first_six_bytes() {
    let mut digest = [0u8; 32];
    for (i, byte) in digest.iter_mut().enumerate() {
        *byte = (i as u8) * 17;
    }
    let id = contentId(&digest);
    assert_eq!(id, "001122334455");
    assert_eq!(id.len(), 12);
    let mut other = [0xffu8; 32];
    other[5] = 0x0a;
    assert_eq!(contentId(&other), "ffffffffff0a");
}

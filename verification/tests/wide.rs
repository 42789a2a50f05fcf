use ctrl_ime_key::wide::{to_wide, to_wide_null};

#[test]
fn ascii_to_wide() {
    assert_eq!(to_wide_null("CONOUT$"), vec![0x43, 0x4F, 0x4E, 0x4F, 0x55, 0x54, 0x24, 0]);
    assert_eq!(to_wide_null(""), vec![0]);
    assert_eq!(to_wide(""), Vec::<u16>::new());
}

#[test]
fn wide_matches_std_encoding() {
    for s in ["ctrl-ime-key", "変換 / 無変換", "a😀b", "\u{FFFF}\u{10000}\u{10FFFF}"] {
        let expected: Vec<u16> = s.encode_utf16().collect();
        assert_eq!(to_wide(s), expected);
        let mut with_nul = expected.clone();
        with_nul.push(0);
        assert_eq!(to_wide_null(s), with_nul);
    }
}

#[test]
fn surrogate_pairs() {
    assert_eq!(to_wide("😀"), vec![0xD83D, 0xDE00]);
    assert_eq!(to_wide("\u{10FFFF}"), vec![0xDBFF, 0xDFFF]);
    assert_eq!(to_wide("日"), vec![0x65E5]);
}

use renarrator::text::{characters, decimal_text, eq_ignoring_ascii_case, is_blank, join3};
use renarrator::wide::to_wide;

#[test]
fn blank_agrees_with_trim() {
    for code in 0..0x1_1000u32 {
        if let Some(c) = char::from_u32(code) {
            let text = c.to_string();
            assert_eq!(is_blank(&text), text.trim().is_empty(), "{code:x}");
        }
    }
    assert!(is_blank(""));
    assert!(is_blank(" \t\u{3000}"));
    assert!(!is_blank(" x "));
}

#[test]
fn case_of_ascii_letters_is_ignored() {
    assert!(eq_ignoring_ascii_case("VBCABLE_setup_X64.EXE", "VBCABLE_Setup_x64.exe"));
    assert!(!eq_ignoring_ascii_case("VBCABLE_Setup.exe", "VBCABLE_Setup_x64.exe"));
    assert!(!eq_ignoring_ascii_case("Ж", "ж"));
    assert!(!eq_ignoring_ascii_case("[", "{"));
}

#[test]
fn decimal_numbers_read_as_usual() {
    for n in [0, 7, 10, 99, 100, 1603, 4_294_967_295u32] {
        assert_eq!(decimal_text(n), n.to_string());
    }
}

#[test]
fn texts_are_joined_and_taken_apart() {
    assert_eq!(join3("a", "б", "c"), "aбc");
    assert_eq!(characters("aб𝄞"), ['a', 'б', '𝄞']);
}

#[test]
fn wide_text_ends_in_zero_and_reads_back() {
    assert_eq!(to_wide(""), [0]);
    assert_eq!(to_wide("runas"), [114, 117, 110, 97, 115, 0]);
    assert_eq!(to_wide("𝄞"), [0xD834, 0xDD1E, 0]);
    for text in ["C:\\Папка\\VBCABLE_Setup_x64.exe", "\u{FFFF}\u{10000}\u{10FFFF}", "-i -h"] {
        let wide = to_wide(text);
        let (end, body) = wide.split_last().unwrap();
        assert_eq!(*end, 0);
        assert!(body.iter().all(|unit| *unit != 0));
        assert_eq!(String::from_utf16(body).unwrap(), text);
    }
}

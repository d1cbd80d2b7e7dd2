use cornerpin::text::{abridge, contains, is_blank, is_white_space, join, truncate};
use cornerpin::utf16::{get_title, set_wstr, wide};

const SAMPLES: [&str; 8] = [
    "",
    "Telegram",
    "Sağ kenar",
    "İstanbul – Şimdi",
    "a\u{10000}b",
    "\u{1F4CC}\u{1F4CC}",
    "\u{FFFF}\u{E000}\u{D7FF}",
    "x\u{10FFFF}",
];

#[test]
fn wide_agrees_with_std() {
    for s in SAMPLES {
        let mut expected: Vec<u16> = s.encode_utf16().collect();
        expected.push(0);
        assert_eq!(wide(s), expected);
    }
    assert_eq!(wide("a"), vec![97, 0]);
    assert_eq!(wide("\u{1F4CC}"), vec![0xD83D, 0xDCCC, 0]);
}

#[test]
fn wide_agrees_with_std_on_every_character() {
    for code in 0u32..=0x10FFFF {
        if let Some(c) = char::from_u32(code) {
            let s = c.to_string();
            let mut expected: Vec<u16> = s.encode_utf16().collect();
            expected.push(0);
            assert_eq!(wide(&s), expected);
        }
    }
}

#[test]
fn titles_are_decoded_like_std_does() {
    let unit = [
        0x41u16, 0xD7FF, 0xD800, 0xDBFF, 0xDC00, 0xDFFF, 0xE000, 0xFFFF, 0,
    ];
    for a in unit {
        for b in unit {
            for c in unit {
                for d in unit {
                    let buf = [a, b, c, d];
                    assert_eq!(get_title(&buf, 4), String::from_utf16_lossy(&buf));
                    assert_eq!(get_title(&buf, 2), String::from_utf16_lossy(&buf[..2]));
                }
            }
        }
    }
}

#[test]
fn title_of_nothing_read_is_empty() {
    let buf = [65u16; 256];
    assert_eq!(get_title(&buf, 0), "");
    assert_eq!(get_title(&buf, -1), "");
    assert_eq!(get_title(&buf, 3), "AAA");
    assert_eq!(get_title(&buf, 256).len(), 256);
}

#[test]
fn lone_surrogates_become_replacements() {
    assert_eq!(get_title(&[0xD83D], 1), "\u{FFFD}");
    assert_eq!(get_title(&[0xDCCC, 0xD83D], 2), "\u{FFFD}\u{FFFD}");
    assert_eq!(get_title(&[0xD83D, 65], 2), "\u{FFFD}A");
    assert_eq!(get_title(&[0xD83D, 0xDCCC], 2), "\u{1F4CC}");
}

#[test]
fn decoding_inverts_encoding() {
    for s in SAMPLES {
        let w = wide(s);
        assert_eq!(get_title(&w, w.len() as i32 - 1), s);
    }
}

#[test]
fn only_the_terminator_is_zero() {
    for s in SAMPLES {
        let w = wide(s);
        assert_eq!(w.iter().position(|u| *u == 0), Some(w.len() - 1));
    }
}

#[test]
fn set_wstr_keeps_what_stands_behind_the_terminator() {
    let mut buf = [7u16; 6];
    set_wstr(&mut buf, "ab");
    assert_eq!(buf, [97, 98, 0, 7, 7, 7]);
}

#[test]
fn set_wstr_cuts_to_fit() {
    let mut buf = [7u16; 3];
    set_wstr(&mut buf, "abcdef");
    assert_eq!(buf, [97, 98, 0]);
    let mut exact = [7u16; 3];
    set_wstr(&mut exact, "ab");
    assert_eq!(exact, [97, 98, 0]);
    let mut one = [7u16; 1];
    set_wstr(&mut one, "abc");
    assert_eq!(one, [0]);
    let mut half = [7u16; 2];
    set_wstr(&mut half, "\u{1F4CC}");
    assert_eq!(half, [0xD83D, 0]);
}

#[test]
fn truncate_counts_characters() {
    assert_eq!(truncate("Şimdi Sabitle", 5), "Şimdi");
    assert_eq!(truncate("Şimdi", 5), "Şimdi");
    assert_eq!(truncate("Şimdi", 0), "");
    assert_eq!(truncate("", 3), "");
    assert_eq!(truncate(&truncate("Telegram", 4), 4), "Tele");
}

#[test]
fn abridge_marks_the_cut() {
    assert_eq!(abridge("Telegram", 4), "Tele…");
    assert_eq!(abridge("Tele", 4), "Tele");
    assert_eq!(abridge("", 0), "");
}

#[test]
fn join_puts_one_text_behind_the_other() {
    assert_eq!(join("Corner", "Pin"), "CornerPin");
    assert_eq!(join("", "ş"), "ş");
}

#[test]
fn white_space_agrees_with_std() {
    for code in 0u32..=0x10FFFF {
        if let Some(c) = char::from_u32(code) {
            assert_eq!(is_white_space(c), c.is_whitespace(), "U+{:04X}", code);
        }
    }
}

#[test]
fn blank_means_nothing_to_trim_to() {
    for s in ["", " ", "\t \u{3000}\u{A0}", " a ", "a", "\u{200B}"] {
        assert_eq!(is_blank(s), s.trim().is_empty());
    }
}

#[test]
fn contains_agrees_with_std() {
    let parts = ["", "a", "ab", "ba", "aba", "ş", "bş", "abab", "\u{1F4CC}"];
    let wholes = ["", "a", "abab", "ababş", "şab", "aab\u{1F4CC}", "bbbb"];
    for w in wholes {
        for p in parts {
            assert_eq!(contains(w, p), w.contains(p), "{:?} in {:?}", p, w);
        }
    }
}

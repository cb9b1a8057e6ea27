use dust_orbit::text::{chars_of, is_white_space_char, normalize_email, string_from_chars, trim_text};

const WHITESPACE: [char; 25] = [
    '\u{9}', '\u{a}', '\u{b}', '\u{c}', '\u{d}', ' ', '\u{85}', '\u{a0}', '\u{1680}', '\u{2000}',
    '\u{2001}', '\u{2002}', '\u{2003}', '\u{2004}', '\u{2005}', '\u{2006}', '\u{2007}', '\u{2008}',
    '\u{2009}', '\u{200a}', '\u{2028}', '\u{2029}', '\u{202f}', '\u{205f}', '\u{3000}',
];

#[test]
fn whitespace_set_matches_char_is_whitespace() {
    for code in 0u32..=0x10FFFF {
        if let Some(c) = char::from_u32(code) {
            assert_eq!(is_white_space_char(c), c.is_whitespace(), "U+{:04X}", code);
        }
    }
    for c in WHITESPACE {
        assert!(is_white_space_char(c));
    }
}

#[test]
fn trim_text_agrees_with_str_trim() {
    let samples = [
        "",
        " ",
        "abc",
        "  abc  ",
        "\t\n player@example.com \r\n",
        "a b",
        " \u{3000}x\u{a0} ",
        "\u{200b}x\u{200b}",
        "ünïcødé  ",
        "   \u{2028}",
    ];
    for s in samples {
        assert_eq!(trim_text(s), s.trim(), "{:?}", s);
    }
    for w in WHITESPACE {
        let s = format!("{w}{w}core{w}text{w}");
        assert_eq!(trim_text(&s), s.trim());
    }
}

#[test]
fn trim_text_is_idempotent_on_samples() {
    for s in ["  x  ", "\n\ny", "z", "", " a b "] {
        let once = trim_text(s);
        assert_eq!(trim_text(&once), once);
    }
}

#[test]
fn chars_and_back() {
    let v = chars_of("héllo wörld");
    assert_eq!(v.len(), 11);
    assert_eq!(string_from_chars(&v, 0, 5), "héllo");
    assert_eq!(string_from_chars(&v, 6, 11), "wörld");
    assert_eq!(string_from_chars(&v, 3, 3), "");
}

#[test]
fn normalize_email_trims_then_lowercases() {
    assert_eq!(normalize_email("  Player@Example.COM \n"), "player@example.com");
    assert_eq!(normalize_email("already@lower.dev"), "already@lower.dev");
    assert_eq!(normalize_email("ÉLODIE@Exemple.FR"), "élodie@exemple.fr");
    assert_eq!(normalize_email("   "), "");
}

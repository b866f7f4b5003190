use gs_visualizer::text::{is_white_space_char, trims_to_empty};

#[test]
fn white_space_matches_std_for_every_char() {
    for u in 0u32..=0x10FFFF {
        if let Some(c) = char::from_u32(u) {
            assert_eq!(is_white_space_char(c), c.is_whitespace(), "U+{u:04X}");
        }
    }
}

#[test]
fn trims_to_empty_matches_trim() {
    for s in ["", " ", "\t\n\r", "\u{85}\u{a0}\u{2028}", " a ", "a", "\u{200b}", "\u{3000}x"] {
        assert_eq!(trims_to_empty(s), s.trim().is_empty(), "{s:?}");
    }
}

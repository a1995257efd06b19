use robot_buddy_game::chars::is_whitespace;

#[test]
fn whitespace_matches_the_standard_library() {
    for u in 0u32..0x3100 {
        if let Some(c) = char::from_u32(u) {
            assert_eq!(is_whitespace(c), c.is_whitespace(), "U+{u:04X}");
        }
    }
    for c in ['\u{FEFF}', '\u{200B}', '\u{180E}', 'a', '\u{10FFFF}'] {
        assert_eq!(is_whitespace(c), c.is_whitespace());
    }
}

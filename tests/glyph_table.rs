use term_plot::{get_char_for_pixels, glyph_for, InvalidGlyphIndex};

#[test]
fn get_char_for_pixels_returns_correct_character() {
    let correct = " 🬀🬁🬂🬃🬄🬅🬆🬇🬈🬉🬊🬋🬌🬍🬎🬏🬐🬑🬒🬓▌🬔🬕🬖🬗🬘🬙🬚🬛🬜🬝🬞🬟🬠🬡🬢🬣🬤🬥🬦🬧▐🬨🬩🬪🬫🬬🬭🬮🬯🬰🬱🬲🬳🬴🬵🬶🬷🬸🬹🬺🬻█";
    for (i, char) in correct.chars().enumerate() {
        assert_eq!(get_char_for_pixels(i as u8), char);
    }
}

#[test]
fn special_indices_use_block_elements() {
    assert_eq!(get_char_for_pixels(0), ' ');
    assert_eq!(get_char_for_pixels(21), '\u{258C}');
    assert_eq!(get_char_for_pixels(42), '\u{2590}');
    assert_eq!(get_char_for_pixels(63), '\u{2588}');
}

#[test]
fn sextant_codes_follow_offset_rule() {
    assert_eq!(get_char_for_pixels(1), '\u{1FB00}');
    assert_eq!(get_char_for_pixels(20), '\u{1FB13}');
    assert_eq!(get_char_for_pixels(22), '\u{1FB14}');
    assert_eq!(get_char_for_pixels(41), '\u{1FB27}');
    assert_eq!(get_char_for_pixels(43), '\u{1FB28}');
    assert_eq!(get_char_for_pixels(62), '\u{1FB3B}');
}

#[test]
fn glyph_for_accepts_table_indices() {
    assert_eq!(glyph_for(0), Ok(' '));
    assert_eq!(glyph_for(9), Ok('\u{1FB08}'));
    assert_eq!(glyph_for(63), Ok('\u{2588}'));
}

#[test]
fn glyph_for_rejects_index_past_table() {
    assert_eq!(glyph_for(64), Err(InvalidGlyphIndex { index: 64 }));
    assert_eq!(glyph_for(255), Err(InvalidGlyphIndex { index: 255 }));
}

use colemak_trainer::layout::{colemak_dh, qwerty, AnyKeyboardLayout, Finger, Key, KeyboardLayouts};
use colemak_trainer::mapper::{LayoutMapper, ShapeMismatch};

#[test]
fn identity_qwerty_iso_maps_every_letter_to_itself() {
    let l = qwerty::iso();
    let mapper = LayoutMapper::from_iso(&l, &l);
    for (c, f) in [
        ('q', Finger::Pinky),
        ('w', Finger::Ring),
        ('e', Finger::Middle),
        ('t', Finger::Index),
        ('a', Finger::Pinky),
        ('g', Finger::Index),
        ('l', Finger::Ring),
        ('z', Finger::Pinky),
        ('m', Finger::Index),
    ] {
        let upper = c.to_ascii_uppercase();
        assert_eq!(mapper.map(c), Some(Key::Char(upper, f)));
    }
}

#[test]
fn qwerty_to_colemak_dh_maps_j_to_home_row_n() {
    // 'j' sits at home-row position 6 of Qwerty; position 6 of the
    // Colemak-DH home row holds 'N'.
    let mapper = LayoutMapper::from_iso(&qwerty::iso(), &colemak_dh::iso());
    assert_eq!(mapper.map('j'), Some(Key::Char('N', Finger::Index)));
    // and not 'j' itself
    assert!(mapper.map('j') != Some(Key::Char('J', Finger::Index)));
}

#[test]
fn unmapped_characters_have_no_entry() {
    let mapper = LayoutMapper::from_iso(&qwerty::iso(), &colemak_dh::iso());
    assert_eq!(mapper.map('1'), None);
    assert_eq!(mapper.map('!'), None);
    assert_eq!(mapper.map(' '), None);
}

#[test]
fn source_character_over_absent_target_maps_to_absent() {
    // Qwerty ISO holds 'B' at bottom-row position 5; Colemak-DH ISO leaves
    // that position without a letter.
    let mapper = LayoutMapper::from_iso(&qwerty::iso(), &colemak_dh::iso());
    assert_eq!(mapper.map('b'), Some(Key::Absent));
}

#[test]
fn uppercase_input_folds_to_the_same_entry() {
    let mapper = LayoutMapper::from_iso(&qwerty::iso(), &colemak_dh::iso());
    assert_eq!(mapper.map('J'), mapper.map('j'));
}

#[test]
fn ansi_pair_maps_by_aligned_position() {
    // Qwerty ANSI holds 'B' at bottom-row position 4; the same position of
    // Colemak-DH ANSI holds 'V'.
    let mapper = LayoutMapper::from_ansi(&qwerty::ansi(), &colemak_dh::ansi());
    assert_eq!(mapper.map('b'), Some(Key::Char('V', Finger::Index)));
    assert_eq!(mapper.map('n'), Some(Key::Char('K', Finger::Index)));
}

#[test]
fn build_rejects_mixed_shapes() {
    let iso = AnyKeyboardLayout::Iso(qwerty::iso());
    let ansi = AnyKeyboardLayout::Ansi(qwerty::ansi());
    assert_eq!(
        LayoutMapper::build(&iso, &ansi).err(),
        Some(ShapeMismatch)
    );
    assert_eq!(
        LayoutMapper::build(&ansi, &iso).err(),
        Some(ShapeMismatch)
    );
    assert!(LayoutMapper::build(&iso, &iso).is_ok());
    assert!(LayoutMapper::build(&ansi, &ansi).is_ok());
}

#[test]
fn from_matches_the_pair_constructors() {
    let pair = KeyboardLayouts::Iso { source: qwerty::iso(), target: colemak_dh::iso() };
    let mapper = LayoutMapper::from(&pair);
    assert_eq!(mapper.map('j'), Some(Key::Char('N', Finger::Index)));
}

use colemak_trainer::layout::{colemak_dh, qwertz, KeyIndices, KeyboardLayouts, Level};

const LEVELS: [Level; 6] = [
    Level::One,
    Level::Two,
    Level::Three,
    Level::Four,
    Level::Five,
    Level::Six,
];

fn subset(a: &[u8], b: &[u8]) -> bool {
    a.iter().all(|x| b.contains(x))
}

#[test]
fn unlocked_positions_grow_with_the_level() {
    for pair in LEVELS.windows(2) {
        let (lo, hi) = (pair[0], pair[1]);
        let iso_lo = KeyIndices::iso(lo);
        let iso_hi = KeyIndices::iso(hi);
        assert!(subset(&iso_lo.row0, &iso_hi.row0));
        assert!(subset(&iso_lo.row1, &iso_hi.row1));
        assert!(subset(&iso_lo.row2, &iso_hi.row2));
        let ansi_lo = KeyIndices::ansi(lo);
        let ansi_hi = KeyIndices::ansi(hi);
        assert!(subset(&ansi_lo.row0, &ansi_hi.row0));
        assert!(subset(&ansi_lo.row1, &ansi_hi.row1));
        assert!(subset(&ansi_lo.row2, &ansi_hi.row2));
    }
}

#[test]
fn level_one_unlocks_only_home_row_positions() {
    let iso = KeyIndices::iso(Level::One);
    assert!(iso.row0.is_empty());
    assert_eq!(iso.row1, vec![0, 1, 2, 3, 6, 7, 8, 9]);
    assert!(iso.row2.is_empty());
    assert_eq!(iso.size(), 8);
    let ansi = KeyIndices::ansi(Level::One);
    assert!(ansi.row0.is_empty());
    assert_eq!(ansi.row1, vec![0, 1, 2, 3, 6, 7, 8, 9]);
    assert!(ansi.row2.is_empty());
    assert_eq!(ansi.size(), 8);
}

#[test]
fn iso_and_ansi_tables_differ_only_in_the_bottom_row_below_the_top_level() {
    for level in &LEVELS[..5] {
        let iso = KeyIndices::iso(*level);
        let ansi = KeyIndices::ansi(*level);
        assert_eq!(iso.row0, ansi.row0);
        assert_eq!(iso.row1, ansi.row1);
    }
    assert_eq!(KeyIndices::iso(Level::Two).row2, vec![3, 7]);
    assert_eq!(KeyIndices::ansi(Level::Two).row2, vec![2, 6]);
}

#[test]
fn the_top_level_unlocks_every_position() {
    let iso = KeyIndices::iso(Level::Six);
    assert_eq!(iso.row0, (0..12).collect::<Vec<u8>>());
    assert_eq!(iso.row1, (0..12).collect::<Vec<u8>>());
    assert_eq!(iso.row2, (0..11).collect::<Vec<u8>>());
    let ansi = KeyIndices::ansi(Level::Six);
    assert_eq!(ansi.row0, (0..13).collect::<Vec<u8>>());
    assert_eq!(ansi.row1, (0..11).collect::<Vec<u8>>());
    assert_eq!(ansi.row2, (0..10).collect::<Vec<u8>>());
}

#[test]
fn allowed_letters_level_one_are_the_target_home_row() {
    let pair = KeyboardLayouts::Iso { source: qwertz::iso(), target: colemak_dh::iso() };
    let mut letters = pair.allowed_target_letters(Level::One);
    letters.sort();
    let mut want = vec!['a', 'r', 's', 't', 'n', 'e', 'i', 'o'];
    want.sort();
    assert_eq!(letters, want);
}

#[test]
fn allowed_letters_follow_the_ansi_bottom_row_offset() {
    // Level Two unlocks home-row positions 0..=3 and 6..=9 plus bottom-row
    // positions 2 and 6, which on Colemak-DH ANSI hold 'C' and 'H'.
    let pair = KeyboardLayouts::Ansi { source: qwertz::ansi(), target: colemak_dh::ansi() };
    let mut letters = pair.allowed_target_letters(Level::Two);
    letters.sort();
    let mut want = vec!['a', 'r', 's', 't', 'n', 'e', 'i', 'o', 'c', 'h'];
    want.sort();
    assert_eq!(letters, want);
}

#[test]
fn allowed_letters_skip_absent_positions() {
    // Level Six unlocks every position, but absent positions contribute no
    // letters: the Colemak-DH ISO bottom row has no letter at position 5 or
    // past position 7, so it contributes z, x, c, d, v, k and h only.
    let pair = KeyboardLayouts::Iso { source: qwertz::iso(), target: colemak_dh::iso() };
    let mut letters = pair.allowed_target_letters(Level::Six);
    letters.sort();
    let mut want = vec![
        'q', 'w', 'f', 'p', 'b', 'j', 'l', 'u', 'y', 'a', 'r', 's', 't', 'g', 'm', 'n', 'e', 'i',
        'o', 'z', 'x', 'c', 'd', 'v', 'k', 'h',
    ];
    want.sort();
    assert_eq!(letters, want);
}

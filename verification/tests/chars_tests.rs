use colemak_trainer::chars::to_lower;

#[test]
fn uppercase_ascii_letters_fold_to_lowercase() {
    assert_eq!(to_lower('A'), 'a');
    assert_eq!(to_lower('Z'), 'z');
    assert_eq!(to_lower('M'), 'm');
}

#[test]
fn other_characters_pass_through_unchanged() {
    assert_eq!(to_lower('a'), 'a');
    assert_eq!(to_lower('z'), 'z');
    assert_eq!(to_lower('3'), '3');
    assert_eq!(to_lower(' '), ' ');
    assert_eq!(to_lower('@'), '@');
    assert_eq!(to_lower('['), '[');
}

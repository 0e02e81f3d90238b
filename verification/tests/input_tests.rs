use colemak_trainer::input::{LetterType, Run, WordInput};

fn word(s: &str) -> Vec<char> {
    s.chars().collect()
}

fn typed(expected: &str, entered: &str) -> WordInput {
    let mut input = WordInput::new(word(expected));
    for c in entered.chars() {
        input.push(c);
    }
    input
}

fn run_text(r: &Run) -> String {
    r.text.iter().collect()
}

#[test]
fn classify_partial_attempt_yields_valid_then_placeholder() {
    let runs = typed("wore", "wo").classify();
    assert_eq!(runs.len(), 2);
    assert_eq!(run_text(&runs[0]), "wo");
    assert_eq!(runs[0].class, LetterType::Valid);
    assert_eq!(run_text(&runs[1]), "re");
    assert_eq!(runs[1].class, LetterType::Placeholder);
}

#[test]
fn classify_wrong_tail_yields_valid_then_invalid() {
    let runs = typed("wore", "worx").classify();
    assert_eq!(runs.len(), 2);
    assert_eq!(run_text(&runs[0]), "wor");
    assert_eq!(runs[0].class, LetterType::Valid);
    assert_eq!(run_text(&runs[1]), "x");
    assert_eq!(runs[1].class, LetterType::Invalid);
}

#[test]
fn classify_concatenation_reproduces_the_attempt_and_remainder() {
    // entered "axcde" against expected "abc": typed positions keep the typed
    // characters, the overlong tail is invalid, and the total length is the
    // longer of the two texts.
    let runs = typed("abc", "axcde").classify();
    let flat: String = runs.iter().map(run_text).collect();
    assert_eq!(flat, "axcde");
    assert_eq!(flat.len(), 5);
    let classes: Vec<LetterType> = runs.iter().map(|r| r.class).collect();
    assert_eq!(
        classes,
        vec![LetterType::Valid, LetterType::Invalid, LetterType::Valid, LetterType::Invalid]
    );
    let texts: Vec<String> = runs.iter().map(run_text).collect();
    assert_eq!(texts, vec!["a", "x", "c", "de"]);
}

#[test]
fn classify_untyped_attempt_is_one_placeholder_run() {
    let runs = typed("abc", "").classify();
    assert_eq!(runs.len(), 1);
    assert_eq!(run_text(&runs[0]), "abc");
    assert_eq!(runs[0].class, LetterType::Placeholder);
}

#[test]
fn classify_of_empty_texts_is_empty() {
    let runs = typed("", "").classify();
    assert!(runs.is_empty());
}

#[test]
fn adjacent_runs_never_share_a_class() {
    let runs = typed("settle", "sattlxx").classify();
    for pair in runs.windows(2) {
        assert!(pair[0].class != pair[1].class);
        assert!(!pair[0].text.is_empty() && !pair[1].text.is_empty());
    }
}

#[test]
fn push_pop_and_is_correct_track_the_attempt() {
    let mut input = WordInput::new(word("hi"));
    assert!(!input.is_correct());
    input.push('h');
    input.push('i');
    assert!(input.is_correct());
    input.pop();
    assert!(!input.is_correct());
    input.pop();
    input.pop();
    assert!(!input.is_correct());
    input.push('h');
    input.push('x');
    assert!(!input.is_correct());
}

use colemak_trainer::layout::{colemak_dh, qwertz, qwerty, KeyboardLayouts, Level};
use colemak_trainer::session::{
    AppState, KeyCode, KeyPress, MenuState, NextStep, Screen, StepResult, TypingState,
};

fn word(s: &str) -> Vec<char> {
    s.chars().collect()
}

fn key(code: KeyCode) -> KeyPress {
    KeyPress { code, has_other_modifiers: false }
}

/// A session whose source and target layouts are both Qwerty ISO, so every
/// typed letter maps to its own uppercase form, and whose bank holds exactly
/// one word.
fn single_word_state() -> AppState {
    AppState {
        level: Level::Six,
        layouts: KeyboardLayouts::Iso { source: qwerty::iso(), target: qwerty::iso() },
        corpus: vec![word("AS"), word("J2")],
    }
}

fn expect_typing(r: StepResult) -> TypingState {
    match r.screen {
        Screen::Typing(t) => t,
        Screen::Menu(_) => panic!("expected the typing screen"),
    }
}

#[test]
fn menu_quits_on_the_second_consecutive_esc() {
    let state = AppState::new(KeyboardLayouts::Iso { source: qwertz::iso(), target: colemak_dh::iso() }, Vec::new());
    let menu = Screen::Menu(MenuState::new());
    let first = menu.handle_event(&state, key(KeyCode::Esc));
    assert_eq!(first.next, NextStep::Continue);
    let second = first.screen.handle_event(&state, key(KeyCode::Esc));
    assert_eq!(second.next, NextStep::Quit);
}

#[test]
fn menu_esc_count_resets_on_an_intervening_key() {
    let state = AppState::new(KeyboardLayouts::Iso { source: qwertz::iso(), target: colemak_dh::iso() }, Vec::new());
    let menu = Screen::Menu(MenuState::new());
    let r1 = menu.handle_event(&state, key(KeyCode::Esc));
    let r2 = r1.screen.handle_event(&state, key(KeyCode::Char('x')));
    assert_eq!(r2.next, NextStep::Continue);
    let r3 = r2.screen.handle_event(&state, key(KeyCode::Esc));
    assert_eq!(r3.next, NextStep::Continue);
    let r4 = r3.screen.handle_event(&state, key(KeyCode::Esc));
    assert_eq!(r4.next, NextStep::Quit);
}

#[test]
fn menu_quits_immediately_on_q() {
    let state = AppState::new(KeyboardLayouts::Iso { source: qwertz::iso(), target: colemak_dh::iso() }, Vec::new());
    let menu = Screen::Menu(MenuState::new());
    let r = menu.handle_event(&state, key(KeyCode::Char('q')));
    assert_eq!(r.next, NextStep::Quit);
}

#[test]
fn menu_enter_starts_a_fresh_typing_screen() {
    let state = single_word_state();
    let menu = Screen::Menu(MenuState::new());
    let r = menu.handle_event(&state, key(KeyCode::Enter));
    assert_eq!(r.next, NextStep::Continue);
    let t = expect_typing(r);
    assert!(t.current_text().is_empty());
    assert_eq!(t.input.expected, word("AS"));
    assert_eq!(t.word_list.words, vec![word("AS")]);
}

#[test]
fn correct_word_and_space_draw_the_next_word() {
    let state = single_word_state();
    let menu = Screen::Menu(MenuState::new());
    let t = expect_typing(menu.handle_event(&state, key(KeyCode::Enter)));

    // type the expected word through the mapper
    let r = Screen::Typing(t).handle_event(&state, key(KeyCode::Char('a')));
    let r = r.screen.handle_event(&state, key(KeyCode::Char('s')));
    let t = expect_typing(r);
    assert_eq!(t.current_text(), &word("AS"));

    // a correct attempt committed with Space is replaced by a fresh word
    let r = Screen::Typing(t).handle_event(&state, key(KeyCode::Char(' ')));
    let t = expect_typing(r);
    assert_eq!(t.input.expected, word("AS"));
    assert!(t.current_text().is_empty());

    // an incorrect attempt committed with Space is left untouched
    let r = Screen::Typing(t).handle_event(&state, key(KeyCode::Char('a')));
    let r = r.screen.handle_event(&state, key(KeyCode::Char(' ')));
    let t = expect_typing(r);
    assert_eq!(t.current_text(), &word("A"));
}

#[test]
fn typing_esc_esc_returns_to_the_menu() {
    let state = single_word_state();
    let menu = Screen::Menu(MenuState::new());
    let r = menu.handle_event(&state, key(KeyCode::Enter));
    let r = r.screen.handle_event(&state, key(KeyCode::Esc));
    assert!(matches!(r.screen, Screen::Typing(_)));
    let r = r.screen.handle_event(&state, key(KeyCode::Esc));
    assert_eq!(r.next, NextStep::Continue);
    assert!(matches!(r.screen, Screen::Menu(_)));
}

#[test]
fn typing_backspace_removes_the_last_character() {
    let state = single_word_state();
    let menu = Screen::Menu(MenuState::new());
    let r = menu.handle_event(&state, key(KeyCode::Enter));
    let r = r.screen.handle_event(&state, key(KeyCode::Char('a')));
    let r = r.screen.handle_event(&state, key(KeyCode::Backspace));
    let t = expect_typing(r);
    assert!(t.current_text().is_empty());
    // backspace on an empty attempt is a no-op
    let r = Screen::Typing(t).handle_event(&state, key(KeyCode::Backspace));
    assert!(expect_typing(r).current_text().is_empty());
}

#[test]
fn unmapped_keystrokes_are_reported_and_dropped() {
    let state = single_word_state();
    let menu = Screen::Menu(MenuState::new());
    let r = menu.handle_event(&state, key(KeyCode::Enter));
    let r = r.screen.handle_event(&state, key(KeyCode::Char('1')));
    assert_eq!(r.unmapped, Some('1'));
    assert!(expect_typing(r).current_text().is_empty());
}

#[test]
fn events_with_other_modifiers_change_nothing() {
    let state = AppState::new(KeyboardLayouts::Iso { source: qwertz::iso(), target: colemak_dh::iso() }, Vec::new());
    let menu = Screen::Menu(MenuState::new());
    let r = menu.handle_event(
        &state,
        KeyPress { code: KeyCode::Char('q'), has_other_modifiers: true },
    );
    assert_eq!(r.next, NextStep::Continue);
    assert!(matches!(r.screen, Screen::Menu(_)));
    assert_eq!(r.unmapped, None);
}

//! The session state machine: a tagged union over the menu and typing
//! screens with a single total transition function. Every key event has a
//! defined outcome; quitting is an explicit signal, not a state.
use vstd::prelude::*;

use crate::chars::lower_char;
use crate::input::WordInput;
use crate::layout::{allowed_letters, Key, KeyboardLayouts, Level};
use crate::mapper::{layouts_mapper, LayoutMapper};
use crate::words::{bank_words, drawn_from, WordList};

verus! {

/// The key of a key press, as the session reads it.
#[derive(Clone, Copy, Debug, PartialEq, Eq, Structural)]
pub enum KeyCode {
    Esc,
    Enter,
    Backspace,
    Char(char),
    Other,
}

/// One key press: the key, and whether modifiers besides Shift were held.
#[derive(Clone, Copy, Debug, PartialEq, Eq, Structural)]
pub struct KeyPress {
    pub code: KeyCode,
    pub has_other_modifiers: bool,
}

/// Whether the session goes on or the program should exit.
#[derive(Clone, Copy, Debug, PartialEq, Eq, Structural)]
pub enum NextStep {
    Continue,
    Quit,
}

/// Session-wide state: the practice level, the layout pair, and the word
/// corpus, owned for the whole run.
pub struct AppState {
    pub level: Level,
    pub layouts: KeyboardLayouts,
    pub corpus: Vec<Vec<char>>,
}

impl AppState {
    /// A fresh session at the first level over the given layout pair and
    /// corpus.
    pub fn new(layouts: KeyboardLayouts, corpus: Vec<Vec<char>>) -> (r: Self)
        ensures
            r.level == Level::One,
            r.layouts == layouts,
            r.corpus == corpus,
    {
        AppState { level: Level::One, layouts, corpus }
    }
}

/// The menu screen: how many consecutive Esc presses it has absorbed.
pub struct MenuState {
    pub esc_count: u8,
}

impl MenuState {
    /// A menu that has absorbed no Esc press.
    pub fn new() -> (r: Self)
        ensures
            r.esc_count == 0,
    {
        MenuState { esc_count: 0 }
    }
}

/// The typing screen: the session's word bank, the current attempt, the
/// layout mapper, and how many consecutive Esc presses it has absorbed.
pub struct TypingState {
    pub esc_count: u8,
    pub word_list: WordList,
    pub input: WordInput,
    pub mapper: LayoutMapper,
}

/// A typing screen as constructed on entering it: no Esc absorbed, the bank
/// filtered by the allowed letters of the session's level and target layout,
/// the mapper built from the session's layout pair, nothing typed yet, and
/// the expected word drawn from the bank.
pub open spec fn typing_fresh(t: TypingState, state: AppState) -> bool {
    &&& t.esc_count == 0
    &&& t.word_list.words.deep_view() == bank_words(
        state.corpus.deep_view(),
        allowed_letters(state.layouts, state.level),
    )
    &&& t.mapper@ == layouts_mapper(state.layouts)
    &&& t.input.entered@ == Seq::<char>::empty()
    &&& drawn_from(t.input.expected@, t.word_list.words.deep_view())
}

impl TypingState {
    /// Builds the word bank for the session's level and target layout, draws
    /// the first word, and builds the mapper.
    pub fn new(state: &AppState) -> (r: Self)
        ensures
            typing_fresh(r, *state),
    {
        let allowed = state.layouts.allowed_target_letters(state.level);
        proof {
            assert(allowed@.to_set() =~= allowed_letters(state.layouts, state.level));
        }
        let word_list = WordList::new(&state.corpus, &allowed);
        let input = WordInput::new(word_list.next_word());
        let mapper = LayoutMapper::from(&state.layouts);
        TypingState { esc_count: 0, word_list, input, mapper }
    }

    /// The characters typed so far.
    pub fn current_text(&self) -> (r: &Vec<char>)
        ensures
            r@ == self.input.entered@,
    {
        &self.input.entered
    }
}

/// The two screens of a session.
pub enum Screen {
    Menu(MenuState),
    Typing(TypingState),
}

/// The outcome of one key event: the screen afterwards, whether to go on,
/// and a typed character that had no mapping, for the caller to report.
pub struct StepResult {
    pub screen: Screen,
    pub next: NextStep,
    pub unmapped: Option<char>,
}

/// The menu's answer to a key press: a second consecutive Esc or a `q` quits,
/// Enter starts a fresh typing screen, anything else resets the Esc count.
pub open spec fn menu_step(m: MenuState, state: AppState, event: KeyPress, r: StepResult) -> bool {
    r.unmapped == Option::<char>::None && match event.code {
        KeyCode::Esc => if m.esc_count >= 1 {
            r.next == NextStep::Quit && r.screen == Screen::Menu(m)
        } else {
            r.next == NextStep::Continue && r.screen == Screen::Menu(MenuState { esc_count: 1 })
        },
        KeyCode::Enter => r.next == NextStep::Continue && match r.screen {
            Screen::Typing(t) => typing_fresh(t, state),
            Screen::Menu(_) => false,
        },
        KeyCode::Char(ch) => if ch == 'q' {
            r.next == NextStep::Quit && r.screen == Screen::Menu(m)
        } else {
            r.next == NextStep::Continue && r.screen == Screen::Menu(MenuState { esc_count: 0 })
        },
        KeyCode::Backspace | KeyCode::Other => r.next == NextStep::Continue && r.screen
            == Screen::Menu(MenuState { esc_count: 0 }),
    }
}

/// Committing the attempt with Enter or Space: a correct attempt is replaced
/// by a fresh attempt at a word drawn from the bank; an incorrect one is left
/// untouched.
pub open spec fn commit_step(t: TypingState, r: StepResult) -> bool {
    r.unmapped == Option::<char>::None && r.next == NextStep::Continue && match r.screen {
        Screen::Typing(t2) => t2.word_list == t.word_list && t2.mapper == t.mapper && t2.esc_count
            == 0 && if t.input.expected@ == t.input.entered@ {
            t2.input.entered@ == Seq::<char>::empty() && drawn_from(
                t2.input.expected@,
                t.word_list.words.deep_view(),
            )
        } else {
            t2.input == t.input
        },
        Screen::Menu(_) => false,
    }
}

/// A printable key: translated through the mapper. A target character is
/// appended to the attempt; a target position without a printable character
/// drops the keystroke; an unmapped character is reported back unchanged.
pub open spec fn typed_step(t: TypingState, ch: char, r: StepResult) -> bool {
    r.next == NextStep::Continue && match r.screen {
        Screen::Typing(t2) => t2.word_list == t.word_list && t2.mapper == t.mapper && t2.esc_count
            == 0 && t2.input.expected@ == t.input.expected@ && {
            let key = lower_char(ch);
            if t.mapper@.dom().contains(key) {
                r.unmapped == Option::<char>::None && match t.mapper@[key] {
                    Key::Char(tc, _) => t2.input.entered@ == t.input.entered@.push(tc),
                    Key::Absent => t2.input.entered@ == t.input.entered@,
                }
            } else {
                r.unmapped == Some(ch) && t2.input.entered@ == t.input.entered@
            }
        },
        Screen::Menu(_) => false,
    }
}

/// The typing screen's answer to a key press: a second consecutive Esc goes
/// back to the menu, Enter or Space commits the attempt, Backspace removes
/// the last character, a printable key is translated and appended, and any
/// key but Esc resets the Esc count.
pub open spec fn typing_step(t: TypingState, state: AppState, event: KeyPress, r: StepResult) -> bool {
    match event.code {
        KeyCode::Esc => r.unmapped == Option::<char>::None && r.next == NextStep::Continue && if t.esc_count >= 1 {
            r.screen == Screen::Menu(MenuState { esc_count: 0 })
        } else {
            match r.screen {
                Screen::Typing(t2) => t2.esc_count == 1 && t2.word_list == t.word_list
                    && t2.mapper == t.mapper && t2.input == t.input,
                Screen::Menu(_) => false,
            }
        },
        KeyCode::Enter => commit_step(t, r),
        KeyCode::Char(ch) => if ch == ' ' {
            commit_step(t, r)
        } else {
            typed_step(t, ch, r)
        },
        KeyCode::Backspace => r.unmapped == Option::<char>::None && r.next == NextStep::Continue
            && match r.screen {
            Screen::Typing(t2) => t2.word_list == t.word_list && t2.mapper == t.mapper
                && t2.esc_count == 0 && t2.input.expected@ == t.input.expected@
                && t2.input.entered@ == (if t.input.entered@.len() == 0 {
                t.input.entered@
            } else {
                t.input.entered@.drop_last()
            }),
            Screen::Menu(_) => false,
        },
        KeyCode::Other => r.unmapped == Option::<char>::None && r.next == NextStep::Continue
            && match r.screen {
            Screen::Typing(t2) => t2.esc_count == 0 && t2.word_list == t.word_list && t2.mapper
                == t.mapper && t2.input == t.input,
            Screen::Menu(_) => false,
        },
    }
}

/// The session's total transition relation: an event with modifiers besides
/// Shift changes nothing; otherwise the active screen answers.
pub open spec fn step_spec(pre: Screen, state: AppState, event: KeyPress, r: StepResult) -> bool {
    if event.has_other_modifiers {
        r.screen == pre && r.next == NextStep::Continue && r.unmapped == Option::<char>::None
    } else {
        match pre {
            Screen::Menu(m) => menu_step(m, state, event, r),
            Screen::Typing(t) => typing_step(t, state, event, r),
        }
    }
}

fn commit(t: TypingState) -> (r: TypingState)
    ensures
        r.word_list == t.word_list,
        r.mapper == t.mapper,
        r.esc_count == 0,
        (if t.input.expected@ == t.input.entered@ {
            r.input.entered@ == Seq::<char>::empty() && drawn_from(
                r.input.expected@,
                t.word_list.words.deep_view(),
            )
        } else {
            r.input == t.input
        }),
{
    let mut t = t;
    t.esc_count = 0;
    if t.input.is_correct() {
        t.input = WordInput::new(t.word_list.next_word());
    }
    t
}

fn typed(t: TypingState, ch: char) -> (r: (TypingState, Option<char>))
    ensures
        r.0.word_list == t.word_list,
        r.0.mapper == t.mapper,
        r.0.esc_count == 0,
        r.0.input.expected@ == t.input.expected@,
        ({
            let key = lower_char(ch);
            if t.mapper@.dom().contains(key) {
                r.1 == Option::<char>::None && match t.mapper@[key] {
                    Key::Char(tc, _) => r.0.input.entered@ == t.input.entered@.push(tc),
                    Key::Absent => r.0.input.entered@ == t.input.entered@,
                }
            } else {
                r.1 == Some(ch) && r.0.input.entered@ == t.input.entered@
            }
        }),
{
    let mut t = t;
    t.esc_count = 0;
    match t.mapper.map(ch) {
        Some(Key::Char(tc, _)) => {
            t.input.push(tc);
            (t, None)
        },
        Some(Key::Absent) => (t, None),
        None => (t, Some(ch)),
    }
}

impl Screen {
    /// Applies one key event to the session: the single, total transition
    /// function of the state machine.
    pub fn handle_event(self, state: &AppState, event: KeyPress) -> (r: StepResult)
        ensures
            step_spec(self, *state, event, r),
    {
        if event.has_other_modifiers {
            return StepResult { screen: self, next: NextStep::Continue, unmapped: None };
        }
        match self {
            Screen::Menu(m) => match event.code {
                KeyCode::Esc => if m.esc_count >= 1 {
                    StepResult { screen: Screen::Menu(m), next: NextStep::Quit, unmapped: None }
                } else {
                    StepResult {
                        screen: Screen::Menu(MenuState { esc_count: 1 }),
                        next: NextStep::Continue,
                        unmapped: None,
                    }
                },
                KeyCode::Enter => StepResult {
                    screen: Screen::Typing(TypingState::new(state)),
                    next: NextStep::Continue,
                    unmapped: None,
                },
                KeyCode::Char(ch) => if ch == 'q' {
                    StepResult { screen: Screen::Menu(m), next: NextStep::Quit, unmapped: None }
                } else {
                    StepResult {
                        screen: Screen::Menu(MenuState { esc_count: 0 }),
                        next: NextStep::Continue,
                        unmapped: None,
                    }
                },
                KeyCode::Backspace | KeyCode::Other => StepResult {
                    screen: Screen::Menu(MenuState { esc_count: 0 }),
                    next: NextStep::Continue,
                    unmapped: None,
                },
            },
            Screen::Typing(t) => match event.code {
                KeyCode::Esc => if t.esc_count >= 1 {
                    StepResult {
                        screen: Screen::Menu(MenuState::new()),
                        next: NextStep::Continue,
                        unmapped: None,
                    }
                } else {
                    let mut t = t;
                    t.esc_count = 1;
                    StepResult {
                        screen: Screen::Typing(t),
                        next: NextStep::Continue,
                        unmapped: None,
                    }
                },
                KeyCode::Enter => StepResult {
                    screen: Screen::Typing(commit(t)),
                    next: NextStep::Continue,
                    unmapped: None,
                },
                KeyCode::Char(ch) => if ch == ' ' {
                    StepResult {
                        screen: Screen::Typing(commit(t)),
                        next: NextStep::Continue,
                        unmapped: None,
                    }
                } else {
                    let (t2, unmapped) = typed(t, ch);
                    StepResult { screen: Screen::Typing(t2), next: NextStep::Continue, unmapped }
                },
                KeyCode::Backspace => {
                    let mut t = t;
                    t.esc_count = 0;
                    t.input.pop();
                    StepResult {
                        screen: Screen::Typing(t),
                        next: NextStep::Continue,
                        unmapped: None,
                    }
                },
                KeyCode::Other => {
                    let mut t = t;
                    t.esc_count = 0;
                    StepResult {
                        screen: Screen::Typing(t),
                        next: NextStep::Continue,
                        unmapped: None,
                    }
                },
            },
        }
    }
}

} // verus!

//! What each key does in each state of the application.

use vstd::prelude::*;
use crate::app::AppState;

verus! {

/// A key as the application tells keys apart.
#[derive(Debug, Clone, Copy, PartialEq, Eq, Structural)]
pub enum Key {
    Char(char),
    Esc,
    Enter,
    Up,
    Down,
    Left,
    Right,
    Other,
}

/// What a key press asks for.
#[derive(Debug, Clone, Copy, PartialEq, Eq, Structural)]
pub enum KeyAction {
    /// Leave the application.
    Quit,
    /// Close the help overlay.
    CloseHelp,
    /// Close the guide overlay.
    CloseGuide,
    SelectPrev,
    SelectNext,
    ConfirmSelection,
    ToggleGuide,
    ToggleHelp,
    ToggleAudio,
    BackToSelection,
    /// Begin the session, with the opening cue.
    Start,
    /// One cycle fewer.
    FewerCycles,
    /// One cycle more.
    MoreCycles,
    TogglePause,
    Reset,
    /// The key means nothing here.
    Ignore,
}

/// The action of a key. An open overlay takes every key and closes, the
/// help before the guide. Otherwise the state decides.
pub open spec fn action_of(state: AppState, show_help: bool, show_guide: bool, key: Key) -> KeyAction {
    if show_help {
        KeyAction::CloseHelp
    } else if show_guide {
        KeyAction::CloseGuide
    } else {
        match state {
            AppState::Selecting => match key {
                Key::Char('q') | Key::Esc => KeyAction::Quit,
                Key::Up | Key::Char('k') => KeyAction::SelectPrev,
                Key::Down | Key::Char('j') => KeyAction::SelectNext,
                Key::Enter | Key::Char(' ') => KeyAction::ConfirmSelection,
                Key::Char('g') => KeyAction::ToggleGuide,
                Key::Char('?') => KeyAction::ToggleHelp,
                _ => KeyAction::Ignore,
            },
            AppState::Ready => match key {
                Key::Char('q') => KeyAction::Quit,
                Key::Esc | Key::Char('b') => KeyAction::BackToSelection,
                Key::Char(' ') | Key::Enter => KeyAction::Start,
                Key::Left => KeyAction::FewerCycles,
                Key::Right => KeyAction::MoreCycles,
                Key::Char('g') => KeyAction::ToggleGuide,
                Key::Char('a') => KeyAction::ToggleAudio,
                Key::Char('?') => KeyAction::ToggleHelp,
                _ => KeyAction::Ignore,
            },
            AppState::Breathing => match key {
                Key::Char('q') => KeyAction::Quit,
                Key::Char(' ') => KeyAction::TogglePause,
                Key::Char('a') => KeyAction::ToggleAudio,
                Key::Char('?') => KeyAction::ToggleHelp,
                _ => KeyAction::Ignore,
            },
            AppState::Paused => match key {
                Key::Char('q') => KeyAction::Quit,
                Key::Esc | Key::Char('b') => KeyAction::BackToSelection,
                Key::Char(' ') => KeyAction::TogglePause,
                Key::Char('r') => KeyAction::Reset,
                Key::Char('?') => KeyAction::ToggleHelp,
                _ => KeyAction::Ignore,
            },
            AppState::Complete => match key {
                Key::Char('q') | Key::Esc => KeyAction::Quit,
                Key::Char('r') => KeyAction::Reset,
                Key::Char('b') => KeyAction::BackToSelection,
                Key::Char('?') => KeyAction::ToggleHelp,
                _ => KeyAction::Ignore,
            },
        }
    }
}

/// Decides what a key press asks for.
pub fn key_action(state: AppState, show_help: bool, show_guide: bool, key: Key) -> (action: KeyAction)
    ensures
        action == action_of(state, show_help, show_guide, key),
        // The session itself can only be steered from the state it is for.
        action == KeyAction::Start ==> state == AppState::Ready,
        action == KeyAction::FewerCycles || action == KeyAction::MoreCycles ==> state
            == AppState::Ready,
        action == KeyAction::TogglePause ==> state == AppState::Breathing || state
            == AppState::Paused,
        action == KeyAction::SelectPrev || action == KeyAction::SelectNext || action
            == KeyAction::ConfirmSelection ==> state == AppState::Selecting,
        action == KeyAction::Reset ==> state == AppState::Paused || state == AppState::Complete,
{
    if show_help {
        return KeyAction::CloseHelp;
    }
    if show_guide {
        return KeyAction::CloseGuide;
    }
    match state {
        AppState::Selecting => match key {
            Key::Char('q') | Key::Esc => KeyAction::Quit,
            Key::Up | Key::Char('k') => KeyAction::SelectPrev,
            Key::Down | Key::Char('j') => KeyAction::SelectNext,
            Key::Enter | Key::Char(' ') => KeyAction::ConfirmSelection,
            Key::Char('g') => KeyAction::ToggleGuide,
            Key::Char('?') => KeyAction::ToggleHelp,
            _ => KeyAction::Ignore,
        },
        AppState::Ready => match key {
            Key::Char('q') => KeyAction::Quit,
            Key::Esc | Key::Char('b') => KeyAction::BackToSelection,
            Key::Char(' ') | Key::Enter => KeyAction::Start,
            Key::Left => KeyAction::FewerCycles,
            Key::Right => KeyAction::MoreCycles,
            Key::Char('g') => KeyAction::ToggleGuide,
            Key::Char('a') => KeyAction::ToggleAudio,
            Key::Char('?') => KeyAction::ToggleHelp,
            _ => KeyAction::Ignore,
        },
        AppState::Breathing => match key {
            Key::Char('q') => KeyAction::Quit,
            Key::Char(' ') => KeyAction::TogglePause,
            Key::Char('a') => KeyAction::ToggleAudio,
            Key::Char('?') => KeyAction::ToggleHelp,
            _ => KeyAction::Ignore,
        },
        AppState::Paused => match key {
            Key::Char('q') => KeyAction::Quit,
            Key::Esc | Key::Char('b') => KeyAction::BackToSelection,
            Key::Char(' ') => KeyAction::TogglePause,
            Key::Char('r') => KeyAction::Reset,
            Key::Char('?') => KeyAction::ToggleHelp,
            _ => KeyAction::Ignore,
        },
        AppState::Complete => match key {
            Key::Char('q') | Key::Esc => KeyAction::Quit,
            Key::Char('r') => KeyAction::Reset,
            Key::Char('b') => KeyAction::BackToSelection,
            Key::Char('?') => KeyAction::ToggleHelp,
            _ => KeyAction::Ignore,
        },
    }
}

} // verus!

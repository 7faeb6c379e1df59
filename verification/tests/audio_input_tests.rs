use breathe::app::AppState;
use breathe::audio::{tone_after_tick, PhaseTone};
use breathe::input::{key_action, Key, KeyAction};
use breathe::techniques::PhaseName;

#[test]
fn tones_have_their_pitch_and_length() {
    assert_eq!((PhaseTone::Inhale.frequency(), PhaseTone::Inhale.duration_ms()), (440_000_000, 150));
    assert_eq!((PhaseTone::Hold.frequency(), PhaseTone::Hold.duration_ms()), (523_250_000, 100));
    assert_eq!((PhaseTone::Exhale.frequency(), PhaseTone::Exhale.duration_ms()), (349_230_000, 150));
    assert_eq!(
        (PhaseTone::HoldEmpty.frequency(), PhaseTone::HoldEmpty.duration_ms()),
        (293_660_000, 100)
    );
    assert_eq!((PhaseTone::Start.frequency(), PhaseTone::Start.duration_ms()), (523_250_000, 200));
    assert_eq!(
        (PhaseTone::Complete.frequency(), PhaseTone::Complete.duration_ms()),
        (659_250_000, 300)
    );
}

#[test]
fn each_phase_has_its_tone() {
    assert_eq!(PhaseTone::for_phase(PhaseName::Inhale), PhaseTone::Inhale);
    assert_eq!(PhaseTone::for_phase(PhaseName::Hold), PhaseTone::Hold);
    assert_eq!(PhaseTone::for_phase(PhaseName::Exhale), PhaseTone::Exhale);
    assert_eq!(PhaseTone::for_phase(PhaseName::HoldAfterExhale), PhaseTone::HoldEmpty);
}

#[test]
fn a_phase_change_calls_for_the_tone_of_the_new_phase() {
    let tone = tone_after_tick(true, AppState::Breathing, 0, AppState::Breathing, 1, PhaseName::Hold);
    assert_eq!(tone, Some(PhaseTone::Hold));
    let tone = tone_after_tick(true, AppState::Breathing, 3, AppState::Breathing, 0, PhaseName::Inhale);
    assert_eq!(tone, Some(PhaseTone::Inhale));
}

#[test]
fn no_tone_without_a_change_or_with_the_sound_off() {
    let b = AppState::Breathing;
    assert_eq!(tone_after_tick(true, b, 1, b, 1, PhaseName::Hold), None);
    assert_eq!(tone_after_tick(false, b, 0, b, 1, PhaseName::Hold), None);
    assert_eq!(tone_after_tick(false, b, 1, AppState::Complete, 0, PhaseName::Inhale), None);
    assert_eq!(tone_after_tick(true, AppState::Paused, 0, AppState::Paused, 1, PhaseName::Hold), None);
    assert_eq!(
        tone_after_tick(true, AppState::Complete, 0, AppState::Complete, 0, PhaseName::Inhale),
        None
    );
}

#[test]
fn completing_the_session_calls_for_the_closing_tone() {
    let tone =
        tone_after_tick(true, AppState::Breathing, 1, AppState::Complete, 0, PhaseName::Inhale);
    assert_eq!(tone, Some(PhaseTone::Complete));
}

#[test]
fn an_open_overlay_takes_every_key() {
    for state in [AppState::Selecting, AppState::Ready, AppState::Breathing, AppState::Paused, AppState::Complete] {
        for key in [Key::Char('q'), Key::Esc, Key::Enter, Key::Other] {
            assert_eq!(key_action(state, true, false, key), KeyAction::CloseHelp);
            assert_eq!(key_action(state, true, true, key), KeyAction::CloseHelp);
            assert_eq!(key_action(state, false, true, key), KeyAction::CloseGuide);
        }
    }
}

#[test]
fn keys_while_selecting() {
    let act = |key| key_action(AppState::Selecting, false, false, key);
    assert_eq!(act(Key::Char('q')), KeyAction::Quit);
    assert_eq!(act(Key::Esc), KeyAction::Quit);
    assert_eq!(act(Key::Up), KeyAction::SelectPrev);
    assert_eq!(act(Key::Char('k')), KeyAction::SelectPrev);
    assert_eq!(act(Key::Down), KeyAction::SelectNext);
    assert_eq!(act(Key::Char('j')), KeyAction::SelectNext);
    assert_eq!(act(Key::Enter), KeyAction::ConfirmSelection);
    assert_eq!(act(Key::Char(' ')), KeyAction::ConfirmSelection);
    assert_eq!(act(Key::Char('g')), KeyAction::ToggleGuide);
    assert_eq!(act(Key::Char('?')), KeyAction::ToggleHelp);
    assert_eq!(act(Key::Char('a')), KeyAction::Ignore);
    assert_eq!(act(Key::Left), KeyAction::Ignore);
    assert_eq!(act(Key::Other), KeyAction::Ignore);
}

#[test]
fn keys_while_ready() {
    let act = |key| key_action(AppState::Ready, false, false, key);
    assert_eq!(act(Key::Char('q')), KeyAction::Quit);
    assert_eq!(act(Key::Esc), KeyAction::BackToSelection);
    assert_eq!(act(Key::Char('b')), KeyAction::BackToSelection);
    assert_eq!(act(Key::Char(' ')), KeyAction::Start);
    assert_eq!(act(Key::Enter), KeyAction::Start);
    assert_eq!(act(Key::Left), KeyAction::FewerCycles);
    assert_eq!(act(Key::Right), KeyAction::MoreCycles);
    assert_eq!(act(Key::Char('g')), KeyAction::ToggleGuide);
    assert_eq!(act(Key::Char('a')), KeyAction::ToggleAudio);
    assert_eq!(act(Key::Char('?')), KeyAction::ToggleHelp);
    assert_eq!(act(Key::Up), KeyAction::Ignore);
    assert_eq!(act(Key::Char('r')), KeyAction::Ignore);
}

#[test]
fn keys_while_breathing() {
    let act = |key| key_action(AppState::Breathing, false, false, key);
    assert_eq!(act(Key::Char('q')), KeyAction::Quit);
    assert_eq!(act(Key::Char(' ')), KeyAction::TogglePause);
    assert_eq!(act(Key::Char('a')), KeyAction::ToggleAudio);
    assert_eq!(act(Key::Char('?')), KeyAction::ToggleHelp);
    assert_eq!(act(Key::Esc), KeyAction::Ignore);
    assert_eq!(act(Key::Enter), KeyAction::Ignore);
    assert_eq!(act(Key::Char('b')), KeyAction::Ignore);
    assert_eq!(act(Key::Char('r')), KeyAction::Ignore);
}

#[test]
fn keys_while_paused() {
    let act = |key| key_action(AppState::Paused, false, false, key);
    assert_eq!(act(Key::Char('q')), KeyAction::Quit);
    assert_eq!(act(Key::Esc), KeyAction::BackToSelection);
    assert_eq!(act(Key::Char('b')), KeyAction::BackToSelection);
    assert_eq!(act(Key::Char(' ')), KeyAction::TogglePause);
    assert_eq!(act(Key::Char('r')), KeyAction::Reset);
    assert_eq!(act(Key::Char('?')), KeyAction::ToggleHelp);
    assert_eq!(act(Key::Char('a')), KeyAction::Ignore);
}

#[test]
fn keys_when_complete() {
    let act = |key| key_action(AppState::Complete, false, false, key);
    assert_eq!(act(Key::Char('q')), KeyAction::Quit);
    assert_eq!(act(Key::Esc), KeyAction::Quit);
    assert_eq!(act(Key::Char('r')), KeyAction::Reset);
    assert_eq!(act(Key::Char('b')), KeyAction::BackToSelection);
    assert_eq!(act(Key::Char('?')), KeyAction::ToggleHelp);
    assert_eq!(act(Key::Char(' ')), KeyAction::Ignore);
}

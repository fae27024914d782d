use typing_session::app::{Action, App, Key, KeyInput, KeyKind, START_SELECTION};
use typing_session::config::{
    ConfigOption, Mode, SessionConfig, DEFAULT_BATCH_SIZE, DEFAULT_TIME_LIMIT_MS,
};
use typing_session::frame::{reset_game_state, update_game_state};
use typing_session::judgment::JudgmentState;
use typing_session::metrics::MetricsRecorder;
use typing_session::model::{GameState, KeystrokeOutcome, RejectReason};
use typing_session::session::TypingSession;

fn press(key: Key) -> KeyInput {
    KeyInput { key, kind: KeyKind::Press }
}

fn chars(text: &str) -> Vec<char> {
    text.chars().collect()
}

fn app_with(text: &str) -> App {
    let mut app = App::new();
    let config = app.session.config();
    app.restart(config, chars(text));
    app
}

#[test]
fn new_app() {
    let app = App::new();
    assert!(!app.exit);
    assert!(!app.config);
    assert!(!app.tab_pressed);
    assert_eq!(app.selected_config, START_SELECTION);
    assert_eq!(
        app.session.config(),
        SessionConfig::new(Mode::TimeLimited { limit_ms: DEFAULT_TIME_LIMIT_MS })
    );
    assert!(app.session.reference().is_empty());
    assert_eq!(app.session.phase(), GameState::NotStarted);
    assert_eq!(app.recorder.chars_at_last_sample(), 0);
}

#[test]
fn escape_asks_to_leave() {
    let mut app = app_with("cat dog");
    assert_eq!(app.handle_key_event(press(Key::Esc), 0), Action::Nothing);
    assert!(app.exit);
}

#[test]
fn only_presses_count() {
    let mut app = app_with("cat dog");
    for kind in [KeyKind::Release, KeyKind::Repeat] {
        for key in [Key::Esc, Key::Tab, Key::Up, Key::Char('c'), Key::Enter] {
            assert_eq!(app.handle_key_event(KeyInput { key, kind }, 0), Action::Nothing);
        }
    }
    assert!(!app.exit);
    assert!(!app.tab_pressed);
    assert!(!app.config);
    assert_eq!(app.session.cursor(), 0);
    assert_eq!(app.session.phase(), GameState::NotStarted);
}

#[test]
fn characters_go_to_the_session() {
    let mut app = app_with("cat dog");
    assert_eq!(app.handle_key_event(press(Key::Char('c')), 10), Action::Nothing);
    assert_eq!(app.handle_key_event(press(Key::Char('x')), 20), Action::Nothing);
    assert_eq!(app.session.cursor(), 2);
    assert_eq!(app.session.start_time(), Some(10));
    assert_eq!(app.session.judgments()[0], JudgmentState::Correct);
    assert_eq!(app.session.judgments()[1], JudgmentState::Incorrect);
    assert_eq!(app.handle_key_event(press(Key::Backspace), 30), Action::Nothing);
    assert_eq!(app.session.cursor(), 1);
    assert_eq!(app.session.error_count(), 0);
}

#[test]
fn typing_takes_the_focus_off_the_bar() {
    let mut app = app_with("cat dog");
    app.handle_key_event(press(Key::Up), 0);
    assert!(app.config);
    // A rejected character leaves the focus where it is.
    app.handle_key_event(press(Key::Char(' ')), 0);
    assert!(app.config);
    app.handle_key_event(press(Key::Char('c')), 0);
    assert!(!app.config);
    app.handle_key_event(press(Key::Up), 0);
    assert!(app.config);
    app.handle_key_event(press(Key::Backspace), 0);
    assert!(!app.config);
    app.handle_key_event(press(Key::Up), 0);
    app.handle_key_event(press(Key::Down), 0);
    assert!(!app.config);
}

#[test]
fn bar_takes_no_focus_while_results_show() {
    let mut app = app_with("cat dog");
    app.handle_key_event(press(Key::Char('c')), 0);
    app.on_tick(DEFAULT_TIME_LIMIT_MS + 1);
    assert_eq!(app.session.phase(), GameState::Results);
    app.handle_key_event(press(Key::Up), 0);
    assert!(!app.config);
    assert_eq!(app.handle_key_event(press(Key::Char('a')), 0), Action::Nothing);
    assert_eq!(app.session.cursor(), 1);
}

#[test]
fn arrows_move_the_selection_on_the_focused_bar() {
    let mut app = app_with("cat dog");
    app.handle_key_event(press(Key::Left), 0);
    app.handle_key_event(press(Key::Right), 0);
    assert_eq!(app.selected_config, START_SELECTION);
    app.handle_key_event(press(Key::Up), 0);
    app.handle_key_event(press(Key::Right), 0);
    assert_eq!(app.selected_config, 4);
    app.handle_key_event(press(Key::Right), 0);
    assert_eq!(app.selected_config, 5);
    app.handle_key_event(press(Key::Right), 0);
    assert_eq!(app.selected_config, 7);
    app.handle_key_event(press(Key::Left), 0);
    app.handle_key_event(press(Key::Left), 0);
    app.handle_key_event(press(Key::Left), 0);
    app.handle_key_event(press(Key::Left), 0);
    assert_eq!(app.selected_config, 1);
    app.handle_key_event(press(Key::Left), 0);
    app.handle_key_event(press(Key::Left), 0);
    assert_eq!(app.selected_config, 10);
}

#[test]
fn enter_on_the_bar_asks_for_the_chosen_settings() {
    let mut app = app_with("cat dog");
    assert_eq!(app.handle_key_event(press(Key::Enter), 0), Action::Nothing);
    app.handle_key_event(press(Key::Up), 0);
    app.handle_key_event(press(Key::Right), 0);
    let action = app.handle_key_event(press(Key::Enter), 0);
    let chosen = SessionConfig::new(Mode::WordLimited { batch_size: DEFAULT_BATCH_SIZE });
    assert_eq!(action, Action::Configure(chosen));
    // Nothing has changed yet: the front end comes back with the text.
    assert_eq!(
        app.session.config(),
        SessionConfig::new(Mode::TimeLimited { limit_ms: DEFAULT_TIME_LIMIT_MS })
    );
    app.handle_key_event(press(Key::Char('c')), 5);
    app.handle_key_event(press(Key::Tab), 6);
    app.restart(chosen, chars("new words"));
    assert_eq!(app.session.config(), chosen);
    assert_eq!(app.session.reference(), &chars("new words"));
    assert_eq!(app.session.cursor(), 0);
    assert_eq!(app.session.phase(), GameState::NotStarted);
    assert!(!app.tab_pressed);
    assert_eq!(app.selected_config, 4);
}

#[test]
fn tab_then_enter_asks_for_a_restart() {
    let mut app = app_with("cat dog");
    app.handle_key_event(press(Key::Char('c')), 5);
    app.handle_key_event(press(Key::Tab), 6);
    assert!(app.tab_pressed);
    let action = app.handle_key_event(press(Key::Enter), 7);
    assert_eq!(action, Action::Configure(app.session.config()));
    assert_eq!(app.session.cursor(), 1);
}

#[test]
fn enter_on_a_toggle() {
    let mut app = app_with("cat dog");
    app.handle_key_event(press(Key::Up), 0);
    app.handle_key_event(press(Key::Left), 0);
    assert_eq!(app.selected_config, 1);
    let action = app.handle_key_event(press(Key::Enter), 0);
    let expected = app.session.config().select(ConfigOption::Numbers);
    assert!(expected.numbers);
    assert_eq!(action, Action::Configure(expected));
}

#[test]
fn typed_out_text_asks_for_the_next_batch() {
    let mut app = app_with("hi");
    assert_eq!(app.handle_key_event(press(Key::Char('h')), 0), Action::Nothing);
    assert_eq!(app.handle_key_event(press(Key::Char('i')), 1), Action::NextBatch);
    app.next_batch(chars("yo"));
    assert_eq!(app.session.reference(), &chars("yo"));
    assert_eq!(app.session.cursor(), 0);
    assert_eq!(app.session.total_typed(), 2);
    assert_eq!(app.session.phase(), GameState::Started);
    assert_eq!(app.handle_key_event(press(Key::Char('y')), 2), Action::Nothing);
    assert_eq!(app.session.total_typed(), 3);
}

#[test]
fn word_test_ends_with_its_text() {
    let mut app = App::new();
    let words = SessionConfig::new(Mode::WordLimited { batch_size: 2 });
    app.restart(words, chars("hi yo"));
    for ch in "hi y".chars() {
        assert_eq!(app.handle_key_event(press(Key::Char(ch)), 0), Action::Nothing);
    }
    app.on_tick(10);
    assert_eq!(app.session.phase(), GameState::Started);
    assert_eq!(app.handle_key_event(press(Key::Char('o')), 20), Action::Nothing);
    assert_eq!(app.session.cursor(), 5);
    app.on_tick(30);
    assert_eq!(app.session.phase(), GameState::Results);
}

#[test]
fn app_without_text_asks_for_text() {
    let mut app = App::new();
    assert_eq!(app.handle_key_event(press(Key::Char('a')), 0), Action::NextBatch);
    assert_eq!(app.session.phase(), GameState::NotStarted);
    assert_eq!(app.handle_key_event(press(Key::Backspace), 0), Action::Nothing);
}

#[test]
fn tick_ends_the_test_and_samples() {
    let mut app = app_with("cat dog cat dog");
    assert_eq!(app.on_tick(100), None);
    app.handle_key_event(press(Key::Char('c')), 100);
    app.handle_key_event(press(Key::Char('a')), 200);
    assert_eq!(app.on_tick(900), None);
    assert_eq!(app.on_tick(1_100), Some((120, 0)));
    app.handle_key_event(press(Key::Char('x')), 1_200);
    assert_eq!(app.on_tick(2_100), Some((60, 1)));
    assert_eq!(app.session.phase(), GameState::Started);
    // The limit runs from the first keystroke; the test is over before the
    // sample of its last second would be taken.
    assert_eq!(app.on_tick(100 + DEFAULT_TIME_LIMIT_MS), None);
    assert_eq!(app.session.phase(), GameState::Results);
    assert_eq!(app.session.speed_samples(), &vec![120, 60]);
    assert_eq!(app.session.error_samples(), &vec![0, 1]);
}

#[test]
fn other_keys_do_nothing() {
    let mut app = app_with("cat dog");
    assert_eq!(app.handle_key_event(press(Key::Other), 0), Action::Nothing);
    assert!(!app.exit && !app.config && !app.tab_pressed);
    assert_eq!(app.session.cursor(), 0);
}

#[test]
fn frame_applies_input_then_looks_at_the_clock() {
    let config = SessionConfig::new(Mode::TimeLimited { limit_ms: 1_000 });
    let mut session = TypingSession::new(config, chars("cat dog"));
    assert_eq!(update_game_state(&mut session, None, 50_000), None);
    assert_eq!(session.phase(), GameState::NotStarted);
    assert_eq!(
        update_game_state(&mut session, Some(' '), 50_000),
        Some(KeystrokeOutcome::Rejected(RejectReason::LeadingSpace))
    );
    assert_eq!(session.phase(), GameState::NotStarted);
    assert_eq!(
        update_game_state(&mut session, Some('c'), 50_000),
        Some(KeystrokeOutcome::Accepted)
    );
    assert_eq!(session.phase(), GameState::Started);
    assert_eq!(session.start_time(), Some(50_000));
    assert_eq!(update_game_state(&mut session, None, 50_999), None);
    assert_eq!(session.phase(), GameState::Started);
    // The character of the frame in which the time runs out still counts.
    assert_eq!(
        update_game_state(&mut session, Some('a'), 51_000),
        Some(KeystrokeOutcome::Accepted)
    );
    assert_eq!(session.cursor(), 2);
    assert_eq!(session.phase(), GameState::Results);
    assert_eq!(
        update_game_state(&mut session, Some('t'), 51_016),
        Some(KeystrokeOutcome::Rejected(RejectReason::Finished))
    );
    assert_eq!(session.cursor(), 2);
}

#[test]
fn frame_ends_a_word_test_on_its_last_character() {
    let config = SessionConfig::new(Mode::WordLimited { batch_size: 1 });
    let mut session = TypingSession::new(config, chars("hi"));
    update_game_state(&mut session, Some('h'), 0);
    assert_eq!(session.phase(), GameState::Started);
    assert_eq!(update_game_state(&mut session, Some('i'), 16), Some(KeystrokeOutcome::Completed));
    assert_eq!(session.phase(), GameState::Results);
}

#[test]
fn reset_game_state_starts_over_on_the_same_text() {
    let config = SessionConfig::new(Mode::TimeLimited { limit_ms: 1_000 });
    let mut session = TypingSession::new(config, chars("cat dog"));
    let mut recorder = MetricsRecorder::new();
    for ch in "cat x".chars() {
        session.apply_keystroke(ch, 0);
    }
    recorder.poll(&mut session, 0);
    recorder.sample(&mut session);
    session.tick(2_000);
    assert_eq!(session.phase(), GameState::Results);
    reset_game_state(&mut session, &mut recorder);
    assert_eq!(session.reference(), &chars("cat dog"));
    assert_eq!(session.config(), config);
    assert_eq!(session.judgments(), &vec![JudgmentState::Untouched; 7]);
    assert!(session.typed().is_empty());
    assert_eq!(session.cursor(), 0);
    assert_eq!(session.phase(), GameState::NotStarted);
    assert_eq!(session.start_time(), None);
    assert_eq!(session.words_completed(), 0);
    assert_eq!(session.correct_count(), 0);
    assert_eq!(session.error_count(), 0);
    assert_eq!(session.errors_this_tick(), 0);
    assert!(session.speed_samples().is_empty());
    assert!(session.error_samples().is_empty());
    assert_eq!(recorder.chars_at_last_sample(), 0);
    assert_eq!(recorder.last_boundary(), 0);
}

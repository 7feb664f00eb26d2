use gojuon_core::actions::CoreAction;
use gojuon_core::input::{
    command_for_key, handle_column_options_key, handle_column_unlocked_key, handle_finished_key,
    handle_in_progress_key, handle_menu_key, handle_quit_prompt_key, handle_showing_feedback_key,
    session_clock_running, starts_session_clock, Key, KeyCommand, RenderStyle,
};
use gojuon_core::state::{GameMode, GameState, GameStateKind, QuitPrompt};

#[test]
fn prompt_keys() {
    assert_eq!(handle_quit_prompt_key(Key::Char('y')), KeyCommand::Dispatch(CoreAction::ConfirmPrompt));
    assert_eq!(handle_quit_prompt_key(Key::Enter), KeyCommand::Dispatch(CoreAction::ConfirmPrompt));
    assert_eq!(handle_quit_prompt_key(Key::Char('N')), KeyCommand::Dispatch(CoreAction::CancelPrompt));
    assert_eq!(handle_quit_prompt_key(Key::Char('x')), KeyCommand::Ignore);
}

#[test]
fn screen_keys() {
    assert_eq!(handle_in_progress_key(Key::Char('a')), KeyCommand::Dispatch(CoreAction::InputChar('a')));
    assert_eq!(handle_in_progress_key(Key::Backspace), KeyCommand::Dispatch(CoreAction::Backspace));
    assert_eq!(handle_showing_feedback_key(Key::Char(' ')), KeyCommand::Dispatch(CoreAction::ContinueAfterFeedback));
    assert_eq!(handle_showing_feedback_key(Key::Char('a')), KeyCommand::Ignore);
    assert_eq!(handle_menu_key(3, Key::Enter), KeyCommand::ToggleRenderStyle);
    assert_eq!(handle_menu_key(1, Key::Enter), KeyCommand::Dispatch(CoreAction::StartFromMenu));
    assert_eq!(handle_menu_key(1, Key::Left), KeyCommand::Ignore);
    assert_eq!(handle_menu_key(0, Key::Char('j')), KeyCommand::Dispatch(CoreAction::MenuDown));
    assert_eq!(handle_column_options_key(4, Key::Esc), KeyCommand::LeaveColumnOptions);
    assert_eq!(handle_column_options_key(10, Key::Char(' ')), KeyCommand::Dispatch(CoreAction::ToggleOptionOrStart));
    assert_eq!(handle_column_options_key(11, Key::Enter), KeyCommand::Ignore);
    assert_eq!(handle_column_options_key(0, Key::Char('s')), KeyCommand::Dispatch(CoreAction::StartFromOptions));
    assert_eq!(handle_finished_key(Key::Enter), KeyCommand::Dispatch(CoreAction::FinishedToMenu));
    assert_eq!(handle_column_unlocked_key(Key::Enter), KeyCommand::Dispatch(CoreAction::ContinueAfterUnlock));
}

#[test]
fn routing_prefers_open_prompt() {
    let mut game = GameState { state: GameStateKind::InProgress, ..GameState::default() };
    assert_eq!(command_for_key(&game, Key::Char('y')), KeyCommand::Dispatch(CoreAction::InputChar('y')));
    game.quit_prompt = Some(QuitPrompt::AbandonSession);
    assert_eq!(command_for_key(&game, Key::Char('y')), KeyCommand::Dispatch(CoreAction::ConfirmPrompt));
}

#[test]
fn session_clock() {
    let mut game = GameState { menu_selection: 1, ..GameState::default() };
    assert!(starts_session_clock(&game, CoreAction::StartFromMenu));
    assert!(!starts_session_clock(&game, CoreAction::MenuDown));
    game.menu_selection = 0;
    assert!(!starts_session_clock(&game, CoreAction::StartFromMenu));
    game.mode = GameMode::BestOf(20);
    game.state = GameStateKind::ShowingFeedback;
    assert!(session_clock_running(&game));
    game.state = GameStateKind::Finished;
    assert!(!session_clock_running(&game));
}

#[test]
fn render_style_toggles() {
    assert_eq!(RenderStyle::Ascii.toggled(), RenderStyle::Braille);
    assert_eq!(RenderStyle::Braille.toggled().label(), "Ascii");
    let mut game = GameState { state: GameStateKind::ColumnOptions, ..GameState::default() };
    game.options_feedback = Some("x".to_string());
    game.leave_column_options();
    assert_eq!(game.state, GameStateKind::Menu);
    assert_eq!(game.options_feedback, None);
}

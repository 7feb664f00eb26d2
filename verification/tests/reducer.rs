use gojuon_core::actions::{CoreAction, CoreEffect};
use gojuon_core::reducer::{can_reduce, reduce};
use gojuon_core::state::{GameMode, GameState, GameStateKind, QuitPrompt};

#[test]
fn submit_answer_emits_best_of_persist_once() {
    let mut state = GameState {
        mode: GameMode::BestOf(1),
        current_index: 0,
        input: "a".to_string(),
        session_elapsed_secs: 12,
        ..GameState::default()
    };

    let first = reduce(&mut state, CoreAction::SubmitAnswer);
    assert_eq!(first.len(), 1);
    assert!(state.recorded_score_for_session);

    state.current_index = 0;
    state.input = "a".to_string();
    let second = reduce(&mut state, CoreAction::SubmitAnswer);
    assert!(second.is_empty());
}

#[test]
fn persisted_score_carries_final_counters() {
    let mut state = GameState {
        mode: GameMode::BestOf(2),
        correct: 1,
        current_index: 5,
        input: "ko".to_string(),
        session_elapsed_secs: 30,
        ..GameState::default()
    };
    let effects = reduce(&mut state, CoreAction::SubmitAnswer);
    assert_eq!(
        effects,
        vec![CoreEffect::PersistBestOfScore { correct: 1, incorrect: 1, elapsed_secs: 30, points: 45 }]
    );
    assert_eq!(state.state, GameStateKind::Finished);
}

#[test]
fn menu_cursor_stays_on_the_menu() {
    let mut state = GameState::default();
    reduce(&mut state, CoreAction::MenuUp);
    assert_eq!(state.menu_selection, 0);
    for _ in 0..5 {
        reduce(&mut state, CoreAction::MenuDown);
    }
    assert_eq!(state.menu_selection, 3);
    reduce(&mut state, CoreAction::MenuUp);
    assert_eq!(state.menu_selection, 2);
}

#[test]
fn options_cursor_and_toggles() {
    let mut state = GameState::default();
    reduce(&mut state, CoreAction::OptionsUp);
    assert_eq!(state.options_selection, 0);
    reduce(&mut state, CoreAction::ToggleOptionOrStart);
    assert!(!state.selected_columns[0]);
    for _ in 0..20 {
        reduce(&mut state, CoreAction::OptionsDown);
    }
    assert_eq!(state.options_selection, 10);
    state.selected_columns = [false; 10];
    reduce(&mut state, CoreAction::ToggleOptionOrStart);
    assert_eq!(state.options_feedback.as_deref(), Some("Enable at least one column to start"));
    assert_eq!(state.state, GameStateKind::Menu);
    state.selected_columns[3] = true;
    reduce(&mut state, CoreAction::StartFromOptions);
    assert_eq!(state.options_feedback, None);
    assert_eq!(state.state, GameStateKind::InProgress);
    assert!((15..20).contains(&state.current_index));
}

#[test]
fn prompts_confirm_and_cancel() {
    let mut state = GameState::default();
    reduce(&mut state, CoreAction::ConfirmPrompt);
    assert!(state.running);
    reduce(&mut state, CoreAction::OpenExitPrompt);
    assert_eq!(state.quit_prompt, Some(QuitPrompt::ExitApplication));
    reduce(&mut state, CoreAction::CancelPrompt);
    assert_eq!(state.quit_prompt, None);
    reduce(&mut state, CoreAction::OpenExitPrompt);
    reduce(&mut state, CoreAction::ConfirmPrompt);
    assert!(!state.running);
    assert_eq!(state.quit_prompt, None);

    let mut state = GameState { state: GameStateKind::InProgress, ..GameState::default() };
    reduce(&mut state, CoreAction::OpenAbandonPrompt);
    reduce(&mut state, CoreAction::ConfirmPrompt);
    assert_eq!(state.state, GameStateKind::Menu);
    assert!(state.running);
}

#[test]
fn typing_backspace_and_timer() {
    let mut state = GameState::default();
    reduce(&mut state, CoreAction::Backspace);
    assert_eq!(state.input, "");
    reduce(&mut state, CoreAction::InputChar('k'));
    reduce(&mut state, CoreAction::InputChar('a'));
    assert_eq!(state.input, "ka");
    reduce(&mut state, CoreAction::Backspace);
    assert_eq!(state.input, "k");
    reduce(&mut state, CoreAction::SetElapsedSeconds(99));
    assert_eq!(state.session_elapsed_secs, 99);
}

#[test]
fn a_full_best_of_round_trip() {
    let mut state = GameState { menu_selection: 1, ..GameState::default() };
    reduce(&mut state, CoreAction::StartFromMenu);
    assert_eq!(state.state, GameStateKind::ColumnOptions);
    reduce(&mut state, CoreAction::StartFromOptions);
    assert_eq!(state.state, GameStateKind::InProgress);
    assert_eq!(state.deck.len(), 46);
    reduce(&mut state, CoreAction::InputChar('x'));
    reduce(&mut state, CoreAction::SubmitAnswer);
    assert_eq!(state.state, GameStateKind::ShowingFeedback);
    assert_eq!(state.incorrect, 1);
    reduce(&mut state, CoreAction::ContinueAfterFeedback);
    assert_eq!(state.state, GameStateKind::InProgress);
    assert_eq!(state.last_feedback, None);
    assert_eq!(state.deck_position, 2);
    reduce(&mut state, CoreAction::FinishedToMenu);
    assert_eq!(state.state, GameStateKind::Menu);
}

#[test]
fn continue_after_unlock_clears_the_unlock() {
    let mut state = GameState::default();
    reduce(&mut state, CoreAction::StartFromMenu);
    assert_eq!(state.mode, GameMode::Progressive);
    state.newly_unlocked_column = Some(1);
    state.state = GameStateKind::ColumnUnlocked;
    reduce(&mut state, CoreAction::ContinueAfterUnlock);
    assert_eq!(state.newly_unlocked_column, None);
    assert_eq!(state.state, GameStateKind::InProgress);
    assert!(state.current_index < 5);
}

#[test]
fn can_reduce_rejects_what_would_overflow_or_index_out() {
    let state = GameState::default();
    assert!(can_reduce(&state, CoreAction::MenuDown));
    assert!(can_reduce(&state, CoreAction::SubmitAnswer));
    assert!(can_reduce(&state, CoreAction::ContinueAfterFeedback));
    let far = GameState { options_selection: 11, ..GameState::default() };
    assert!(!can_reduce(&far, CoreAction::ToggleOptionOrStart));
    let off_table = GameState { current_index: 46, ..GameState::default() };
    assert!(!can_reduce(&off_table, CoreAction::SubmitAnswer));
    let full = GameState { correct: u32::MAX - 1, incorrect: 1, ..GameState::default() };
    assert!(!can_reduce(&full, CoreAction::SubmitAnswer));
    let mut empty = GameState::default();
    empty.selected_columns = [false; 10];
    assert!(!can_reduce(&empty, CoreAction::ContinueAfterFeedback));
    let max_menu = GameState { menu_selection: usize::MAX, ..GameState::default() };
    assert!(!can_reduce(&max_menu, CoreAction::MenuDown));
    let late = GameState {
        mode: GameMode::BestOf(1),
        session_elapsed_secs: 1u64 << 63,
        input: "a".to_string(),
        ..GameState::default()
    };
    assert!(!can_reduce(&late, CoreAction::SubmitAnswer));
    let recorded = GameState { recorded_score_for_session: true, ..late.clone() };
    assert!(can_reduce(&recorded, CoreAction::SubmitAnswer));
}

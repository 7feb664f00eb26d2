use gojuon_core::state::{GameMode, GameState, GameStateKind};

fn accuracy(state: &GameState) -> f64 {
    let total = state.correct + state.incorrect;
    if total == 0 {
        return 0.0;
    }
    (state.correct as f64 / total as f64) * 100.0
}

#[test]
fn accuracy_and_points_follow_expected_rules() {
    let state = GameState {
        correct: 15,
        incorrect: 5,
        session_elapsed_secs: 42,
        ..GameState::default()
    };
    assert_eq!(accuracy(&state), 75.0);
    assert_eq!(state.best_of_points(), 1333);
}

#[test]
fn best_of_reaches_limit() {
    let state = GameState {
        mode: GameMode::BestOf(20),
        correct: 19,
        incorrect: 1,
        ..GameState::default()
    };
    assert!(state.reached_mode_limit());
}

#[test]
fn progressive_unlock_requires_mastery() {
    let mut state = GameState {
        mode: GameMode::Progressive,
        progressive_unlocked_columns: 1,
        ..GameState::default()
    };
    assert!(!state.is_column_mastered(0));
    for idx in 0..5 {
        state.kana_correct_counts[idx] = 3;
    }
    assert!(state.is_column_mastered(0));
}

#[test]
fn points_can_be_negative_and_count_elapsed_seconds() {
    let state = GameState {
        correct: 1,
        incorrect: 10,
        session_elapsed_secs: 7,
        ..GameState::default()
    };
    assert_eq!(state.best_of_points(), 100 - 250 - 7);
    let huge = GameState { session_elapsed_secs: u64::MAX, ..GameState::default() };
    assert_eq!(huge.best_of_points(), 1);
}

#[test]
fn mode_limits() {
    let infinite = GameState { correct: 1000, ..GameState::default() };
    assert!(!infinite.reached_mode_limit());
    let short = GameState { mode: GameMode::BestOf(20), correct: 10, incorrect: 9, ..GameState::default() };
    assert!(!short.reached_mode_limit());
    let mut progressive = GameState {
        mode: GameMode::Progressive,
        progressive_unlocked_columns: 10,
        ..GameState::default()
    };
    assert!(!progressive.reached_mode_limit());
    for idx in 43..46 {
        progressive.kana_correct_counts[idx] = 3;
    }
    assert!(progressive.reached_mode_limit());
    progressive.progressive_unlocked_columns = 9;
    assert!(!progressive.reached_mode_limit());
}

#[test]
fn select_mode_by_menu_row() {
    let mut state = GameState::default();
    assert_eq!(state.select_mode(), GameMode::Progressive);
    state.menu_selection = 1;
    assert_eq!(state.select_mode(), GameMode::BestOf(20));
    state.menu_selection = 2;
    assert_eq!(state.select_mode(), GameMode::Infinite);
    state.menu_selection = 3;
    assert_eq!(state.select_mode(), GameMode::Infinite);
}

#[test]
fn allowed_indices_follow_columns_and_mode() {
    let mut state = GameState::default();
    assert_eq!(state.allowed_indices(), (0..46).collect::<Vec<_>>());
    state.selected_columns = [false; 10];
    assert!(state.allowed_indices().is_empty());
    state.selected_columns[7] = true;
    state.selected_columns[1] = true;
    assert_eq!(state.allowed_indices(), vec![5, 6, 7, 8, 9, 35, 36, 37]);
    state.mode = GameMode::Progressive;
    state.progressive_unlocked_columns = 2;
    assert_eq!(state.allowed_indices(), (0..10).collect::<Vec<_>>());
    state.progressive_unlocked_columns = 12;
    assert_eq!(state.allowed_indices(), (0..46).collect::<Vec<_>>());
}

#[test]
fn column_of_and_progress() {
    let mut state = GameState::default();
    assert_eq!(state.column_of(0), 0);
    assert_eq!(state.column_of(11), 2);
    assert_eq!(state.column_of(37), 7);
    assert_eq!(state.column_of(38), 8);
    assert_eq!(state.column_of(45), 9);
    assert_eq!(state.column_of(46), 0);
    state.kana_correct_counts[35] = 2;
    state.kana_correct_counts[36] = 7;
    assert_eq!(state.column_progress(7), 5);
    assert_eq!(state.column_progress(0), 0);
}

#[test]
fn hardest_column_prefers_low_accuracy_then_more_attempts() {
    let mut state = GameState::default();
    assert_eq!(state.hardest_column(), None);
    state.column_attempts[2] = 4;
    state.column_correct[2] = 2;
    state.column_attempts[5] = 10;
    state.column_correct[5] = 5;
    assert_eq!(state.hardest_column(), Some(5));
    state.column_attempts[1] = 10;
    state.column_correct[1] = 5;
    assert_eq!(state.hardest_column(), Some(1));
    state.column_attempts[8] = 3;
    state.column_correct[8] = 0;
    assert_eq!(state.hardest_column(), Some(8));
}

#[test]
fn refill_and_advance_draw_from_allowed_kana() {
    let mut state = GameState::default();
    state.selected_columns = [false; 10];
    state.selected_columns[9] = true;
    state.refill_deck();
    let mut deck = state.deck.clone();
    deck.sort_unstable();
    assert_eq!(deck, vec![43, 44, 45]);
    assert_eq!(state.deck_position, 0);
    state.advance_prompt();
    assert_eq!(state.current_index, state.deck[0]);
    assert_eq!(state.deck_position, 1);
    state.deck_position = 3;
    state.advance_prompt();
    assert_eq!(state.deck_position, 1);
    assert!((43..46).contains(&state.current_index));
}

#[test]
fn start_progressive_resets_and_draws_first_column() {
    let mut state = GameState {
        correct: 9,
        incorrect: 3,
        streak: 2,
        recorded_score_for_session: true,
        progressive_unlocked_columns: 6,
        ..GameState::default()
    };
    state.kana_correct_counts[3] = 3;
    state.start_progressive_mode();
    assert_eq!(state.mode, GameMode::Progressive);
    assert_eq!(state.state, GameStateKind::InProgress);
    assert_eq!((state.correct, state.incorrect, state.streak), (0, 0, 0));
    assert!(!state.recorded_score_for_session);
    assert_eq!(state.progressive_unlocked_columns, 1);
    assert_eq!(state.kana_correct_counts, [0; 46]);
    let mut deck = state.deck.clone();
    deck.sort_unstable();
    assert_eq!(deck, vec![0, 1, 2, 3, 4]);
    assert_eq!(state.current_index, state.deck[0]);
    assert_eq!(state.deck_position, 1);
}

#[test]
fn start_selected_without_columns_returns_to_options() {
    let mut state = GameState { mode: GameMode::BestOf(20), ..GameState::default() };
    state.selected_columns = [false; 10];
    state.start_selected_mode();
    assert_eq!(state.state, GameStateKind::ColumnOptions);
    assert_eq!(state.options_feedback.as_deref(), Some("Enable at least one column to start"));
    state.selected_columns[0] = true;
    state.start_selected_mode();
    assert_eq!(state.state, GameStateKind::InProgress);
    assert_eq!(state.deck.len(), 5);
}

#[test]
fn prepare_selected_mode_opens_options_or_starts_progressive() {
    let mut state = GameState { menu_selection: 1, options_selection: 4, ..GameState::default() };
    state.prepare_selected_mode();
    assert_eq!(state.mode, GameMode::BestOf(20));
    assert_eq!(state.state, GameStateKind::ColumnOptions);
    assert_eq!(state.options_selection, 0);
    let mut state = GameState::default();
    state.prepare_selected_mode();
    assert_eq!(state.mode, GameMode::Progressive);
    assert_eq!(state.state, GameStateKind::InProgress);
}

#[test]
fn evaluate_answer_scores_and_gives_feedback() {
    let mut state = GameState { current_index: 11, input: "  SHi ".to_string(), ..GameState::default() };
    state.evaluate_current_answer();
    assert_eq!(state.correct, 1);
    assert_eq!(state.streak, 1);
    assert_eq!(state.max_streak, 1);
    assert_eq!(state.column_attempts[2], 1);
    assert_eq!(state.column_correct[2], 1);
    assert_eq!(state.kana_correct_counts[11], 1);
    assert_eq!(state.last_correct, Some(true));
    assert_eq!(state.last_feedback.as_deref(), Some("Correct: し -> shi"));
    assert!(state.input.is_empty());
    assert_eq!(state.state, GameStateKind::ShowingFeedback);

    state.input = " Si".to_string();
    state.evaluate_current_answer();
    assert_eq!(state.incorrect, 1);
    assert_eq!(state.streak, 0);
    assert_eq!(state.max_streak, 1);
    assert_eq!(state.column_attempts[2], 2);
    assert_eq!(state.last_correct, Some(false));
    assert_eq!(
        state.last_feedback.as_deref(),
        Some("Incorrect: し expected 'shi', got 'si'")
    );
}

#[test]
fn evaluate_answer_caps_counts_and_unlocks_columns() {
    let mut state = GameState { mode: GameMode::Progressive, current_index: 4, ..GameState::default() };
    for idx in 0..5 {
        state.kana_correct_counts[idx] = 3;
    }
    state.kana_correct_counts[4] = 2;
    state.input = "o".to_string();
    state.evaluate_current_answer();
    assert_eq!(state.kana_correct_counts[4], 3);
    assert_eq!(state.state, GameStateKind::ColumnUnlocked);
    assert_eq!(state.newly_unlocked_column, Some(1));
    assert_eq!(state.progressive_unlocked_columns, 2);
    assert_eq!(state.questions_to_unlock[0], Some(1));
    let mut deck = state.deck.clone();
    deck.sort_unstable();
    assert_eq!(deck, (0..10).collect::<Vec<_>>());
    assert_eq!(state.deck_position, 0);

    state.input = "o".to_string();
    state.evaluate_current_answer();
    assert_eq!(state.kana_correct_counts[4], 3);
}

#[test]
fn evaluate_answer_finishes_progressive_on_last_column() {
    let mut state = GameState {
        mode: GameMode::Progressive,
        progressive_unlocked_columns: 10,
        current_index: 45,
        input: "n".to_string(),
        ..GameState::default()
    };
    state.kana_correct_counts[43] = 3;
    state.kana_correct_counts[44] = 3;
    state.kana_correct_counts[45] = 2;
    state.evaluate_current_answer();
    assert_eq!(state.state, GameStateKind::Finished);
}

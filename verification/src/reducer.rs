//! The reducer: one action applied to the game state, and the effects it asks for.

use vstd::prelude::*;

use crate::actions::{CoreAction, CoreEffect};
use crate::kana::COLUMN_COUNT;
use crate::state::{
    advance_defined, advance_refills, advance_spec, allowed_indices_spec, best_of_points_spec,
    evaluate_defined, evaluate_refills, evaluate_spec, is_shuffle_of, need_column_message,
    prepare_spec, reached_mode_limit_spec, record_answer_spec, select_mode_spec, selected_start_spec, unlocked_indices_spec,
    GameMode, GameState, GameStateKind, GameView, QuitPrompt,
};
use crate::text::{string_pop, string_push};

verus! {

/// The state after continuing from a feedback screen; `deck` is the deck after a refill.
pub open spec fn continue_spec(v: GameView, deck: Seq<usize>) -> GameView {
    GameView {
        last_feedback: None,
        last_correct: None,
        state: GameStateKind::InProgress,
        ..advance_spec(v, deck)
    }
}

/// Starting from the column options: with no kana selected the options say so,
/// otherwise the session starts.
pub open spec fn start_from_options_spec(v: GameView, deck: Seq<usize>) -> GameView {
    if allowed_indices_spec(v).len() == 0 {
        GameView { options_feedback: Some(need_column_message()), ..v }
    } else {
        selected_start_spec(GameView { options_feedback: None, ..v }, deck)
    }
}

/// What `reduce` does to `v` for `action`, with `deck` the deck that a refill draws.
pub open spec fn reduce_spec(v: GameView, action: CoreAction, deck: Seq<usize>) -> (
    GameView,
    Seq<CoreEffect>,
) {
    match action {
        CoreAction::MenuUp => (
            GameView {
                menu_selection: if v.menu_selection > 0 {
                    (v.menu_selection - 1) as usize
                } else {
                    0
                },
                ..v
            },
            Seq::empty(),
        ),
        CoreAction::MenuDown => (
            GameView {
                menu_selection: if v.menu_selection + 1 < 3 {
                    (v.menu_selection + 1) as usize
                } else {
                    3
                },
                ..v
            },
            Seq::empty(),
        ),
        CoreAction::StartFromMenu => (prepare_spec(v, deck), Seq::empty()),
        CoreAction::OpenExitPrompt => (
            GameView { quit_prompt: Some(QuitPrompt::ExitApplication), ..v },
            Seq::empty(),
        ),
        CoreAction::OpenAbandonPrompt => (
            GameView { quit_prompt: Some(QuitPrompt::AbandonSession), ..v },
            Seq::empty(),
        ),
        CoreAction::ConfirmPrompt => (
            match v.quit_prompt {
                Some(QuitPrompt::ExitApplication) => GameView {
                    running: false,
                    quit_prompt: None,
                    ..v
                },
                Some(QuitPrompt::AbandonSession) => GameView {
                    state: GameStateKind::Menu,
                    quit_prompt: None,
                    ..v
                },
                None => v,
            },
            Seq::empty(),
        ),
        CoreAction::CancelPrompt => (GameView { quit_prompt: None, ..v }, Seq::empty()),
        CoreAction::OptionsUp => (
            GameView {
                options_selection: if v.options_selection > 0 {
                    (v.options_selection - 1) as usize
                } else {
                    0
                },
                ..v
            },
            Seq::empty(),
        ),
        CoreAction::OptionsDown => (
            GameView {
                options_selection: if v.options_selection + 1 < COLUMN_COUNT {
                    (v.options_selection + 1) as usize
                } else {
                    COLUMN_COUNT
                },
                ..v
            },
            Seq::empty(),
        ),
        CoreAction::ToggleOptionOrStart => (
            if v.options_selection == COLUMN_COUNT {
                start_from_options_spec(v, deck)
            } else {
                GameView {
                    selected_columns: v.selected_columns.update(
                        v.options_selection as int,
                        !v.selected_columns[v.options_selection as int],
                    ),
                    options_feedback: None,
                    ..v
                }
            },
            Seq::empty(),
        ),
        CoreAction::StartFromOptions => (start_from_options_spec(v, deck), Seq::empty()),
        CoreAction::InputChar(c) => (GameView { input: v.input.push(c), ..v }, Seq::empty()),
        CoreAction::Backspace => (
            GameView {
                input: if v.input.len() > 0 {
                    v.input.drop_last()
                } else {
                    v.input
                },
                ..v
            },
            Seq::empty(),
        ),
        CoreAction::SubmitAnswer => {
            let e = evaluate_spec(v, deck);
            if e.mode is BestOf && e.state == GameStateKind::Finished
                && !e.recorded_score_for_session {
                (
                    GameView { recorded_score_for_session: true, ..e },
                    seq![
                        CoreEffect::PersistBestOfScore {
                            correct: e.correct,
                            incorrect: e.incorrect,
                            elapsed_secs: e.session_elapsed_secs,
                            points: best_of_points_spec(e) as i64,
                        },
                    ],
                )
            } else {
                (e, Seq::empty())
            }
        },
        CoreAction::ContinueAfterFeedback => (continue_spec(v, deck), Seq::empty()),
        CoreAction::ContinueAfterUnlock => (
            continue_spec(GameView { newly_unlocked_column: None, ..v }, deck),
            Seq::empty(),
        ),
        CoreAction::FinishedToMenu => (GameView { state: GameStateKind::Menu, ..v }, Seq::empty()),
        CoreAction::SetElapsedSeconds(seconds) => (
            GameView { session_elapsed_secs: seconds, ..v },
            Seq::empty(),
        ),
    }
}

/// The kana that `action` reshuffles into a new deck, when it draws one.
pub open spec fn reduce_refill_source(v: GameView, action: CoreAction) -> Option<Seq<usize>> {
    match action {
        CoreAction::StartFromMenu => if select_mode_spec(v.menu_selection) is Progressive {
            Some(unlocked_indices_spec(1))
        } else {
            None
        },
        CoreAction::ToggleOptionOrStart => if v.options_selection == COLUMN_COUNT
            && allowed_indices_spec(v).len() > 0 {
            Some(allowed_indices_spec(v))
        } else {
            None
        },
        CoreAction::StartFromOptions => if allowed_indices_spec(v).len() > 0 {
            Some(allowed_indices_spec(v))
        } else {
            None
        },
        CoreAction::SubmitAnswer => if evaluate_refills(v) {
            Some(
                unlocked_indices_spec(record_answer_spec(v).progressive_unlocked_columns + 1),
            )
        } else {
            None
        },
        CoreAction::ContinueAfterFeedback | CoreAction::ContinueAfterUnlock => if advance_refills(
            v,
        ) {
            Some(allowed_indices_spec(v))
        } else {
            None
        },
        _ => None,
    }
}

/// The inputs on which `reduce` runs without overflow or an index out of bounds.
pub open spec fn reduce_defined(v: GameView, action: CoreAction) -> bool {
    match action {
        CoreAction::MenuDown => v.menu_selection < usize::MAX,
        CoreAction::OptionsDown => v.options_selection < usize::MAX,
        CoreAction::ToggleOptionOrStart => v.options_selection <= COLUMN_COUNT,
        CoreAction::SubmitAnswer => {
            &&& evaluate_defined(v)
            &&& (v.mode is BestOf && !v.recorded_score_for_session && reached_mode_limit_spec(
                record_answer_spec(v),
            )) ==> i64::MIN <= best_of_points_spec(record_answer_spec(v)) <= i64::MAX
        },
        CoreAction::ContinueAfterFeedback => advance_defined(v),
        CoreAction::ContinueAfterUnlock => advance_defined(v),
        _ => true,
    }
}

/// `post` and `effects` are a possible outcome of `reduce` on `pre` and `action`:
/// everything is fixed but the order of a freshly shuffled deck.
pub open spec fn reduce_post(
    pre: GameView,
    action: CoreAction,
    post: GameView,
    effects: Seq<CoreEffect>,
) -> bool {
    &&& (post, effects) == reduce_spec(pre, action, post.deck)
    &&& match reduce_refill_source(pre, action) {
        Some(source) => is_shuffle_of(post.deck, source),
        None => true,
    }
}

/// Applies `action` to the game state and returns the effects that the host must carry out.
pub fn reduce(state: &mut GameState, action: CoreAction) -> (effects: Vec<CoreEffect>)
    requires
        reduce_defined(old(state)@, action),
    ensures
        reduce_post(old(state)@, action, final(state)@, effects@),
{
    let mut effects: Vec<CoreEffect> = Vec::new();
    match action {
        CoreAction::MenuUp => {
            state.menu_selection = if state.menu_selection > 0 {
                state.menu_selection - 1
            } else {
                0
            };
        },
        CoreAction::MenuDown => {
            let next = state.menu_selection + 1;
            state.menu_selection = if next < 3 {
                next
            } else {
                3
            };
        },
        CoreAction::StartFromMenu => state.prepare_selected_mode(),
        CoreAction::OpenExitPrompt => state.quit_prompt = Some(QuitPrompt::ExitApplication),
        CoreAction::OpenAbandonPrompt => state.quit_prompt = Some(QuitPrompt::AbandonSession),
        CoreAction::ConfirmPrompt => {
            if let Some(prompt) = state.quit_prompt {
                match prompt {
                    QuitPrompt::ExitApplication => state.running = false,
                    QuitPrompt::AbandonSession => state.state = GameStateKind::Menu,
                }
                state.quit_prompt = None;
            }
        },
        CoreAction::CancelPrompt => state.quit_prompt = None,
        CoreAction::OptionsUp => {
            state.options_selection = if state.options_selection > 0 {
                state.options_selection - 1
            } else {
                0
            };
        },
        CoreAction::OptionsDown => {
            let next = state.options_selection + 1;
            state.options_selection = if next < COLUMN_COUNT {
                next
            } else {
                COLUMN_COUNT
            };
        },
        CoreAction::ToggleOptionOrStart => {
            if state.options_selection == COLUMN_COUNT {
                start_from_options(state);
            } else {
                let idx = state.options_selection;
                let flipped = !state.selected_columns[idx];
                state.selected_columns.set(idx, flipped);
                state.options_feedback = None;
            }
        },
        CoreAction::StartFromOptions => start_from_options(state),
        CoreAction::InputChar(c) => string_push(&mut state.input, c),
        CoreAction::Backspace => {
            string_pop(&mut state.input);
        },
        CoreAction::SubmitAnswer => {
            state.evaluate_current_answer();
            if matches!(state.mode, GameMode::BestOf(_)) && matches!(
                state.state,
                GameStateKind::Finished
            ) && !state.recorded_score_for_session {
                effects.push(
                    CoreEffect::PersistBestOfScore {
                        correct: state.correct,
                        incorrect: state.incorrect,
                        elapsed_secs: state.session_elapsed_secs,
                        points: state.best_of_points(),
                    },
                );
                state.recorded_score_for_session = true;
            }
        },
        CoreAction::ContinueAfterFeedback => {
            state.advance_prompt();
            state.last_feedback = None;
            state.last_correct = None;
            state.state = GameStateKind::InProgress;
        },
        CoreAction::ContinueAfterUnlock => {
            state.newly_unlocked_column = None;
            state.advance_prompt();
            state.last_feedback = None;
            state.last_correct = None;
            state.state = GameStateKind::InProgress;
        },
        CoreAction::FinishedToMenu => state.state = GameStateKind::Menu,
        CoreAction::SetElapsedSeconds(seconds) => {
            state.session_elapsed_secs = seconds;
        },
    }
    effects
}

/// Whether `reduce` accepts `action` on `state`; where it does not, applying the
/// action would overflow a counter or index out of a table.
pub fn can_reduce(state: &GameState, action: CoreAction) -> (ok: bool)
    ensures
        ok == reduce_defined(state@, action),
{
    match action {
        CoreAction::MenuDown => state.menu_selection < usize::MAX,
        CoreAction::OptionsDown => state.options_selection < usize::MAX,
        CoreAction::ToggleOptionOrStart => state.options_selection <= COLUMN_COUNT,
        CoreAction::SubmitAnswer => {
            let (defined, points_fit) = state.evaluate_check();
            defined && points_fit
        },
        CoreAction::ContinueAfterFeedback | CoreAction::ContinueAfterUnlock => {
            state.deck_position < state.deck.len() || state.allowed_indices().len() > 0
        },
        _ => true,
    }
}

/// Starts the session from the column options, or says that a column is needed.
fn start_from_options(state: &mut GameState)
    ensures
        final(state)@ == start_from_options_spec(old(state)@, final(state)@.deck),
        allowed_indices_spec(old(state)@).len() > 0 ==> is_shuffle_of(
            final(state)@.deck,
            allowed_indices_spec(old(state)@),
        ),
{
    if state.allowed_indices().len() == 0 {
        state.options_feedback = Some(String::from_str("Enable at least one column to start"));
    } else {
        state.options_feedback = None;
        state.start_selected_mode();
    }
}

} // verus!

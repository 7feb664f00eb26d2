//! Properties of the game that hold across operations: the invariant that every
//! action keeps, and what answering and scoring promise.

use vstd::prelude::*;

use crate::actions::{CoreAction, CoreEffect};
use crate::kana::{column_group_spec, column_start_spec, COLUMN_COUNT, KANA_COUNT};
use crate::reducer::{
    continue_spec, reduce_defined, reduce_post, reduce_refill_source, start_from_options_spec,
};
use crate::state::{
    advance_defined, advance_refills, allowed_indices_spec, answer_is_correct,
    best_of_points_spec, column_mastered_spec, default_view, evaluate_defined, evaluate_refills,
    evaluate_spec, is_shuffle_of, progressive_start_spec, record_answer_spec, select_mode_spec,
    selected_indices_spec, unlocked_indices_spec, GameMode, GameStateKind, GameView,
    progress_sum_spec, reached_mode_limit_spec, selected_start_spec,
};
use crate::kana::{column_end_spec, column_of_spec};
use crate::text::{all_white_space, lemma_normalized_ignores_padding};
use crate::state::{harder_spec, is_hardest_spec, QuitPrompt};

verus! {

broadcast use vstd::seq_lib::group_to_multiset_ensures;

/// The invariant of a game state: table indices in range, the deck position within
/// the deck (whose length fits a `usize`), between one and all columns unlocked, menu and option cursors on a row,
/// correct counts capped at three, and the best streak at least the current one.
pub open spec fn well_formed(v: GameView) -> bool {
    &&& v.selected_columns.len() == COLUMN_COUNT
    &&& v.kana_correct_counts.len() == KANA_COUNT
    &&& v.column_attempts.len() == COLUMN_COUNT
    &&& v.column_correct.len() == COLUMN_COUNT
    &&& v.questions_to_unlock.len() == COLUMN_COUNT
    &&& v.current_index < KANA_COUNT
    &&& forall|i: int| 0 <= i < v.deck.len() ==> #[trigger] v.deck[i] < KANA_COUNT
    &&& v.deck_position <= v.deck.len() <= usize::MAX
    &&& 1 <= v.progressive_unlocked_columns <= COLUMN_COUNT
    &&& v.menu_selection <= 3
    &&& v.options_selection <= COLUMN_COUNT
    &&& forall|k: int| 0 <= k < KANA_COUNT ==> #[trigger] v.kana_correct_counts[k] <= 3
    &&& v.streak <= v.max_streak
}

proof fn lemma_selected_within_table(selected: Seq<bool>, n: int)
    requires
        0 <= n <= COLUMN_COUNT,
        selected.len() == COLUMN_COUNT,
    ensures
        selected_indices_spec(selected, n).len() <= column_start_spec(n),
        forall|i: int|
            0 <= i < selected_indices_spec(selected, n).len() ==> #[trigger] selected_indices_spec(
                selected,
                n,
            )[i] < KANA_COUNT,
    decreases n,
{
    if n > 0 {
        lemma_selected_within_table(selected, n - 1);
        let prev = selected_indices_spec(selected, n - 1);
        let g = column_group_spec(n - 1);
        if selected[n - 1] {
            assert forall|i: int|
                0 <= i < (prev + g).len() implies #[trigger] (prev + g)[i] < KANA_COUNT by {
                if i >= prev.len() {
                    assert((prev + g)[i] == g[i - prev.len()]);
                }
            }
        }
    }
}

proof fn lemma_allowed_within_table(v: GameView)
    requires
        v.selected_columns.len() == COLUMN_COUNT,
    ensures
        allowed_indices_spec(v).len() <= KANA_COUNT,
        forall|i: int|
            0 <= i < allowed_indices_spec(v).len() ==> #[trigger] allowed_indices_spec(v)[i]
                < KANA_COUNT,
{
    lemma_selected_within_table(v.selected_columns, COLUMN_COUNT as int);
}

proof fn lemma_shuffle_within_table(deck: Seq<usize>, source: Seq<usize>)
    requires
        is_shuffle_of(deck, source),
        deck_in_table(source),
    ensures
        deck.len() == source.len(),
        deck_in_table(deck),
{
    assert(deck.to_multiset().len() == source.to_multiset().len());
    assert forall|i: int| 0 <= i < deck.len() implies #[trigger] deck[i] < KANA_COUNT by {
        assert(deck.contains(deck[i]));
        assert(source.to_multiset().count(deck[i]) > 0);
        assert(source.contains(deck[i]));
    }
}


/// Every card of `deck` is a kana index, and the deck is no longer than the table.
pub open spec fn deck_in_table(deck: Seq<usize>) -> bool {
    &&& deck.len() <= KANA_COUNT
    &&& forall|i: int| 0 <= i < deck.len() ==> #[trigger] deck[i] < KANA_COUNT
}

proof fn lemma_unlocked_within_table(n: int)
    ensures
        deck_in_table(unlocked_indices_spec(n)),
        n >= 1 ==> unlocked_indices_spec(n).len() > 0,
{
}

proof fn lemma_record_answer_well_formed(pre: GameView)
    requires
        well_formed(pre),
        evaluate_defined(pre),
    ensures
        well_formed(record_answer_spec(pre)),
{
}

proof fn lemma_evaluate_well_formed(pre: GameView, deck: Seq<usize>)
    requires
        well_formed(pre),
        evaluate_defined(pre),
        evaluate_refills(pre) ==> deck_in_table(deck),
    ensures
        well_formed(evaluate_spec(pre, deck)),
{
    lemma_record_answer_well_formed(pre);
}

proof fn lemma_continue_well_formed(pre: GameView, deck: Seq<usize>)
    requires
        well_formed(pre),
        advance_defined(pre),
        advance_refills(pre) ==> deck_in_table(deck) && deck.len() == allowed_indices_spec(
            pre,
        ).len(),
    ensures
        well_formed(continue_spec(pre, deck)),
{
}

proof fn lemma_progressive_start_well_formed(pre: GameView, deck: Seq<usize>)
    requires
        well_formed(pre),
        deck_in_table(deck),
    ensures
        well_formed(progressive_start_spec(pre, deck)),
{
}

proof fn lemma_selected_start_well_formed(pre: GameView, deck: Seq<usize>)
    requires
        well_formed(pre),
        allowed_indices_spec(pre).len() > 0 ==> deck_in_table(deck),
    ensures
        well_formed(start_from_options_spec(pre, deck)),
{
}

/// A new game is well formed.
pub proof fn lemma_default_well_formed()
    ensures
        well_formed(default_view()),
{
}

/// Every action that `reduce` accepts keeps the game well formed.
pub proof fn lemma_reduce_preserves_well_formed(
    pre: GameView,
    action: CoreAction,
    post: GameView,
    effects: Seq<CoreEffect>,
)
    requires
        well_formed(pre),
        reduce_defined(pre, action),
        reduce_post(pre, action, post, effects),
    ensures
        well_formed(post),
{
    lemma_allowed_within_table(pre);
    lemma_unlocked_within_table(1);
    match reduce_refill_source(pre, action) {
        Some(source) => {
            lemma_unlocked_within_table(record_answer_spec(pre).progressive_unlocked_columns + 1);
            assert(deck_in_table(source));
            lemma_shuffle_within_table(post.deck, source);
        },
        None => {},
    }
    match action {
        CoreAction::StartFromMenu => {
            if select_mode_spec(pre.menu_selection) is Progressive {
                lemma_progressive_start_well_formed(pre, post.deck);
            }
        },
        CoreAction::ToggleOptionOrStart => {
            if pre.options_selection == COLUMN_COUNT {
                lemma_selected_start_well_formed(pre, post.deck);
            }
        },
        CoreAction::StartFromOptions => {
            lemma_selected_start_well_formed(pre, post.deck);
        },
        CoreAction::SubmitAnswer => {
            lemma_evaluate_well_formed(pre, post.deck);
        },
        CoreAction::ContinueAfterFeedback => {
            lemma_continue_well_formed(pre, post.deck);
        },
        CoreAction::ContinueAfterUnlock => {
            lemma_continue_well_formed(GameView { newly_unlocked_column: None, ..pre }, post.deck);
        },
        _ => {},
    }
}

/// A recorded best-of score is never asked to be stored again: once the session's
/// score is recorded, no action returns an effect.
pub proof fn lemma_score_recorded_once(
    pre: GameView,
    action: CoreAction,
    post: GameView,
    effects: Seq<CoreEffect>,
)
    requires
        reduce_post(pre, action, post, effects),
        pre.recorded_score_for_session,
    ensures
        effects.len() == 0,
        post.recorded_score_for_session || action == CoreAction::StartFromMenu
            || action == CoreAction::ToggleOptionOrStart || action == CoreAction::StartFromOptions,
{
}

/// The only effect is the score of a best-of session that has just finished: it
/// comes from an answer, carries the final counters and points, and marks the score
/// as recorded.
pub proof fn lemma_effect_is_finished_best_of(
    pre: GameView,
    action: CoreAction,
    post: GameView,
    effects: Seq<CoreEffect>,
)
    requires
        reduce_post(pre, action, post, effects),
        effects.len() > 0,
    ensures
        action == CoreAction::SubmitAnswer,
        effects.len() == 1,
        !pre.recorded_score_for_session,
        post.recorded_score_for_session,
        post.mode is BestOf,
        post.state == GameStateKind::Finished,
        effects[0] == (CoreEffect::PersistBestOfScore {
            correct: post.correct,
            incorrect: post.incorrect,
            elapsed_secs: post.session_elapsed_secs,
            points: best_of_points_spec(post) as i64,
        }),
{
}

/// Submitting an answer counts it exactly once, as correct exactly when the trimmed,
/// lower-cased input is the romaji of the kana shown, and clears the input.
pub proof fn lemma_answer_counted_once(pre: GameView, post: GameView, effects: Seq<CoreEffect>)
    requires
        reduce_defined(pre, CoreAction::SubmitAnswer),
        reduce_post(pre, CoreAction::SubmitAnswer, post, effects),
    ensures
        post.correct + post.incorrect == pre.correct + pre.incorrect + 1,
        post.last_correct == Some(answer_is_correct(pre)),
        answer_is_correct(pre) ==> post.correct == pre.correct + 1 && post.streak == pre.streak
            + 1,
        !answer_is_correct(pre) ==> post.incorrect == pre.incorrect + 1 && post.streak == 0,
        post.input.len() == 0,
{
}

/// A best-of session of `limit` answers finishes on the answer that brings the
/// count to `limit`, and not before.
pub proof fn lemma_best_of_finishes_at_limit(
    pre: GameView,
    limit: u32,
    post: GameView,
    effects: Seq<CoreEffect>,
)
    requires
        pre.mode == GameMode::BestOf(limit),
        reduce_defined(pre, CoreAction::SubmitAnswer),
        reduce_post(pre, CoreAction::SubmitAnswer, post, effects),
    ensures
        post.state == GameStateKind::Finished <==> pre.correct + pre.incorrect + 1 >= limit,
        post.state != GameStateKind::Finished ==> post.state == GameStateKind::ShowingFeedback,
{
}

/// In a progressive session, an answer unlocks the next column exactly when it
/// leaves the last unlocked column mastered and columns remain; the deck is then
/// redrawn from all unlocked columns. Otherwise the unlocked columns stay as they are.
pub proof fn lemma_progressive_unlock(pre: GameView, post: GameView, effects: Seq<CoreEffect>)
    requires
        well_formed(pre),
        pre.mode is Progressive,
        reduce_defined(pre, CoreAction::SubmitAnswer),
        reduce_post(pre, CoreAction::SubmitAnswer, post, effects),
    ensures
        (column_mastered_spec(post.kana_correct_counts, pre.progressive_unlocked_columns - 1)
            && pre.progressive_unlocked_columns < COLUMN_COUNT) ==> {
            &&& post.progressive_unlocked_columns == pre.progressive_unlocked_columns + 1
            &&& post.state == GameStateKind::ColumnUnlocked
            &&& post.newly_unlocked_column == Some(pre.progressive_unlocked_columns)
            &&& is_shuffle_of(
                post.deck,
                unlocked_indices_spec(pre.progressive_unlocked_columns + 1),
            )
        },
        !(column_mastered_spec(post.kana_correct_counts, pre.progressive_unlocked_columns - 1)
            && pre.progressive_unlocked_columns < COLUMN_COUNT)
            ==> post.progressive_unlocked_columns == pre.progressive_unlocked_columns,
{
}

/// With every column selected, the kana of the first `n` columns are the first
/// `column_start_spec(n)` kana in order: the selected and the unlocked decks agree.
pub proof fn lemma_all_selected_is_unlocked(selected: Seq<bool>, n: int)
    requires
        0 <= n <= COLUMN_COUNT,
        selected.len() == COLUMN_COUNT,
        forall|c: int| 0 <= c < COLUMN_COUNT ==> #[trigger] selected[c],
    ensures
        selected_indices_spec(selected, n) == unlocked_indices_spec(n),
    decreases n,
{
    if n > 0 {
        lemma_all_selected_is_unlocked(selected, n - 1);
        assert(selected[n - 1]);
        assert(selected_indices_spec(selected, n) =~= unlocked_indices_spec(n));
    } else {
        assert(selected_indices_spec(selected, n) =~= unlocked_indices_spec(n));
    }
}

proof fn lemma_selected_increasing(selected: Seq<bool>, n: int)
    requires
        0 <= n <= COLUMN_COUNT,
        selected.len() == COLUMN_COUNT,
    ensures
        forall|i: int|
            0 <= i < selected_indices_spec(selected, n).len() ==> #[trigger] selected_indices_spec(
                selected,
                n,
            )[i] < column_start_spec(n),
        forall|i: int, j: int|
            0 <= i < j < selected_indices_spec(selected, n).len() ==> #[trigger] selected_indices_spec(
                selected,
                n,
            )[i] < #[trigger] selected_indices_spec(selected, n)[j],
    decreases n,
{
    if n > 0 {
        lemma_selected_increasing(selected, n - 1);
        let prev = selected_indices_spec(selected, n - 1);
        let g = column_group_spec(n - 1);
        if selected[n - 1] {
            let all = prev + g;
            assert forall|i: int| 0 <= i < all.len() implies #[trigger] all[i] < column_start_spec(
                n,
            ) by {
                if i < prev.len() {
                    assert(all[i] == prev[i]);
                } else {
                    assert(all[i] == g[i - prev.len()]);
                }
            }
            assert forall|i: int, j: int| 0 <= i < j < all.len() implies #[trigger] all[i]
                < #[trigger] all[j] by {
                if j < prev.len() {
                    assert(all[i] == prev[i] && all[j] == prev[j]);
                } else if i < prev.len() {
                    assert(all[i] == prev[i] && all[j] == g[j - prev.len()]);
                } else {
                    assert(all[i] == g[i - prev.len()] && all[j] == g[j - prev.len()]);
                }
            }
        }
    }
}

/// A freshly drawn deck holds each kana at most once: the kana it is drawn from are
/// listed without repeats, and shuffling keeps how often each occurs.
pub proof fn lemma_drawn_deck_has_no_repeats(v: GameView, deck: Seq<usize>)
    requires
        v.selected_columns.len() == COLUMN_COUNT,
        is_shuffle_of(deck, allowed_indices_spec(v)),
    ensures
        deck.no_duplicates(),
{
    let source = allowed_indices_spec(v);
    lemma_selected_increasing(v.selected_columns, COLUMN_COUNT as int);
    assert(source.no_duplicates());
    source.lemma_multiset_has_no_duplicates();
    deck.lemma_multiset_has_no_duplicates_conv();
}

/// Scoring an answer never lowers the best streak, and the best streak is never below
/// the current one afterwards. A correct answer makes the best streak the larger of
/// the previous best and the new streak (the old streak plus one); an incorrect one
/// leaves it unchanged.
pub proof fn lemma_best_streak_is_running_maximum(pre: GameView, deck: Seq<usize>)
    requires
        evaluate_defined(pre),
    ensures
        evaluate_spec(pre, deck).max_streak >= pre.max_streak,
        evaluate_spec(pre, deck).max_streak >= evaluate_spec(pre, deck).streak,
        answer_is_correct(pre) ==> evaluate_spec(pre, deck).streak == pre.streak + 1
            && evaluate_spec(pre, deck).max_streak == if pre.max_streak >= pre.streak + 1 {
            pre.max_streak as int
        } else {
            pre.streak + 1
        },
        !answer_is_correct(pre) ==> evaluate_spec(pre, deck).streak == 0 && evaluate_spec(
            pre,
            deck,
        ).max_streak == pre.max_streak,
{
}

/// Through the reducer: submitting an answer never lowers the best streak, and a
/// correct answer leaves it at the larger of the old best and the old streak plus one.
pub proof fn lemma_submit_keeps_best_streak(
    pre: GameView,
    post: GameView,
    effects: Seq<CoreEffect>,
)
    requires
        reduce_defined(pre, CoreAction::SubmitAnswer),
        reduce_post(pre, CoreAction::SubmitAnswer, post, effects),
    ensures
        post.max_streak >= pre.max_streak,
        post.max_streak >= post.streak,
        post.last_correct == Some(true) ==> post.max_streak == if pre.max_streak >= pre.streak
            + 1 {
            pre.max_streak as int
        } else {
            pre.streak + 1
        },
        post.last_correct == Some(false) ==> post.max_streak == pre.max_streak,
{
    lemma_best_streak_is_running_maximum(pre, post.deck);
}

proof fn lemma_progress_bounds(counts: Seq<u32>, lo: int, hi: int)
    requires
        lo <= hi,
    ensures
        0 <= progress_sum_spec(counts, lo, hi) <= 3 * (hi - lo),
        progress_sum_spec(counts, lo, hi) == 3 * (hi - lo) <==> forall|k: int|
            lo <= k < hi ==> #[trigger] counts[k] >= 3,
    decreases hi - lo,
{
    if hi > lo {
        lemma_progress_bounds(counts, lo, hi - 1);
        if progress_sum_spec(counts, lo, hi) == 3 * (hi - lo) {
            assert forall|k: int| lo <= k < hi implies #[trigger] counts[k] >= 3 by {
                if k < hi - 1 {
                    assert(progress_sum_spec(counts, lo, hi - 1) == 3 * (hi - 1 - lo));
                }
            }
        }
    }
}

/// A column is mastered exactly when each kana index listed in its group has been
/// answered correctly at least three times; one kana below three is enough to keep
/// it from being mastered.
pub proof fn lemma_mastered_needs_every_kana(counts: Seq<u32>, column: int)
    requires
        0 <= column < COLUMN_COUNT,
        counts.len() == KANA_COUNT,
    ensures
        column_mastered_spec(counts, column) <==> forall|i: int|
            0 <= i < column_group_spec(column).len() ==> counts[#[trigger] column_group_spec(
                column,
            )[i] as int] >= 3,
        forall|i: int|
            0 <= i < column_group_spec(column).len() && counts[#[trigger] column_group_spec(
                column,
            )[i] as int] < 3 ==> !column_mastered_spec(counts, column),
{
    let g = column_group_spec(column);
    if forall|i: int| 0 <= i < g.len() ==> counts[#[trigger] g[i] as int] >= 3 {
        assert forall|k: int|
            column_start_spec(column) <= k < column_end_spec(column) implies counts[k] >= 3 by {
            assert(g[k - column_start_spec(column)] as int == k);
        }
    }
}

/// A column is mastered exactly when its progress (the correct counts of its kana,
/// each capped at three) is full: three times the number of its kana.
pub proof fn lemma_mastered_iff_full_progress(counts: Seq<u32>, column: int)
    requires
        0 <= column < COLUMN_COUNT,
    ensures
        column_mastered_spec(counts, column) <==> progress_sum_spec(
            counts,
            column_start_spec(column),
            column_end_spec(column),
        ) == 3 * column_group_spec(column).len(),
{
    lemma_progress_bounds(counts, column_start_spec(column), column_end_spec(column));
}

/// In a progressive session, an answer that leaves some kana of the last unlocked
/// column with fewer than three correct answers unlocks nothing: the unlocked columns,
/// the unlock notice and the deck stay as they were, and the game does not show the
/// unlock screen.
pub proof fn lemma_no_unlock_before_mastery(
    pre: GameView,
    post: GameView,
    effects: Seq<CoreEffect>,
    k: int,
)
    requires
        well_formed(pre),
        pre.mode is Progressive,
        reduce_defined(pre, CoreAction::SubmitAnswer),
        reduce_post(pre, CoreAction::SubmitAnswer, post, effects),
        column_start_spec(pre.progressive_unlocked_columns - 1) <= k < column_end_spec(
            pre.progressive_unlocked_columns - 1,
        ),
        post.kana_correct_counts[k] < 3,
    ensures
        post.progressive_unlocked_columns == pre.progressive_unlocked_columns,
        post.state != GameStateKind::ColumnUnlocked,
        post.newly_unlocked_column == pre.newly_unlocked_column,
        post.deck == pre.deck,
{
}

/// Starting a session that draws a non-empty deck resets the answers whatever came
/// before: no correct or incorrect answer, no streak, no time, no attempt in any
/// column, an empty input, nothing recorded, and the first card of the deck shown.
pub proof fn lemma_selected_start_resets(pre: GameView, deck: Seq<usize>)
    requires
        deck.len() > 0,
    ensures
        selected_start_spec(pre, deck).correct == 0,
        selected_start_spec(pre, deck).incorrect == 0,
        selected_start_spec(pre, deck).streak == 0,
        selected_start_spec(pre, deck).max_streak == 0,
        selected_start_spec(pre, deck).session_elapsed_secs == 0,
        !selected_start_spec(pre, deck).recorded_score_for_session,
        selected_start_spec(pre, deck).input.len() == 0,
        selected_start_spec(pre, deck).state == GameStateKind::InProgress,
        selected_start_spec(pre, deck).mode == pre.mode,
        selected_start_spec(pre, deck).deck == deck,
        selected_start_spec(pre, deck).current_index == deck[0],
        selected_start_spec(pre, deck).deck_position == 1,
        forall|c: int|
            0 <= c < COLUMN_COUNT ==> selected_start_spec(pre, deck).column_attempts[c] == 0
                && selected_start_spec(pre, deck).column_correct[c] == 0,
{
}

/// Starting a progressive session resets every counter whatever came before, and
/// unlocks only the first column.
pub proof fn lemma_progressive_start_resets(pre: GameView, deck: Seq<usize>)
    requires
        deck.len() > 0,
    ensures
        progressive_start_spec(pre, deck).correct == 0,
        progressive_start_spec(pre, deck).incorrect == 0,
        progressive_start_spec(pre, deck).streak == 0,
        progressive_start_spec(pre, deck).max_streak == 0,
        !progressive_start_spec(pre, deck).recorded_score_for_session,
        progressive_start_spec(pre, deck).progressive_unlocked_columns == 1,
        progressive_start_spec(pre, deck).mode == GameMode::Progressive,
        progressive_start_spec(pre, deck).state == GameStateKind::InProgress,
        progressive_start_spec(pre, deck).current_index == deck[0],
        forall|k: int|
            0 <= k < KANA_COUNT ==> progressive_start_spec(pre, deck).kana_correct_counts[k] == 0,
{
}

/// Starting from the column options with some column selected begins a fresh session:
/// no answer counted yet, on the answer screen, in the mode that was chosen, with a
/// deck of the selected kana; so a best-of session with a positive limit has not
/// reached it yet.
pub proof fn lemma_start_from_options_is_fresh(
    pre: GameView,
    post: GameView,
    effects: Seq<CoreEffect>,
)
    requires
        well_formed(pre),
        allowed_indices_spec(pre).len() > 0,
        reduce_post(pre, CoreAction::StartFromOptions, post, effects),
    ensures
        post.correct == 0,
        post.incorrect == 0,
        post.streak == 0,
        post.state == GameStateKind::InProgress,
        post.mode == pre.mode,
        post.options_feedback is None,
        is_shuffle_of(post.deck, allowed_indices_spec(pre)),
        forall|limit: u32| limit > 0 && pre.mode == GameMode::BestOf(limit) ==> !reached_mode_limit_spec(post),
        effects.len() == 0,
{
    lemma_allowed_within_table(pre);
    lemma_shuffle_within_table(post.deck, allowed_indices_spec(pre));
}

/// Toggling on a column row flips that column and no other, and clears the options
/// message.
pub proof fn lemma_toggle_flips_column(
    pre: GameView,
    post: GameView,
    effects: Seq<CoreEffect>,
)
    requires
        pre.options_selection < COLUMN_COUNT,
        pre.selected_columns.len() == COLUMN_COUNT,
        reduce_post(pre, CoreAction::ToggleOptionOrStart, post, effects),
    ensures
        post.selected_columns.len() == COLUMN_COUNT,
        post.selected_columns[pre.options_selection as int] != pre.selected_columns[pre.options_selection as int],
        forall|c: int|
            0 <= c < COLUMN_COUNT && c != pre.options_selection ==> post.selected_columns[c]
                == pre.selected_columns[c],
        post.options_feedback is None,
        post.options_selection == pre.options_selection,
        post.deck == pre.deck,
{
}

/// Toggling the same column row twice restores the selection.
pub proof fn lemma_toggle_twice_restores(
    pre: GameView,
    mid: GameView,
    post: GameView,
    e1: Seq<CoreEffect>,
    e2: Seq<CoreEffect>,
)
    requires
        pre.options_selection < COLUMN_COUNT,
        pre.selected_columns.len() == COLUMN_COUNT,
        reduce_post(pre, CoreAction::ToggleOptionOrStart, mid, e1),
        reduce_post(mid, CoreAction::ToggleOptionOrStart, post, e2),
    ensures
        post.selected_columns == pre.selected_columns,
{
    lemma_toggle_flips_column(pre, mid, e1);
    lemma_toggle_flips_column(mid, post, e2);
    assert(post.selected_columns =~= pre.selected_columns);
}

/// The menu cursor moves one row at a time over the four rows: down stops on the
/// last row, up stops on the first, and down then up returns to where it was.
pub proof fn lemma_menu_cursor(pre: GameView, down: GameView, up: GameView, e1: Seq<CoreEffect>, e2: Seq<CoreEffect>)
    requires
        pre.menu_selection <= 3,
        reduce_post(pre, CoreAction::MenuDown, down, e1),
        reduce_post(down, CoreAction::MenuUp, up, e2),
    ensures
        pre.menu_selection < 3 ==> down.menu_selection == pre.menu_selection + 1,
        pre.menu_selection == 3 ==> down.menu_selection == 3,
        down.menu_selection >= 1,
        pre.menu_selection < 3 ==> up.menu_selection == pre.menu_selection,
        up.menu_selection == down.menu_selection - 1,
        down.state == pre.state && up.state == pre.state,
{
}

/// The options cursor moves one row at a time over the ten columns and the start row:
/// down stops on the start row, up stops on the first column, and down then up
/// returns to where it was.
pub proof fn lemma_options_cursor(pre: GameView, down: GameView, up: GameView, e1: Seq<CoreEffect>, e2: Seq<CoreEffect>)
    requires
        pre.options_selection <= COLUMN_COUNT,
        reduce_post(pre, CoreAction::OptionsDown, down, e1),
        reduce_post(down, CoreAction::OptionsUp, up, e2),
    ensures
        pre.options_selection < COLUMN_COUNT ==> down.options_selection == pre.options_selection + 1,
        pre.options_selection == COLUMN_COUNT ==> down.options_selection == COLUMN_COUNT,
        pre.options_selection < COLUMN_COUNT ==> up.options_selection == pre.options_selection,
        up.options_selection == down.options_selection - 1,
        down.selected_columns == pre.selected_columns,
{
}

/// Moving up from the top row of the menu or the options keeps the cursor there.
pub proof fn lemma_cursor_up_stops_at_top(pre: GameView, post: GameView, effects: Seq<CoreEffect>, action: CoreAction)
    requires
        action == CoreAction::MenuUp || action == CoreAction::OptionsUp,
        pre.menu_selection == 0,
        pre.options_selection == 0,
        reduce_post(pre, action, post, effects),
    ensures
        post.menu_selection == 0,
        post.options_selection == 0,
{
}

/// Typing a character appends it to the input, and a backspace right after takes it
/// away again; a backspace on an empty input leaves it empty.
pub proof fn lemma_typing_and_backspace(
    pre: GameView,
    c: char,
    typed: GameView,
    erased: GameView,
    e1: Seq<CoreEffect>,
    e2: Seq<CoreEffect>,
)
    requires
        reduce_post(pre, CoreAction::InputChar(c), typed, e1),
        reduce_post(typed, CoreAction::Backspace, erased, e2),
    ensures
        typed.input.len() == pre.input.len() + 1,
        typed.input.last() == c,
        typed.input.drop_last() == pre.input,
        erased.input == pre.input,
        erased == pre,
{
    assert(typed.input.drop_last() =~= pre.input);
    assert(erased =~= pre);
}

/// A backspace on an empty input changes nothing.
pub proof fn lemma_backspace_on_empty(pre: GameView, post: GameView, effects: Seq<CoreEffect>)
    requires
        pre.input.len() == 0,
        reduce_post(pre, CoreAction::Backspace, post, effects),
    ensures
        post == pre,
{
}

/// An open prompt is answered: confirming the exit prompt stops the game, confirming
/// the abandon prompt returns to the menu, and either way the prompt closes; cancelling
/// only closes it; confirming with no prompt changes nothing.
pub proof fn lemma_prompts(pre: GameView, action: CoreAction, post: GameView, effects: Seq<CoreEffect>)
    requires
        action == CoreAction::ConfirmPrompt || action == CoreAction::CancelPrompt,
        reduce_post(pre, action, post, effects),
    ensures
        post.quit_prompt is None,
        action == CoreAction::ConfirmPrompt && pre.quit_prompt == Some(QuitPrompt::ExitApplication)
            ==> !post.running && post.state == pre.state,
        action == CoreAction::ConfirmPrompt && pre.quit_prompt == Some(QuitPrompt::AbandonSession)
            ==> post.running == pre.running && post.state == GameStateKind::Menu,
        action == CoreAction::CancelPrompt ==> post == (GameView { quit_prompt: None, ..pre }),
        action == CoreAction::ConfirmPrompt && (pre.quit_prompt is None) ==> post == pre,
        effects.len() == 0,
{
}

/// Choosing a menu row: the first starts a progressive session on the first column,
/// the second opens the column options for a best-of session of twenty answers, and
/// the others open them for an infinite session.
pub proof fn lemma_menu_rows(pre: GameView, post: GameView, effects: Seq<CoreEffect>)
    requires
        reduce_post(pre, CoreAction::StartFromMenu, post, effects),
    ensures
        pre.menu_selection == 0 ==> post.mode == GameMode::Progressive && post.state
            == GameStateKind::InProgress && post.progressive_unlocked_columns == 1 && post.correct
            == 0 && post.incorrect == 0 && is_shuffle_of(post.deck, unlocked_indices_spec(1)),
        pre.menu_selection == 1 ==> post.mode == GameMode::BestOf(20) && post.state
            == GameStateKind::ColumnOptions && post.options_selection == 0
            && (post.options_feedback is None),
        pre.menu_selection >= 2 ==> post.mode == GameMode::Infinite && post.state
            == GameStateKind::ColumnOptions && post.options_selection == 0,
        pre.menu_selection != 0 ==> post.deck == pre.deck && post.correct == pre.correct,
{
    broadcast use vstd::seq_lib::group_to_multiset_ensures;

    if pre.menu_selection == 0 {
        assert(post.deck.to_multiset().len() == unlocked_indices_spec(1).to_multiset().len());
    }
}

/// Continuing after feedback shows the next card of the deck: with cards left, the one
/// after the current position; otherwise the first card of a freshly drawn deck of the
/// allowed kana. The feedback is cleared and the answer screen shown.
pub proof fn lemma_continue_shows_next_card(pre: GameView, post: GameView, effects: Seq<CoreEffect>)
    requires
        well_formed(pre),
        reduce_defined(pre, CoreAction::ContinueAfterFeedback),
        reduce_post(pre, CoreAction::ContinueAfterFeedback, post, effects),
    ensures
        post.state == GameStateKind::InProgress,
        post.last_feedback is None,
        post.last_correct is None,
        1 <= post.deck_position <= post.deck.len(),
        post.current_index == post.deck[post.deck_position - 1],
        pre.deck_position < pre.deck.len() ==> post.deck == pre.deck && post.deck_position
            == pre.deck_position + 1,
        pre.deck_position >= pre.deck.len() ==> post.deck_position == 1 && is_shuffle_of(
            post.deck,
            allowed_indices_spec(pre),
        ),
        post.correct == pre.correct && post.incorrect == pre.incorrect,
{
    broadcast use vstd::seq_lib::group_to_multiset_ensures;

    let adv = crate::state::advance_spec(pre, post.deck);
    assert(post == continue_spec(pre, post.deck));
    assert(post.deck == adv.deck && post.deck_position == adv.deck_position
        && post.current_index == adv.current_index);
    if pre.deck_position >= pre.deck.len() {
        assert(post.deck.to_multiset().len() == allowed_indices_spec(pre).to_multiset().len());
        assert(adv.deck == post.deck && adv.deck_position == 1);
    } else {
        assert(adv.deck == pre.deck);
    }
}

/// An answer is booked against the kana shown and its column: the column's attempts
/// grow by one and no other column's; a correct answer also adds one to the column's
/// correct answers and to the kana's count, which stops at three; no other kana's
/// count changes.
pub proof fn lemma_answer_booked_to_its_kana(pre: GameView, deck: Seq<usize>)
    requires
        well_formed(pre),
        evaluate_defined(pre),
    ensures
        ({
            let post = evaluate_spec(pre, deck);
            let i = pre.current_index as int;
            let col = column_of_spec(i);
            &&& column_group_spec(col).contains(i as usize)
            &&& post.column_attempts[col] == pre.column_attempts[col] + 1
            &&& forall|c: int|
                0 <= c < COLUMN_COUNT && c != col ==> post.column_attempts[c]
                    == pre.column_attempts[c] && post.column_correct[c] == pre.column_correct[c]
            &&& answer_is_correct(pre) ==> post.column_correct[col] == pre.column_correct[col] + 1
            &&& !answer_is_correct(pre) ==> post.column_correct[col] == pre.column_correct[col]
            &&& answer_is_correct(pre) ==> post.kana_correct_counts[i] == if pre.kana_correct_counts[i]
                < 3 {
                pre.kana_correct_counts[i] + 1
            } else {
                3
            }
            &&& !answer_is_correct(pre) ==> post.kana_correct_counts[i] == pre.kana_correct_counts[i]
            &&& forall|k: int|
                0 <= k < KANA_COUNT && k != i ==> post.kana_correct_counts[k]
                    == pre.kana_correct_counts[k]
        }),
{
    crate::kana::lemma_columns_partition_kana(pre.current_index as int, column_of_spec(pre.current_index as int));
}

/// A progressive session with every column unlocked finishes on the answer that
/// leaves each kana of the last column answered correctly at least three times, and
/// not before.
pub proof fn lemma_progressive_finishes_on_last_column(pre: GameView, post: GameView, effects: Seq<CoreEffect>)
    requires
        well_formed(pre),
        pre.mode is Progressive,
        pre.progressive_unlocked_columns == COLUMN_COUNT,
        reduce_defined(pre, CoreAction::SubmitAnswer),
        reduce_post(pre, CoreAction::SubmitAnswer, post, effects),
    ensures
        post.state == GameStateKind::Finished <==> forall|k: int|
            column_start_spec(COLUMN_COUNT - 1) <= k < KANA_COUNT ==> #[trigger] post.kana_correct_counts[k] >= 3,
        post.state != GameStateKind::Finished ==> post.state == GameStateKind::ShowingFeedback,
        post.progressive_unlocked_columns == COLUMN_COUNT,
        effects.len() == 0,
{
}

/// Best-of points: each correct answer is worth a hundred more, each incorrect one
/// costs twenty-five, and each second costs one.
pub proof fn lemma_points_per_answer_and_second(v: GameView)
    requires
        v.correct < u32::MAX,
        v.incorrect < u32::MAX,
        v.session_elapsed_secs < i64::MAX,
    ensures
        best_of_points_spec((GameView { correct: (v.correct + 1) as u32, ..v })) == best_of_points_spec(v) + 100,
        best_of_points_spec((GameView { incorrect: (v.incorrect + 1) as u32, ..v })) == best_of_points_spec(v) - 25,
        best_of_points_spec((GameView { session_elapsed_secs: (v.session_elapsed_secs + 1) as u64, ..v }))
            == best_of_points_spec(v) - 1,
        best_of_points_spec((GameView { correct: 0, incorrect: 0, session_elapsed_secs: 0, ..v })) == 0,
{
    let e = v.session_elapsed_secs;
    let e1 = (e + 1) as u64;
    assert(e as i64 == e as int) by (bit_vector)
        requires
            e < 0x7fff_ffff_ffff_ffffu64,
    ;
    assert(e1 as i64 == e1 as int) by (bit_vector)
        requires
            e1 <= 0x7fff_ffff_ffff_ffffu64,
    ;
}

/// The hardest column has the lowest share of correct answers among the attempted
/// columns: for every attempted column `d`, correct(c)/attempts(c) <= correct(d)/attempts(d),
/// compared by cross-multiplication; on an equal share it has at least as many attempts.
pub proof fn lemma_hardest_has_lowest_share(v: GameView, c: int)
    requires
        is_hardest_spec(v, c),
    ensures
        forall|d: int|
            0 <= d < COLUMN_COUNT && v.column_attempts[d] > 0 ==> v.column_correct[c]
                * v.column_attempts[d] <= v.column_correct[d] * v.column_attempts[c],
        forall|d: int|
            0 <= d < COLUMN_COUNT && v.column_attempts[d] > 0 && v.column_correct[c]
                * v.column_attempts[d] == v.column_correct[d] * v.column_attempts[c]
                ==> v.column_attempts[d] <= v.column_attempts[c],
        forall|d: int|
            0 <= d < c && v.column_attempts[d] > 0 ==> v.column_correct[c] * v.column_attempts[d]
                < v.column_correct[d] * v.column_attempts[c] || v.column_attempts[d]
                < v.column_attempts[c],
{
    assert forall|d: int| 0 <= d < COLUMN_COUNT && v.column_attempts[d] > 0 implies v.column_correct[c]
        * v.column_attempts[d] <= v.column_correct[d] * v.column_attempts[c] by {
        assert(!harder_spec(v, d, c));
    }
    assert forall|d: int|
        0 <= d < COLUMN_COUNT && v.column_attempts[d] > 0 && v.column_correct[c]
            * v.column_attempts[d] == v.column_correct[d] * v.column_attempts[c] implies v.column_attempts[d]
            <= v.column_attempts[c] by {
        assert(!harder_spec(v, d, c));
    }
    assert forall|d: int|
        0 <= d < c && v.column_attempts[d] > 0 implies v.column_correct[c] * v.column_attempts[d]
            < v.column_correct[d] * v.column_attempts[c] || v.column_attempts[d]
            < v.column_attempts[c] by {
        assert(harder_spec(v, c, d));
    }
}

/// In infinite and best-of sessions, the kana to draw from are exactly those of the
/// selected columns: kana `i` is allowed if and only if its column is selected.
pub proof fn lemma_selected_kana_are_those_of_selected_columns(v: GameView, i: int)
    requires
        !(v.mode is Progressive),
        v.selected_columns.len() == COLUMN_COUNT,
        0 <= i < KANA_COUNT,
    ensures
        allowed_indices_spec(v).contains(i as usize) <==> v.selected_columns[column_of_spec(i)],
{
    lemma_selected_contains(v.selected_columns, COLUMN_COUNT as int, i);
}

proof fn lemma_selected_contains(selected: Seq<bool>, n: int, i: int)
    requires
        0 <= n <= COLUMN_COUNT,
        selected.len() == COLUMN_COUNT,
        0 <= i < KANA_COUNT,
    ensures
        selected_indices_spec(selected, n).contains(i as usize) <==> (i < column_start_spec(n)
            && selected[column_of_spec(i)]),
    decreases n,
{
    if n > 0 {
        lemma_selected_contains(selected, n - 1, i);
        lemma_selected_within_table(selected, n - 1);
        lemma_selected_increasing(selected, n - 1);
        let prev = selected_indices_spec(selected, n - 1);
        let g = column_group_spec(n - 1);
        crate::kana::lemma_columns_partition_kana(i, n - 1);
        if selected[n - 1] {
            let all = prev + g;
            if all.contains(i as usize) {
                let k = choose|k: int| 0 <= k < all.len() && all[k] == i as usize;
                if k < prev.len() {
                    assert(prev[k] == i as usize);
                } else {
                    assert(g[k - prev.len()] == i as usize);
                }
            }
            if i < column_start_spec(n) && selected[column_of_spec(i)] {
                if i < column_start_spec(n - 1) {
                    let k = choose|k: int| 0 <= k < prev.len() && prev[k] == i as usize;
                    assert(all[k] == i as usize);
                } else {
                    let k = i - column_start_spec(n - 1);
                    assert(g[k] == i as usize);
                    assert(all[prev.len() + k] == i as usize);
                }
            }
        } else {
            if prev.contains(i as usize) {
                let k = choose|k: int| 0 <= k < prev.len() && prev[k] == i as usize;
            }
        }
    }
}

/// In a progressive session, the kana to draw from are exactly those of the unlocked
/// columns: kana `i` is allowed if and only if its column is one of them.
pub proof fn lemma_progressive_kana_are_those_of_unlocked_columns(v: GameView, i: int)
    requires
        v.mode is Progressive,
        0 <= i < KANA_COUNT,
    ensures
        allowed_indices_spec(v).contains(i as usize) <==> column_of_spec(i)
            < v.progressive_unlocked_columns,
{
    let u = allowed_indices_spec(v);
    if i < column_start_spec(v.progressive_unlocked_columns as int) {
        assert(u[i] == i as usize);
    }
    if u.contains(i as usize) {
        let k = choose|k: int| 0 <= k < u.len() && u[k] == i as usize;
    }
}

/// White space typed before or after an answer does not change whether it is correct.
pub proof fn lemma_verdict_ignores_padding(v: GameView, lead: Seq<char>, trail: Seq<char>)
    requires
        all_white_space(lead),
        all_white_space(trail),
    ensures
        answer_is_correct((GameView { input: lead + v.input + trail, ..v })) == answer_is_correct(v),
{
    lemma_normalized_ignores_padding(lead, v.input, trail);
}

/// An infinite session never finishes by itself.
pub proof fn lemma_infinite_never_finishes(pre: GameView, post: GameView, effects: Seq<CoreEffect>)
    requires
        pre.mode == GameMode::Infinite,
        reduce_defined(pre, CoreAction::SubmitAnswer),
        reduce_post(pre, CoreAction::SubmitAnswer, post, effects),
    ensures
        post.state == GameStateKind::ShowingFeedback,
        effects.len() == 0,
{
}

/// When a column is unlocked, the number of questions it took to master the previous
/// one is noted as the answers counted so far; no other column's note changes.
pub proof fn lemma_unlock_notes_questions(pre: GameView, post: GameView, effects: Seq<CoreEffect>)
    requires
        well_formed(pre),
        pre.mode is Progressive,
        reduce_defined(pre, CoreAction::SubmitAnswer),
        reduce_post(pre, CoreAction::SubmitAnswer, post, effects),
        post.state == GameStateKind::ColumnUnlocked,
    ensures
        post.questions_to_unlock[pre.progressive_unlocked_columns - 1] == Some(
            (post.correct + post.incorrect) as u32,
        ),
        post.correct + post.incorrect == pre.correct + pre.incorrect + 1,
        forall|c: int|
            0 <= c < COLUMN_COUNT && c != pre.progressive_unlocked_columns - 1
                ==> post.questions_to_unlock[c] == pre.questions_to_unlock[c],
{
}

/// Continuing after an unlock clears the unlock notice and shows the next card.
pub proof fn lemma_continue_after_unlock(pre: GameView, post: GameView, effects: Seq<CoreEffect>)
    requires
        well_formed(pre),
        reduce_defined(pre, CoreAction::ContinueAfterUnlock),
        reduce_post(pre, CoreAction::ContinueAfterUnlock, post, effects),
    ensures
        post.newly_unlocked_column is None,
        post.state == GameStateKind::InProgress,
        post.last_feedback is None,
        pre.deck_position < pre.deck.len() ==> post.current_index == pre.deck[pre.deck_position as int]
            && post.deck_position == pre.deck_position + 1,
        post.progressive_unlocked_columns == pre.progressive_unlocked_columns,
{
}

/// Starting with no kana selected starts nothing: the game stays on its screen with
/// the message asking for a column, and nothing else changes.
pub proof fn lemma_start_without_columns(pre: GameView, action: CoreAction, post: GameView, effects: Seq<CoreEffect>)
    requires
        allowed_indices_spec(pre).len() == 0,
        action == CoreAction::StartFromOptions || (action == CoreAction::ToggleOptionOrStart
            && pre.options_selection == COLUMN_COUNT),
        reduce_post(pre, action, post, effects),
    ensures
        post.options_feedback == Some("Enable at least one column to start"@),
        post == (GameView { options_feedback: post.options_feedback, ..pre }),
{
    reveal_strlit("Enable at least one column to start");
}

/// Leaving the results for the menu and setting the clock touch nothing else.
pub proof fn lemma_menu_and_clock(pre: GameView, seconds: u64, to_menu: GameView, timed: GameView, e1: Seq<CoreEffect>, e2: Seq<CoreEffect>)
    requires
        reduce_post(pre, CoreAction::FinishedToMenu, to_menu, e1),
        reduce_post(pre, CoreAction::SetElapsedSeconds(seconds), timed, e2),
    ensures
        to_menu == (GameView { state: GameStateKind::Menu, ..pre }),
        timed.session_elapsed_secs == seconds,
        timed == (GameView { session_elapsed_secs: seconds, ..pre }),
        e1.len() == 0 && e2.len() == 0,
{
}

} // verus!

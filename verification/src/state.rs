//! The quiz state and the operations that the reducer is built from.

use vstd::prelude::*;

use rand::seq::SliceRandom;

use crate::text::{normalize_answer, normalized_spec, string_clear};
use crate::kana::{
    column_end_spec, column_of_spec, column_start, column_start_spec, hiragana, hiragana_spec,
    romaji, romaji_spec, COLUMN_COUNT, KANA_COUNT,
};

verus! {

/// How a session ends.
#[derive(Debug, Clone, Copy, PartialEq, Eq, Structural)]
pub enum GameMode {
    /// Never ends by itself.
    Infinite,
    /// Ends after the given number of answers.
    BestOf(u32),
    /// Columns are unlocked one by one as they are mastered; ends when the last one is.
    Progressive,
}

/// The screen the game is on.
#[derive(Debug, Clone, Copy, PartialEq, Eq, Structural)]
pub enum GameStateKind {
    Menu,
    ColumnOptions,
    InProgress,
    ShowingFeedback,
    ColumnUnlocked,
    Finished,
}

/// A question that waits for a yes or no.
#[derive(Debug, Clone, Copy, PartialEq, Eq, Structural)]
pub enum QuitPrompt {
    ExitApplication,
    AbandonSession,
}

/// The whole state of a quiz.
#[derive(Debug, Clone)]
pub struct GameState {
    pub running: bool,
    pub state: GameStateKind,
    pub quit_prompt: Option<QuitPrompt>,
    pub mode: GameMode,
    pub menu_selection: usize,
    pub selected_columns: [bool; 10],
    pub options_selection: usize,
    pub options_feedback: Option<String>,
    pub input: String,
    pub correct: u32,
    pub incorrect: u32,
    pub last_feedback: Option<String>,
    pub last_correct: Option<bool>,
    pub deck: Vec<usize>,
    pub deck_position: usize,
    pub current_index: usize,
    pub kana_correct_counts: [u32; 46],
    pub progressive_unlocked_columns: usize,
    pub streak: u32,
    pub max_streak: u32,
    pub column_attempts: [u32; 10],
    pub column_correct: [u32; 10],
    pub questions_to_unlock: [Option<u32>; 10],
    pub newly_unlocked_column: Option<usize>,
    pub session_elapsed_secs: u64,
    pub recorded_score_for_session: bool,
}

/// The mathematical value of a `GameState`: strings as character sequences,
/// arrays and the deck as sequences.
#[verifier::ext_equal]
pub struct GameView {
    pub running: bool,
    pub state: GameStateKind,
    pub quit_prompt: Option<QuitPrompt>,
    pub mode: GameMode,
    pub menu_selection: usize,
    pub selected_columns: Seq<bool>,
    pub options_selection: usize,
    pub options_feedback: Option<Seq<char>>,
    pub input: Seq<char>,
    pub correct: u32,
    pub incorrect: u32,
    pub last_feedback: Option<Seq<char>>,
    pub last_correct: Option<bool>,
    pub deck: Seq<usize>,
    pub deck_position: usize,
    pub current_index: usize,
    pub kana_correct_counts: Seq<u32>,
    pub progressive_unlocked_columns: usize,
    pub streak: u32,
    pub max_streak: u32,
    pub column_attempts: Seq<u32>,
    pub column_correct: Seq<u32>,
    pub questions_to_unlock: Seq<Option<u32>>,
    pub newly_unlocked_column: Option<usize>,
    pub session_elapsed_secs: u64,
    pub recorded_score_for_session: bool,
}

/// The view of an optional string.
pub open spec fn opt_string_view(s: Option<String>) -> Option<Seq<char>> {
    match s {
        Some(t) => Some(t@),
        None => None,
    }
}

impl View for GameState {
    type V = GameView;

    open spec fn view(&self) -> GameView {
        GameView {
            running: self.running,
            state: self.state,
            quit_prompt: self.quit_prompt,
            mode: self.mode,
            menu_selection: self.menu_selection,
            selected_columns: self.selected_columns@,
            options_selection: self.options_selection,
            options_feedback: opt_string_view(self.options_feedback),
            input: self.input@,
            correct: self.correct,
            incorrect: self.incorrect,
            last_feedback: opt_string_view(self.last_feedback),
            last_correct: self.last_correct,
            deck: self.deck@,
            deck_position: self.deck_position,
            current_index: self.current_index,
            kana_correct_counts: self.kana_correct_counts@,
            progressive_unlocked_columns: self.progressive_unlocked_columns,
            streak: self.streak,
            max_streak: self.max_streak,
            column_attempts: self.column_attempts@,
            column_correct: self.column_correct@,
            questions_to_unlock: self.questions_to_unlock@,
            newly_unlocked_column: self.newly_unlocked_column,
            session_elapsed_secs: self.session_elapsed_secs,
            recorded_score_for_session: self.recorded_score_for_session,
        }
    }
}

/// The state a new game starts in.
pub open spec fn default_view() -> GameView {
    GameView {
        running: true,
        state: GameStateKind::Menu,
        quit_prompt: None,
        mode: GameMode::Infinite,
        menu_selection: 0,
        selected_columns: Seq::new(10, |i: int| true),
        options_selection: 0,
        options_feedback: None,
        input: Seq::empty(),
        correct: 0,
        incorrect: 0,
        last_feedback: None,
        last_correct: None,
        deck: Seq::empty(),
        deck_position: 0,
        current_index: 0,
        kana_correct_counts: Seq::new(46, |i: int| 0u32),
        progressive_unlocked_columns: 1,
        streak: 0,
        max_streak: 0,
        column_attempts: Seq::new(10, |i: int| 0u32),
        column_correct: Seq::new(10, |i: int| 0u32),
        questions_to_unlock: Seq::new(10, |i: int| None),
        newly_unlocked_column: None,
        session_elapsed_secs: 0,
        recorded_score_for_session: false,
    }
}

impl Default for GameState {
    fn default() -> (s: Self)
        ensures
            s@ == default_view(),
    {
        let s = GameState {
            running: true,
            state: GameStateKind::Menu,
            quit_prompt: None,
            mode: GameMode::Infinite,
            menu_selection: 0,
            selected_columns: [true; 10],
            options_selection: 0,
            options_feedback: None,
            input: String::new(),
            correct: 0,
            incorrect: 0,
            last_feedback: None,
            last_correct: None,
            deck: Vec::new(),
            deck_position: 0,
            current_index: 0,
            kana_correct_counts: [0; 46],
            progressive_unlocked_columns: 1,
            streak: 0,
            max_streak: 0,
            column_attempts: [0; 10],
            column_correct: [0; 10],
            questions_to_unlock: [None; 10],
            newly_unlocked_column: None,
            session_elapsed_secs: 0,
            recorded_score_for_session: false,
        };
        assert(s@.selected_columns =~= default_view().selected_columns);
        assert(s@.kana_correct_counts =~= default_view().kana_correct_counts);
        assert(s@.column_attempts =~= default_view().column_attempts);
        assert(s@.column_correct =~= default_view().column_correct);
        assert(s@.questions_to_unlock =~= default_view().questions_to_unlock);
        s
    }
}


/// The kana indices of the selected columns among the first `n`, column by column.
pub open spec fn selected_indices_spec(selected: Seq<bool>, n: int) -> Seq<usize>
    decreases n,
{
    if n <= 0 {
        Seq::empty()
    } else if selected[n - 1] {
        selected_indices_spec(selected, n - 1) + crate::kana::column_group_spec(n - 1)
    } else {
        selected_indices_spec(selected, n - 1)
    }
}

/// The kana indices of the first `columns` columns: `0..column_start_spec(columns)`.
pub open spec fn unlocked_indices_spec(columns: int) -> Seq<usize> {
    Seq::new(column_start_spec(columns) as nat, |i: int| i as usize)
}

/// The kana that the deck is drawn from: in progressive mode those of the unlocked
/// columns, otherwise those of the selected columns.
pub open spec fn allowed_indices_spec(v: GameView) -> Seq<usize> {
    if v.mode is Progressive {
        unlocked_indices_spec(v.progressive_unlocked_columns as int)
    } else {
        selected_indices_spec(v.selected_columns, COLUMN_COUNT as int)
    }
}

/// `deck` holds the same kana as `source`, each as often, in some order.
pub open spec fn is_shuffle_of(deck: Seq<usize>, source: Seq<usize>) -> bool {
    deck.to_multiset() == source.to_multiset()
}

/// Every kana of `column` has been answered correctly at least three times.
pub open spec fn column_mastered_spec(counts: Seq<u32>, column: int) -> bool {
    forall|k: int| column_start_spec(column) <= k < column_end_spec(column) ==> counts[k] >= 3
}

/// Sum of the capped counts (at most 3 each) of the kana in `lo..hi`.
pub open spec fn progress_sum_spec(counts: Seq<u32>, lo: int, hi: int) -> int
    decreases hi - lo,
{
    if hi <= lo {
        0
    } else {
        progress_sum_spec(counts, lo, hi - 1) + if counts[hi - 1] < 3 {
            counts[hi - 1] as int
        } else {
            3
        }
    }
}

/// Column `a` went worse than column `b`: a lower share of correct answers, or the
/// same share over more attempts.
pub open spec fn harder_spec(v: GameView, a: int, b: int) -> bool {
    let left = v.column_correct[a] * v.column_attempts[b];
    let right = v.column_correct[b] * v.column_attempts[a];
    left < right || (left == right && v.column_attempts[b] < v.column_attempts[a])
}

/// `column` is the first attempted column that no attempted column went worse than.
pub open spec fn is_hardest_spec(v: GameView, column: int) -> bool {
    &&& 0 <= column < COLUMN_COUNT
    &&& v.column_attempts[column] > 0
    &&& forall|d: int|
        0 <= d < COLUMN_COUNT && v.column_attempts[d] > 0 ==> !harder_spec(v, d, column)
    &&& forall|d: int| 0 <= d < column && v.column_attempts[d] > 0 ==> harder_spec(v, column, d)
}

/// Whether the session has reached the end that its mode sets.
pub open spec fn reached_mode_limit_spec(v: GameView) -> bool {
    match v.mode {
        GameMode::Infinite => false,
        GameMode::BestOf(limit) => v.correct + v.incorrect >= limit,
        GameMode::Progressive => v.progressive_unlocked_columns >= COLUMN_COUNT
            && column_mastered_spec(v.kana_correct_counts, COLUMN_COUNT - 1),
    }
}

/// The mode chosen by a menu row.
pub open spec fn select_mode_spec(menu_selection: usize) -> GameMode {
    if menu_selection == 0 {
        GameMode::Progressive
    } else if menu_selection == 1 {
        GameMode::BestOf(20)
    } else {
        GameMode::Infinite
    }
}

/// Points of a best-of session: 100 per correct answer, minus 25 per incorrect one,
/// minus one per elapsed second (the seconds taken as an `i64`, as the count is kept).
pub open spec fn best_of_points_spec(v: GameView) -> int {
    100 * v.correct - 25 * v.incorrect - (v.session_elapsed_secs as i64)
}

/// The message shown when a session is started with no kana to draw.
pub open spec fn need_column_message() -> Seq<char> {
    "Enable at least one column to start"@
}

/// Feedback for a correct answer.
pub open spec fn correct_feedback_spec(shown: Seq<char>, expected: Seq<char>) -> Seq<char> {
    "Correct: "@ + shown + " -> "@ + expected
}

/// Feedback for an incorrect answer.
pub open spec fn incorrect_feedback_spec(
    shown: Seq<char>,
    expected: Seq<char>,
    typed: Seq<char>,
) -> Seq<char> {
    "Incorrect: "@ + shown + " expected '"@ + expected + "', got '"@ + typed + "'"@
}

/// Whether drawing the next prompt first refills the deck.
pub open spec fn advance_refills(v: GameView) -> bool {
    v.deck_position >= v.deck.len()
}

/// Drawing the next prompt succeeds: a card is left, or the refilled deck is not empty.
pub open spec fn advance_defined(v: GameView) -> bool {
    v.deck_position < v.deck.len() || allowed_indices_spec(v).len() > 0
}

/// The state after drawing the next prompt, where `deck` is the deck after a refill
/// (ignored when no refill is due).
pub open spec fn advance_spec(v: GameView, deck: Seq<usize>) -> GameView {
    let d = if advance_refills(v) {
        deck
    } else {
        v.deck
    };
    let pos = if advance_refills(v) {
        0
    } else {
        v.deck_position as int
    };
    GameView { deck: d, current_index: d[pos], deck_position: (pos + 1) as usize, ..v }
}

/// The state after a progressive session starts with the drawn `deck`.
pub open spec fn progressive_start_spec(v: GameView, deck: Seq<usize>) -> GameView {
    let reset = GameView {
        mode: GameMode::Progressive,
        state: GameStateKind::InProgress,
        input: Seq::empty(),
        correct: 0,
        incorrect: 0,
        last_feedback: None,
        last_correct: None,
        kana_correct_counts: Seq::new(46, |i: int| 0u32),
        progressive_unlocked_columns: 1,
        streak: 0,
        max_streak: 0,
        column_attempts: Seq::new(10, |i: int| 0u32),
        column_correct: Seq::new(10, |i: int| 0u32),
        questions_to_unlock: Seq::new(10, |i: int| None),
        newly_unlocked_column: None,
        session_elapsed_secs: 0,
        recorded_score_for_session: false,
        deck: deck,
        deck_position: 0,
        ..v
    };
    if deck.len() == 0 {
        GameView { state: GameStateKind::Menu, ..reset }
    } else {
        GameView { current_index: deck[0], deck_position: 1, ..reset }
    }
}

/// The state after an infinite or best-of session starts with the drawn `deck`.
pub open spec fn selected_start_spec(v: GameView, deck: Seq<usize>) -> GameView {
    let reset = GameView {
        state: GameStateKind::InProgress,
        input: Seq::empty(),
        correct: 0,
        incorrect: 0,
        streak: 0,
        max_streak: 0,
        column_attempts: Seq::new(10, |i: int| 0u32),
        column_correct: Seq::new(10, |i: int| 0u32),
        session_elapsed_secs: 0,
        recorded_score_for_session: false,
        last_feedback: None,
        last_correct: None,
        deck: deck,
        deck_position: 0,
        ..v
    };
    if deck.len() == 0 {
        GameView {
            options_feedback: Some(need_column_message()),
            state: GameStateKind::ColumnOptions,
            ..reset
        }
    } else {
        GameView { current_index: deck[0], deck_position: 1, ..reset }
    }
}

/// The state after the menu row under the cursor is chosen; `deck` is the deck drawn
/// when that starts a progressive session.
pub open spec fn prepare_spec(v: GameView, deck: Seq<usize>) -> GameView {
    let mode = select_mode_spec(v.menu_selection);
    if mode is Progressive {
        progressive_start_spec(v, deck)
    } else {
        GameView {
            mode: mode,
            options_selection: 0,
            options_feedback: None,
            state: GameStateKind::ColumnOptions,
            ..v
        }
    }
}

/// The typed answer matches the romaji of the current kana.
pub open spec fn answer_is_correct(v: GameView) -> bool {
    normalized_spec(v.input) == romaji_spec(v.current_index as int)
}

/// The state once the typed answer has been scored and cleared.
pub open spec fn record_answer_spec(v: GameView) -> GameView {
    let i = v.current_index as int;
    let expected = romaji_spec(i);
    let shown = hiragana_spec(i);
    let col = column_of_spec(i);
    let attempts = v.column_attempts.update(col, (v.column_attempts[col] + 1) as u32);
    if answer_is_correct(v) {
        let streak = (v.streak + 1) as u32;
        let count = v.kana_correct_counts[i] + 1;
        GameView {
            column_attempts: attempts,
            correct: (v.correct + 1) as u32,
            column_correct: v.column_correct.update(col, (v.column_correct[col] + 1) as u32),
            kana_correct_counts: v.kana_correct_counts.update(
                i,
                if count < 3 {
                    count as u32
                } else {
                    3u32
                },
            ),
            streak: streak,
            max_streak: if v.max_streak >= streak {
                v.max_streak
            } else {
                streak
            },
            last_feedback: Some(correct_feedback_spec(shown, expected)),
            last_correct: Some(true),
            input: Seq::empty(),
            ..v
        }
    } else {
        GameView {
            column_attempts: attempts,
            incorrect: (v.incorrect + 1) as u32,
            streak: 0,
            last_feedback: Some(incorrect_feedback_spec(shown, expected, normalized_spec(v.input))),
            last_correct: Some(false),
            input: Seq::empty(),
            ..v
        }
    }
}

/// In progressive mode, the last unlocked column has just been mastered.
pub open spec fn unlock_due_spec(a: GameView) -> bool {
    &&& a.mode is Progressive
    &&& a.progressive_unlocked_columns > 0
    &&& column_mastered_spec(a.kana_correct_counts, a.progressive_unlocked_columns - 1)
}

/// Scoring the answer unlocks a new column, which refills the deck.
pub open spec fn evaluate_refills(v: GameView) -> bool {
    let a = record_answer_spec(v);
    !reached_mode_limit_spec(a) && unlock_due_spec(a) && a.progressive_unlocked_columns
        < COLUMN_COUNT
}

/// The state after the typed answer is evaluated; `deck` is the deck drawn when a
/// column is unlocked.
pub open spec fn evaluate_spec(v: GameView, deck: Seq<usize>) -> GameView {
    let a = record_answer_spec(v);
    if reached_mode_limit_spec(a) {
        GameView { state: GameStateKind::Finished, ..a }
    } else if unlock_due_spec(a) {
        let mastered = a.progressive_unlocked_columns - 1;
        let b = GameView {
            questions_to_unlock: a.questions_to_unlock.update(
                mastered,
                Some((a.correct + a.incorrect) as u32),
            ),
            ..a
        };
        if a.progressive_unlocked_columns < COLUMN_COUNT {
            GameView {
                newly_unlocked_column: Some(a.progressive_unlocked_columns),
                progressive_unlocked_columns: (a.progressive_unlocked_columns + 1) as usize,
                deck: deck,
                deck_position: 0,
                state: GameStateKind::ColumnUnlocked,
                ..b
            }
        } else {
            GameView { state: GameStateKind::Finished, ..b }
        }
    } else {
        GameView { state: GameStateKind::ShowingFeedback, ..a }
    }
}

/// Evaluating the answer does not overflow a counter or index out of a table.
pub open spec fn evaluate_defined(v: GameView) -> bool {
    let i = v.current_index as int;
    let col = column_of_spec(i);
    let a = record_answer_spec(v);
    &&& v.current_index < KANA_COUNT
    &&& v.column_attempts[col] < u32::MAX
    &&& answer_is_correct(v) ==> {
        &&& v.correct < u32::MAX
        &&& v.column_correct[col] < u32::MAX
        &&& v.kana_correct_counts[i] < u32::MAX
        &&& v.streak < u32::MAX
    }
    &&& !answer_is_correct(v) ==> v.incorrect < u32::MAX
    &&& v.correct + v.incorrect < u32::MAX
    &&& (!reached_mode_limit_spec(a) && a.mode is Progressive && a.progressive_unlocked_columns
        > 0) ==> a.progressive_unlocked_columns <= COLUMN_COUNT
}

/// `rand::seq::SliceRandom::shuffle`, with the thread-local generator of `rand::rng()`.
/// It reorders the slice by pairwise swaps, so what comes out holds the same
/// elements, each as often; which order comes out is left to chance and not stated.
/// `rand::rng()` panics when the operating system gives it no random seed; that
/// cannot be excluded by a precondition and is left unsaid.
#[verifier::external_body]
fn shuffle_deck(deck: &mut Vec<usize>)
    ensures
        final(deck)@.len() == old(deck)@.len(),
        final(deck)@.to_multiset() == old(deck)@.to_multiset(),
{
    deck.shuffle(&mut rand::rng());
}

proof fn lemma_harder_step(v: GameView, a: int, b: int, c: int)
    requires
        v.column_attempts[a] > 0,
        v.column_attempts[b] > 0,
        v.column_attempts[c] > 0,
        harder_spec(v, a, b),
        !harder_spec(v, c, b),
    ensures
        harder_spec(v, a, c),
{
    let ca = v.column_correct[a] as int;
    let cb = v.column_correct[b] as int;
    let cc = v.column_correct[c] as int;
    let ta = v.column_attempts[a] as int;
    let tb = v.column_attempts[b] as int;
    let tc = v.column_attempts[c] as int;
    lemma_ratio_step(ca, ta, cb, tb, cc, tc);
}

proof fn lemma_ratio_step(ca: int, ta: int, cb: int, tb: int, cc: int, tc: int)
    requires
        ca >= 0,
        cb >= 0,
        cc >= 0,
        ta > 0,
        tb > 0,
        tc > 0,
        ca * tb < cb * ta || (ca * tb == cb * ta && tb < ta),
        !(cc * tb < cb * tc || (cc * tb == cb * tc && tb < tc)),
    ensures
        ca * tc < cc * ta || (ca * tc == cc * ta && tc < ta),
{
    // b is no harder than c: cb * tc <= cc * tb, with ties broken by attempts.
    assert(cb * tc <= cc * tb);
    if ca * tb < cb * ta {
        assert(ca * tb * tc < cb * ta * tc) by (nonlinear_arith)
            requires
                ca * tb < cb * ta,
                tc > 0,
        ;
        assert(cb * tc * ta <= cc * tb * ta) by (nonlinear_arith)
            requires
                cb * tc <= cc * tb,
                ta > 0,
        ;
        assert(ca * tc * tb < cc * ta * tb) by (nonlinear_arith)
            requires
                ca * tb * tc < cb * ta * tc,
                cb * tc * ta <= cc * tb * ta,
        ;
        assert(ca * tc < cc * ta) by (nonlinear_arith)
            requires
                ca * tc * tb < cc * ta * tb,
                tb > 0,
        ;
    } else {
        assert(ca * tb == cb * ta && tb < ta);
        if cb * tc < cc * tb {
            assert(ca * tb * tc == cb * ta * tc) by (nonlinear_arith)
                requires
                    ca * tb == cb * ta,
            ;
            assert(cb * tc * ta < cc * tb * ta) by (nonlinear_arith)
                requires
                    cb * tc < cc * tb,
                    ta > 0,
            ;
            assert(ca * tc * tb < cc * ta * tb) by (nonlinear_arith)
                requires
                    ca * tb * tc == cb * ta * tc,
                    cb * tc * ta < cc * tb * ta,
            ;
            assert(ca * tc < cc * ta) by (nonlinear_arith)
                requires
                    ca * tc * tb < cc * ta * tb,
                    tb > 0,
            ;
        } else {
            assert(cb * tc == cc * tb && tc <= tb);
            assert(ca * tb * tc == cb * ta * tc) by (nonlinear_arith)
                requires
                    ca * tb == cb * ta,
            ;
            assert(cb * tc * ta == cc * tb * ta) by (nonlinear_arith)
                requires
                    cb * tc == cc * tb,
            ;
            assert(ca * tc * tb == cc * ta * tb) by (nonlinear_arith)
                requires
                    ca * tb * tc == cb * ta * tc,
                    cb * tc * ta == cc * tb * ta,
            ;
            assert(ca * tc == cc * ta) by (nonlinear_arith)
                requires
                    ca * tc * tb == cc * ta * tb,
                    tb > 0,
            ;
        }
    }
}

impl GameState {
    /// Refills the deck with the allowed kana in a random order and starts drawing
    /// from its top.
    pub fn refill_deck(&mut self)
        ensures
            final(self)@ == (GameView { deck: final(self)@.deck, deck_position: 0, ..old(self)@ }),
            is_shuffle_of(final(self)@.deck, allowed_indices_spec(old(self)@)),
            final(self)@.deck.len() == allowed_indices_spec(old(self)@).len(),
    {
        let mut deck = self.allowed_indices();
        shuffle_deck(&mut deck);
        self.deck = deck;
        self.deck_position = 0;
    }

    /// Draws the next prompt, refilling the deck first when it is used up.
    pub fn advance_prompt(&mut self)
        requires
            advance_defined(old(self)@),
        ensures
            final(self)@ == advance_spec(old(self)@, final(self)@.deck),
            advance_refills(old(self)@) ==> is_shuffle_of(
                final(self)@.deck,
                allowed_indices_spec(old(self)@),
            ),
    {
        if self.deck_position >= self.deck.len() {
            self.refill_deck();
        }
        self.current_index = self.deck[self.deck_position];
        self.deck_position = self.deck_position + 1;
    }

    /// Whether the typed answer matches the romaji of the current kana.
    pub fn answer_matches(&self) -> (matches: bool)
        requires
            self.current_index < KANA_COUNT,
        ensures
            matches == answer_is_correct(self@),
    {
        let typed = normalize_answer(self.input.as_str());
        let expected_text = String::from_str(self.expected_romaji());
        typed == expected_text
    }

    /// Whether `column` would be mastered with the count of kana `index` replaced by `count`.
    fn mastered_with(&self, column: usize, index: usize, count: u32) -> (mastered: bool)
        requires
            column < COLUMN_COUNT,
            index < KANA_COUNT,
        ensures
            mastered == column_mastered_spec(
                self.kana_correct_counts@.update(index as int, count),
                column as int,
            ),
    {
        let ghost counts = self.kana_correct_counts@.update(index as int, count);
        let lo = column_start(column);
        let hi = column_start(column + 1);
        let mut k: usize = lo;
        while k < hi
            invariant
                lo <= k <= hi <= KANA_COUNT,
                lo == column_start_spec(column as int),
                hi == column_end_spec(column as int),
                index < KANA_COUNT,
                counts == self.kana_correct_counts@.update(index as int, count),
                forall|j: int| lo <= j < k ==> counts[j] >= 3,
            decreases hi - k,
        {
            let c = if k == index {
                count
            } else {
                self.kana_correct_counts[k]
            };
            assert(counts[k as int] == c);
            if c < 3 {
                return false;
            }
            k = k + 1;
        }
        true
    }

    /// Whether evaluating the answer runs without overflow or an index out of bounds,
    /// and, when it does, whether the points of the session would fit an `i64` should
    /// the answer end a best-of session whose score is not yet recorded.
    pub fn evaluate_check(&self) -> (check: (bool, bool))
        ensures
            check.0 == evaluate_defined(self@),
            check.0 ==> check.1 == ((self.mode is BestOf && !self.recorded_score_for_session
                && reached_mode_limit_spec(record_answer_spec(self@))) ==> i64::MIN
                <= best_of_points_spec(record_answer_spec(self@)) <= i64::MAX),
    {
        if self.current_index >= KANA_COUNT {
            return (false, false);
        }
        let index = self.current_index;
        let col = self.column_of(index);
        if self.column_attempts[col] == u32::MAX {
            return (false, false);
        }
        let ok = self.answer_matches();
        if ok {
            if self.correct == u32::MAX || self.column_correct[col] == u32::MAX
                || self.kana_correct_counts[index] == u32::MAX || self.streak == u32::MAX {
                return (false, false);
            }
        } else if self.incorrect == u32::MAX {
            return (false, false);
        }
        if (self.correct as u64) + (self.incorrect as u64) >= u32::MAX as u64 {
            return (false, false);
        }
        let ghost a = record_answer_spec(self@);
        let correct: u32 = if ok {
            self.correct + 1
        } else {
            self.correct
        };
        let incorrect: u32 = if ok {
            self.incorrect
        } else {
            self.incorrect + 1
        };
        let count: u32 = if ok {
            let c = self.kana_correct_counts[index] + 1;
            if c < 3 {
                c
            } else {
                3
            }
        } else {
            self.kana_correct_counts[index]
        };
        proof {
            if !ok {
                assert(self.kana_correct_counts@.update(index as int, count)
                    =~= self.kana_correct_counts@);
            }
            assert(a.kana_correct_counts == self.kana_correct_counts@.update(index as int, count));
        }
        let reached = match self.mode {
            GameMode::Infinite => false,
            GameMode::BestOf(limit) => correct + incorrect >= limit,
            GameMode::Progressive => self.progressive_unlocked_columns >= COLUMN_COUNT
                && self.mastered_with(COLUMN_COUNT - 1, index, count),
        };
        if !reached && matches!(self.mode, GameMode::Progressive)
            && self.progressive_unlocked_columns > COLUMN_COUNT {
            return (false, false);
        }
        let points: i128 = (correct as i128) * 100 - (incorrect as i128) * 25 - (
        self.session_elapsed_secs as i64 as i128);
        let fits = points >= i64::MIN as i128 && points <= i64::MAX as i128;
        (true, !(matches!(self.mode, GameMode::BestOf(_)) && !self.recorded_score_for_session
            && reached) || fits)
    }

    /// Scores the typed answer against the current kana, records the outcome, and
    /// moves on: to the end of the session when its mode's limit is reached, to a
    /// newly unlocked column in progressive mode, or else to the feedback screen.
    pub fn evaluate_current_answer(&mut self)
        requires
            evaluate_defined(old(self)@),
        ensures
            final(self)@ == evaluate_spec(old(self)@, final(self)@.deck),
            evaluate_refills(old(self)@) ==> is_shuffle_of(
                final(self)@.deck,
                unlocked_indices_spec(
                    record_answer_spec(old(self)@).progressive_unlocked_columns + 1,
                ),
            ),
    {
        let ghost pre = self@;
        let expected = self.expected_romaji();
        let shown = self.current_hiragana();
        let typed = normalize_answer(self.input.as_str());
        let expected_text = String::from_str(expected);
        let is_correct = typed == expected_text;
        let answered_column = self.column_of(self.current_index);
        let index = self.current_index;

        self.column_attempts.set(answered_column, self.column_attempts[answered_column] + 1);
        if is_correct {
            self.correct = self.correct + 1;
            self.column_correct.set(answered_column, self.column_correct[answered_column] + 1);
            let count = self.kana_correct_counts[index] + 1;
            let capped: u32 = if count < 3 {
                count
            } else {
                3
            };
            self.kana_correct_counts.set(index, capped);
            self.streak = self.streak + 1;
            if self.max_streak < self.streak {
                self.max_streak = self.streak;
            }
            let mut message = String::from_str("Correct: ");
            message.append(shown);
            message.append(" -> ");
            message.append(expected);
            self.last_feedback = Some(message);
        } else {
            self.incorrect = self.incorrect + 1;
            self.streak = 0;
            let mut message = String::from_str("Incorrect: ");
            message.append(shown);
            message.append(" expected '");
            message.append(expected);
            message.append("', got '");
            message.append(typed.as_str());
            message.append("'");
            self.last_feedback = Some(message);
        }
        self.last_correct = Some(is_correct);
        string_clear(&mut self.input);
        assert(self@ == record_answer_spec(pre));

        if self.reached_mode_limit() {
            self.state = GameStateKind::Finished;
            return;
        }

        if matches!(self.mode, GameMode::Progressive) && self.progressive_unlocked_columns > 0
            && self.is_column_mastered(self.progressive_unlocked_columns - 1) {
            let mastered_column = self.progressive_unlocked_columns - 1;
            self.questions_to_unlock.set(mastered_column, Some(self.correct + self.incorrect));
            if self.progressive_unlocked_columns < COLUMN_COUNT {
                self.newly_unlocked_column = Some(self.progressive_unlocked_columns);
                self.progressive_unlocked_columns = self.progressive_unlocked_columns + 1;
                self.refill_deck();
                self.state = GameStateKind::ColumnUnlocked;
                return;
            }
            self.state = GameStateKind::Finished;
            return;
        }

        self.state = GameStateKind::ShowingFeedback;
    }

    /// Chooses the menu row under the cursor: starts a progressive session, or
    /// opens the column options for the other modes.
    pub fn prepare_selected_mode(&mut self)
        ensures
            final(self)@ == prepare_spec(old(self)@, final(self)@.deck),
            select_mode_spec(old(self)@.menu_selection) is Progressive ==> is_shuffle_of(
                final(self)@.deck,
                unlocked_indices_spec(1),
            ),
    {
        self.mode = self.select_mode();
        if matches!(self.mode, GameMode::Progressive) {
            self.start_progressive_mode();
            return;
        }
        self.options_selection = 0;
        self.options_feedback = None;
        self.state = GameStateKind::ColumnOptions;
    }

    /// Starts a progressive session: every counter is reset, only the first column is
    /// unlocked, and the first prompt is drawn.
    pub fn start_progressive_mode(&mut self)
        ensures
            final(self)@ == progressive_start_spec(old(self)@, final(self)@.deck),
            is_shuffle_of(final(self)@.deck, unlocked_indices_spec(1)),
    {
        self.mode = GameMode::Progressive;
        self.state = GameStateKind::InProgress;
        string_clear(&mut self.input);
        self.correct = 0;
        self.incorrect = 0;
        self.last_feedback = None;
        self.last_correct = None;
        self.kana_correct_counts = [0; 46];
        self.progressive_unlocked_columns = 1;
        self.streak = 0;
        self.max_streak = 0;
        self.column_attempts = [0; 10];
        self.column_correct = [0; 10];
        self.questions_to_unlock = [None; 10];
        self.newly_unlocked_column = None;
        self.session_elapsed_secs = 0;
        self.recorded_score_for_session = false;
        self.refill_deck();
        if self.deck.len() == 0 {
            self.state = GameStateKind::Menu;
            return;
        }
        self.current_index = self.deck[0];
        self.deck_position = 1;
    }

    /// Starts an infinite or best-of session over the selected columns and draws the
    /// first prompt; with nothing to draw it returns to the column options with a message.
    pub fn start_selected_mode(&mut self)
        ensures
            final(self)@ == selected_start_spec(old(self)@, final(self)@.deck),
            is_shuffle_of(final(self)@.deck, allowed_indices_spec(old(self)@)),
    {
        self.state = GameStateKind::InProgress;
        string_clear(&mut self.input);
        self.correct = 0;
        self.incorrect = 0;
        self.streak = 0;
        self.max_streak = 0;
        self.column_attempts = [0; 10];
        self.column_correct = [0; 10];
        self.session_elapsed_secs = 0;
        self.recorded_score_for_session = false;
        self.last_feedback = None;
        self.last_correct = None;
        self.refill_deck();
        if self.deck.len() == 0 {
            self.options_feedback = Some(String::from_str("Enable at least one column to start"));
            self.state = GameStateKind::ColumnOptions;
            return;
        }
        self.current_index = self.deck[0];
        self.deck_position = 1;
    }

    /// The kana that the deck is drawn from.
    pub fn allowed_indices(&self) -> (indices: Vec<usize>)
        ensures
            indices@ == allowed_indices_spec(self@),
    {
        let mut indices: Vec<usize> = Vec::new();
        if matches!(self.mode, GameMode::Progressive) {
            let columns: usize = if self.progressive_unlocked_columns < COLUMN_COUNT {
                self.progressive_unlocked_columns
            } else {
                COLUMN_COUNT
            };
            let end = column_start(columns);
            let mut i: usize = 0;
            while i < end
                invariant
                    i <= end,
                    end == column_start_spec(self.progressive_unlocked_columns as int),
                    indices@ == Seq::new(i as nat, |k: int| k as usize),
                decreases end - i,
            {
                indices.push(i);
                assert(indices@ =~= Seq::new((i + 1) as nat, |k: int| k as usize));
                i = i + 1;
            }
            assert(indices@ =~= allowed_indices_spec(self@));
            return indices;
        }
        let mut column: usize = 0;
        while column < COLUMN_COUNT
            invariant
                column <= COLUMN_COUNT,
                indices@ == selected_indices_spec(self.selected_columns@, column as int),
            decreases COLUMN_COUNT - column,
        {
            if self.selected_columns[column] {
                let lo = column_start(column);
                let hi = column_start(column + 1);
                let ghost before = indices@;
                let mut k: usize = lo;
                while k < hi
                    invariant
                        lo <= k <= hi,
                        lo == column_start_spec(column as int),
                        hi == column_start_spec(column + 1),
                        lo <= hi,
                        indices@ == before + Seq::new((k - lo) as nat, |j: int| (lo + j) as usize),
                    decreases hi - k,
                {
                    indices.push(k);
                    assert(indices@ =~= before + Seq::new(
                        (k + 1 - lo) as nat,
                        |j: int| (lo + j) as usize,
                    ));
                    k = k + 1;
                }
                assert(indices@ =~= selected_indices_spec(self.selected_columns@, column + 1));
            }
            column = column + 1;
        }
        indices
    }

    /// The romaji expected for the current kana.
    pub fn expected_romaji(&self) -> (expected: &'static str)
        requires
            self.current_index < KANA_COUNT,
        ensures
            expected@ == romaji_spec(self.current_index as int),
    {
        romaji(self.current_index)
    }

    /// The hiragana of the current kana.
    pub fn current_hiragana(&self) -> (shown: &'static str)
        requires
            self.current_index < KANA_COUNT,
        ensures
            shown@ == hiragana_spec(self.current_index as int),
    {
        hiragana(self.current_index)
    }

    /// The column that holds kana `index` (column 0 for an index outside the table).
    pub fn column_of(&self, index: usize) -> (column: usize)
        ensures
            column == column_of_spec(index as int),
    {
        let mut column: usize = 0;
        while column < COLUMN_COUNT
            invariant
                column <= COLUMN_COUNT,
                column_start_spec(column as int) <= index,
            decreases COLUMN_COUNT - column,
        {
            if column_start(column) <= index && index < column_start(column + 1) {
                return column;
            }
            column = column + 1;
        }
        0
    }

    /// Whether every kana of `column` has been answered correctly at least three times.
    pub fn is_column_mastered(&self, column: usize) -> (mastered: bool)
        requires
            column < COLUMN_COUNT,
        ensures
            mastered == column_mastered_spec(self.kana_correct_counts@, column as int),
    {
        let lo = column_start(column);
        let hi = column_start(column + 1);
        let mut k: usize = lo;
        while k < hi
            invariant
                lo <= k <= hi <= KANA_COUNT,
                lo == column_start_spec(column as int),
                hi == column_end_spec(column as int),
                forall|j: int| lo <= j < k ==> self.kana_correct_counts@[j] >= 3,
            decreases hi - k,
        {
            if self.kana_correct_counts[k] < 3 {
                return false;
            }
            k = k + 1;
        }
        true
    }

    /// Sum over the kana of `column` of their correct counts, each capped at 3.
    pub fn column_progress(&self, column: usize) -> (progress: u32)
        requires
            column < COLUMN_COUNT,
        ensures
            progress == progress_sum_spec(
                self.kana_correct_counts@,
                column_start_spec(column as int),
                column_end_spec(column as int),
            ),
    {
        let lo = column_start(column);
        let hi = column_start(column + 1);
        let mut k: usize = lo;
        let mut sum: u32 = 0;
        while k < hi
            invariant
                lo <= k <= hi <= KANA_COUNT,
                lo == column_start_spec(column as int),
                hi == column_end_spec(column as int),
                sum == progress_sum_spec(self.kana_correct_counts@, lo as int, k as int),
                sum <= 3 * (k - lo),
            decreases hi - k,
        {
            let count = self.kana_correct_counts[k];
            let capped: u32 = if count < 3 {
                count
            } else {
                3
            };
            sum = sum + capped;
            k = k + 1;
        }
        sum
    }

    /// The column with the lowest share of correct answers among those attempted
    /// (ties go to the one with more attempts, then to the earlier one); `None` when
    /// no column has been attempted.
    pub fn hardest_column(&self) -> (hardest: Option<usize>)
        ensures
            match hardest {
                None => forall|c: int| 0 <= c < COLUMN_COUNT ==> self.column_attempts@[c] == 0,
                Some(c) => is_hardest_spec(self@, c as int),
            },
    {
        let ghost v = self@;
        let mut best: Option<usize> = None;
        let mut column: usize = 0;
        while column < COLUMN_COUNT
            invariant
                column <= COLUMN_COUNT,
                v == self@,
                match best {
                    None => forall|c: int| 0 <= c < column ==> v.column_attempts[c] == 0,
                    Some(b) => {
                        &&& b < column
                        &&& v.column_attempts[b as int] > 0
                        &&& forall|d: int|
                            0 <= d < column && v.column_attempts[d] > 0 ==> !harder_spec(
                                v,
                                d,
                                b as int,
                            )
                        &&& forall|d: int|
                            0 <= d < b && v.column_attempts[d] > 0 ==> harder_spec(v, b as int, d)
                    },
                },
            decreases COLUMN_COUNT - column,
        {
            if self.column_attempts[column] > 0 {
                match best {
                    None => {
                        best = Some(column);
                    },
                    Some(b) => {
                        proof {
                            lemma_product_fits(
                                self.column_correct[column as int],
                                self.column_attempts[b as int],
                            );
                            lemma_product_fits(
                                self.column_correct[b as int],
                                self.column_attempts[column as int],
                            );
                        }
                        let left = (self.column_correct[column] as u64) * (
                        self.column_attempts[b] as u64);
                        let right = (self.column_correct[b] as u64) * (
                        self.column_attempts[column] as u64);
                        let harder = left < right || (left == right
                            && self.column_attempts[b] < self.column_attempts[column]);
                        if harder {
                            proof {
                                assert forall|d: int|
                                    0 <= d < column + 1 && v.column_attempts[d]
                                        > 0 implies !harder_spec(v, d, column as int) by {
                                    if d < column && harder_spec(v, d, column as int) {
                                        lemma_harder_step(v, d, column as int, b as int);
                                    }
                                    if d == column {
                                        lemma_irreflexive(v, d);
                                    }
                                }
                                assert forall|d: int|
                                    0 <= d < column && v.column_attempts[d] > 0 implies harder_spec(
                                    v,
                                    column as int,
                                    d,
                                ) by {
                                    lemma_harder_step(v, column as int, b as int, d);
                                }
                            }
                            best = Some(column);
                        }
                    },
                }
            }
            column = column + 1;
        }
        proof {
            if best is None {
                assert(v.column_attempts == self.column_attempts@);
                assert(forall|c: int| 0 <= c < COLUMN_COUNT ==> self.column_attempts@[c] == 0);
            }
        }
        best
    }

    /// Whether the session has reached the end that its mode sets.
    pub fn reached_mode_limit(&self) -> (reached: bool)
        requires
            self.correct + self.incorrect <= u32::MAX,
        ensures
            reached == reached_mode_limit_spec(self@),
    {
        let answered = self.correct + self.incorrect;
        match self.mode {
            GameMode::Infinite => false,
            GameMode::BestOf(limit) => answered >= limit,
            GameMode::Progressive => {
                self.progressive_unlocked_columns >= COLUMN_COUNT && self.is_column_mastered(
                    COLUMN_COUNT - 1,
                )
            },
        }
    }

    /// The mode of the menu row under the cursor.
    pub fn select_mode(&self) -> (mode: GameMode)
        ensures
            mode == select_mode_spec(self.menu_selection),
    {
        match self.menu_selection {
            0 => GameMode::Progressive,
            1 => GameMode::BestOf(20),
            2 => GameMode::Infinite,
            _ => GameMode::Infinite,
        }
    }

    /// Points of a best-of session.
    pub fn best_of_points(&self) -> (points: i64)
        requires
            i64::MIN <= best_of_points_spec(self@) <= i64::MAX,
        ensures
            points == best_of_points_spec(self@),
    {
        (self.correct as i64 * 100) - (self.incorrect as i64 * 25) - (
        self.session_elapsed_secs as i64)
    }
}

proof fn lemma_product_fits(a: u32, b: u32)
    ensures
        a * b <= u64::MAX,
{
    assert(a * b <= 0xffff_ffffint * 0xffff_ffffint) by (nonlinear_arith)
        requires
            a <= 0xffff_ffffint,
            b <= 0xffff_ffffint,
            0 <= a,
            0 <= b,
    ;
}

proof fn lemma_irreflexive(v: GameView, a: int)
    ensures
        !harder_spec(v, a, a),
{
}

} // verus!

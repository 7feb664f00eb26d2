//! What the game can be asked to do, and what it asks of its host.

use vstd::prelude::*;

verus! {

/// An input to the reducer.
#[derive(Debug, Clone, Copy, PartialEq, Eq, Structural)]
pub enum CoreAction {
    MenuUp,
    MenuDown,
    StartFromMenu,
    OpenExitPrompt,
    OpenAbandonPrompt,
    ConfirmPrompt,
    CancelPrompt,
    OptionsUp,
    OptionsDown,
    ToggleOptionOrStart,
    StartFromOptions,
    InputChar(char),
    Backspace,
    SubmitAnswer,
    ContinueAfterFeedback,
    ContinueAfterUnlock,
    FinishedToMenu,
    SetElapsedSeconds(u64),
}

/// Work the reducer hands back to its host.
#[derive(Debug, Clone, Copy, PartialEq, Eq, Structural)]
pub enum CoreEffect {
    /// Store the result of a finished best-of session.
    PersistBestOfScore { correct: u32, incorrect: u32, elapsed_secs: u64, points: i64 },
}

} // verus!

//! Keyboard handling: which key does what on each screen. The host turns its
//! terminal events into `Key`s and carries out the `KeyCommand` that comes back.

use vstd::prelude::*;

use crate::actions::CoreAction;
use crate::kana::COLUMN_COUNT;
use crate::state::{GameMode, GameState, GameStateKind, GameView};

verus! {

/// A key press, as far as the game tells keys apart.
#[derive(Debug, Clone, Copy, PartialEq, Eq, Structural)]
pub enum Key {
    Esc,
    Enter,
    Backspace,
    Up,
    Down,
    Left,
    Right,
    Char(char),
    Other,
}

/// What a key press asks for.
#[derive(Debug, Clone, Copy, PartialEq, Eq, Structural)]
pub enum KeyCommand {
    /// Run this action through the reducer.
    Dispatch(CoreAction),
    /// Switch between the two ways of drawing the kana.
    ToggleRenderStyle,
    /// Leave the column options for the menu.
    LeaveColumnOptions,
    /// Nothing.
    Ignore,
}

/// How the current kana is drawn.
#[derive(Debug, Clone, Copy, PartialEq, Eq, Structural)]
pub enum RenderStyle {
    Braille,
    Ascii,
}

/// The other render style.
pub open spec fn toggled_style(style: RenderStyle) -> RenderStyle {
    match style {
        RenderStyle::Braille => RenderStyle::Ascii,
        RenderStyle::Ascii => RenderStyle::Braille,
    }
}

/// The menu row that holds the render style.
pub const RENDER_STYLE_ROW: usize = 3;

/// Keys while a yes/no prompt is open.
pub open spec fn quit_prompt_key_spec(key: Key) -> KeyCommand {
    match key {
        Key::Enter | Key::Char('y') | Key::Char('Y') => KeyCommand::Dispatch(
            CoreAction::ConfirmPrompt,
        ),
        Key::Esc | Key::Char('n') | Key::Char('N') => KeyCommand::Dispatch(
            CoreAction::CancelPrompt,
        ),
        _ => KeyCommand::Ignore,
    }
}

/// Keys while an answer is typed.
pub open spec fn in_progress_key_spec(key: Key) -> KeyCommand {
    match key {
        Key::Esc => KeyCommand::Dispatch(CoreAction::OpenAbandonPrompt),
        Key::Enter => KeyCommand::Dispatch(CoreAction::SubmitAnswer),
        Key::Backspace => KeyCommand::Dispatch(CoreAction::Backspace),
        Key::Char(c) => KeyCommand::Dispatch(CoreAction::InputChar(c)),
        _ => KeyCommand::Ignore,
    }
}

/// Keys on the feedback screen.
pub open spec fn showing_feedback_key_spec(key: Key) -> KeyCommand {
    match key {
        Key::Esc => KeyCommand::Dispatch(CoreAction::OpenAbandonPrompt),
        Key::Enter | Key::Char(' ') => KeyCommand::Dispatch(CoreAction::ContinueAfterFeedback),
        _ => KeyCommand::Ignore,
    }
}

/// Keys on the menu, with the cursor on `menu_selection`.
pub open spec fn menu_key_spec(menu_selection: usize, key: Key) -> KeyCommand {
    match key {
        Key::Esc => KeyCommand::Dispatch(CoreAction::OpenExitPrompt),
        Key::Up | Key::Char('k') => KeyCommand::Dispatch(CoreAction::MenuUp),
        Key::Down | Key::Char('j') => KeyCommand::Dispatch(CoreAction::MenuDown),
        Key::Left | Key::Right | Key::Char('h') | Key::Char('l') => if menu_selection
            == RENDER_STYLE_ROW {
            KeyCommand::ToggleRenderStyle
        } else {
            KeyCommand::Ignore
        },
        Key::Enter => if menu_selection == RENDER_STYLE_ROW {
            KeyCommand::ToggleRenderStyle
        } else {
            KeyCommand::Dispatch(CoreAction::StartFromMenu)
        },
        _ => KeyCommand::Ignore,
    }
}

/// Keys on the column options, with the cursor on `options_selection`.
pub open spec fn column_options_key_spec(options_selection: usize, key: Key) -> KeyCommand {
    match key {
        Key::Esc => KeyCommand::LeaveColumnOptions,
        Key::Up | Key::Char('k') => KeyCommand::Dispatch(CoreAction::OptionsUp),
        Key::Down | Key::Char('j') => KeyCommand::Dispatch(CoreAction::OptionsDown),
        Key::Char('s') => KeyCommand::Dispatch(CoreAction::StartFromOptions),
        Key::Enter | Key::Char(' ') => if options_selection <= COLUMN_COUNT {
            KeyCommand::Dispatch(CoreAction::ToggleOptionOrStart)
        } else {
            KeyCommand::Ignore
        },
        _ => KeyCommand::Ignore,
    }
}

/// Keys on the results screen.
pub open spec fn finished_key_spec(key: Key) -> KeyCommand {
    match key {
        Key::Esc => KeyCommand::Dispatch(CoreAction::OpenExitPrompt),
        Key::Enter => KeyCommand::Dispatch(CoreAction::FinishedToMenu),
        _ => KeyCommand::Ignore,
    }
}

/// Keys on the column-unlocked screen.
pub open spec fn column_unlocked_key_spec(key: Key) -> KeyCommand {
    match key {
        Key::Esc => KeyCommand::Dispatch(CoreAction::OpenAbandonPrompt),
        Key::Enter | Key::Char(' ') => KeyCommand::Dispatch(CoreAction::ContinueAfterUnlock),
        _ => KeyCommand::Ignore,
    }
}

/// Keys for the whole game: an open prompt takes them first, then the current screen.
pub open spec fn command_for_key_spec(v: GameView, key: Key) -> KeyCommand {
    if v.quit_prompt is Some {
        quit_prompt_key_spec(key)
    } else {
        match v.state {
            GameStateKind::Menu => menu_key_spec(v.menu_selection, key),
            GameStateKind::ColumnOptions => column_options_key_spec(v.options_selection, key),
            GameStateKind::InProgress => in_progress_key_spec(key),
            GameStateKind::ShowingFeedback => showing_feedback_key_spec(key),
            GameStateKind::ColumnUnlocked => column_unlocked_key_spec(key),
            GameStateKind::Finished => finished_key_spec(key),
        }
    }
}

/// What a key does while a yes/no prompt is open.
pub fn handle_quit_prompt_key(key: Key) -> (command: KeyCommand)
    ensures
        command == quit_prompt_key_spec(key),
{
    match key {
        Key::Enter | Key::Char('y') | Key::Char('Y') => KeyCommand::Dispatch(
            CoreAction::ConfirmPrompt,
        ),
        Key::Esc | Key::Char('n') | Key::Char('N') => KeyCommand::Dispatch(
            CoreAction::CancelPrompt,
        ),
        _ => KeyCommand::Ignore,
    }
}

/// What a key does while an answer is typed.
pub fn handle_in_progress_key(key: Key) -> (command: KeyCommand)
    ensures
        command == in_progress_key_spec(key),
{
    match key {
        Key::Esc => KeyCommand::Dispatch(CoreAction::OpenAbandonPrompt),
        Key::Enter => KeyCommand::Dispatch(CoreAction::SubmitAnswer),
        Key::Backspace => KeyCommand::Dispatch(CoreAction::Backspace),
        Key::Char(c) => KeyCommand::Dispatch(CoreAction::InputChar(c)),
        _ => KeyCommand::Ignore,
    }
}

/// What a key does on the feedback screen.
pub fn handle_showing_feedback_key(key: Key) -> (command: KeyCommand)
    ensures
        command == showing_feedback_key_spec(key),
{
    match key {
        Key::Esc => KeyCommand::Dispatch(CoreAction::OpenAbandonPrompt),
        Key::Enter | Key::Char(' ') => KeyCommand::Dispatch(CoreAction::ContinueAfterFeedback),
        _ => KeyCommand::Ignore,
    }
}

/// What a key does on the menu.
pub fn handle_menu_key(menu_selection: usize, key: Key) -> (command: KeyCommand)
    ensures
        command == menu_key_spec(menu_selection, key),
{
    match key {
        Key::Esc => KeyCommand::Dispatch(CoreAction::OpenExitPrompt),
        Key::Up | Key::Char('k') => KeyCommand::Dispatch(CoreAction::MenuUp),
        Key::Down | Key::Char('j') => KeyCommand::Dispatch(CoreAction::MenuDown),
        Key::Left | Key::Right | Key::Char('h') | Key::Char('l') => {
            if menu_selection == RENDER_STYLE_ROW {
                KeyCommand::ToggleRenderStyle
            } else {
                KeyCommand::Ignore
            }
        },
        Key::Enter => {
            if menu_selection == RENDER_STYLE_ROW {
                KeyCommand::ToggleRenderStyle
            } else {
                KeyCommand::Dispatch(CoreAction::StartFromMenu)
            }
        },
        _ => KeyCommand::Ignore,
    }
}

/// What a key does on the column options.
pub fn handle_column_options_key(options_selection: usize, key: Key) -> (command: KeyCommand)
    ensures
        command == column_options_key_spec(options_selection, key),
{
    let last_row = COLUMN_COUNT;
    match key {
        Key::Esc => KeyCommand::LeaveColumnOptions,
        Key::Up | Key::Char('k') => KeyCommand::Dispatch(CoreAction::OptionsUp),
        Key::Down | Key::Char('j') => KeyCommand::Dispatch(CoreAction::OptionsDown),
        Key::Char('s') => KeyCommand::Dispatch(CoreAction::StartFromOptions),
        Key::Enter | Key::Char(' ') => {
            if options_selection <= last_row {
                KeyCommand::Dispatch(CoreAction::ToggleOptionOrStart)
            } else {
                KeyCommand::Ignore
            }
        },
        _ => KeyCommand::Ignore,
    }
}

/// What a key does on the results screen.
pub fn handle_finished_key(key: Key) -> (command: KeyCommand)
    ensures
        command == finished_key_spec(key),
{
    match key {
        Key::Esc => KeyCommand::Dispatch(CoreAction::OpenExitPrompt),
        Key::Enter => KeyCommand::Dispatch(CoreAction::FinishedToMenu),
        _ => KeyCommand::Ignore,
    }
}

/// What a key does on the column-unlocked screen.
pub fn handle_column_unlocked_key(key: Key) -> (command: KeyCommand)
    ensures
        command == column_unlocked_key_spec(key),
{
    match key {
        Key::Esc => KeyCommand::Dispatch(CoreAction::OpenAbandonPrompt),
        Key::Enter | Key::Char(' ') => KeyCommand::Dispatch(CoreAction::ContinueAfterUnlock),
        _ => KeyCommand::Ignore,
    }
}

/// What a key does in the current state of the game.
pub fn command_for_key(game: &GameState, key: Key) -> (command: KeyCommand)
    ensures
        command == command_for_key_spec(game@, key),
{
    if game.quit_prompt.is_some() {
        return handle_quit_prompt_key(key);
    }
    match game.state {
        GameStateKind::Menu => handle_menu_key(game.menu_selection, key),
        GameStateKind::ColumnOptions => handle_column_options_key(game.options_selection, key),
        GameStateKind::InProgress => handle_in_progress_key(key),
        GameStateKind::ShowingFeedback => handle_showing_feedback_key(key),
        GameStateKind::ColumnUnlocked => handle_column_unlocked_key(key),
        GameStateKind::Finished => handle_finished_key(key),
    }
}

/// Whether dispatching `action` starts the clock of a best-of session: it is the
/// menu's start with the best-of row chosen.
pub fn starts_session_clock(game: &GameState, action: CoreAction) -> (starts: bool)
    ensures
        starts == (action == CoreAction::StartFromMenu && game.menu_selection == 1),
{
    matches!(action, CoreAction::StartFromMenu) && game.menu_selection == 1
}

/// Whether the elapsed time of the session is being counted: a best-of session on
/// the answer or feedback screen.
pub fn session_clock_running(game: &GameState) -> (running: bool)
    ensures
        running == (game.mode is BestOf && (game.state == GameStateKind::InProgress
            || game.state == GameStateKind::ShowingFeedback)),
{
    matches!(game.mode, GameMode::BestOf(_)) && matches!(
        game.state,
        GameStateKind::InProgress | GameStateKind::ShowingFeedback
    )
}

impl RenderStyle {
    /// The other render style.
    pub fn toggled(self) -> (other: RenderStyle)
        ensures
            other == toggled_style(self),
    {
        match self {
            RenderStyle::Braille => RenderStyle::Ascii,
            RenderStyle::Ascii => RenderStyle::Braille,
        }
    }

    /// The name shown for the render style.
    pub fn label(self) -> (label: &'static str)
        ensures
            label@ == (match self {
                RenderStyle::Braille => "Braille"@,
                RenderStyle::Ascii => "Ascii"@,
            }),
    {
        match self {
            RenderStyle::Braille => "Braille",
            RenderStyle::Ascii => "Ascii",
        }
    }
}

impl GameState {
    /// Leaves the column options for the menu and clears their message.
    pub fn leave_column_options(&mut self)
        ensures
            final(self)@ == (GameView {
                state: GameStateKind::Menu,
                options_feedback: None,
                ..old(self)@
            }),
    {
        self.state = GameStateKind::Menu;
        self.options_feedback = None;
    }
}

/// While a prompt is open it takes every key, whatever the screen: y, Y and Enter
/// confirm it, n, N and Esc cancel it, and every other key does nothing.
pub proof fn lemma_open_prompt_takes_keys(v: GameView, key: Key)
    requires
        v.quit_prompt is Some,
    ensures
        (key == Key::Enter || key == Key::Char('y') || key == Key::Char('Y'))
            ==> command_for_key_spec(v, key) == KeyCommand::Dispatch(CoreAction::ConfirmPrompt),
        (key == Key::Esc || key == Key::Char('n') || key == Key::Char('N'))
            ==> command_for_key_spec(v, key) == KeyCommand::Dispatch(CoreAction::CancelPrompt),
        !(key == Key::Enter || key == Key::Char('y') || key == Key::Char('Y') || key == Key::Esc
            || key == Key::Char('n') || key == Key::Char('N')) ==> command_for_key_spec(v, key)
            == KeyCommand::Ignore,
{
}

/// On the answer screen every character key is typed into the answer, Enter submits
/// it, Backspace deletes, and Esc asks whether to abandon the session.
pub proof fn lemma_answer_screen_keys(v: GameView, c: char)
    requires
        v.quit_prompt is None,
        v.state == GameStateKind::InProgress,
    ensures
        command_for_key_spec(v, Key::Char(c)) == KeyCommand::Dispatch(CoreAction::InputChar(c)),
        command_for_key_spec(v, Key::Enter) == KeyCommand::Dispatch(CoreAction::SubmitAnswer),
        command_for_key_spec(v, Key::Backspace) == KeyCommand::Dispatch(CoreAction::Backspace),
        command_for_key_spec(v, Key::Esc) == KeyCommand::Dispatch(CoreAction::OpenAbandonPrompt),
{
}

/// Esc never acts at once during a session: on the answer, feedback and unlock screens
/// it opens the abandon prompt; on the menu and the results it opens the exit prompt;
/// on the column options it goes back to the menu.
pub proof fn lemma_escape_keys(v: GameView)
    requires
        v.quit_prompt is None,
    ensures
        (v.state == GameStateKind::InProgress || v.state == GameStateKind::ShowingFeedback
            || v.state == GameStateKind::ColumnUnlocked) ==> command_for_key_spec(v, Key::Esc)
            == KeyCommand::Dispatch(CoreAction::OpenAbandonPrompt),
        (v.state == GameStateKind::Menu || v.state == GameStateKind::Finished)
            ==> command_for_key_spec(v, Key::Esc) == KeyCommand::Dispatch(
            CoreAction::OpenExitPrompt,
        ),
        v.state == GameStateKind::ColumnOptions ==> command_for_key_spec(v, Key::Esc)
            == KeyCommand::LeaveColumnOptions,
{
}

/// On the menu, Enter starts the row under the cursor, except on the render-style row,
/// where Enter and the side keys switch the style; elsewhere the side keys do nothing.
pub proof fn lemma_menu_enter_and_side_keys(v: GameView)
    requires
        v.quit_prompt is None,
        v.state == GameStateKind::Menu,
    ensures
        v.menu_selection == RENDER_STYLE_ROW ==> command_for_key_spec(v, Key::Enter)
            == KeyCommand::ToggleRenderStyle && command_for_key_spec(v, Key::Left)
            == KeyCommand::ToggleRenderStyle && command_for_key_spec(v, Key::Right)
            == KeyCommand::ToggleRenderStyle,
        v.menu_selection != RENDER_STYLE_ROW ==> command_for_key_spec(v, Key::Enter)
            == KeyCommand::Dispatch(CoreAction::StartFromMenu) && command_for_key_spec(
            v,
            Key::Left,
        ) == KeyCommand::Ignore,
        command_for_key_spec(v, Key::Up) == KeyCommand::Dispatch(CoreAction::MenuUp),
        command_for_key_spec(v, Key::Down) == KeyCommand::Dispatch(CoreAction::MenuDown),
{
}

/// Switching the render style changes it, and switching twice gives it back.
pub proof fn lemma_render_style_toggle_twice(style: RenderStyle)
    ensures
        toggled_style(style) != style,
        toggled_style(toggled_style(style)) == style,
{
}

} // verus!

//! Core logic of a hiragana quiz: the kana table, the game state and its
//! reducer, and the best-of scoreboard.

pub mod kana;
pub mod actions;
pub mod text;
pub mod state;
pub mod reducer;
pub mod score;
pub mod input;
pub mod laws;

# gojuon_core

A terminal quiz for the 46 basic hiragana, with its game logic verified by Verus.

- `src/` is the verified library:
  - `kana` – the kana table and the ten columns that group it;
  - `text` – editing and normalising the typed answer;
  - `state` – the game state, its mathematical view, and the operations on it;
  - `actions`, `reducer` – the actions the game accepts and the reducer that applies them;
  - `score` – the best-of scoreboard, kept in rank order and cut to ten entries;
  - `input` – which key does what on each screen;
  - `laws` – properties across operations: the state invariant that every action
    keeps, and what answering and scoring promise.
- `app/` is the terminal program around it: drawing with ratatui and fontdue,
  reading keys with crossterm, the clock, and storing the scoreboard as JSON.
- `tests/` runs the library on concrete games.

Deck order comes from `rand`; the contracts state that a drawn deck holds exactly
the allowed kana, each as often as they are listed, and leave the order open.

use gojuon_core::score::{ScoreBoard, ScoreEntry};

fn entry(timestamp_secs: u64, elapsed_secs: u64, points: i64) -> ScoreEntry {
    ScoreEntry { timestamp_secs, correct: 0, incorrect: 0, elapsed_secs, points }
}

#[test]
fn entries_are_kept_best_first() {
    let mut board = ScoreBoard::default();
    board.add_entry(entry(1, 50, 100));
    board.add_entry(entry(2, 40, 300));
    board.add_entry(entry(3, 30, 100));
    board.add_entry(entry(4, 50, 100));
    assert_eq!(
        board.entries,
        vec![entry(2, 40, 300), entry(3, 30, 100), entry(4, 50, 100), entry(1, 50, 100)]
    );
}

#[test]
fn only_ten_entries_are_kept() {
    let mut board = ScoreBoard::default();
    for i in 0..12 {
        board.add_entry(entry(i, 10, i as i64));
    }
    assert_eq!(board.entries.len(), 10);
    assert_eq!(board.entries[0].points, 11);
    assert_eq!(board.entries[9].points, 2);
    board.add_entry(entry(99, 10, -5));
    assert_eq!(board.entries.len(), 10);
    assert!(board.entries.iter().all(|e| e.points != -5));
}

#[test]
fn equal_entries_keep_their_order() {
    let a = ScoreEntry { timestamp_secs: 5, correct: 1, incorrect: 0, elapsed_secs: 5, points: 7 };
    let b = ScoreEntry { timestamp_secs: 5, correct: 2, incorrect: 0, elapsed_secs: 5, points: 7 };
    let mut board = ScoreBoard { entries: vec![a] };
    board.add_entry(b);
    assert_eq!(board.entries, vec![a, b]);
}

#[test]
fn unsorted_boards_are_sorted_on_add() {
    let mut board = ScoreBoard { entries: vec![entry(1, 1, 1), entry(2, 1, 9)] };
    board.add_entry(entry(3, 1, 5));
    assert_eq!(board.entries, vec![entry(2, 1, 9), entry(3, 1, 5), entry(1, 1, 1)]);
}

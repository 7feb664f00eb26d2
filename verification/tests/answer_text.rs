use gojuon_core::text::{ascii_lower, normalize_answer};

#[test]
fn answers_are_trimmed_and_lowercased() {
    assert_eq!(normalize_answer("  TsU\t\n"), "tsu");
    assert_eq!(normalize_answer("   "), "");
    assert_eq!(normalize_answer(""), "");
    assert_eq!(normalize_answer(" s h "), "s h");
    assert_eq!(normalize_answer("\u{3000}KA\u{3000}"), "ka");
    assert_eq!(normalize_answer("ÉA"), "Éa");
}

#[test]
fn ascii_lowering() {
    assert_eq!(ascii_lower('A'), 'a');
    assert_eq!(ascii_lower('Z'), 'z');
    assert_eq!(ascii_lower('['), '[');
    assert_eq!(ascii_lower('a'), 'a');
    assert_eq!(ascii_lower('Ω'), 'Ω');
}


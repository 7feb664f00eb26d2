use gojuon_core::kana::{
    column_index_group, column_index_groups, column_label, column_labels, column_start,
    hiragana, hiragana_table, romaji, COLUMN_COUNT, KANA_COUNT,
};

#[test]
fn hiragana_has_46_entries() {
    assert_eq!(hiragana_table().len(), 46);
    assert_eq!(KANA_COUNT, 46);
}

#[test]
fn column_labels_has_10_entries() {
    assert_eq!(column_labels().len(), 10);
    assert_eq!(COLUMN_COUNT, 10);
}

#[test]
fn column_index_groups_has_10_entries() {
    assert_eq!(column_index_groups().len(), 10);
}

#[test]
fn column_index_groups_cover_all_46_indices_exactly_once() {
    let mut all_indices: Vec<usize> = column_index_groups()
        .iter()
        .flat_map(|g| g.iter().copied())
        .collect();
    all_indices.sort_unstable();
    assert_eq!(all_indices, (0..46).collect::<Vec<_>>());
}

#[test]
fn all_group_indices_within_bounds() {
    let table = hiragana_table();
    for group in column_index_groups().iter() {
        for &idx in group {
            assert!(idx < table.len());
        }
    }
}

#[test]
fn irregular_romaji_mappings_are_correct() {
    let table = hiragana_table();
    assert_eq!(table[11], ("し", "shi"));
    assert_eq!(table[16], ("ち", "chi"));
    assert_eq!(table[17], ("つ", "tsu"));
    assert_eq!(table[27], ("ふ", "fu"));
    assert_eq!(table[45], ("ん", "n"));
}

#[test]
fn table_ends_and_columns_have_expected_shape() {
    assert_eq!(hiragana(0), "あ");
    assert_eq!(romaji(0), "a");
    assert_eq!(hiragana(43), "わ");
    assert_eq!(romaji(44), "wo");
    assert_eq!(column_label(0), "Vowels");
    assert_eq!(column_label(9), "W");
    assert_eq!(column_labels(), vec!["Vowels", "K", "S", "T", "N", "H", "M", "Y", "R", "W"]);
    assert_eq!(column_start(7), 35);
    assert_eq!(column_start(10), 46);
    assert_eq!(column_index_group(7), vec![35, 36, 37]);
    assert_eq!(column_index_group(9), vec![43, 44, 45]);
    assert_eq!(column_index_group(2), vec![10, 11, 12, 13, 14]);
}

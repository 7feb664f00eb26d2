//! The kana table: the 46 basic hiragana with their romaji, and the ten
//! columns (rows of the gojuon chart) that group them.
//!
//! Every column covers a run of consecutive kana indices; the columns are laid
//! out one after another, so that together they cover `0..KANA_COUNT` exactly once.

use vstd::prelude::*;

verus! {

/// Number of kana in the table.
pub const KANA_COUNT: usize = 46;

/// Number of columns.
pub const COLUMN_COUNT: usize = 10;

/// First kana index of `column`; `column_start_spec(COLUMN_COUNT)` is `KANA_COUNT`.
pub open spec fn column_start_spec(column: int) -> int {
    if column <= 0 {
        0
    } else if column <= 1 {
        5
    } else if column <= 2 {
        10
    } else if column <= 3 {
        15
    } else if column <= 4 {
        20
    } else if column <= 5 {
        25
    } else if column <= 6 {
        30
    } else if column <= 7 {
        35
    } else if column <= 8 {
        38
    } else if column <= 9 {
        43
    } else {
        46
    }
}

/// One past the last kana index of `column`.
pub open spec fn column_end_spec(column: int) -> int {
    column_start_spec(column + 1)
}

/// The kana indices of `column`, in increasing order.
pub open spec fn column_group_spec(column: int) -> Seq<usize> {
    Seq::new(
        (column_end_spec(column) - column_start_spec(column)) as nat,
        |i: int| (column_start_spec(column) + i) as usize,
    )
}

/// The column that holds kana `index`; indices outside the table fall back to column 0.
pub open spec fn column_of_spec(index: int) -> int {
    if index < 0 {
        0
    } else if index < 5 {
        0
    } else if index < 10 {
        1
    } else if index < 15 {
        2
    } else if index < 20 {
        3
    } else if index < 25 {
        4
    } else if index < 30 {
        5
    } else if index < 35 {
        6
    } else if index < 38 {
        7
    } else if index < 43 {
        8
    } else if index < 46 {
        9
    } else {
        0
    }
}

/// The hiragana shown for kana `index`.
pub open spec fn hiragana_spec(index: int) -> Seq<char> {
    if index == 0 {
        "あ"@
    } else if index == 1 {
        "い"@
    } else if index == 2 {
        "う"@
    } else if index == 3 {
        "え"@
    } else if index == 4 {
        "お"@
    } else if index == 5 {
        "か"@
    } else if index == 6 {
        "き"@
    } else if index == 7 {
        "く"@
    } else if index == 8 {
        "け"@
    } else if index == 9 {
        "こ"@
    } else if index == 10 {
        "さ"@
    } else if index == 11 {
        "し"@
    } else if index == 12 {
        "す"@
    } else if index == 13 {
        "せ"@
    } else if index == 14 {
        "そ"@
    } else if index == 15 {
        "た"@
    } else if index == 16 {
        "ち"@
    } else if index == 17 {
        "つ"@
    } else if index == 18 {
        "て"@
    } else if index == 19 {
        "と"@
    } else if index == 20 {
        "な"@
    } else if index == 21 {
        "に"@
    } else if index == 22 {
        "ぬ"@
    } else if index == 23 {
        "ね"@
    } else if index == 24 {
        "の"@
    } else if index == 25 {
        "は"@
    } else if index == 26 {
        "ひ"@
    } else if index == 27 {
        "ふ"@
    } else if index == 28 {
        "へ"@
    } else if index == 29 {
        "ほ"@
    } else if index == 30 {
        "ま"@
    } else if index == 31 {
        "み"@
    } else if index == 32 {
        "む"@
    } else if index == 33 {
        "め"@
    } else if index == 34 {
        "も"@
    } else if index == 35 {
        "や"@
    } else if index == 36 {
        "ゆ"@
    } else if index == 37 {
        "よ"@
    } else if index == 38 {
        "ら"@
    } else if index == 39 {
        "り"@
    } else if index == 40 {
        "る"@
    } else if index == 41 {
        "れ"@
    } else if index == 42 {
        "ろ"@
    } else if index == 43 {
        "わ"@
    } else if index == 44 {
        "を"@
    } else {
        "ん"@
    }
}

/// The romaji expected for kana `index`.
pub open spec fn romaji_spec(index: int) -> Seq<char> {
    if index == 0 {
        "a"@
    } else if index == 1 {
        "i"@
    } else if index == 2 {
        "u"@
    } else if index == 3 {
        "e"@
    } else if index == 4 {
        "o"@
    } else if index == 5 {
        "ka"@
    } else if index == 6 {
        "ki"@
    } else if index == 7 {
        "ku"@
    } else if index == 8 {
        "ke"@
    } else if index == 9 {
        "ko"@
    } else if index == 10 {
        "sa"@
    } else if index == 11 {
        "shi"@
    } else if index == 12 {
        "su"@
    } else if index == 13 {
        "se"@
    } else if index == 14 {
        "so"@
    } else if index == 15 {
        "ta"@
    } else if index == 16 {
        "chi"@
    } else if index == 17 {
        "tsu"@
    } else if index == 18 {
        "te"@
    } else if index == 19 {
        "to"@
    } else if index == 20 {
        "na"@
    } else if index == 21 {
        "ni"@
    } else if index == 22 {
        "nu"@
    } else if index == 23 {
        "ne"@
    } else if index == 24 {
        "no"@
    } else if index == 25 {
        "ha"@
    } else if index == 26 {
        "hi"@
    } else if index == 27 {
        "fu"@
    } else if index == 28 {
        "he"@
    } else if index == 29 {
        "ho"@
    } else if index == 30 {
        "ma"@
    } else if index == 31 {
        "mi"@
    } else if index == 32 {
        "mu"@
    } else if index == 33 {
        "me"@
    } else if index == 34 {
        "mo"@
    } else if index == 35 {
        "ya"@
    } else if index == 36 {
        "yu"@
    } else if index == 37 {
        "yo"@
    } else if index == 38 {
        "ra"@
    } else if index == 39 {
        "ri"@
    } else if index == 40 {
        "ru"@
    } else if index == 41 {
        "re"@
    } else if index == 42 {
        "ro"@
    } else if index == 43 {
        "wa"@
    } else if index == 44 {
        "wo"@
    } else {
        "n"@
    }
}

/// The label of `column`.
pub open spec fn column_label_spec(column: int) -> Seq<char> {
    if column == 0 {
        "Vowels"@
    } else if column == 1 {
        "K"@
    } else if column == 2 {
        "S"@
    } else if column == 3 {
        "T"@
    } else if column == 4 {
        "N"@
    } else if column == 5 {
        "H"@
    } else if column == 6 {
        "M"@
    } else if column == 7 {
        "Y"@
    } else if column == 8 {
        "R"@
    } else {
        "W"@
    }
}

/// First kana index of `column` (`KANA_COUNT` for `column == COLUMN_COUNT`).
pub fn column_start(column: usize) -> (start: usize)
    requires
        column <= COLUMN_COUNT,
    ensures
        start == column_start_spec(column as int),
{
    match column {
        0 => 0,
        1 => 5,
        2 => 10,
        3 => 15,
        4 => 20,
        5 => 25,
        6 => 30,
        7 => 35,
        8 => 38,
        9 => 43,
        _ => 46,
    }
}

/// The hiragana for kana `index`.
pub fn hiragana(index: usize) -> (shown: &'static str)
    requires
        index < KANA_COUNT,
    ensures
        shown@ == hiragana_spec(index as int),
{
    match index {
        0 => "あ",
        1 => "い",
        2 => "う",
        3 => "え",
        4 => "お",
        5 => "か",
        6 => "き",
        7 => "く",
        8 => "け",
        9 => "こ",
        10 => "さ",
        11 => "し",
        12 => "す",
        13 => "せ",
        14 => "そ",
        15 => "た",
        16 => "ち",
        17 => "つ",
        18 => "て",
        19 => "と",
        20 => "な",
        21 => "に",
        22 => "ぬ",
        23 => "ね",
        24 => "の",
        25 => "は",
        26 => "ひ",
        27 => "ふ",
        28 => "へ",
        29 => "ほ",
        30 => "ま",
        31 => "み",
        32 => "む",
        33 => "め",
        34 => "も",
        35 => "や",
        36 => "ゆ",
        37 => "よ",
        38 => "ら",
        39 => "り",
        40 => "る",
        41 => "れ",
        42 => "ろ",
        43 => "わ",
        44 => "を",
        _ => "ん",
    }
}

/// The romaji for kana `index`.
pub fn romaji(index: usize) -> (expected: &'static str)
    requires
        index < KANA_COUNT,
    ensures
        expected@ == romaji_spec(index as int),
{
    match index {
        0 => "a",
        1 => "i",
        2 => "u",
        3 => "e",
        4 => "o",
        5 => "ka",
        6 => "ki",
        7 => "ku",
        8 => "ke",
        9 => "ko",
        10 => "sa",
        11 => "shi",
        12 => "su",
        13 => "se",
        14 => "so",
        15 => "ta",
        16 => "chi",
        17 => "tsu",
        18 => "te",
        19 => "to",
        20 => "na",
        21 => "ni",
        22 => "nu",
        23 => "ne",
        24 => "no",
        25 => "ha",
        26 => "hi",
        27 => "fu",
        28 => "he",
        29 => "ho",
        30 => "ma",
        31 => "mi",
        32 => "mu",
        33 => "me",
        34 => "mo",
        35 => "ya",
        36 => "yu",
        37 => "yo",
        38 => "ra",
        39 => "ri",
        40 => "ru",
        41 => "re",
        42 => "ro",
        43 => "wa",
        44 => "wo",
        _ => "n",
    }
}

/// The label of `column`.
pub fn column_label(column: usize) -> (label: &'static str)
    requires
        column < COLUMN_COUNT,
    ensures
        label@ == column_label_spec(column as int),
{
    match column {
        0 => "Vowels",
        1 => "K",
        2 => "S",
        3 => "T",
        4 => "N",
        5 => "H",
        6 => "M",
        7 => "Y",
        8 => "R",
        _ => "W",
    }
}


/// The kana indices of `column`, in increasing order.
pub fn column_index_group(column: usize) -> (group: Vec<usize>)
    requires
        column < COLUMN_COUNT,
    ensures
        group@ == column_group_spec(column as int),
{
    let lo = column_start(column);
    let hi = column_start(column + 1);
    let mut group: Vec<usize> = Vec::new();
    let mut k: usize = lo;
    while k < hi
        invariant
            lo <= k <= hi,
            lo == column_start_spec(column as int),
            hi == column_end_spec(column as int),
            group@ == Seq::new((k - lo) as nat, |j: int| (lo + j) as usize),
        decreases hi - k,
    {
        group.push(k);
        assert(group@ =~= Seq::new((k + 1 - lo) as nat, |j: int| (lo + j) as usize));
        k = k + 1;
    }
    assert(group@ =~= column_group_spec(column as int));
    group
}

/// The kana indices of every column, column by column.
pub fn column_index_groups() -> (groups: Vec<Vec<usize>>)
    ensures
        groups@.len() == COLUMN_COUNT,
        forall|c: int| 0 <= c < COLUMN_COUNT ==> (#[trigger] groups@[c])@ == column_group_spec(c),
{
    let mut groups: Vec<Vec<usize>> = Vec::new();
    let mut column: usize = 0;
    while column < COLUMN_COUNT
        invariant
            column <= COLUMN_COUNT,
            groups@.len() == column,
            forall|c: int| 0 <= c < column ==> (#[trigger] groups@[c])@ == column_group_spec(c),
        decreases COLUMN_COUNT - column,
    {
        groups.push(column_index_group(column));
        column = column + 1;
    }
    groups
}

/// The whole table: for each kana index, its hiragana and its romaji.
pub fn hiragana_table() -> (table: Vec<(&'static str, &'static str)>)
    ensures
        table@.len() == KANA_COUNT,
        forall|i: int|
            0 <= i < KANA_COUNT ==> (#[trigger] table@[i]).0@ == hiragana_spec(i) && table@[i].1@
                == romaji_spec(i),
{
    let mut table: Vec<(&'static str, &'static str)> = Vec::new();
    let mut i: usize = 0;
    while i < KANA_COUNT
        invariant
            i <= KANA_COUNT,
            table@.len() == i,
            forall|k: int|
                0 <= k < i ==> (#[trigger] table@[k]).0@ == hiragana_spec(k) && table@[k].1@
                    == romaji_spec(k),
        decreases KANA_COUNT - i,
    {
        table.push((hiragana(i), romaji(i)));
        i = i + 1;
    }
    table
}

/// The labels of all columns, in order.
pub fn column_labels() -> (labels: Vec<&'static str>)
    ensures
        labels@.len() == COLUMN_COUNT,
        forall|c: int| 0 <= c < COLUMN_COUNT ==> (#[trigger] labels@[c])@ == column_label_spec(c),
{
    let mut labels: Vec<&'static str> = Vec::new();
    let mut c: usize = 0;
    while c < COLUMN_COUNT
        invariant
            c <= COLUMN_COUNT,
            labels@.len() == c,
            forall|k: int| 0 <= k < c ==> (#[trigger] labels@[k])@ == column_label_spec(k),
        decreases COLUMN_COUNT - c,
    {
        labels.push(column_label(c));
        c = c + 1;
    }
    labels
}

/// The columns split the table: every kana index lies in exactly one column's
/// group, and that column is `column_of_spec` of the index.
pub proof fn lemma_columns_partition_kana(index: int, column: int)
    requires
        0 <= index < KANA_COUNT,
        0 <= column < COLUMN_COUNT,
    ensures
        0 <= column_of_spec(index) < COLUMN_COUNT,
        column_group_spec(column).contains(index as usize) <==> column == column_of_spec(index),
{
    let g = column_group_spec(column);
    if column == column_of_spec(index) {
        assert(g[index - column_start_spec(column)] == index as usize);
    }
    if g.contains(index as usize) {
        let k = choose|k: int| 0 <= k < g.len() && g[k] == index as usize;
        assert(column_start_spec(column) <= index < column_end_spec(column));
    }
}

/// Every index in a column's group is a kana index.
pub proof fn lemma_groups_within_table(column: int, k: int)
    requires
        0 <= column < COLUMN_COUNT,
        0 <= k < column_group_spec(column).len(),
    ensures
        column_group_spec(column)[k] < KANA_COUNT,
{
}

} // verus!

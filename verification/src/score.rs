//! The best-of scoreboard: the best results, best first.

use vstd::prelude::*;

verus! {

/// How many results the scoreboard keeps.
pub const MAX_SCOREBOARD_ENTRIES: usize = 10;

/// One finished best-of session.
#[derive(Debug, Clone, Copy, PartialEq, Eq, Structural)]
pub struct ScoreEntry {
    pub timestamp_secs: u64,
    pub correct: u32,
    pub incorrect: u32,
    pub elapsed_secs: u64,
    pub points: i64,
}

/// The kept results, best first.
#[derive(Debug, Clone)]
pub struct ScoreBoard {
    pub entries: Vec<ScoreEntry>,
}

/// `a` ranks strictly ahead of `b`: more points; on equal points, less time; on equal
/// time too, the more recent one.
pub open spec fn ranks_before(a: ScoreEntry, b: ScoreEntry) -> bool {
    a.points > b.points || (a.points == b.points && (a.elapsed_secs < b.elapsed_secs || (
    a.elapsed_secs == b.elapsed_secs && a.timestamp_secs > b.timestamp_secs)))
}

/// Where `x` goes among the ranked `r`: before the first entry that it ranks ahead of.
pub open spec fn insert_position(r: Seq<ScoreEntry>, x: ScoreEntry) -> int
    decreases r.len(),
{
    if r.len() == 0 {
        0
    } else if ranks_before(x, r[0]) {
        0
    } else {
        1 + insert_position(r.drop_first(), x)
    }
}

/// `s` ordered by rank; entries of equal rank keep their order in `s`.
pub open spec fn ranked(s: Seq<ScoreEntry>) -> Seq<ScoreEntry>
    decreases s.len(),
{
    if s.len() == 0 {
        s
    } else {
        let r = ranked(s.drop_last());
        r.insert(insert_position(r, s.last()), s.last())
    }
}

/// The first `MAX_SCOREBOARD_ENTRIES` of `s`.
pub open spec fn keep_best(s: Seq<ScoreEntry>) -> Seq<ScoreEntry> {
    if s.len() <= MAX_SCOREBOARD_ENTRIES {
        s
    } else {
        s.take(MAX_SCOREBOARD_ENTRIES as int)
    }
}

/// No entry of `s` ranks ahead of one before it.
pub open spec fn is_ranked(s: Seq<ScoreEntry>) -> bool {
    forall|i: int, j: int| 0 <= i < j < s.len() ==> !ranks_before(#[trigger] s[j], #[trigger] s[i])
}

proof fn lemma_insert_position_skip(r: Seq<ScoreEntry>, x: ScoreEntry, j: int)
    requires
        0 <= j <= r.len(),
        forall|k: int| 0 <= k < j ==> !ranks_before(x, #[trigger] r[k]),
    ensures
        insert_position(r, x) == j + insert_position(r.skip(j), x),
    decreases j,
{
    if j > 0 {
        lemma_insert_position_skip(r.drop_first(), x, j - 1);
        assert(r.drop_first().skip(j - 1) =~= r.skip(j));
    } else {
        assert(r.skip(0) =~= r);
    }
}

/// The index before which `x` is inserted into `sorted`.
fn find_position(sorted: &Vec<ScoreEntry>, x: ScoreEntry) -> (pos: usize)
    ensures
        pos == insert_position(sorted@, x),
        pos <= sorted@.len(),
{
    let mut j: usize = 0;
    while j < sorted.len()
        invariant
            j <= sorted@.len(),
            forall|k: int| 0 <= k < j ==> !ranks_before(x, #[trigger] sorted@[k]),
        ensures
            j == sorted@.len() || ranks_before(x, sorted@[j as int]),
        decreases sorted@.len() - j,
    {
        let y = sorted[j];
        if x.points > y.points || (x.points == y.points && (x.elapsed_secs < y.elapsed_secs || (
        x.elapsed_secs == y.elapsed_secs && x.timestamp_secs > y.timestamp_secs))) {
            break;
        }
        j = j + 1;
    }
    proof {
        lemma_insert_position_skip(sorted@, x, j as int);
        if j < sorted@.len() {
            assert(sorted@.skip(j as int)[0] == sorted@[j as int]);
        }
    }
    j
}

proof fn lemma_insert_position_bounds(r: Seq<ScoreEntry>, x: ScoreEntry)
    ensures
        0 <= insert_position(r, x) <= r.len(),
        forall|k: int| 0 <= k < insert_position(r, x) ==> !ranks_before(x, #[trigger] r[k]),
        insert_position(r, x) < r.len() ==> ranks_before(x, r[insert_position(r, x)]),
    decreases r.len(),
{
    if r.len() > 0 && !ranks_before(x, r[0]) {
        lemma_insert_position_bounds(r.drop_first(), x);
        let p = insert_position(r, x);
        assert forall|k: int| 0 <= k < p implies !ranks_before(x, #[trigger] r[k]) by {
            if k > 0 {
                assert(r[k] == r.drop_first()[k - 1]);
            }
        }
    }
}

proof fn lemma_insert_keeps_ranked(r: Seq<ScoreEntry>, x: ScoreEntry)
    requires
        is_ranked(r),
    ensures
        is_ranked(r.insert(insert_position(r, x), x)),
{
    lemma_insert_position_bounds(r, x);
    let p = insert_position(r, x);
    let q = r.insert(p, x);
    assert forall|i: int, j: int| 0 <= i < j < q.len() implies !ranks_before(
        #[trigger] q[j],
        #[trigger] q[i],
    ) by {
        if j < p {
            assert(q[i] == r[i] && q[j] == r[j]);
        } else if j == p {
            assert(q[i] == r[i]);
        } else if i < p {
            assert(q[i] == r[i] && q[j] == r[j - 1]);
        } else if i == p {
            assert(q[j] == r[j - 1]);
            assert(!ranks_before(r[j - 1], r[p]) || j - 1 == p);
        } else {
            assert(q[i] == r[i - 1] && q[j] == r[j - 1]);
        }
    }
}

/// Ranking keeps every entry: `ranked(s)` is a permutation of `s`.
pub proof fn lemma_ranked_permutes(s: Seq<ScoreEntry>)
    ensures
        ranked(s).len() == s.len(),
        ranked(s).to_multiset() == s.to_multiset(),
    decreases s.len(),
{
    broadcast use vstd::seq_lib::group_to_multiset_ensures;

    if s.len() > 0 {
        lemma_ranked_permutes(s.drop_last());
        let r = ranked(s.drop_last());
        lemma_insert_position_bounds(r, s.last());
        assert(s.drop_last().push(s.last()) =~= s);
    }
}

/// Ranking orders: no entry of `ranked(s)` ranks ahead of one before it.
pub proof fn lemma_ranked_is_ranked(s: Seq<ScoreEntry>)
    ensures
        is_ranked(ranked(s)),
    decreases s.len(),
{
    if s.len() > 0 {
        lemma_ranked_is_ranked(s.drop_last());
        lemma_insert_keeps_ranked(ranked(s.drop_last()), s.last());
    }
}

/// After a result is added, the scoreboard is in rank order, holds one more entry up
/// to ten, and holds nothing but earlier entries and the new one.
pub proof fn lemma_added_board(entries: Seq<ScoreEntry>, entry: ScoreEntry)
    ensures
        is_ranked(keep_best(ranked(entries.push(entry)))),
        keep_best(ranked(entries.push(entry))).len() == if entries.len() + 1
            <= 10 {
            entries.len() + 1
        } else {
            10
        },
        forall|k: int|
            0 <= k < keep_best(ranked(entries.push(entry))).len() ==> entries.push(entry).contains(
                #[trigger] keep_best(ranked(entries.push(entry)))[k],
            ),
{
    broadcast use vstd::seq_lib::group_to_multiset_ensures;

    let all = entries.push(entry);
    let r = ranked(all);
    lemma_ranked_is_ranked(all);
    lemma_ranked_permutes(all);
    assert forall|k: int| 0 <= k < keep_best(r).len() implies all.contains(
        #[trigger] keep_best(r)[k],
    ) by {
        assert(keep_best(r)[k] == r[k]);
        assert(r.contains(r[k]));
        assert(r.to_multiset().count(r[k]) > 0);
    }
}

/// `a` and `b` have the same rank: equal points, time and timestamp.
pub open spec fn same_rank(a: ScoreEntry, b: ScoreEntry) -> bool {
    a.points == b.points && a.elapsed_secs == b.elapsed_secs && a.timestamp_secs
        == b.timestamp_secs
}

proof fn lemma_filter_none(s: Seq<ScoreEntry>, pred: spec_fn(ScoreEntry) -> bool)
    requires
        forall|k: int| 0 <= k < s.len() ==> !pred(#[trigger] s[k]),
    ensures
        s.filter(pred) == Seq::<ScoreEntry>::empty(),
{
    broadcast use vstd::seq_lib::group_filter_ensures;

    if s.filter(pred).len() > 0 {
        lemma_filter_subset(s, pred, 0);
        let k = choose|k: int| 0 <= k < s.len() && s[k] == s.filter(pred)[0];
        assert(pred(s[k]));
    }
    assert(s.filter(pred) =~= Seq::<ScoreEntry>::empty());
}

proof fn lemma_filter_subset(s: Seq<ScoreEntry>, pred: spec_fn(ScoreEntry) -> bool, i: int)
    requires
        0 <= i < s.filter(pred).len(),
    ensures
        s.contains(s.filter(pred)[i]),
    decreases s.len(),
{
    reveal(Seq::filter);
    if s.len() > 0 {
        let sub = s.drop_last().filter(pred);
        if i < sub.len() {
            lemma_filter_subset(s.drop_last(), pred, i);
            let k = choose|k: int| 0 <= k < s.drop_last().len() && s.drop_last()[k] == sub[i];
            assert(s[k] == s.filter(pred)[i]);
        } else {
            assert(s.filter(pred)[i] == s.last());
            assert(s[s.len() - 1] == s.last());
        }
    }
}

/// Ranking is stable: the entries that share a rank with `x` come out of `ranked(s)`
/// in the order they have in `s`.
pub proof fn lemma_ranked_is_stable(s: Seq<ScoreEntry>, x: ScoreEntry)
    ensures
        ranked(s).filter(|y: ScoreEntry| same_rank(y, x)) == s.filter(
            |y: ScoreEntry| same_rank(y, x),
        ),
    decreases s.len(),
{
    let pred = |y: ScoreEntry| same_rank(y, x);
    if s.len() > 0 {
        lemma_ranked_is_stable(s.drop_last(), x);
        let r = ranked(s.drop_last());
        let z = s.last();
        lemma_ranked_is_ranked(s.drop_last());
        lemma_insert_position_bounds(r, z);
        let p = insert_position(r, z);
        let left = r.take(p);
        let right = r.skip(p);
        assert(r.insert(p, z) =~= left + seq![z] + right);
        assert(r =~= left + right);
        Seq::filter_distributes_over_add(left + seq![z], right, pred);
        Seq::filter_distributes_over_add(left, seq![z], pred);
        Seq::filter_distributes_over_add(left, right, pred);
        assert(s =~= s.drop_last().push(z));
        reveal(Seq::filter);
        assert(seq![z].drop_last() =~= Seq::<ScoreEntry>::empty());
        assert(Seq::<ScoreEntry>::empty().filter(pred) =~= Seq::<ScoreEntry>::empty());
        if pred(z) {
            assert forall|k: int| 0 <= k < right.len() implies !pred(#[trigger] right[k]) by {
                assert(right[k] == r[p + k]);
                assert(ranks_before(z, r[p]));
                assert(!ranks_before(r[p + k], r[p]) || k == 0);
            }
            lemma_filter_none(right, pred);
            assert(s.filter(pred) == s.drop_last().filter(pred).push(z));
            assert(left.filter(pred) + seq![z].filter(pred) + right.filter(pred) =~= (left
                + right).filter(pred).push(z));
        } else {
            assert(s.filter(pred) == s.drop_last().filter(pred));
            assert(seq![z].filter(pred) =~= Seq::<ScoreEntry>::empty());
            assert(left.filter(pred) + seq![z].filter(pred) + right.filter(pred) =~= (left
                + right).filter(pred));
        }
    } else {
        reveal(Seq::filter);
    }
}

/// After a result is added, the scoreboard goes by points, highest first; on equal
/// points by time, shortest first; on equal points and time by timestamp, latest first.
pub proof fn lemma_added_board_order(entries: Seq<ScoreEntry>, entry: ScoreEntry)
    ensures
        forall|i: int, j: int|
            0 <= i < j < keep_best(ranked(entries.push(entry))).len() ==> {
                let a = #[trigger] keep_best(ranked(entries.push(entry)))[i];
                let b = #[trigger] keep_best(ranked(entries.push(entry)))[j];
                &&& a.points >= b.points
                &&& a.points == b.points ==> a.elapsed_secs <= b.elapsed_secs
                &&& a.points == b.points && a.elapsed_secs == b.elapsed_secs ==> a.timestamp_secs
                    >= b.timestamp_secs
            },
{
    lemma_added_board(entries, entry);
    let b = keep_best(ranked(entries.push(entry)));
    assert forall|i: int, j: int| 0 <= i < j < b.len() implies {
        let x = #[trigger] b[i];
        let y = #[trigger] b[j];
        &&& x.points >= y.points
        &&& x.points == y.points ==> x.elapsed_secs <= y.elapsed_secs
        &&& x.points == y.points && x.elapsed_secs == y.elapsed_secs ==> x.timestamp_secs
            >= y.timestamp_secs
    } by {
        assert(!ranks_before(b[j], b[i]));
    }
}

/// The best result added so far is first: no entry of the board has more points than
/// its first entry, and the first entry has at least the points of the added one.
pub proof fn lemma_added_board_best_first(entries: Seq<ScoreEntry>, entry: ScoreEntry)
    ensures
        keep_best(ranked(entries.push(entry))).len() > 0,
        keep_best(ranked(entries.push(entry)))[0].points >= entry.points,
        forall|k: int|
            0 <= k < entries.len() ==> keep_best(ranked(entries.push(entry)))[0].points
                >= #[trigger] entries[k].points,
{
    broadcast use vstd::seq_lib::group_to_multiset_ensures;

    let all = entries.push(entry);
    let r = ranked(all);
    lemma_ranked_is_ranked(all);
    lemma_ranked_permutes(all);
    assert(r.len() > 0);
    assert forall|x: ScoreEntry| #[trigger] all.contains(x) implies r[0].points >= x.points by {
        assert(r.to_multiset().count(x) > 0);
        assert(r.contains(x));
        let m = choose|m: int| 0 <= m < r.len() && r[m] == x;
        if m > 0 {
            assert(!ranks_before(r[m], r[0]));
        }
    }
    assert(all.contains(all[all.len() - 1]));
    assert forall|k: int| 0 <= k < entries.len() implies r[0].points >= #[trigger] entries[k].points by {
        assert(all[k] == entries[k]);
        assert(all.contains(all[k]));
    }
}

impl ScoreBoard {
    /// Adds a result and keeps the best `MAX_SCOREBOARD_ENTRIES`, best first.
    pub fn add_entry(&mut self, entry: ScoreEntry)
        ensures
            final(self).entries@ == keep_best(ranked(old(self).entries@.push(entry))),
    {
        self.entries.push(entry);
        let n = self.entries.len();
        let mut sorted: Vec<ScoreEntry> = Vec::new();
        let mut i: usize = 0;
        while i < n
            invariant
                n == self.entries@.len(),
                i <= n,
                sorted@ == ranked(self.entries@.take(i as int)),
            decreases n - i,
        {
            let x = self.entries[i];
            let pos = find_position(&sorted, x);
            sorted.insert(pos, x);
            proof {
                let t = self.entries@.take(i + 1);
                assert(t.drop_last() =~= self.entries@.take(i as int));
                assert(t.last() == x);
            }
            i = i + 1;
        }
        assert(self.entries@.take(n as int) =~= self.entries@);
        sorted.truncate(MAX_SCOREBOARD_ENTRIES);
        self.entries = sorted;
    }
}

impl Default for ScoreBoard {
    fn default() -> (board: Self)
        ensures
            board.entries@ == Seq::<ScoreEntry>::empty(),
    {
        ScoreBoard { entries: Vec::new() }
    }
}

} // verus!

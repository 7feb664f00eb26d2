//! Text helpers: editing the typed answer and normalising it before it is
//! compared with the expected romaji.

use vstd::prelude::*;

verus! {

/// Whether `c` has the Unicode `White_Space` property, as `char::is_whitespace` decides it.
pub uninterp spec fn is_white_space(c: char) -> bool;

/// `char::is_whitespace`: its documented result is the Unicode `White_Space`
/// property of `c`, which is named here rather than tabulated.
#[verifier::external_body]
fn char_is_whitespace(c: char) -> (ws: bool)
    ensures
        ws == is_white_space(c),
{
    c.is_whitespace()
}

/// `String::push`: appends one character.
#[verifier::external_body]
pub(crate) fn string_push(s: &mut String, c: char)
    ensures
        final(s)@ == old(s)@.push(c),
{
    s.push(c)
}

/// `String::pop`: removes and returns the last character, `None` on an empty string.
#[verifier::external_body]
pub(crate) fn string_pop(s: &mut String) -> (last: Option<char>)
    ensures
        old(s)@.len() == 0 ==> last is None && final(s)@ == old(s)@,
        old(s)@.len() > 0 ==> last == Some(old(s)@.last()) && final(s)@ == old(s)@.drop_last(),
{
    s.pop()
}

/// `String::clear`: empties the string.
#[verifier::external_body]
pub(crate) fn string_clear(s: &mut String)
    ensures
        final(s)@ == Seq::<char>::empty(),
{
    s.clear()
}

/// The ASCII lower-case form of `c`: `'A'..='Z'` map to `'a'..='z'`, all else is kept.
pub open spec fn ascii_lower_spec(c: char) -> char {
    if 'A' <= c && c <= 'Z' {
        ((c as u32) + 32) as char
    } else {
        c
    }
}

/// `s` without its leading white space.
pub open spec fn trim_start_spec(s: Seq<char>) -> Seq<char>
    decreases s.len(),
{
    if s.len() > 0 && is_white_space(s[0]) {
        trim_start_spec(s.drop_first())
    } else {
        s
    }
}

/// `s` without its trailing white space.
pub open spec fn trim_end_spec(s: Seq<char>) -> Seq<char>
    decreases s.len(),
{
    if s.len() > 0 && is_white_space(s.last()) {
        trim_end_spec(s.drop_last())
    } else {
        s
    }
}

/// The answer as it is compared: white space trimmed at both ends, then ASCII lower-cased.
pub open spec fn normalized_spec(s: Seq<char>) -> Seq<char> {
    trim_end_spec(trim_start_spec(s)).map_values(|c: char| ascii_lower_spec(c))
}

/// ASCII lower case of one character.
pub fn ascii_lower(c: char) -> (lower: char)
    ensures
        lower == ascii_lower_spec(c),
{
    if 'A' <= c && c <= 'Z' {
        let code: u32 = (c as u32) + 32;
        let b: u8 = code as u8;
        b as char
    } else {
        c
    }
}


proof fn lemma_trim_start_skip(s: Seq<char>, i: int)
    requires
        0 <= i <= s.len(),
        forall|j: int| 0 <= j < i ==> is_white_space(#[trigger] s[j]),
    ensures
        trim_start_spec(s) == trim_start_spec(s.subrange(i, s.len() as int)),
    decreases i,
{
    if i > 0 {
        lemma_trim_start_skip(s, i - 1);
        let t = s.subrange(i - 1, s.len() as int);
        assert(t[0] == s[i - 1]);
        assert(t.drop_first() =~= s.subrange(i, s.len() as int));
    } else {
        assert(s.subrange(0, s.len() as int) =~= s);
    }
}

proof fn lemma_trim_end_skip(s: Seq<char>, a: int, e: int)
    requires
        0 <= a <= e <= s.len(),
        forall|j: int| e <= j < s.len() ==> is_white_space(#[trigger] s[j]),
    ensures
        trim_end_spec(s.subrange(a, s.len() as int)) == trim_end_spec(s.subrange(a, e)),
    decreases s.len() - e,
{
    if e < s.len() {
        lemma_trim_end_skip(s, a, e + 1);
        let t = s.subrange(a, e + 1);
        assert(t.last() == s[e]);
        assert(t.drop_last() =~= s.subrange(a, e));
    }
}

/// Every character of `pad` is white space.
pub open spec fn all_white_space(pad: Seq<char>) -> bool {
    forall|k: int| 0 <= k < pad.len() ==> is_white_space(#[trigger] pad[k])
}

proof fn lemma_trim_start_pad(pad: Seq<char>, s: Seq<char>)
    requires
        all_white_space(pad),
    ensures
        trim_start_spec(pad + s) == trim_start_spec(s),
    decreases pad.len(),
{
    if pad.len() > 0 {
        assert((pad + s)[0] == pad[0]);
        assert((pad + s).drop_first() =~= pad.drop_first() + s);
        assert(all_white_space(pad.drop_first())) by {
            assert forall|k: int| 0 <= k < pad.drop_first().len() implies is_white_space(
                #[trigger] pad.drop_first()[k],
            ) by {
                assert(pad.drop_first()[k] == pad[k + 1]);
            }
        }
        lemma_trim_start_pad(pad.drop_first(), s);
    } else {
        assert(pad + s =~= s);
    }
}

proof fn lemma_trim_end_pad(x: Seq<char>, pad: Seq<char>)
    requires
        all_white_space(pad),
    ensures
        trim_end_spec(x + pad) == trim_end_spec(x),
    decreases pad.len(),
{
    if pad.len() > 0 {
        assert((x + pad).last() == pad.last());
        assert((x + pad).drop_last() =~= x + pad.drop_last());
        assert(all_white_space(pad.drop_last())) by {
            assert forall|k: int| 0 <= k < pad.drop_last().len() implies is_white_space(
                #[trigger] pad.drop_last()[k],
            ) by {
                assert(pad.drop_last()[k] == pad[k]);
            }
        }
        lemma_trim_end_pad(x, pad.drop_last());
    } else {
        assert(x + pad =~= x);
    }
}

proof fn lemma_trim_both_pad(s: Seq<char>, pad: Seq<char>)
    requires
        all_white_space(pad),
    ensures
        trim_end_spec(trim_start_spec(s + pad)) == trim_end_spec(trim_start_spec(s)),
    decreases s.len(),
{
    if s.len() == 0 {
        assert(s + pad =~= pad);
        lemma_trim_start_pad(pad, s);
    } else if is_white_space(s[0]) {
        assert((s + pad)[0] == s[0]);
        assert((s + pad).drop_first() =~= s.drop_first() + pad);
        lemma_trim_both_pad(s.drop_first(), pad);
    } else {
        assert((s + pad)[0] == s[0]);
        lemma_trim_end_pad(s, pad);
    }
}

/// White space around the typed answer does not change it once normalised.
pub proof fn lemma_normalized_ignores_padding(lead: Seq<char>, s: Seq<char>, trail: Seq<char>)
    requires
        all_white_space(lead),
        all_white_space(trail),
    ensures
        normalized_spec(lead + s + trail) == normalized_spec(s),
{
    lemma_trim_start_pad(lead, s + trail);
    assert(lead + s + trail =~= lead + (s + trail));
    lemma_trim_both_pad(s, trail);
}

/// A normalised answer holds no ASCII upper-case letter, is no longer than what was
/// typed, and each of its characters is the lower-case form of a typed one.
pub proof fn lemma_normalized_is_lower_case(s: Seq<char>)
    ensures
        normalized_spec(s).len() <= s.len(),
        forall|k: int|
            0 <= k < normalized_spec(s).len() ==> !('A' <= #[trigger] normalized_spec(s)[k]
                && normalized_spec(s)[k] <= 'Z'),
{
    lemma_trim_lengths(s);
}

proof fn lemma_trim_start_len(s: Seq<char>)
    ensures
        trim_start_spec(s).len() <= s.len(),
    decreases s.len(),
{
    if s.len() > 0 {
        lemma_trim_start_len(s.drop_first());
    }
}

proof fn lemma_trim_end_len(s: Seq<char>)
    ensures
        trim_end_spec(s).len() <= s.len(),
    decreases s.len(),
{
    if s.len() > 0 {
        lemma_trim_end_len(s.drop_last());
    }
}

proof fn lemma_trim_lengths(s: Seq<char>)
    ensures
        trim_end_spec(trim_start_spec(s)).len() <= s.len(),
{
    lemma_trim_start_len(s);
    lemma_trim_end_len(trim_start_spec(s));
}

/// Normalises a typed answer: trims white space at both ends and lower-cases ASCII letters.
pub fn normalize_answer(input: &str) -> (typed: String)
    ensures
        typed@ == normalized_spec(input@),
{
    let n = input.unicode_len();
    let mut start: usize = 0;
    while start < n
        invariant
            n == input@.len(),
            start <= n,
            forall|j: int| 0 <= j < start ==> is_white_space(#[trigger] input@[j]),
        ensures
            start == n || !is_white_space(input@[start as int]),
        decreases n - start,
    {
        let c = input.get_char(start);
        if !char_is_whitespace(c) {
            break;
        }
        start = start + 1;
    }
    let mut end: usize = n;
    while end > start
        invariant
            n == input@.len(),
            start <= end <= n,
            forall|j: int| end <= j < n ==> is_white_space(#[trigger] input@[j]),
        ensures
            end == start || !is_white_space(input@[end - 1]),
        decreases end,
    {
        let c = input.get_char(end - 1);
        if !char_is_whitespace(c) {
            break;
        }
        end = end - 1;
    }
    proof {
        let s = input@;
        lemma_trim_start_skip(s, start as int);
        let rest = s.subrange(start as int, n as int);
        if start < n {
            assert(rest[0] == s[start as int]);
        }
        assert(trim_start_spec(rest) == rest);
        lemma_trim_end_skip(s, start as int, end as int);
        let mid = s.subrange(start as int, end as int);
        if end > start {
            assert(mid.last() == s[end - 1]);
        }
        assert(trim_end_spec(mid) == mid);
    }
    let mut typed = String::new();
    let mut i: usize = start;
    while i < end
        invariant
            n == input@.len(),
            start <= i <= end <= n,
            typed@ == input@.subrange(start as int, i as int).map_values(
                |c: char| ascii_lower_spec(c),
            ),
        decreases end - i,
    {
        let c = input.get_char(i);
        string_push(&mut typed, ascii_lower(c));
        proof {
            assert(input@.subrange(start as int, i + 1).map_values(|c: char| ascii_lower_spec(c))
                =~= input@.subrange(start as int, i as int).map_values(
                |c: char| ascii_lower_spec(c),
            ).push(ascii_lower_spec(c)));
        }
        i = i + 1;
    }
    typed
}

} // verus!

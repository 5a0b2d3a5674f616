//! Small string helpers shared across the crate.

use vstd::prelude::*;
use vstd::string::StrSliceExecFns;

verus! {

/// String-slice equality, stated over the views.
pub fn str_eq(a: &str, b: &str) -> (r: bool)
    ensures
        r == (a@ == b@),
{
    let owned_a = a.to_owned();
    let owned_b = b.to_owned();
    owned_a == owned_b
}

/// `prefix` starts `s`.
pub open spec fn has_prefix(s: Seq<char>, prefix: Seq<char>) -> bool {
    s.len() >= prefix.len() && s.subrange(0, prefix.len() as int) == prefix
}

/// Whether `s` starts with `prefix`, stated over the views.
pub fn str_starts_with(s: &str, prefix: &str) -> (r: bool)
    ensures
        r == has_prefix(s@, prefix@),
{
    let n = s.unicode_len();
    let p = prefix.unicode_len();
    if n < p {
        return false;
    }
    let head = s.substring_char(0, p);
    str_eq(head, prefix)
}

/// The contents of a list of strings.
pub open spec fn string_views(v: Seq<String>) -> Seq<Seq<char>> {
    v.map_values(|x: String| x@)
}

/// Index of the first space in `s`, or its length when there is none.
pub open spec fn first_space_index(s: Seq<char>) -> int
    decreases s.len(),
{
    if s.len() == 0 {
        0
    } else if s[0] == ' ' {
        0
    } else {
        1 + first_space_index(s.drop_first())
    }
}

/// The first space index lies in range, names a space when it is in range,
/// and nothing before it is a space.
pub proof fn lemma_first_space_index(s: Seq<char>)
    ensures
        0 <= first_space_index(s) <= s.len(),
        first_space_index(s) < s.len() ==> s[first_space_index(s)] == ' ',
        forall|k: int| 0 <= k < first_space_index(s) ==> s[k] != ' ',
    decreases s.len(),
{
    if s.len() > 0 && s[0] != ' ' {
        lemma_first_space_index(s.drop_first());
        assert forall|k: int| 0 <= k < first_space_index(s) implies s[k] != ' ' by {
            if k > 0 {
                assert(s.drop_first()[k - 1] == s[k]);
            }
        }
    }
}

/// The first space index is the one position with no space before it that
/// either holds a space or ends the string.
proof fn lemma_first_space_index_is(s: Seq<char>, j: int)
    requires
        0 <= j <= s.len(),
        forall|k: int| 0 <= k < j ==> s[k] != ' ',
        j == s.len() || s[j] == ' ',
    ensures
        first_space_index(s) == j,
    decreases j,
{
    if j == 0 {
    } else {
        let rest = s.drop_first();
        lemma_first_space_index_is(rest, j - 1);
    }
}

#[via_fn]
proof fn spec_split_spaces_decreases(s: Seq<char>) {
    lemma_first_space_index(s);
}

/// `s` split at single spaces: the segments between spaces in order, empty
/// segments included — one segment more than there are spaces.
pub open spec fn spec_split_spaces(s: Seq<char>) -> Seq<Seq<char>>
    decreases s.len(),
        via spec_split_spaces_decreases
{
    let j = first_space_index(s);
    if j == s.len() {
        seq![s]
    } else {
        seq![s.take(j)] + spec_split_spaces(s.skip(j + 1))
    }
}

/// Splits `s` at single spaces, empty segments included.
#[verifier::loop_isolation(false)]
pub fn split_spaces(s: &str) -> (r: Vec<String>)
    ensures
        string_views(r@) == spec_split_spaces(s@),
{
    let n = s.unicode_len();
    let mut out: Vec<String> = Vec::new();
    let mut segment_start: usize = 0;
    let mut i: usize = 0;
    proof {
        assert(s@.skip(0) =~= s@);
        assert(string_views(out@) =~= Seq::<Seq<char>>::empty());
        assert(Seq::<Seq<char>>::empty() + spec_split_spaces(s@) =~= spec_split_spaces(s@));
    }
    while i < n
        invariant
            0 <= segment_start <= i <= n,
            n == s@.len(),
            forall|k: int| segment_start <= k < i ==> s@[k] != ' ',
            string_views(out@) + spec_split_spaces(s@.skip(segment_start as int)) == spec_split_spaces(
                s@,
            ),
        decreases n - i,
    {
        if s.get_char(i) == ' ' {
            let segment = s.substring_char(segment_start, i).to_owned();
            proof {
                let tail = s@.skip(segment_start as int);
                lemma_first_space_index_is(tail, i - segment_start);
                assert(tail.take(i - segment_start) =~= s@.subrange(
                    segment_start as int,
                    i as int,
                ));
                assert(tail.skip(i - segment_start + 1) =~= s@.skip(i + 1));
                assert(segment@ == tail.take(i - segment_start));
            }
            out.push(segment);
            proof {
                assert(string_views(out@) =~= string_views(out@.drop_last()).push(
                    s@.skip(segment_start as int).take(i - segment_start),
                ));
                assert(string_views(out@) + spec_split_spaces(s@.skip(i + 1))
                    =~= spec_split_spaces(s@));
            }
            segment_start = i + 1;
        }
        i = i + 1;
    }
    let last = s.substring_char(segment_start, n).to_owned();
    proof {
        let tail = s@.skip(segment_start as int);
        lemma_first_space_index_is(tail, n - segment_start);
        assert(last@ =~= tail);
    }
    out.push(last);
    proof {
        assert(string_views(out@) =~= string_views(out@.drop_last()).push(
            s@.skip(segment_start as int),
        ));
        assert(string_views(out@) =~= spec_split_spaces(s@));
    }
    out
}

/// Segments joined with a single space between each two.
pub open spec fn spec_join_spaces(segments: Seq<Seq<char>>) -> Seq<char>
    decreases segments.len(),
{
    if segments.len() == 0 {
        Seq::<char>::empty()
    } else if segments.len() == 1 {
        segments[0]
    } else {
        segments[0] + seq![' '] + spec_join_spaces(segments.drop_first())
    }
}

/// Splitting at spaces and rejoining with spaces gives the string back:
/// the segments carry everything but the separators, in order.
pub proof fn lemma_split_join_identity(s: Seq<char>)
    ensures
        spec_join_spaces(spec_split_spaces(s)) == s,
    decreases s.len(),
{
    lemma_first_space_index(s);
    let j = first_space_index(s);
    if j < s.len() {
        let rest = s.skip(j + 1);
        lemma_split_join_identity(rest);
        assert(spec_split_spaces(rest).len() >= 1);
        let segments = seq![s.take(j)] + spec_split_spaces(rest);
        assert(segments.drop_first() =~= spec_split_spaces(rest));
        assert(s.take(j) + seq![' '] + rest =~= s);
    }
}

/// The position of the first occurrence of `c` in `s`, if any.
#[verifier::loop_isolation(false)]
pub fn find_char(s: &str, c: char) -> (r: Option<usize>)
    ensures
        r matches Some(j) ==> j < s@.len() && s@[j as int] == c && (forall|k: int|
            0 <= k < j ==> s@[k] != c),
        r is None ==> forall|k: int| 0 <= k < s@.len() ==> s@[k] != c,
{
    let n = s.unicode_len();
    let mut i: usize = 0;
    while i < n
        invariant
            0 <= i <= n,
            forall|k: int| 0 <= k < i ==> s@[k] != c,
        decreases n - i,
    {
        if s.get_char(i) == c {
            return Some(i);
        }
        i = i + 1;
    }
    None
}

} // verus!

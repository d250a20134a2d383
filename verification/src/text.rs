//! Text helpers for the line protocol: splitting a report line into
//! tokens, joining move lists, prefix tests and trailing-whitespace
//! trimming.

use vstd::prelude::*;

verus! {

/// Index of the first space in `s`, or `s.len()` if there is none.
pub open spec fn first_sp(s: Seq<char>) -> int
    decreases s.len(),
{
    if s.len() == 0 {
        0
    } else if s[0] == ' ' {
        0
    } else {
        1 + first_sp(s.subrange(1, s.len() as int))
    }
}

proof fn lemma_first_sp(s: Seq<char>)
    ensures
        0 <= first_sp(s) <= s.len(),
        first_sp(s) < s.len() ==> s[first_sp(s)] == ' ',
        forall|j: int| 0 <= j < first_sp(s) ==> s[j] != ' ',
    decreases s.len(),
{
    if s.len() > 0 && s[0] != ' ' {
        let t = s.subrange(1, s.len() as int);
        lemma_first_sp(t);
        assert forall|j: int| 0 <= j < first_sp(s) implies s[j] != ' ' by {
            if j > 0 {
                assert(t[j - 1] == s[j]);
            }
        }
    }
}

/// Where the first `i` characters of `s` hold no space, and position `i`
/// (if it exists) holds one, the first space stands at `i`.
proof fn lemma_first_sp_is(s: Seq<char>, i: int)
    requires
        0 <= i <= s.len(),
        forall|j: int| 0 <= j < i ==> s[j] != ' ',
        i < s.len() ==> s[i] == ' ',
    ensures
        first_sp(s) == i,
    decreases s.len(),
{
    if s.len() > 0 && s[0] != ' ' {
        lemma_first_sp_is(s.subrange(1, s.len() as int), i - 1);
    }
}

/// Tokenization on single spaces, the way the protocol lines are read:
/// consecutive separators yield empty tokens, and the empty line yields
/// one empty token.
pub open spec fn split_sp(s: Seq<char>) -> Seq<Seq<char>>
    decreases s.len(),
    via split_sp_dec
{
    if first_sp(s) == s.len() {
        seq![s]
    } else {
        seq![s.subrange(0, first_sp(s))] + split_sp(
            s.subrange(first_sp(s) + 1, s.len() as int),
        )
    }
}

#[via_fn]
proof fn split_sp_dec(s: Seq<char>) {
    lemma_first_sp(s);
}

fn find_space(s: &str) -> (i: usize)
    ensures
        i == first_sp(s@),
{
    let n = s.unicode_len();
    let mut i: usize = 0;
    while i < n && s.get_char(i) != ' '
        invariant
            0 <= i <= n,
            n == s@.len(),
            forall|j: int| 0 <= j < i ==> s@[j] != ' ',
        decreases n - i,
    {
        i = i + 1;
    }
    proof {
        lemma_first_sp_is(s@, i as int);
    }
    i
}

/// Split a line into its space-separated tokens.
pub fn split_spaces(s: &str) -> (r: Vec<String>)
    ensures
        r.deep_view() == split_sp(s@),
        r.len() >= 1,
    decreases s@.len(),
{
    let n = s.unicode_len();
    let i = find_space(s);
    proof {
        lemma_first_sp(s@);
    }
    if i == n {
        let mut r: Vec<String> = Vec::new();
        r.push(s.to_owned());
        proof {
            assert(r.deep_view() =~~= split_sp(s@));
        }
        r
    } else {
        let head = s.substring_char(0, i);
        let rest = s.substring_char(i + 1, n);
        let mut r: Vec<String> = Vec::new();
        r.push(head.to_owned());
        let mut tail = split_spaces(rest);
        r.append(&mut tail);
        proof {
            assert(r.deep_view() =~~= split_sp(s@));
        }
        r
    }
}

/// Character-wise equality of two string slices.
pub fn str_eq(a: &str, b: &str) -> (r: bool)
    ensures
        r == (a@ == b@),
{
    let n = a.unicode_len();
    if n != b.unicode_len() {
        return false;
    }
    let mut i: usize = 0;
    while i < n
        invariant
            0 <= i <= n,
            n == a@.len() == b@.len(),
            forall|j: int| 0 <= j < i ==> a@[j] == b@[j],
        decreases n - i,
    {
        if a.get_char(i) != b.get_char(i) {
            return false;
        }
        i = i + 1;
    }
    proof {
        assert(a@ =~= b@);
    }
    true
}

pub open spec fn spec_starts_with(s: Seq<char>, prefix: Seq<char>) -> bool {
    s.len() >= prefix.len() && s.subrange(0, prefix.len() as int) == prefix
}

pub fn str_starts_with(s: &str, prefix: &str) -> (r: bool)
    ensures
        r == spec_starts_with(s@, prefix@),
{
    let n = prefix.unicode_len();
    if s.unicode_len() < n {
        return false;
    }
    let mut i: usize = 0;
    while i < n
        invariant
            0 <= i <= n,
            n == prefix@.len() <= s@.len(),
            forall|j: int| 0 <= j < i ==> s@[j] == prefix@[j],
        decreases n - i,
    {
        if s.get_char(i) != prefix.get_char(i) {
            proof {
                assert(s@.subrange(0, n as int)[i as int] != prefix@[i as int]);
            }
            return false;
        }
        i = i + 1;
    }
    proof {
        assert(s@.subrange(0, n as int) =~= prefix@);
    }
    true
}

/// The whitespace the protocol can leave at a line's end.
pub open spec fn is_ws(c: char) -> bool {
    c as u32 == 32 || c as u32 == 9 || c as u32 == 10 || c as u32 == 13 || c as u32 == 11
        || c as u32 == 12
}

fn is_ws_exec(c: char) -> (r: bool)
    ensures
        r == is_ws(c),
{
    let u = c as u32;
    u == 32 || u == 9 || u == 10 || u == 13 || u == 11 || u == 12
}

/// Length of `s` once trailing whitespace is dropped.
pub open spec fn trim_end_idx(s: Seq<char>) -> int
    decreases s.len(),
{
    if s.len() > 0 && is_ws(s.last()) {
        trim_end_idx(s.drop_last())
    } else {
        s.len() as int
    }
}

proof fn lemma_trim_end_idx(s: Seq<char>)
    ensures
        0 <= trim_end_idx(s) <= s.len(),
    decreases s.len(),
{
    if s.len() > 0 && is_ws(s.last()) {
        lemma_trim_end_idx(s.drop_last());
    }
}

/// Drop trailing whitespace.
pub fn trim_end_ws(s: &str) -> (r: &str)
    ensures
        r@ == s@.subrange(0, trim_end_idx(s@)),
{
    let mut e = s.unicode_len();
    proof {
        assert(s@.subrange(0, e as int) =~= s@);
    }
    while e > 0 && is_ws_exec(s.get_char(e - 1))
        invariant
            0 <= e <= s@.len(),
            trim_end_idx(s@.subrange(0, e as int)) == trim_end_idx(s@),
        decreases e,
    {
        proof {
            let cur = s@.subrange(0, e as int);
            assert(cur.last() == s@[e - 1]);
            assert(cur.drop_last() =~= s@.subrange(0, e - 1));
        }
        e = e - 1;
    }
    proof {
        let cur = s@.subrange(0, e as int);
        assert(trim_end_idx(cur) == cur.len());
        lemma_trim_end_idx(s@);
    }
    s.substring_char(0, e)
}

/// Space-joined concatenation, as the move list stands in the position
/// command.
pub open spec fn join_sp(parts: Seq<Seq<char>>) -> Seq<char>
    decreases parts.len(),
{
    if parts.len() == 0 {
        Seq::empty()
    } else if parts.len() == 1 {
        parts[0]
    } else {
        parts[0] + seq![' '] + join_sp(parts.subrange(1, parts.len() as int))
    }
}

proof fn lemma_join_sp_snoc(parts: Seq<Seq<char>>, x: Seq<char>)
    requires
        parts.len() >= 1,
    ensures
        join_sp(parts.push(x)) == join_sp(parts) + seq![' '] + x,
    decreases parts.len(),
{
    if parts.len() == 1 {
        assert(parts.push(x)[0] == parts[0]);
        assert(parts.push(x).subrange(1, 2) =~= seq![x]);
        assert(join_sp(seq![x]) == x);
        assert(seq![x][0] == x);
    } else {
        lemma_join_sp_snoc(parts.subrange(1, parts.len() as int), x);
        assert(parts.push(x).subrange(1, parts.len() as int + 1) =~= parts.subrange(
            1,
            parts.len() as int,
        ).push(x));
        assert(parts.push(x)[0] == parts[0]);
    }
}

/// Join the moves of an order with single spaces.
pub fn join_spaces(v: &Vec<String>) -> (r: String)
    ensures
        r@ == join_sp(v.deep_view()),
{
    let mut r = String::new();
    let mut i: usize = 0;
    while i < v.len()
        invariant
            0 <= i <= v.len(),
            r@ == join_sp(v.deep_view().subrange(0, i as int)),
        decreases v.len() - i,
    {
        if i > 0 {
            r.append(" ");
            proof {
                reveal_strlit(" ");
                assert(" "@ =~= seq![' ']);
            }
        }
        r.append(v[i].as_str());
        proof {
            let dv = v.deep_view();
            assert(dv.subrange(0, i + 1).drop_last() =~= dv.subrange(0, i as int));
            assert(dv.subrange(0, i + 1) =~= dv.subrange(0, i as int).push(dv[i as int]));
            if i > 0 {
                lemma_join_sp_snoc(dv.subrange(0, i as int), dv[i as int]);
            } else {
                assert(join_sp(seq![dv[0]]) == seq![dv[0]][0]);
            }
            assert(dv[i as int] == v@[i as int]@);
        }
        i = i + 1;
    }
    proof {
        assert(v.deep_view().subrange(0, v@.len() as int) =~= v.deep_view());
    }
    r
}

} // verus!

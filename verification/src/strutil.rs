//! Substring search over `&str`, with specifications over `Seq<char>`.
//!
//! The resolver's URL handling is defined in terms of "the text after the
//! last occurrence of a marker"; this module provides that search, verified
//! against the sequence-level definitions below.

use vstd::prelude::*;
use vstd::string::StrSliceExecFns;

verus! {

/// The needle `n` occurs in `h` starting at character position `i`.
pub open spec fn contains_at(h: Seq<char>, n: Seq<char>, i: int) -> bool {
    0 <= i && i + n.len() <= h.len() && h.subrange(i, i + n.len() as int) == n
}

/// The needle `n` occurs somewhere in `h`.
pub open spec fn contains_seq(h: Seq<char>, n: Seq<char>) -> bool {
    exists|i: int| contains_at(h, n, i)
}

/// Position `i` is the last occurrence of `n` in `h`.
pub open spec fn is_last_match(h: Seq<char>, n: Seq<char>, i: int) -> bool {
    contains_at(h, n, i) && (forall|j: int| j > i ==> !contains_at(h, n, j))
}

/// The position of the last occurrence of `n` in `h`.
/// Meaningful only when `contains_seq(h, n)` holds.
pub open spec fn last_match(h: Seq<char>, n: Seq<char>) -> int {
    choose|i: int| is_last_match(h, n, i)
}

/// The text that follows the last occurrence of `n` in `h`.
/// Meaningful only when `contains_seq(h, n)` holds.
pub open spec fn tail_after_last(h: Seq<char>, n: Seq<char>) -> Seq<char> {
    h.subrange(last_match(h, n) + n.len(), h.len() as int)
}

/// A last occurrence is unique, and it is the position `last_match` denotes.
pub proof fn lemma_last_match_unique(h: Seq<char>, n: Seq<char>, i: int)
    requires
        is_last_match(h, n, i),
    ensures
        last_match(h, n) == i,
{
    let c = last_match(h, n);
    assert(is_last_match(h, n, c));
    if c < i {
        assert(contains_at(h, n, i));
        assert(false);
    }
    if c > i {
        assert(contains_at(h, n, c));
        assert(false);
    }
}

/// Does `n` occur in `h` starting at character position `i`?
pub fn match_at(h: &str, n: &str, i: usize) -> (r: bool)
    requires
        i + n@.len() <= h@.len(),
    ensures
        r == contains_at(h@, n@, i as int),
{
    let h_len = h.unicode_len();
    let n_len = n.unicode_len();
    let mut k: usize = 0;
    while k < n_len
        invariant
            h_len == h@.len(),
            n_len == n@.len(),
            0 <= k <= n_len,
            i + n_len <= h_len,
            forall|t: int| 0 <= t < k ==> h@[i + t] == n@[t],
        decreases n_len - k,
    {
        if h.get_char(i + k) != n.get_char(k) {
            assert(!contains_at(h@, n@, i as int)) by {
                if h@.subrange(i as int, i + n@.len()) == n@ {
                    assert(h@.subrange(i as int, i + n@.len())[k as int] == n@[k as int]);
                }
            }
            return false;
        }
        k += 1;
    }
    proof {
        assert(h@.subrange(i as int, i + n@.len()) =~= n@);
    }
    true
}

/// The position of the last occurrence of `n` in `h`, if any.
pub fn find_last(h: &str, n: &str) -> (r: Option<usize>)
    ensures
        match r {
            Some(i) => is_last_match(h@, n@, i as int) && i + n@.len() <= h@.len(),
            None => !contains_seq(h@, n@),
        },
{
    let h_len = h.unicode_len();
    let n_len = n.unicode_len();
    if n_len > h_len {
        proof {
            assert forall|i: int| !contains_at(h@, n@, i) by {}
        }
        return None;
    }
    let mut i: usize = h_len - n_len;
    loop
        invariant
            h_len == h@.len(),
            n_len == n@.len(),
            n_len <= h_len,
            i <= h_len - n_len,
            forall|j: int| i < j ==> !contains_at(h@, n@, j),
        decreases i,
    {
        if match_at(h, n, i) {
            return Some(i);
        }
        if i == 0 {
            proof {
                assert forall|j: int| !contains_at(h@, n@, j) by {
                    if j > 0 {
                        assert(!contains_at(h@, n@, j));
                    }
                }
            }
            return None;
        }
        i -= 1;
    }
}

/// Does `n` occur anywhere in `h`?
pub fn str_contains(h: &str, n: &str) -> (r: bool)
    ensures
        r == contains_seq(h@, n@),
{
    match find_last(h, n) {
        Some(_) => true,
        None => false,
    }
}

/// The text of `h` after the last occurrence of `n`; `None` when `n` does
/// not occur in `h`.
pub fn tail_after_last_exec(h: &str, n: &str) -> (r: Option<String>)
    ensures
        match r {
            Some(s) => contains_seq(h@, n@) && s@ == tail_after_last(h@, n@),
            None => !contains_seq(h@, n@),
        },
{
    match find_last(h, n) {
        Some(i) => {
            proof {
                lemma_last_match_unique(h@, n@, i as int);
            }
            let h_len = h.unicode_len();
            let n_len = n.unicode_len();
            let sub = h.substring_char(i + n_len, h_len);
            Some(sub.to_owned())
        },
        None => None,
    }
}

} // verus!

use vstd::string::StringExecFns;

verus! {

/// The parts joined with `c` between consecutive parts.
pub open spec fn joined(parts: Seq<Seq<char>>, c: char) -> Seq<char>
    decreases parts.len(),
{
    if parts.len() == 0 {
        Seq::empty()
    } else if parts.len() == 1 {
        parts[0]
    } else {
        parts[0] + seq![c] + joined(parts.drop_first(), c)
    }
}

/// Appending one more part appends a separator and that part.
pub proof fn lemma_joined_push(parts: Seq<Seq<char>>, p: Seq<char>, c: char)
    requires
        parts.len() > 0,
    ensures
        joined(parts.push(p), c) =~= joined(parts, c) + seq![c] + p,
    decreases parts.len(),
{
    if parts.len() == 1 {
        assert(parts.push(p).drop_first() =~= seq![p]);
        assert(joined(seq![p], c) == p);
    } else {
        lemma_joined_push(parts.drop_first(), p, c);
        assert(parts.push(p).drop_first() =~= parts.drop_first().push(p));
        assert(parts.push(p)[0] == parts[0]);
        assert((parts[0] + seq![c] + (joined(parts.drop_first(), c) + seq![c] + p)) =~= ((parts[0]
            + seq![c] + joined(parts.drop_first(), c)) + seq![c] + p));
    }
}

/// Extending the last part extends the joined text.
pub proof fn lemma_joined_last_ext(parts: Seq<Seq<char>>, p: Seq<char>, x: char, c: char)
    ensures
        joined(parts.push(p.push(x)), c) =~= joined(parts.push(p), c) + seq![x],
{
    if parts.len() == 0 {
        assert(joined(parts.push(p.push(x)), c) == p.push(x));
        assert(joined(parts.push(p), c) == p);
        assert(p.push(x) =~= p + seq![x]);
    } else {
        lemma_joined_push(parts, p.push(x), c);
        lemma_joined_push(parts, p, c);
        assert((joined(parts, c) + seq![c] + p.push(x)) =~= ((joined(parts, c) + seq![c] + p)
            + seq![x]));
    }
}

/// Splits `s` at every occurrence of `c`: the parts, joined with `c`,
/// give `s` back, and no part contains `c`. Splitting text without the
/// separator yields one part, the text itself.
pub fn split_char(s: &str, c: char) -> (r: Vec<String>)
    ensures
        r@.len() >= 1,
        joined(r@.map_values(|p: String| p@), c) == s@,
        forall|k: int| 0 <= k < r@.len() ==> !(#[trigger] r@[k])@.contains(c),
{
    let len = s.unicode_len();
    let mut parts: Vec<String> = Vec::new();
    let mut start: usize = 0;
    let mut i: usize = 0;
    while i < len
        invariant
            len == s@.len(),
            start <= i <= len,
            joined(parts@.map_values(|p: String| p@).push(s@.subrange(start as int, i as int)), c)
                =~= s@.take(i as int),
            forall|k: int| 0 <= k < parts@.len() ==> !(#[trigger] parts@[k])@.contains(c),
            !s@.subrange(start as int, i as int).contains(c),
        decreases len - i,
    {
        let ch = s.get_char(i);
        if ch == c {
            let part = s.substring_char(start, i).to_owned();
            proof {
                let pv = parts@.map_values(|p: String| p@);
                lemma_joined_push(pv.push(s@.subrange(start as int, i as int)), Seq::empty(), c);
                assert(parts@.push(part).map_values(|p: String| p@) =~= pv.push(
                    s@.subrange(start as int, i as int),
                ));
                assert(s@.take(i as int) + seq![c] =~= s@.take(i + 1));
                assert(parts@.push(part).map_values(|p: String| p@).push(
                    s@.subrange(i + 1, i + 1),
                ) =~~= pv.push(s@.subrange(start as int, i as int)).push(Seq::empty()));
            }
            parts.push(part);
            start = i + 1;
        } else {
            proof {
                let pv = parts@.map_values(|p: String| p@);
                lemma_joined_last_ext(pv, s@.subrange(start as int, i as int), s@[i as int], c);
                assert(s@.subrange(start as int, i + 1) =~= s@.subrange(start as int, i as int).push(
                    s@[i as int],
                ));
                assert(s@.take(i as int) + seq![s@[i as int]] =~= s@.take(i + 1));
                assert forall|j: int|
                    0 <= j < s@.subrange(start as int, i + 1).len() implies (
                #[trigger] s@.subrange(start as int, i + 1)[j]) != c by {
                    if j < i - start {
                        assert(s@.subrange(start as int, i as int)[j] != c);
                    }
                }
            }
        }
        i += 1;
    }
    let part = s.substring_char(start, len).to_owned();
    proof {
        assert(parts@.push(part).map_values(|p: String| p@) =~= parts@.map_values(
            |p: String| p@,
        ).push(s@.subrange(start as int, len as int)));
        assert(s@.take(len as int) =~= s@);
    }
    parts.push(part);
    parts
}

} // verus!

verus! {

/// Lexicographic order on character sequences, by code point.
pub open spec fn lex_le(a: Seq<char>, b: Seq<char>) -> bool
    decreases a.len(),
{
    if a.len() == 0 {
        true
    } else if b.len() == 0 {
        false
    } else if a[0] as u32 == b[0] as u32 {
        lex_le(a.drop_first(), b.drop_first())
    } else {
        (a[0] as u32) < (b[0] as u32)
    }
}

/// Lexicographic order is total.
pub proof fn lemma_lex_le_total(a: Seq<char>, b: Seq<char>)
    ensures
        lex_le(a, b) || lex_le(b, a),
    decreases a.len(),
{
    if a.len() > 0 && b.len() > 0 && a[0] as u32 == b[0] as u32 {
        lemma_lex_le_total(a.drop_first(), b.drop_first());
    }
}

/// Prefixes of equal code points do not decide the order: it is decided
/// by the rest.
pub proof fn lemma_lex_le_skip(a: Seq<char>, b: Seq<char>, i: int)
    requires
        0 <= i <= a.len(),
        i <= b.len(),
        forall|j: int| 0 <= j < i ==> a[j] as u32 == b[j] as u32,
    ensures
        lex_le(a, b) == lex_le(a.skip(i), b.skip(i)),
    decreases i,
{
    if i == 0 {
        assert(a.skip(0) =~= a);
        assert(b.skip(0) =~= b);
    } else {
        assert(a[0] as u32 == b[0] as u32);
        lemma_lex_le_skip(a.drop_first(), b.drop_first(), i - 1);
        assert(a.drop_first().skip(i - 1) =~= a.skip(i));
        assert(b.drop_first().skip(i - 1) =~= b.skip(i));
    }
}

/// Does `a` come at or before `b` in lexicographic order?
pub fn str_lex_le(a: &str, b: &str) -> (r: bool)
    ensures
        r == lex_le(a@, b@),
{
    let a_len = a.unicode_len();
    let b_len = b.unicode_len();
    let mut i: usize = 0;
    loop
        invariant
            a_len == a@.len(),
            b_len == b@.len(),
            i <= a_len,
            i <= b_len,
            forall|j: int| 0 <= j < i ==> a@[j] as u32 == b@[j] as u32,
        decreases a_len - i,
    {
        proof {
            lemma_lex_le_skip(a@, b@, i as int);
        }
        if i == a_len {
            proof {
                assert(a@.skip(i as int).len() == 0);
            }
            return true;
        }
        if i == b_len {
            proof {
                assert(b@.skip(i as int).len() == 0);
                assert(a@.skip(i as int).len() > 0);
            }
            return false;
        }
        let ca = a.get_char(i) as u32;
        let cb = b.get_char(i) as u32;
        if ca != cb {
            proof {
                assert(a@.skip(i as int)[0] == a@[i as int]);
                assert(b@.skip(i as int)[0] == b@[i as int]);
            }
            return ca < cb;
        }
        i += 1;
    }
}

/// The texts of a sequence of owned strings.
pub open spec fn views_of(lines: Seq<String>) -> Seq<Seq<char>> {
    lines.map_values(|s: String| s@)
}

/// Consecutive lines are in lexicographic order.
pub open spec fn lex_sorted(lines: Seq<String>) -> bool {
    forall|i: int| 0 <= i && i + 1 < lines.len() ==> lex_le((#[trigger] lines[i])@, lines[i + 1]@)
}

/// Sorts lines lexicographically by insertion, keeping the multiset of
/// lines.
pub fn sort_lines(lines: Vec<String>) -> (r: Vec<String>)
    ensures
        r@.len() == lines@.len(),
        r@.to_multiset() == lines@.to_multiset(),
        views_of(r@).to_multiset() == views_of(lines@).to_multiset(),
        lex_sorted(r@),
{
    broadcast use vstd::seq_lib::group_to_multiset_ensures;
    broadcast use vstd::seq_lib::to_multiset_insert;

    let mut v = lines;
    let mut i: usize = 1;
    while i < v.len()
        invariant
            v@.len() == lines@.len(),
            v@.to_multiset() == lines@.to_multiset(),
            views_of(v@).to_multiset() == views_of(lines@).to_multiset(),
            1 <= i,
            forall|p: int| 0 <= p && p + 1 < i ==> lex_le((#[trigger] v@[p])@, v@[p + 1]@),
        decreases v@.len() - i,
    {
        let ghost before = v@;
        let x = v.remove(i);
        let mut j: usize = 0;
        while j < i && str_lex_le(v[j].as_str(), x.as_str())
            invariant
                j <= i,
                i < before.len(),
                v@ == before.remove(i as int),
                x == before[i as int],
                forall|p: int| 0 <= p < j ==> lex_le((#[trigger] v@[p])@, x@),
            decreases i - j,
        {
            j += 1;
        }
        proof {
            if j < i {
                lemma_lex_le_total(v@[j as int]@, x@);
            }
        }
        let ghost xv = x;
        v.insert(j, x);
        proof {
            broadcast use vstd::seq_lib::group_to_multiset_ensures;
            broadcast use vstd::seq_lib::to_multiset_insert;

            assert(before.contains(before[i as int]));
            assert(before.to_multiset().count(xv) > 0);
            assert(v@ == before.remove(i as int).insert(j as int, xv));
            assert(before.remove(i as int).insert(j as int, xv).to_multiset()
                =~= before.remove(i as int).to_multiset().insert(xv));
            assert(before.remove(i as int).to_multiset() =~= before.to_multiset().remove(xv));
            assert(before.to_multiset().remove(xv).insert(xv) =~= before.to_multiset());
            assert(v@.to_multiset() =~= before.to_multiset());
            let mb = views_of(before);
            assert(views_of(before.remove(i as int)) =~= mb.remove(i as int));
            assert(views_of(v@) =~= mb.remove(i as int).insert(j as int, xv@));
            assert(mb.remove(i as int).insert(j as int, xv@).to_multiset() =~= mb.remove(
                i as int,
            ).to_multiset().insert(xv@));
            assert(mb.remove(i as int).to_multiset() =~= mb.to_multiset().remove(xv@));
            assert(mb.contains(mb[i as int]));
            assert(mb.to_multiset().count(xv@) > 0);
            assert(mb.to_multiset().remove(xv@).insert(xv@) =~= mb.to_multiset());
            assert(views_of(v@).to_multiset() =~= views_of(before).to_multiset());
            let now = v@;
            assert forall|p: int| 0 <= p && p + 1 < i + 1 implies lex_le(
                (#[trigger] now[p])@,
                now[p + 1]@,
            ) by {
                if p + 1 < j {
                    assert(now[p] == before[p] && now[p + 1] == before[p + 1]);
                } else if p + 1 == j {
                    assert(now[p] == before[p]);
                    assert(now[p + 1] == xv);
                } else if p == j {
                    assert(now[p] == xv);
                    assert(now[p + 1] == before[p]);
                    if j < i {
                        assert(lex_le(xv@, before[j as int]@));
                    }
                } else {
                    assert(now[p] == before[p - 1] && now[p + 1] == before[p]);
                }
            }
        }
        i += 1;
    }
    v
}

} // verus!

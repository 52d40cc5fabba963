use vstd::prelude::*;
use crate::outside::{lower_of, to_lowercase};

verus! {

/// Lexicographic comparison of character sequences from position `k` on:
/// the first differing code point decides; a string that runs out first
/// comes first.
pub open spec fn lex_le_from(a: Seq<char>, b: Seq<char>, k: int) -> bool
    decreases a.len() - k,
{
    if k >= a.len() {
        true
    } else if k >= b.len() {
        false
    } else if a[k] != b[k] {
        (a[k] as u32) < (b[k] as u32)
    } else {
        lex_le_from(a, b, k + 1)
    }
}

/// Lexicographic order on character sequences.
pub open spec fn lex_le(a: Seq<char>, b: Seq<char>) -> bool {
    lex_le_from(a, b, 0)
}

/// Case-insensitive display order: lexicographic on the lowercase images.
pub open spec fn ci_le(a: Seq<char>, b: Seq<char>) -> bool {
    lex_le(lower_of(a), lower_of(b))
}

/// The views of a sequence of strings.
pub open spec fn views(v: Seq<String>) -> Seq<Seq<char>> {
    v.map_values(|s: String| s@)
}

/// Sortedness under the case-insensitive order.
pub open spec fn sorted_ci(names: Seq<Seq<char>>) -> bool {
    forall|i: int, j: int| 0 <= i <= j < names.len() ==> ci_le(names[i], names[j])
}

/// The lexicographic order is total.
pub proof fn lemma_lex_total(a: Seq<char>, b: Seq<char>, k: int)
    ensures
        lex_le_from(a, b, k) || lex_le_from(b, a, k),
    decreases a.len() - k,
{
    if k < a.len() && k < b.len() {
        if a[k] == b[k] {
            lemma_lex_total(a, b, k + 1);
        } else {
            vstd::utf8::char_u32_cast(a[k], a[k] as u32);
            vstd::utf8::char_u32_cast(b[k], b[k] as u32);
        }
    }
}

/// The lexicographic order is transitive.
pub proof fn lemma_lex_trans(a: Seq<char>, b: Seq<char>, c: Seq<char>, k: int)
    requires
        lex_le_from(a, b, k),
        lex_le_from(b, c, k),
    ensures
        lex_le_from(a, c, k),
    decreases a.len() - k,
{
    if k < a.len() && k < b.len() && k < c.len() && a[k] == b[k] && b[k] == c[k] {
        lemma_lex_trans(a, b, c, k + 1);
    }
}

/// The case-insensitive order is total.
pub proof fn lemma_ci_total(a: Seq<char>, b: Seq<char>)
    ensures
        ci_le(a, b) || ci_le(b, a),
{
    lemma_lex_total(lower_of(a), lower_of(b), 0);
}

/// The case-insensitive order is transitive.
pub proof fn lemma_ci_trans(a: Seq<char>, b: Seq<char>, c: Seq<char>)
    requires
        ci_le(a, b),
        ci_le(b, c),
    ensures
        ci_le(a, c),
{
    lemma_lex_trans(lower_of(a), lower_of(b), lower_of(c), 0);
}

/// Compares two strings lexicographically by code points.
#[verifier::loop_isolation(false)]
fn str_lex_le(a: &str, b: &str) -> (r: bool)
    ensures
        r == lex_le(a@, b@),
{
    let alen = a.unicode_len();
    let blen = b.unicode_len();
    let mut k: usize = 0;
    while k < alen && k < blen
        invariant
            k <= alen,
            k <= blen,
            lex_le(a@, b@) == lex_le_from(a@, b@, k as int),
        decreases alen - k,
    {
        let ca = a.get_char(k);
        let cb = b.get_char(k);
        if ca != cb {
            return (ca as u32) < (cb as u32);
        }
        proof {
            assert(lex_le_from(a@, b@, k as int) == lex_le_from(a@, b@, k as int + 1));
        }
        k += 1;
    }
    alen <= blen
}

/// Compares two strings in the case-insensitive display order.
pub fn ci_le_exec(a: &String, b: &String) -> (r: bool)
    ensures
        r == ci_le(a@, b@),
{
    let la = to_lowercase(a);
    let lb = to_lowercase(b);
    str_lex_le(la.as_str(), lb.as_str())
}


/// Where a name slots into an already sorted list: before the first entry
/// that does not come at or before it.
pub open spec fn insert_pos(w: Seq<Seq<char>>, x: Seq<char>) -> int
    decreases w.len(),
{
    if w.len() == 0 {
        0
    } else if !ci_le(w[0], x) {
        0
    } else {
        1 + insert_pos(w.drop_first(), x)
    }
}

proof fn lemma_insert_pos_at(w: Seq<Seq<char>>, x: Seq<char>, p: int)
    requires
        0 <= p <= w.len(),
        forall|q: int| 0 <= q < p ==> ci_le(#[trigger] w[q], x),
        p < w.len() ==> !ci_le(w[p], x),
    ensures
        insert_pos(w, x) == p,
    decreases w.len(),
{
    if w.len() > 0 && p > 0 {
        assert(ci_le(w[0], x));
        assert forall|q: int| 0 <= q < p - 1 implies ci_le(#[trigger] w.drop_first()[q], x) by {
            assert(w.drop_first()[q] == w[q + 1]);
        }
        lemma_insert_pos_at(w.drop_first(), x, p - 1);
    }
}

/// The case-insensitive insertion sort of a name list, as a function of the
/// input alone: any two runs over the same list give the same output.
pub open spec fn sort_spec(v: Seq<Seq<char>>) -> Seq<Seq<char>>
    decreases v.len(),
{
    if v.len() == 0 {
        Seq::empty()
    } else {
        let rest = sort_spec(v.drop_last());
        rest.insert(insert_pos(rest, v.last()), v.last())
    }
}

/// Sorts names into the case-insensitive display order. The result holds
/// the same names, sorted, and is a function of the input list alone.
#[verifier::loop_isolation(false)]
pub fn sort_names(v: &Vec<String>) -> (r: Vec<String>)
    ensures
        views(r@).to_multiset() == views(v@).to_multiset(),
        sorted_ci(views(r@)),
        views(r@) == sort_spec(views(v@)),
{
    broadcast use vstd::seq_lib::group_to_multiset_ensures;

    let mut out: Vec<String> = Vec::new();
    let mut i: usize = 0;
    while i < v.len()
        invariant
            i <= v@.len(),
            sorted_ci(views(out@)),
            views(out@).to_multiset() == views(v@.subrange(0, i as int)).to_multiset(),
            views(out@) == sort_spec(views(v@.subrange(0, i as int))),
        decreases v@.len() - i,
    {
        let x = v[i].clone();
        let ghost old_out = out@;
        let mut p: usize = 0;
        while p < out.len() && ci_le_exec(&out[p], &x)
            invariant
                p <= out@.len(),
                out@ == old_out,
                forall|q: int| 0 <= q < p ==> ci_le(views(out@)[q], x@),
            decreases out@.len() - p,
        {
            p += 1;
        }
        proof {
            if p < old_out.len() {
                lemma_ci_total(views(old_out)[p as int], x@);
            }
            assert forall|q: int| p <= q < old_out.len() implies ci_le(
                x@,
                views(old_out)[q],
            ) by {
                if p < q {
                    assert(ci_le(views(old_out)[p as int], views(old_out)[q]));
                    lemma_ci_trans(x@, views(old_out)[p as int], views(old_out)[q]);
                }
            }
        }
        proof {
            lemma_insert_pos_at(views(old_out), x@, p as int);
        }
        out.insert(p, x);
        proof {
            assert(views(out@) =~= views(old_out).insert(p as int, x@));
            assert(views(v@.subrange(0, i as int + 1)).drop_last() =~= views(
                v@.subrange(0, i as int),
            ));
            assert(views(v@.subrange(0, i as int + 1)).last() == x@);
            assert(views(out@) == sort_spec(views(v@.subrange(0, i as int + 1))));
            vstd::seq_lib::to_multiset_insert(views(old_out), p as int, x@);
            assert(views(v@.subrange(0, i as int + 1)) =~= views(v@.subrange(0, i as int)).push(
                v@[i as int]@,
            ));
            assert(sorted_ci(views(out@))) by {
                assert forall|q1: int, q2: int|
                    0 <= q1 <= q2 < views(out@).len() implies ci_le(
                    views(out@)[q1],
                    views(out@)[q2],
                ) by {
                    let w = views(old_out);
                    let wn = w.insert(p as int, x@);
                    if q1 < p && q2 < p {
                        assert(wn[q1] == w[q1] && wn[q2] == w[q2]);
                    } else if q1 < p && q2 == p {
                        assert(wn[q1] == w[q1] && wn[q2] == x@);
                    } else if q1 < p && q2 > p {
                        assert(wn[q1] == w[q1] && wn[q2] == w[q2 - 1]);
                        assert(ci_le(w[q1], w[q2 - 1]));
                    } else if q1 == p && q2 == p {
                        lemma_ci_total(x@, x@);
                    } else if q1 == p && q2 > p {
                        assert(wn[q2] == w[q2 - 1]);
                    } else {
                        assert(wn[q1] == w[q1 - 1] && wn[q2] == w[q2 - 1]);
                        assert(ci_le(w[q1 - 1], w[q2 - 1]));
                    }
                }
            }
        }
        i += 1;
    }
    proof {
        assert(v@.subrange(0, v@.len() as int) =~= v@);
    }
    out
}

} // verus!

//! Splitting and joining byte text on a separator.
//!
//! Scene files join fields with a space and records with a newline; every
//! single separator byte counts, so empty tokens are kept.  Joining
//! separator-free tokens and splitting again is proved to give the tokens
//! back.

use vstd::prelude::*;

verus! {

pub open spec fn sep_free(s: Seq<u8>, sep: u8) -> bool {
    forall|k: int| 0 <= k < s.len() ==> s[k] != sep
}

/// Tokens of `s`, split on every occurrence of `sep`.
pub open spec fn split_by(s: Seq<u8>, sep: u8) -> Seq<Seq<u8>>
    decreases s.len(),
{
    if s.len() == 0 {
        seq![Seq::<u8>::empty()]
    } else if s[0] == sep {
        seq![Seq::<u8>::empty()] + split_by(s.skip(1), sep)
    } else {
        let rest = split_by(s.skip(1), sep);
        seq![seq![s[0]] + rest[0]] + rest.skip(1)
    }
}

/// Tokens joined with a single separator between neighbours.
pub open spec fn join_by(ts: Seq<Seq<u8>>, sep: u8) -> Seq<u8>
    decreases ts.len(),
{
    if ts.len() == 0 {
        Seq::empty()
    } else if ts.len() == 1 {
        ts[0]
    } else {
        ts[0] + seq![sep] + join_by(ts.skip(1), sep)
    }
}

pub proof fn lemma_split_len(s: Seq<u8>, sep: u8)
    ensures
        split_by(s, sep).len() >= 1,
    decreases s.len(),
{
    if s.len() == 0 {
    } else {
        lemma_split_len(s.skip(1), sep);
    }
}

/// A separator-free text is one single token.
pub proof fn lemma_split_single(t: Seq<u8>, sep: u8)
    requires
        sep_free(t, sep),
    ensures
        split_by(t, sep) =~~= seq![t],
    decreases t.len(),
{
    if t.len() == 0 {
    } else {
        assert(t[0] != sep);
        assert(sep_free(t.skip(1), sep)) by {
            assert(forall|k: int| 0 <= k < t.skip(1).len() ==> t.skip(1)[k] == t[k + 1]);
        }
        lemma_split_single(t.skip(1), sep);
        lemma_split_len(t.skip(1), sep);
        assert(seq![t[0]] + t.skip(1) =~= t);
    }
}

/// Splitting starts by peeling off a leading separator-free token.
pub proof fn lemma_split_token(t: Seq<u8>, rest: Seq<u8>, sep: u8)
    requires
        sep_free(t, sep),
    ensures
        split_by(t + seq![sep] + rest, sep) =~~= seq![t] + split_by(rest, sep),
    decreases t.len(),
{
    lemma_split_len(rest, sep);
    if t.len() == 0 {
        let s = t + seq![sep] + rest;
        assert(s[0] == sep);
        assert(s.skip(1) =~= rest);
    } else {
        let s = t + seq![sep] + rest;
        assert(s[0] == t[0]);
        assert(t[0] != sep);
        assert(s.skip(1) =~= t.skip(1) + seq![sep] + rest);
        assert(sep_free(t.skip(1), sep)) by {
            assert(forall|k: int| 0 <= k < t.skip(1).len() ==> t.skip(1)[k] == t[k + 1]);
        }
        lemma_split_token(t.skip(1), rest, sep);
        let inner = split_by(t.skip(1) + seq![sep] + rest, sep);
        assert(inner[0] == t.skip(1));
        assert(seq![t[0]] + t.skip(1) =~= t);
        assert(inner.skip(1) =~= split_by(rest, sep));
    }
}

/// Joining separator-free tokens and splitting gives the tokens back.
pub proof fn lemma_split_join(ts: Seq<Seq<u8>>, sep: u8)
    requires
        ts.len() >= 1,
        forall|i: int| 0 <= i < ts.len() ==> sep_free(#[trigger] ts[i], sep),
    ensures
        split_by(join_by(ts, sep), sep) =~~= ts,
    decreases ts.len(),
{
    if ts.len() == 1 {
        lemma_split_single(ts[0], sep);
    } else {
        lemma_split_token(ts[0], join_by(ts.skip(1), sep), sep);
        assert(forall|i: int|
            0 <= i < ts.skip(1).len() ==> sep_free(#[trigger] ts.skip(1)[i], sep)) by {
            assert(forall|i: int| 0 <= i < ts.skip(1).len() ==> ts.skip(1)[i] == ts[i + 1]);
        }
        lemma_split_join(ts.skip(1), sep);
    }
}

/// A join of tokens that avoid some other byte avoids it too, as long as the
/// separator is not that byte.
pub proof fn lemma_join_free(ts: Seq<Seq<u8>>, sep: u8, other: u8)
    requires
        sep != other,
        forall|i: int| 0 <= i < ts.len() ==> sep_free(#[trigger] ts[i], other),
    ensures
        sep_free(join_by(ts, sep), other),
    decreases ts.len(),
{
    if ts.len() == 0 {
    } else if ts.len() == 1 {
        assert(sep_free(ts[0], other));
    } else {
        assert(forall|i: int| 0 <= i < ts.skip(1).len() ==> ts.skip(1)[i] == ts[i + 1]);
        lemma_join_free(ts.skip(1), sep, other);
        let j = join_by(ts, sep);
        let rest = join_by(ts.skip(1), sep);
        assert forall|k: int| 0 <= k < j.len() implies j[k] != other by {
            let hl = ts[0].len() as int;
            if k < hl {
                assert(j[k] == ts[0][k]);
            } else if k == hl {
                assert(j[k] == sep);
            } else {
                assert(j[k] == rest[k - hl - 1]);
            }
        }
    }
}

/// Appending one more token to a join adds one separator and the token.
pub proof fn lemma_join_push(ts: Seq<Seq<u8>>, t: Seq<u8>, sep: u8)
    ensures
        join_by(ts.push(t), sep) =~= if ts.len() == 0 {
            t
        } else {
            join_by(ts, sep) + seq![sep] + t
        },
    decreases ts.len(),
{
    if ts.len() == 0 {
        assert(ts.push(t).len() == 1);
        assert(ts.push(t)[0] == t);
    } else if ts.len() == 1 {
        assert(ts.push(t)[0] == ts[0]);
        assert(ts.push(t).skip(1) =~= seq![t]);
        assert(join_by(seq![t], sep) == t);
        assert(join_by(ts.push(t), sep) =~= ts[0] + seq![sep] + t);
    } else {
        assert(ts.push(t).skip(1) =~= ts.skip(1).push(t));
        lemma_join_push(ts.skip(1), t, sep);
        assert(ts.push(t)[0] == ts[0]);
        assert(join_by(ts.push(t), sep) =~= ts[0] + seq![sep] + (join_by(ts.skip(1), sep) + seq![
            sep,
        ] + t));
        assert(join_by(ts, sep) + seq![sep] + t =~= ts[0] + seq![sep] + (join_by(ts.skip(1), sep)
            + seq![sep] + t));
    }
}

/// What splitting the remainder contributes, given a partial token already
/// scanned.
pub open spec fn prepend_first(p: Seq<u8>, ss: Seq<Seq<u8>>) -> Seq<Seq<u8>>
    recommends
        ss.len() >= 1,
{
    seq![p + ss[0]] + ss.skip(1)
}

/// Split a byte text on every occurrence of `sep`.
pub fn split_by_e(data: &Vec<u8>, sep: u8) -> (r: Vec<Vec<u8>>)
    ensures
        r.deep_view() == split_by(data@, sep),
{
    let mut out: Vec<Vec<u8>> = Vec::new();
    let mut cur: Vec<u8> = Vec::new();
    let mut i: usize = 0;
    proof {
        lemma_split_len(data@, sep);
        assert(out.deep_view() + prepend_first(cur@, split_by(data@.skip(0), sep)) =~~= split_by(
            data@.skip(0),
            sep,
        ));
        assert(data@.skip(0) =~= data@);
    }
    while i < data.len()
        invariant
            i <= data.len(),
            split_by(data@, sep) =~~= out.deep_view() + prepend_first(
                cur@,
                split_by(data@.skip(i as int), sep),
            ),
        decreases data.len() - i,
    {
        let c = data[i];
        proof {
            assert(data@.skip(i as int)[0] == data@[i as int]);
            assert(data@.skip(i as int).skip(1) =~= data@.skip(i + 1));
            lemma_split_len(data@.skip(i + 1), sep);
        }
        if c == sep {
            let ghost prev_deep = out.deep_view();
            let ghost prev_cur = cur@;
            out.push(cur);
            cur = Vec::new();
            proof {
                let next = split_by(data@.skip(i + 1), sep);
                assert(out.deep_view() =~~= prev_deep.push(prev_cur));
                assert(prepend_first(prev_cur, seq![Seq::<u8>::empty()] + next) =~~= seq![prev_cur]
                    + next) by {
                    assert(prev_cur + Seq::<u8>::empty() =~= prev_cur);
                    assert((seq![Seq::<u8>::empty()] + next).skip(1) =~= next);
                }
                assert(prepend_first(Seq::<u8>::empty(), next) =~~= next) by {
                    assert(Seq::<u8>::empty() + next[0] =~= next[0]);
                    assert(seq![next[0]] + next.skip(1) =~= next);
                }
                assert(split_by(data@, sep) =~~= out.deep_view() + prepend_first(
                    Seq::<u8>::empty(),
                    next,
                ));
            }
        } else {
            let ghost prev_cur = cur@;
            cur.push(c);
            proof {
                let next = split_by(data@.skip(i + 1), sep);
                assert(cur@ =~= prev_cur + seq![c]);
                assert(prev_cur + (seq![c] + next[0]) =~= (prev_cur + seq![c]) + next[0]);
                assert(split_by(data@, sep) =~~= out.deep_view() + prepend_first(cur@, next));
            }
        }
        i += 1;
    }
    let ghost prev_deep = out.deep_view();
    let ghost prev_cur = cur@;
    out.push(cur);
    proof {
        assert(data@.skip(data@.len() as int) =~= Seq::<u8>::empty());
        assert(out.deep_view() =~~= prev_deep.push(prev_cur));
        assert(prepend_first(prev_cur, seq![Seq::<u8>::empty()]) =~~= seq![prev_cur]) by {
            assert(prev_cur + Seq::<u8>::empty() =~= prev_cur);
        }
        assert(split_by(data@, sep) =~~= out.deep_view());
    }
    out
}

/// Join tokens with a single separator between neighbours.
pub fn join_by_e(ts: &Vec<Vec<u8>>, sep: u8) -> (r: Vec<u8>)
    ensures
        r@ == join_by(ts.deep_view(), sep),
{
    let mut out: Vec<u8> = Vec::new();
    let mut i: usize = 0;
    while i < ts.len()
        invariant
            i <= ts.len(),
            out@ =~= join_by(ts.deep_view().subrange(0, i as int), sep),
        decreases ts.len() - i,
    {
        if i > 0 {
            out.push(sep);
        }
        let mut k: usize = 0;
        let ghost mid = out@;
        while k < ts[i].len()
            invariant
                i < ts.len(),
                k <= ts@[i as int]@.len(),
                out@ =~= mid + ts@[i as int]@.subrange(0, k as int),
            decreases ts@[i as int]@.len() - k,
        {
            let c = ts[i][k];
            out.push(c);
            proof {
                assert(ts@[i as int]@.subrange(0, k + 1).drop_last() =~= ts@[i as int]@.subrange(
                    0,
                    k as int,
                ));
                assert(out@ =~= mid + ts@[i as int]@.subrange(0, k + 1));
            }
            k += 1;
        }
        proof {
            let dv = ts.deep_view();
            assert(ts@[i as int]@.subrange(0, ts@[i as int]@.len() as int) =~= ts@[i as int]@);
            assert(dv[i as int] == ts@[i as int].deep_view());
            assert(ts@[i as int].deep_view() =~= ts@[i as int]@);
            assert(dv.subrange(0, i + 1) =~= dv.subrange(0, i as int).push(dv[i as int]));
            lemma_join_push(dv.subrange(0, i as int), dv[i as int], sep);
            assert(out@ =~= join_by(dv.subrange(0, i + 1), sep));
        }
        i += 1;
    }
    proof {
        assert(ts.deep_view().subrange(0, ts.deep_view().len() as int) =~= ts.deep_view());
    }
    out
}

} // verus!

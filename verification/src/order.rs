//! The deterministic ordering of network-identifier pairs: strict
//! lexicographic order on (host identifier, network identifier), with a
//! verified sorted-insert that also drops exact duplicates.
//!
//! The mount-source composer sorts its surviving pairs with this order so
//! that repeated calls over identical snapshots always produce the same
//! address string.

use vstd::prelude::*;

use crate::util::string_eq;

verus! {

/// Strict lexicographic order on character sequences, by code point.
pub open spec fn lex_lt(a: Seq<char>, b: Seq<char>) -> bool
    decreases a.len(),
{
    if b.len() == 0 {
        false
    } else if a.len() == 0 {
        true
    } else if a.first() != b.first() {
        (a.first() as u32) < (b.first() as u32)
    } else {
        lex_lt(a.drop_first(), b.drop_first())
    }
}

/// Strict order on (host identifier, network identifier) pairs: by host
/// first, then by the identifier text.
pub open spec fn pair_lt(x: (i32, Seq<char>), y: (i32, Seq<char>)) -> bool {
    x.0 < y.0 || (x.0 == y.0 && lex_lt(x.1, y.1))
}

/// Whether `s` is strictly sorted under [`pair_lt`] (which also means it
/// holds no duplicate).
pub open spec fn pairs_sorted(s: Seq<(i32, Seq<char>)>) -> bool {
    forall|k: int| 0 <= k && k + 1 < s.len() ==> #[trigger] pair_lt(s[k], s[k + 1])
}

/// `s` with `x` inserted at its ordered position; an exact duplicate
/// leaves `s` unchanged.
pub open spec fn sorted_insert(s: Seq<(i32, Seq<char>)>, x: (i32, Seq<char>)) -> Seq<
    (i32, Seq<char>),
>
    decreases s.len(),
{
    if s.len() == 0 {
        seq![x]
    } else if pair_lt(x, s.first()) {
        seq![x] + s
    } else if x == s.first() {
        s
    } else {
        seq![s.first()] + sorted_insert(s.drop_first(), x)
    }
}

pub proof fn lemma_lex_lt_irrefl(a: Seq<char>)
    ensures
        !lex_lt(a, a),
    decreases a.len(),
{
    if a.len() == 0 {
    } else {
        lemma_lex_lt_irrefl(a.drop_first());
    }
}

pub proof fn lemma_lex_lt_asym(a: Seq<char>, b: Seq<char>)
    ensures
        lex_lt(a, b) ==> !lex_lt(b, a),
    decreases a.len(),
{
    if a.len() == 0 || b.len() == 0 {
    } else {
        lemma_lex_lt_asym(a.drop_first(), b.drop_first());
    }
}

proof fn lemma_char_code_injective(x: char, y: char)
    ensures
        x != y ==> (x as u32) != (y as u32),
{
}

/// Two distinct character sequences are ordered one way or the other.
pub proof fn lemma_lex_lt_connected(a: Seq<char>, b: Seq<char>)
    ensures
        a != b ==> lex_lt(a, b) || lex_lt(b, a),
    decreases a.len(),
{
    if a.len() == 0 || b.len() == 0 {
        if a.len() == 0 && b.len() == 0 {
            assert(a =~= b);
        }
    } else {
        lemma_lex_lt_connected(a.drop_first(), b.drop_first());
        if a.first() == b.first() && a.drop_first() == b.drop_first() {
            assert(a.len() == b.len());
            assert forall|k: int| 0 <= k < a.len() implies a[k] == b[k] by {
                if k > 0 {
                    assert(a.drop_first()[k - 1] == a.subrange(1, a.len() as int)[k - 1]);
                    assert(a.subrange(1, a.len() as int)[k - 1] == a[k]);
                    assert(b.drop_first()[k - 1] == b.subrange(1, b.len() as int)[k - 1]);
                    assert(b.subrange(1, b.len() as int)[k - 1] == b[k]);
                }
            }
            assert(a =~= b);
        }
        if a != b && a.first() != b.first() {
            lemma_char_code_injective(a.first(), b.first());
        }
    }
}

/// Adjacent members of a strictly sorted sequence are strictly ordered.
pub proof fn lemma_sorted_at(s: Seq<(i32, Seq<char>)>, k: int)
    requires
        pairs_sorted(s),
        0 <= k,
        k + 1 < s.len(),
    ensures
        pair_lt(s[k], s[k + 1]),
{
}

pub proof fn lemma_pair_lt_irrefl(x: (i32, Seq<char>))
    ensures
        !pair_lt(x, x),
{
    lemma_lex_lt_irrefl(x.1);
}

pub proof fn lemma_pair_lt_asym(x: (i32, Seq<char>), y: (i32, Seq<char>))
    ensures
        pair_lt(x, y) ==> !pair_lt(y, x),
{
    lemma_lex_lt_asym(x.1, y.1);
}

/// Two distinct pairs are ordered one way or the other.
pub proof fn lemma_pair_lt_connected(x: (i32, Seq<char>), y: (i32, Seq<char>))
    ensures
        x != y ==> pair_lt(x, y) || pair_lt(y, x),
{
    lemma_lex_lt_connected(x.1, y.1);
}

/// Inserting into a strictly sorted sequence keeps it strictly sorted:
/// the ordering of the surviving network identifiers is a total,
/// deterministic function of the pair set alone.
pub proof fn lemma_sorted_insert_sorted(s: Seq<(i32, Seq<char>)>, x: (i32, Seq<char>))
    requires
        pairs_sorted(s),
    ensures
        pairs_sorted(sorted_insert(s, x)),
    decreases s.len(),
{
    if s.len() == 0 {
    } else if pair_lt(x, s.first()) {
        let out = seq![x] + s;
        assert forall|k: int| 0 <= k && k + 1 < out.len() implies #[trigger] pair_lt(
            out[k],
            out[k + 1],
        ) by {
            if k == 0 {
                assert(out[0] == x);
                assert(out[1] == s.first());
            } else {
                assert(out[k] == s[k - 1]);
                assert(out[k + 1] == s[k]);
                lemma_sorted_at(s, k - 1);
            }
        }
    } else if x == s.first() {
    } else {
        let rest = s.drop_first();
        assert forall|k: int| 0 <= k && k + 1 < rest.len() implies #[trigger] pair_lt(
            rest[k],
            rest[k + 1],
        ) by {
            assert(rest[k] == s[k + 1]);
            assert(rest[k + 1] == s[k + 2]);
            lemma_sorted_at(s, k + 1);
        }
        lemma_sorted_insert_sorted(rest, x);
        lemma_pair_lt_connected(x, s.first());
        let inner = sorted_insert(rest, x);
        let out = seq![s.first()] + inner;
        assert(pair_lt(s.first(), x));
        assert forall|k: int| 0 <= k && k + 1 < out.len() implies #[trigger] pair_lt(
            out[k],
            out[k + 1],
        ) by {
            if k == 0 {
                assert(out[0] == s.first());
                assert(out[1] == inner[0]);
                if rest.len() == 0 {
                    assert(inner[0] == x);
                } else if pair_lt(x, rest.first()) {
                    assert(inner[0] == x);
                } else if x == rest.first() {
                    assert(inner[0] == rest.first());
                    assert(rest.first() == s[1]);
                    lemma_sorted_at(s, 0);
                } else {
                    assert(inner[0] == rest.first());
                    assert(rest.first() == s[1]);
                    lemma_sorted_at(s, 0);
                }
            } else {
                assert(out[k] == inner[k - 1]);
                assert(out[k + 1] == inner[k]);
                lemma_sorted_at(inner, k - 1);
            }
        }
    }
}

/// Whether `a` orders strictly before `b`, decided in executable code.
pub fn str_lt(a: &str, b: &str) -> (r: bool)
    ensures
        r == lex_lt(a@, b@),
    decreases b@.len(),
{
    let bl = b.unicode_len();
    if bl == 0 {
        false
    } else {
        let al = a.unicode_len();
        if al == 0 {
            true
        } else {
            let ca = a.get_char(0);
            let cb = b.get_char(0);
            if ca != cb {
                (ca as u32) < (cb as u32)
            } else {
                let a2 = a.substring_char(1, al);
                let b2 = b.substring_char(1, bl);
                proof {
                    assert(a2@ =~= a@.drop_first());
                    assert(b2@ =~= b@.drop_first());
                }
                str_lt(a2, b2)
            }
        }
    }
}

/// Whether pair `x` orders strictly before pair `y`, decided in
/// executable code.
fn pair_lt_exec(x: &(i32, String), y: &(i32, String)) -> (r: bool)
    ensures
        r == pair_lt(x.deep_view(), y.deep_view()),
{
    if x.0 < y.0 {
        true
    } else if x.0 == y.0 {
        str_lt(x.1.as_str(), y.1.as_str())
    } else {
        false
    }
}

/// Whether two pairs are equal, decided in executable code.
fn pair_eq_exec(x: &(i32, String), y: &(i32, String)) -> (r: bool)
    ensures
        r == (x.deep_view() == y.deep_view()),
{
    x.0 == y.0 && string_eq(&x.1, &y.1)
}

/// Insert `x` into the sorted pair vector `v`, keeping it sorted and
/// dropping `x` when an equal pair is already present.
pub fn sorted_insert_exec(v: &mut Vec<(i32, String)>, x: (i32, String))
    ensures
        final(v).deep_view() == sorted_insert(old(v).deep_view(), x.deep_view()),
{
    let ghost dv = v.deep_view();
    let ghost xv = x.deep_view();
    let mut i: usize = 0;
    proof {
        assert(dv.skip(0) =~= dv);
        assert(dv.take(0) + sorted_insert(dv.skip(0), xv) =~= sorted_insert(dv, xv));
    }
    loop
        invariant
            i <= v.len(),
            dv == v.deep_view(),
            xv == x.deep_view(),
            sorted_insert(dv, xv) == dv.take(i as int) + sorted_insert(dv.skip(i as int), xv),
        ensures
            i <= v.len(),
            dv == v.deep_view(),
            xv == x.deep_view(),
            sorted_insert(dv, xv) == dv.take(i as int) + sorted_insert(dv.skip(i as int), xv),
            i == v.len() || !pair_lt(dv[i as int], xv),
        decreases v.len() - i,
    {
        if i == v.len() {
            break;
        }
        let before = pair_lt_exec(&v[i], &x);
        if !before {
            break;
        }
        proof {
            let suffix = dv.skip(i as int);
            assert(suffix.first() == dv[i as int]);
            assert(suffix.drop_first() =~= dv.skip(i + 1 as int));
            lemma_pair_lt_asym(dv[i as int], xv);
            lemma_pair_lt_irrefl(xv);
            assert(sorted_insert(suffix, xv) == seq![suffix.first()] + sorted_insert(
                suffix.drop_first(),
                xv,
            ));
            assert(dv.take(i as int) + (seq![dv[i as int]] + sorted_insert(
                dv.skip(i + 1 as int),
                xv,
            )) =~= dv.take(i + 1 as int) + sorted_insert(dv.skip(i + 1 as int), xv));
        }
        i += 1;
    }
    if i == v.len() {
        proof {
            assert(dv.skip(i as int) =~= Seq::<(i32, Seq<char>)>::empty());
            assert(sorted_insert(dv.skip(i as int), xv) =~= seq![xv]);
        }
        v.push(x);
        proof {
            assert forall|k: int| 0 <= k < v.deep_view().len() implies v.deep_view()[k]
                == (dv.take(dv.len() as int) + seq![xv])[k] by {
                assert(v.deep_view()[k] == v@[k].deep_view());
                if k < dv.len() {
                    assert(v@[k] == old(v)@[k]);
                    assert(dv[k] == old(v)@[k].deep_view());
                    assert(dv.take(dv.len() as int)[k] == dv[k]);
                } else {
                    assert(v@[k] == x);
                }
            }
            assert(v.deep_view() =~= dv.take(dv.len() as int) + seq![xv]);
        }
    } else {
        let equal_here = pair_eq_exec(&v[i], &x);
        proof {
            let suffix = dv.skip(i as int);
            assert(suffix.first() == dv[i as int]);
            assert(suffix.drop_first() =~= dv.skip(i + 1 as int));
        }
        if equal_here {
            proof {
                assert(sorted_insert(dv.skip(i as int), xv) == dv.skip(i as int));
                assert(dv.take(i as int) + dv.skip(i as int) =~= dv);
                assert(v.deep_view() == sorted_insert(dv, xv));
            }
        } else {
            proof {
                lemma_pair_lt_connected(xv, dv[i as int]);
                assert(pair_lt(xv, dv[i as int]));
                assert(sorted_insert(dv.skip(i as int), xv) == seq![xv] + dv.skip(i as int));
            }
            v.insert(i, x);
            proof {
                assert forall|k: int| 0 <= k < v.deep_view().len() implies v.deep_view()[k] == (
                dv.take(i as int) + (seq![xv] + dv.skip(i as int)))[k] by {
                    assert(v.deep_view()[k] == v@[k].deep_view());
                    assert(v@ == old(v)@.insert(i as int, x));
                    if k < i {
                        assert(v@[k] == old(v)@[k]);
                        assert(dv[k] == old(v)@[k].deep_view());
                    } else if k == i {
                        assert(v@[k] == x);
                    } else {
                        assert(v@[k] == old(v)@[k - 1]);
                        assert(dv[k - 1] == old(v)@[k - 1].deep_view());
                    }
                }
                assert(v.deep_view() =~= dv.take(i as int) + (seq![xv] + dv.skip(i as int)));
            }
        }
    }
}

} // verus!

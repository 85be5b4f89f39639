//! Small verified helpers over strings and vectors that the resolver's
//! joins use: equality tests stated over views, membership tests, and
//! element-wise cloning.

use vstd::prelude::*;

verus! {

/// String equality, stated over the character-sequence views.
pub fn string_eq(a: &String, b: &String) -> (r: bool)
    ensures
        r == (a@ == b@),
{
    a.eq(b)
}

/// String-slice equality, stated over the character-sequence views.
pub fn str_eq(a: &str, b: &str) -> (r: bool)
    ensures
        r == (a@ == b@),
{
    let x = a.to_owned();
    let y = b.to_owned();
    x.eq(&y)
}

/// Equality of an optional string against a present string.
pub fn opt_eq_some(a: &Option<String>, b: &String) -> (r: bool)
    ensures
        r == (a.deep_view() == Some(b@)),
{
    match a {
        Some(x) => string_eq(x, b),
        None => false,
    }
}

/// Whether `v` holds `x`, over the view sequence.
pub fn contains_i32(v: &Vec<i32>, x: i32) -> (r: bool)
    ensures
        r == v@.contains(x),
{
    let mut i: usize = 0;
    while i < v.len()
        invariant
            i <= v.len(),
            forall|k: int| 0 <= k < i ==> v@[k] != x,
        decreases v.len() - i,
    {
        if v[i] == x {
            return true;
        }
        i += 1;
    }
    false
}

/// Whether `v` holds a string whose view equals `x`'s.
pub fn contains_string(v: &Vec<String>, x: &String) -> (r: bool)
    ensures
        r == v.deep_view().contains(x@),
{
    let mut i: usize = 0;
    while i < v.len()
        invariant
            i <= v.len(),
            forall|k: int| 0 <= k < i ==> v.deep_view()[k] != x@,
        decreases v.len() - i,
    {
        if string_eq(&v[i], x) {
            assert(v.deep_view()[i as int] == x@);
            return true;
        }
        i += 1;
    }
    false
}

/// Push `x` onto `v`, stated at the deep-view level.
pub fn push_deep<T: DeepView>(v: &mut Vec<T>, x: T)
    ensures
        final(v).deep_view() == old(v).deep_view().push(x.deep_view()),
        final(v)@.len() == old(v)@.len() + 1,
{
    let ghost prev = v.deep_view();
    let ghost xv = x.deep_view();
    v.push(x);
    proof {
        assert forall|k: int| 0 <= k < v.deep_view().len() implies v.deep_view()[k] == prev.push(
            xv,
        )[k] by {
            assert(v.deep_view()[k] == v@[k].deep_view());
            if k < prev.len() {
                assert(v@[k] == old(v)@[k]);
                assert(prev[k] == old(v)@[k].deep_view());
            } else {
                assert(v@[k] == x);
            }
        }
        assert(v.deep_view() =~= prev.push(xv));
    }
}

/// An element-wise copy of a string vector, with the same view.
pub fn clone_string_vec(v: &Vec<String>) -> (r: Vec<String>)
    ensures
        r.deep_view() == v.deep_view(),
{
    let mut out: Vec<String> = Vec::new();
    let mut i: usize = 0;
    while i < v.len()
        invariant
            i <= v.len(),
            out@.len() == i,
            forall|k: int| 0 <= k < i ==> out.deep_view()[k] == v.deep_view()[k],
        decreases v.len() - i,
    {
        out.push(v[i].clone());
        i += 1;
    }
    assert(out.deep_view() =~= v.deep_view());
    out
}

/// An element-wise copy of an integer vector, with the same view.
pub fn clone_i32_vec(v: &Vec<i32>) -> (r: Vec<i32>)
    ensures
        r@ == v@,
{
    let mut out: Vec<i32> = Vec::new();
    let mut i: usize = 0;
    while i < v.len()
        invariant
            i <= v.len(),
            out@.len() == i,
            forall|k: int| 0 <= k < i ==> out@[k] == v@[k],
        decreases v.len() - i,
    {
        out.push(v[i]);
        i += 1;
    }
    assert(out@ =~= v@);
    out
}

} // verus!

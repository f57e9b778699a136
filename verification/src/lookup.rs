//! Generic helpers for reasoning about linear scans over sequences:
//! first-match lookup and step lemmas for building filtered results.

use vstd::prelude::*;

verus! {

/// One step of the standard filtering loop: filtering one more element
/// appends it exactly when it matches.
pub proof fn lemma_filter_take_step<T>(s: Seq<T>, p: spec_fn(T) -> bool, i: int)
    requires
        0 <= i < s.len(),
    ensures
        s.take(i + 1).filter(p) == if p(s[i]) {
            s.take(i).filter(p).push(s[i])
        } else {
            s.take(i).filter(p)
        },
{
    assert(s.take(i + 1).drop_last() =~= s.take(i));
    assert(s.take(i + 1).last() == s[i]);
    reveal(Seq::filter);
}

/// Taking the whole sequence is the sequence.
pub proof fn lemma_take_all<T>(s: Seq<T>)
    ensures
        s.take(s.len() as int) == s,
{
    assert(s.take(s.len() as int) =~= s);
}

/// A shorter filtered prefix is a prefix of the whole filtered sequence.
pub proof fn lemma_filter_take_prefix<T>(s: Seq<T>, p: spec_fn(T) -> bool, i: int, m: int)
    requires
        0 <= i <= s.len(),
        0 <= m <= s.take(i).filter(p).len(),
    ensures
        s.take(i).filter(p).take(m) == s.filter(p).take(m),
        s.take(i).filter(p).len() <= s.filter(p).len(),
    decreases s.len() - i,
{
    if i < s.len() {
        lemma_filter_take_step(s, p, i);
        lemma_filter_take_prefix(s, p, i + 1, m);
        if p(s[i]) {
            assert(s.take(i + 1).filter(p) == s.take(i).filter(p).push(s[i]));
            assert(s.take(i + 1).filter(p).take(m) =~= s.take(i).filter(p).take(m));
        }
    } else {
        lemma_take_all(s);
    }
}

/// Linear membership scan.
pub fn contains_u64(v: &Vec<u64>, x: u64) -> (r: bool)
    ensures
        r == v@.contains(x),
{
    let mut j: usize = 0;
    while j < v.len()
        invariant
            j <= v@.len(),
            forall|t: int| 0 <= t < j ==> v@[t] != x,
        decreases v@.len() - j,
    {
        if v[j] == x {
            return true;
        }
        j = j + 1;
    }
    false
}


/// Membership in a filtered sequence: exactly the matching members of
/// the input that satisfy the predicate.
pub proof fn lemma_filter_contains<T>(s: Seq<T>, p: spec_fn(T) -> bool)
    ensures
        forall|x: T| #[trigger] s.filter(p).contains(x) <==> (s.contains(x) && p(x)),
    decreases s.len(),
{
    reveal(Seq::filter);
    if s.len() > 0 {
        lemma_filter_contains(s.drop_last(), p);
        let f = s.filter(p);
        let fd = s.drop_last().filter(p);
        assert forall|x: T| #[trigger] f.contains(x) implies (s.contains(x) && p(x)) by {
            let w = choose|w: int| 0 <= w < f.len() && f[w] == x;
            if p(s.last()) {
                assert(f == fd.push(s.last()));
                if w < fd.len() {
                    assert(fd[w] == x);
                    assert(fd.contains(x));
                    let v = choose|v: int|
                        0 <= v < s.drop_last().len() && s.drop_last()[v] == x;
                    assert(s[v] == x);
                } else {
                    assert(x == s.last());
                    assert(s[s.len() - 1] == x);
                }
            } else {
                assert(f == fd);
                assert(fd.contains(x));
                let v = choose|v: int| 0 <= v < s.drop_last().len() && s.drop_last()[v] == x;
                assert(s[v] == x);
            }
        }
        assert forall|x: T| s.contains(x) && p(x) implies #[trigger] f.contains(x) by {
            let w = choose|w: int| 0 <= w < s.len() && s[w] == x;
            if w == s.len() - 1 {
                assert(f == fd.push(s.last()));
                assert(f[f.len() - 1] == x);
            } else {
                assert(s.drop_last()[w] == x);
                assert(s.drop_last().contains(x));
                assert(fd.contains(x));
                let v = choose|v: int| 0 <= v < fd.len() && fd[v] == x;
                if p(s.last()) {
                    assert(f == fd.push(s.last()));
                    assert(f[v] == x);
                } else {
                    assert(f == fd);
                }
            }
        }
    }
}

} // verus!

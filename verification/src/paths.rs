//! Paths as sequences of segment strings.
//!
//! A filesystem path is modelled as a vector of its segments, in order.
//! Two paths name the same place exactly when their segments spell the
//! same characters, which `segs_chars` captures.

use vstd::prelude::*;

verus! {

/// The character-level content of a segment sequence: each segment replaced
/// by the sequence of its characters.
pub open spec fn segs_chars(s: Seq<String>) -> Seq<Seq<char>> {
    Seq::new(s.len(), |i: int| s[i]@)
}

/// Whether two segment vectors spell the same path, character for character.
pub fn segs_eq(a: &Vec<String>, b: &Vec<String>) -> (r: bool)
    ensures
        r == (segs_chars(a@) == segs_chars(b@)),
{
    if a.len() != b.len() {
        assert(segs_chars(a@).len() != segs_chars(b@).len());
        return false;
    }
    let n = a.len();
    let mut i: usize = 0;
    while i < n
        invariant
            n == a@.len(),
            n == b@.len(),
            i <= n,
            forall|j: int| 0 <= j < i ==> a@[j]@ == b@[j]@,
        decreases n - i,
    {
        if a[i] != b[i] {
            assert(segs_chars(a@)[i as int] != segs_chars(b@)[i as int]);
            return false;
        }
        i += 1;
    }
    proof {
        assert(segs_chars(a@) =~= segs_chars(b@));
    }
    true
}

/// Concatenates two segment vectors into a fresh one: the segments of
/// `head` followed by the segments of `tail`.
pub fn concat_segs(head: &Vec<String>, tail: &Vec<String>) -> (r: Vec<String>)
    ensures
        r@ == head@ + tail@,
{
    let mut r: Vec<String> = Vec::new();
    let mut i: usize = 0;
    while i < head.len()
        invariant
            i <= head@.len(),
            r@ == head@.take(i as int),
        decreases head@.len() - i,
    {
        r.push(head[i].clone());
        proof {
            assert(r@ =~= head@.take(i + 1));
        }
        i += 1;
    }
    let mut j: usize = 0;
    while j < tail.len()
        invariant
            j <= tail@.len(),
            r@ == head@.take(head@.len() as int) + tail@.take(j as int),
        decreases tail@.len() - j,
    {
        r.push(tail[j].clone());
        proof {
            assert(r@ =~= head@.take(head@.len() as int) + tail@.take(j + 1));
        }
        j += 1;
    }
    proof {
        assert(head@.take(head@.len() as int) =~= head@);
        assert(tail@.take(tail@.len() as int) =~= tail@);
    }
    r
}

/// Copies a segment vector.
pub fn clone_segs(v: &Vec<String>) -> (r: Vec<String>)
    ensures
        r@ == v@,
{
    let mut r: Vec<String> = Vec::new();
    let mut i: usize = 0;
    while i < v.len()
        invariant
            i <= v@.len(),
            r@ == v@.take(i as int),
        decreases v@.len() - i,
    {
        r.push(v[i].clone());
        proof {
            assert(r@ =~= v@.take(i + 1));
        }
        i += 1;
    }
    proof {
        assert(v@.take(v@.len() as int) =~= v@);
    }
    r
}

/// The parent of a path: the same segments with the last one dropped.
/// An empty path is its own parent.
pub fn parent_segs(v: &Vec<String>) -> (r: Vec<String>)
    ensures
        v@.len() == 0 ==> r@ == v@,
        v@.len() > 0 ==> r@ == v@.drop_last(),
{
    let mut r: Vec<String> = Vec::new();
    if v.len() == 0 {
        proof {
            assert(r@ =~= v@);
        }
        return r;
    }
    let n = v.len() - 1;
    let mut i: usize = 0;
    while i < n
        invariant
            n < v@.len(),
            i <= n,
            r@ == v@.take(i as int),
        decreases n - i,
    {
        r.push(v[i].clone());
        proof {
            assert(r@ =~= v@.take(i + 1));
        }
        i += 1;
    }
    proof {
        assert(v@.take(v@.len() - 1) =~= v@.drop_last());
    }
    r
}

} // verus!

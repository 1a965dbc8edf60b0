//! Iterate bounds: ranges of keys that can be set on read options.
use vstd::prelude::*;

verus! {

/// The view of an optional byte vector.
pub open spec fn opt_bytes(o: Option<Vec<u8>>) -> Option<Seq<u8>> {
    match o {
        Some(v) => Some(v@),
        None => None,
    }
}

/// Lexicographic order on byte strings: `a` sorts no later than `b`.
pub open spec fn lex_le(a: Seq<u8>, b: Seq<u8>) -> bool
    decreases a.len(),
{
    if a.len() == 0 {
        true
    } else if b.len() == 0 {
        false
    } else if a[0] < b[0] {
        true
    } else if a[0] > b[0] {
        false
    } else {
        lex_le(a.drop_first(), b.drop_first())
    }
}

/// Lexicographic order on byte strings: `a` sorts strictly before `b`.
pub open spec fn lex_lt(a: Seq<u8>, b: Seq<u8>) -> bool {
    !lex_le(b, a)
}

/// `p` is a prefix of `k`.
pub open spec fn has_prefix(k: Seq<u8>, p: Seq<u8>) -> bool {
    p.len() <= k.len() && k.subrange(0, p.len() as int) == p
}

/// The lowest byte string that follows every string with prefix `p`, if any.
///
/// Defined by the first byte: the successor of `a·r` is `a·succ(r)` when `r`
/// has one; otherwise `(a+1)` when `a` is not `0xff`; otherwise there is none.
pub open spec fn spec_next_prefix(p: Seq<u8>) -> Option<Seq<u8>>
    decreases p.len(),
{
    if p.len() == 0 {
        None
    } else {
        match spec_next_prefix(p.drop_first()) {
            Some(n) => Some(seq![p[0]] + n),
            None => if p[0] < 255 {
                Some(seq![(p[0] + 1) as u8])
            } else {
                None
            },
        }
    }
}

/// The bounds that a prefix range stands for.
pub open spec fn spec_prefix_bounds(p: Seq<u8>) -> (Option<Seq<u8>>, Option<Seq<u8>>) {
    if p.len() == 0 {
        (None, None)
    } else {
        (Some(p), spec_next_prefix(p))
    }
}

/// Whether a key lies within a pair of bounds: at or after the lower one and
/// strictly before the upper one.
pub open spec fn within_bounds(k: Seq<u8>, b: (Option<Seq<u8>>, Option<Seq<u8>>)) -> bool {
    &&& (match b.0 {
        Some(lo) => lex_le(lo, k),
        None => true,
    })
    &&& (match b.1 {
        Some(hi) => lex_lt(k, hi),
        None => true,
    })
}

proof fn lemma_next_prefix_law(p: Seq<u8>, k: Seq<u8>)
    ensures
        has_prefix(k, p) <==> (lex_le(p, k) && match spec_next_prefix(p) {
            Some(n) => lex_lt(k, n),
            None => true,
        }),
    decreases p.len(),
{
    if p.len() == 0 {
        assert(k.subrange(0, 0) =~= p);
    } else if k.len() == 0 {
    } else {
        let r = p.drop_first();
        let kr = k.drop_first();
        lemma_next_prefix_law(r, kr);
        assert(p =~= seq![p[0]] + r);
        if has_prefix(k, p) {
            assert(k[0] == k.subrange(0, p.len() as int)[0]);
            assert(kr.subrange(0, r.len() as int) =~= k.subrange(0, p.len() as int).drop_first());
            assert(has_prefix(kr, r));
        }
        if p[0] == k[0] && has_prefix(kr, r) {
            assert(k.subrange(0, p.len() as int) =~= seq![k[0]] + kr.subrange(0, r.len() as int));
            assert(has_prefix(k, p));
        }
        assert(has_prefix(k, p) == (p[0] == k[0] && has_prefix(kr, r)));
        assert(lex_le(p, k) == (if p[0] < k[0] {
            true
        } else if p[0] > k[0] {
            false
        } else {
            lex_le(r, kr)
        }));
        match spec_next_prefix(r) {
            Some(n) => {
                let m = seq![p[0]] + n;
                assert(m[0] == p[0]);
                assert(m.drop_first() =~= n);
                assert(lex_le(m, k) == (if m[0] < k[0] {
                    true
                } else if m[0] > k[0] {
                    false
                } else {
                    lex_le(n, kr)
                }));
                assert(spec_next_prefix(p) == Some(m));
            },
            None => {
                if p[0] < 255 {
                    let m = seq![(p[0] + 1) as u8];
                    assert(m.drop_first() =~= Seq::<u8>::empty());
                    assert(lex_le(m.drop_first(), kr));
                    assert(lex_le(m, k) == (m[0] <= k[0]));
                    assert(spec_next_prefix(p) == Some(m));
                } else {
                    assert(spec_next_prefix(p) == None::<Seq<u8>>);
                }
            },
        }
    }
}

/// Prefix scans are range scans: a key starts with a non-empty prefix `p`
/// exactly when it lies within the bounds that `PrefixRange(p)` converts to.
pub proof fn law_prefix_range_is_range(p: Seq<u8>, k: Seq<u8>)
    requires
        p.len() > 0,
    ensures
        has_prefix(k, p) <==> within_bounds(k, spec_prefix_bounds(p)),
{
    lemma_next_prefix_law(p, k);
}

proof fn lemma_next_prefix_trailing(p: Seq<u8>, k: int)
    requires
        0 <= k <= p.len(),
        forall|j: int| k <= j < p.len() ==> p[j] == 255,
        k == 0 || p[k - 1] != 255,
    ensures
        spec_next_prefix(p) == (if k == 0 {
            None::<Seq<u8>>
        } else {
            Some(p.subrange(0, k - 1).push((p[k - 1] + 1) as u8))
        }),
    decreases p.len(),
{
    if p.len() == 0 {
    } else {
        let r = p.drop_first();
        if k == 0 {
            lemma_next_prefix_trailing(r, 0);
            assert(p[0] == 255);
        } else {
            assert forall|j: int| k - 1 <= j < r.len() implies r[j] == 255 by {
                assert(r[j] == p[j + 1]);
            }
            if k > 1 {
                assert(r[k - 2] == p[k - 1]);
            }
            lemma_next_prefix_trailing(r, k - 1);
            if k > 1 {
                assert(seq![p[0]] + r.subrange(0, k - 2).push((r[k - 2] + 1) as u8)
                    =~= p.subrange(0, k - 1).push((p[k - 1] + 1) as u8));
            } else {
                assert(seq![(p[0] + 1) as u8] =~= p.subrange(0, 0).push((p[0] + 1) as u8));
            }
        }
    }
}

/// Returns lowest value following largest value with given prefix.
///
/// In other words, computes upper bound for a prefix scan over list of keys
/// sorted in lexicographical order.  This means that a prefix scan can be
/// expressed as range scan over a right-open `[prefix, next_prefix(prefix))`
/// range.
///
/// For example, for prefix `foo` the function returns `fop`.
///
/// Returns `None` if there is no value which can follow value with given
/// prefix.  This happens when prefix consists entirely of `'\xff'` bytes (or is
/// empty).
pub fn next_prefix(prefix: &[u8]) -> (r: Option<Vec<u8>>)
    ensures
        opt_bytes(r) == spec_next_prefix(prefix@),
{
    let mut k: usize = prefix.len();
    while k > 0 && prefix[k - 1] == 255u8
        invariant
            k <= prefix@.len(),
            forall|j: int| k <= j < prefix@.len() ==> prefix@[j] == 255,
        decreases k,
    {
        k = k - 1;
    }
    proof {
        lemma_next_prefix_trailing(prefix@, k as int);
    }
    if k == 0 {
        None
    } else {
        let mut next: Vec<u8> = Vec::new();
        let mut i: usize = 0;
        while i < k - 1
            invariant
                k <= prefix@.len(),
                k > 0,
                i <= k - 1,
                next@ == prefix@.subrange(0, i as int),
            decreases k - 1 - i,
        {
            next.push(prefix[i]);
            i = i + 1;
            assert(next@ =~= prefix@.subrange(0, i as int));
        }
        next.push(prefix[k - 1] + 1);
        Some(next)
    }
}

/// A range which can be set as iterate bounds on [`crate::ReadOptions`].
///
/// See [`crate::ReadOptions::set_iterate_range`] for documentation and
/// examples.
pub trait IterateBounds: Sized {
    /// The lower and upper bounds that this range stands for.
    spec fn spec_bounds(&self) -> (Option<Seq<u8>>, Option<Seq<u8>>);

    /// Converts object into lower and upper bounds pair.
    ///
    /// If this object represents range with one of the bounds unset,
    /// corresponding element is returned as `None`.  For example, `..upper`
    /// range would be converted into `(None, Some(upper))` pair.
    fn into_bounds(self) -> (r: (Option<Vec<u8>>, Option<Vec<u8>>))
        ensures
            (opt_bytes(r.0), opt_bytes(r.1)) == self.spec_bounds(),
    ;
}

impl IterateBounds for std::ops::Range<Vec<u8>> {
    open spec fn spec_bounds(&self) -> (Option<Seq<u8>>, Option<Seq<u8>>) {
        (Some(self.start@), Some(self.end@))
    }

    fn into_bounds(self) -> (r: (Option<Vec<u8>>, Option<Vec<u8>>)) {
        (Some(self.start), Some(self.end))
    }
}

/// Representation of a range of keys starting with given prefix.
///
/// Can be used as argument of [`crate::ReadOptions::set_iterate_range`] method
/// to set iterate bounds.
#[derive(Clone, Copy)]
pub struct PrefixRange<K>(pub K);

impl<'a> IterateBounds for PrefixRange<&'a [u8]> {
    open spec fn spec_bounds(&self) -> (Option<Seq<u8>>, Option<Seq<u8>>) {
        spec_prefix_bounds(self.0@)
    }

    /// Converts the prefix range representation into pair of bounds.
    ///
    /// The conversion assumes lexicographical sorting on `u8` values.  For
    /// example, `PrefixRange("a")` is equivalent to `"a".."b"` range.  Note
    /// that for some prefixes, either of the bounds may be `None`.  For
    /// example, an empty prefix is equivalent to a full range (i.e. both bounds
    /// being `None`).
    fn into_bounds(self) -> (r: (Option<Vec<u8>>, Option<Vec<u8>>)) {
        let start = vstd::slice::slice_to_vec(self.0);
        prefix_into_bounds(start)
    }
}

impl IterateBounds for PrefixRange<Vec<u8>> {
    open spec fn spec_bounds(&self) -> (Option<Seq<u8>>, Option<Seq<u8>>) {
        spec_prefix_bounds(self.0@)
    }

    fn into_bounds(self) -> (r: (Option<Vec<u8>>, Option<Vec<u8>>)) {
        prefix_into_bounds(self.0)
    }
}

fn prefix_into_bounds(start: Vec<u8>) -> (r: (Option<Vec<u8>>, Option<Vec<u8>>))
    ensures
        (opt_bytes(r.0), opt_bytes(r.1)) == spec_prefix_bounds(start@),
{
    if start.len() == 0 {
        (None, None)
    } else {
        let end = next_prefix(start.as_slice());
        (Some(start), end)
    }
}

} // verus!

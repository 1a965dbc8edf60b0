//! Merge operators: how the values merged into a key are folded together.
//!
//! A merge function is handed the key, the existing value if there is one,
//! and the merge operands in the order they were written; it answers the new
//! value, or `None` when the merge fails.
use vstd::prelude::*;

verus! {

/// The bytes of `ops` one after the other.
pub open spec fn flatten(ops: Seq<Seq<u8>>) -> Seq<u8>
    decreases ops.len(),
{
    if ops.len() == 0 {
        Seq::empty()
    } else {
        flatten(ops.drop_last()) + ops.last()
    }
}

/// The operands of a merge, with a cursor over them.
pub struct MergeOperands {
    operands: Vec<Vec<u8>>,
    cursor: usize,
}

impl MergeOperands {
    /// All the operands, in the order they were written.
    pub closed spec fn spec_operands(&self) -> Seq<Seq<u8>> {
        self.operands@.map_values(|o: Vec<u8>| o@)
    }

    /// How many operands the cursor has passed.
    pub closed spec fn spec_cursor(&self) -> nat {
        self.cursor as nat
    }

    /// The operands the cursor has not yet passed.
    pub open spec fn remaining(&self) -> Seq<Seq<u8>> {
        self.spec_operands().subrange(self.spec_cursor() as int, self.spec_operands().len() as int)
    }

    /// The cursor never passes the last operand.
    pub closed spec fn wf(&self) -> bool {
        self.cursor <= self.operands.len()
    }

    /// The operands `operands`, with the cursor before the first.
    pub fn new(operands: Vec<Vec<u8>>) -> (m: MergeOperands)
        ensures
            m.wf(),
            m.spec_operands() == operands@.map_values(|o: Vec<u8>| o@),
            m.spec_cursor() == 0,
    {
        MergeOperands { operands, cursor: 0 }
    }

    /// How many operands are left: the lower and the upper bound are both
    /// that number.
    pub fn size_hint(&self) -> (r: (usize, Option<usize>))
        requires
            self.wf(),
        ensures
            r.0 == self.remaining().len(),
            r.1 == Some(r.0),
    {
        let remaining = self.operands.len() - self.cursor;
        (remaining, Some(remaining))
    }

    /// The next operand, if any is left.
    pub fn next(&mut self) -> (r: Option<Vec<u8>>)
        requires
            old(self).wf(),
        ensures
            final(self).wf(),
            final(self).spec_operands() == old(self).spec_operands(),
            old(self).remaining().len() == 0 ==> r is None && final(self).spec_cursor()
                == old(self).spec_cursor(),
            old(self).remaining().len() > 0 ==> (r matches Some(o) && o@ == old(self).remaining()[0]
                && final(self).spec_cursor() == old(self).spec_cursor() + 1),
    {
        if self.cursor == self.operands.len() {
            None
        } else {
            let o = vstd::slice::slice_to_vec(self.operands[self.cursor].as_slice());
            self.cursor = self.cursor + 1;
            Some(o)
        }
    }
}

proof fn lemma_flatten_step(ops: Seq<Seq<u8>>, a: int, c: int)
    requires
        0 <= a <= c < ops.len(),
    ensures
        flatten(ops.subrange(a, c + 1)) == flatten(ops.subrange(a, c)) + ops[c],
{
    assert(ops.subrange(a, c + 1).drop_last() =~= ops.subrange(a, c));
}

/// Concatenation merges associatively: the operands flattened at once are
/// those flattened in two parts, so a partial merge of the first operands
/// followed by a full merge of the rest gives the full merge of them all.
pub proof fn law_flatten_split(ops: Seq<Seq<u8>>, i: int)
    requires
        0 <= i <= ops.len(),
    ensures
        flatten(ops) == flatten(ops.subrange(0, i)) + flatten(ops.subrange(i, ops.len() as int)),
    decreases ops.len() - i,
{
    if i == ops.len() {
        assert(ops.subrange(0, i) =~= ops);
        assert(ops.subrange(i, ops.len() as int) =~= Seq::<Seq<u8>>::empty());
        assert(flatten(ops) + Seq::<u8>::empty() =~= flatten(ops));
    } else {
        lemma_flatten_suffix(ops, i);
        law_flatten_split(ops, i + 1);
        lemma_flatten_step(ops, 0, i);
        assert(flatten(ops.subrange(0, i + 1)) + flatten(ops.subrange(i + 1, ops.len() as int))
            =~= flatten(ops.subrange(0, i)) + flatten(ops.subrange(i, ops.len() as int)));
    }
}

proof fn lemma_flatten_prepend(x: Seq<u8>, rest: Seq<Seq<u8>>)
    ensures
        flatten(seq![x] + rest) == x + flatten(rest),
    decreases rest.len(),
{
    let whole = seq![x] + rest;
    if rest.len() == 0 {
        assert(whole =~= seq![x]);
        assert(whole.drop_last() =~= Seq::<Seq<u8>>::empty());
        assert(flatten(whole.drop_last()) == Seq::<u8>::empty());
        assert(flatten(whole) == flatten(whole.drop_last()) + whole.last());
        assert(flatten(rest) == Seq::<u8>::empty());
        assert(Seq::<u8>::empty() + x =~= x);
        assert(x + Seq::<u8>::empty() =~= x);
    } else {
        lemma_flatten_prepend(x, rest.drop_last());
        assert(whole.drop_last() =~= seq![x] + rest.drop_last());
        assert(whole.last() == rest.last());
        assert(flatten(whole) == flatten(whole.drop_last()) + whole.last());
        assert(flatten(rest) == flatten(rest.drop_last()) + rest.last());
        assert(x + flatten(rest.drop_last()) + rest.last() =~= x + (flatten(rest.drop_last()) + rest.last()));
    }
}

proof fn lemma_flatten_suffix(ops: Seq<Seq<u8>>, i: int)
    requires
        0 <= i < ops.len(),
    ensures
        flatten(ops.subrange(i, ops.len() as int)) == ops[i] + flatten(ops.subrange(i + 1, ops.len() as int)),
{
    assert(ops.subrange(i, ops.len() as int) =~= seq![ops[i]] + ops.subrange(i + 1, ops.len() as int));
    lemma_flatten_prepend(ops[i], ops.subrange(i + 1, ops.len() as int));
}

/// The merge that appends the operands, in order, to the existing value (or
/// to nothing when there is none).
pub fn concat_merge(
    _new_key: &[u8],
    existing_val: Option<&[u8]>,
    operands: &mut MergeOperands,
) -> (r: Option<Vec<u8>>)
    requires
        old(operands).wf(),
    ensures
        r matches Some(v) && v@ == (match existing_val {
            Some(e) => e@,
            None => Seq::<u8>::empty(),
        }) + flatten(old(operands).remaining()),
        final(operands).wf(),
        final(operands).remaining().len() == 0,
{
    let (hint, _) = operands.size_hint();
    let mut result: Vec<u8> = Vec::with_capacity(hint);
    match existing_val {
        Some(v) => {
            let mut i: usize = 0;
            while i < v.len()
                invariant
                    i <= v@.len(),
                    result@ == v@.subrange(0, i as int),
                decreases v@.len() - i,
            {
                result.push(v[i]);
                i = i + 1;
                assert(result@ =~= v@.subrange(0, i as int));
            }
            assert(v@.subrange(0, v@.len() as int) =~= v@);
        },
        None => {
            assert(result@ =~= Seq::<u8>::empty());
        },
    }
    let ghost base = result@;
    let ghost ops = old(operands).spec_operands();
    let ghost start = old(operands).spec_cursor() as int;
    assert(ops.subrange(start, start) =~= Seq::<Seq<u8>>::empty());
    loop
        invariant
            operands.wf(),
            operands.spec_operands() == ops,
            0 <= start <= operands.spec_cursor() <= ops.len(),
            result@ == base + flatten(ops.subrange(start, operands.spec_cursor() as int)),
        ensures
            operands.spec_cursor() == ops.len(),
            result@ == base + flatten(ops.subrange(start, ops.len() as int)),
        decreases ops.len() - operands.spec_cursor(),
    {
        let ghost c = operands.spec_cursor() as int;
        match operands.next() {
            None => {
                break;
            },
            Some(op) => {
                assert(op@ == ops[c]);
                let mut j: usize = 0;
                while j < op.len()
                    invariant
                        j <= op@.len(),
                        0 <= start,
                        start <= c,
                        c < ops.len(),
                        op@ == ops[c],
                        result@ == base + flatten(ops.subrange(start, c)) + op@.subrange(0, j as int),
                    decreases op@.len() - j,
                {
                    result.push(op[j]);
                    j = j + 1;
                    assert(result@ =~= base + flatten(ops.subrange(start, c)) + op@.subrange(0, j as int));
                }
                proof {
                    assert(op@.subrange(0, op@.len() as int) =~= op@);
                    lemma_flatten_step(ops, start, c);
                    assert(result@ =~= base + flatten(ops.subrange(start, c + 1)));
                }
            },
        }
    }
    assert(old(operands).remaining() == ops.subrange(start, ops.len() as int));
    Some(result)
}

/// What a merge callback reports to the engine for the merge function's
/// answer: whether it succeeded, and the bytes of the new value (empty on
/// failure).
pub fn merge_reply(r: Option<Vec<u8>>) -> (out: (bool, Vec<u8>))
    ensures
        match r {
            Some(v) => out.0 && out.1@ == v@,
            None => !out.0 && out.1@.len() == 0,
        },
{
    match r {
        Some(v) => (true, v),
        None => (false, Vec::new()),
    }
}

} // verus!

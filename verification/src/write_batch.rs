//! Write batches: sequences of updates applied atomically by `write`.
use vstd::prelude::*;

use crate::column_family::AsColumnFamilyRef;

verus! {

/// One update held in a [`WriteBatch`].  A column family is named by its
/// engine handle; `None` stands for the default column family.
#[derive(Clone)]
pub enum WriteBatchOp {
    Put { cf: Option<u64>, key: Vec<u8>, value: Vec<u8> },
    Merge { cf: Option<u64>, key: Vec<u8>, value: Vec<u8> },
    Delete { cf: Option<u64>, key: Vec<u8> },
    DeleteRange { cf: Option<u64>, from: Vec<u8>, to: Vec<u8> },
}

/// What a [`WriteBatchOp`] stands for, with its byte strings as sequences.
pub enum BatchUpdate {
    Put { cf: Option<u64>, key: Seq<u8>, value: Seq<u8> },
    Merge { cf: Option<u64>, key: Seq<u8>, value: Seq<u8> },
    Delete { cf: Option<u64>, key: Seq<u8> },
    DeleteRange { cf: Option<u64>, from: Seq<u8>, to: Seq<u8> },
}

impl WriteBatchOp {
    pub open spec fn view(&self) -> BatchUpdate {
        match self {
            WriteBatchOp::Put { cf, key, value } => BatchUpdate::Put { cf: *cf, key: key@, value: value@ },
            WriteBatchOp::Merge { cf, key, value } => BatchUpdate::Merge { cf: *cf, key: key@, value: value@ },
            WriteBatchOp::Delete { cf, key } => BatchUpdate::Delete { cf: *cf, key: key@ },
            WriteBatchOp::DeleteRange { cf, from, to } => BatchUpdate::DeleteRange { cf: *cf, from: from@, to: to@ },
        }
    }
}

/// An atomic batch of write operations.
pub struct WriteBatch {
    pub(crate) ops: Vec<WriteBatchOp>,
}

impl WriteBatch {
    /// The updates held, in the order they were added.
    pub closed spec fn view(&self) -> Seq<BatchUpdate> {
        self.ops@.map_values(|o: WriteBatchOp| o.view())
    }

    /// An empty batch.
    pub fn new() -> (b: WriteBatch)
        ensures
            b.view() == Seq::<BatchUpdate>::empty(),
    {
        let b = WriteBatch { ops: Vec::new() };
        assert(b.ops@.map_values(|o: WriteBatchOp| o.view()) =~= Seq::<BatchUpdate>::empty());
        b
    }

    /// A batch holding the given updates.
    pub fn from_ops(ops: Vec<WriteBatchOp>) -> (b: WriteBatch)
        ensures
            b.view() == ops@.map_values(|o: WriteBatchOp| o.view()),
    {
        WriteBatch { ops }
    }

    /// The updates held, in the order they were added.
    pub fn ops(&self) -> (r: &Vec<WriteBatchOp>)
        ensures
            r@.map_values(|o: WriteBatchOp| o.view()) == self.view(),
    {
        &self.ops
    }

    /// Number of updates held.
    pub fn len(&self) -> (n: usize)
        ensures
            n == self.view().len(),
    {
        self.ops.len()
    }

    /// Return `true` if the batch holds no update.
    pub fn is_empty(&self) -> (b: bool)
        ensures
            b == (self.view().len() == 0),
    {
        self.ops.len() == 0
    }

    /// Insert a value into the database under the given key.
    pub fn put(&mut self, key: &[u8], value: &[u8])
        ensures
            final(self).view() == old(self).view().push(
                BatchUpdate::Put { cf: None, key: key@, value: value@ },
            ),
    {
        let op = WriteBatchOp::Put {
            cf: None,
            key: vstd::slice::slice_to_vec(key),
            value: vstd::slice::slice_to_vec(value),
        };
        self.ops.push(op);
        assert(self.ops@.map_values(|o: WriteBatchOp| o.view()) =~= old(self).ops@.map_values(|o: WriteBatchOp| o.view()).push(op.view()));
    }

    /// Insert a value into the given column family under the given key.
    pub fn put_cf(&mut self, cf: &impl AsColumnFamilyRef, key: &[u8], value: &[u8])
        ensures
            final(self).view() == old(self).view().push(
                BatchUpdate::Put { cf: Some(cf.spec_inner()), key: key@, value: value@ },
            ),
    {
        let op = WriteBatchOp::Put {
            cf: Some(cf.inner()),
            key: vstd::slice::slice_to_vec(key),
            value: vstd::slice::slice_to_vec(value),
        };
        self.ops.push(op);
        assert(self.ops@.map_values(|o: WriteBatchOp| o.view()) =~= old(self).ops@.map_values(|o: WriteBatchOp| o.view()).push(op.view()));
    }

    /// Merge a value into the database under the given key.
    pub fn merge(&mut self, key: &[u8], value: &[u8])
        ensures
            final(self).view() == old(self).view().push(
                BatchUpdate::Merge { cf: None, key: key@, value: value@ },
            ),
    {
        let op = WriteBatchOp::Merge {
            cf: None,
            key: vstd::slice::slice_to_vec(key),
            value: vstd::slice::slice_to_vec(value),
        };
        self.ops.push(op);
        assert(self.ops@.map_values(|o: WriteBatchOp| o.view()) =~= old(self).ops@.map_values(|o: WriteBatchOp| o.view()).push(op.view()));
    }

    /// Merge a value into the given column family under the given key.
    pub fn merge_cf(&mut self, cf: &impl AsColumnFamilyRef, key: &[u8], value: &[u8])
        ensures
            final(self).view() == old(self).view().push(
                BatchUpdate::Merge { cf: Some(cf.spec_inner()), key: key@, value: value@ },
            ),
    {
        let op = WriteBatchOp::Merge {
            cf: Some(cf.inner()),
            key: vstd::slice::slice_to_vec(key),
            value: vstd::slice::slice_to_vec(value),
        };
        self.ops.push(op);
        assert(self.ops@.map_values(|o: WriteBatchOp| o.view()) =~= old(self).ops@.map_values(|o: WriteBatchOp| o.view()).push(op.view()));
    }

    /// Removes the database entry for key.
    pub fn delete(&mut self, key: &[u8])
        ensures
            final(self).view() == old(self).view().push(
                BatchUpdate::Delete { cf: None, key: key@ },
            ),
    {
        let op = WriteBatchOp::Delete { cf: None, key: vstd::slice::slice_to_vec(key) };
        self.ops.push(op);
        assert(self.ops@.map_values(|o: WriteBatchOp| o.view()) =~= old(self).ops@.map_values(|o: WriteBatchOp| o.view()).push(op.view()));
    }

    /// Removes the entry for key in the given column family.
    pub fn delete_cf(&mut self, cf: &impl AsColumnFamilyRef, key: &[u8])
        ensures
            final(self).view() == old(self).view().push(
                BatchUpdate::Delete { cf: Some(cf.spec_inner()), key: key@ },
            ),
    {
        let op = WriteBatchOp::Delete { cf: Some(cf.inner()), key: vstd::slice::slice_to_vec(key) };
        self.ops.push(op);
        assert(self.ops@.map_values(|o: WriteBatchOp| o.view()) =~= old(self).ops@.map_values(|o: WriteBatchOp| o.view()).push(op.view()));
    }

    /// Removes the entries in the range `["from", "to")` of the given column family.
    pub fn delete_range_cf(&mut self, cf: &impl AsColumnFamilyRef, from: &[u8], to: &[u8])
        ensures
            final(self).view() == old(self).view().push(
                BatchUpdate::DeleteRange { cf: Some(cf.spec_inner()), from: from@, to: to@ },
            ),
    {
        let op = WriteBatchOp::DeleteRange {
            cf: Some(cf.inner()),
            from: vstd::slice::slice_to_vec(from),
            to: vstd::slice::slice_to_vec(to),
        };
        self.ops.push(op);
        assert(self.ops@.map_values(|o: WriteBatchOp| o.view()) =~= old(self).ops@.map_values(|o: WriteBatchOp| o.view()).push(op.view()));
    }

    /// Clear all updates.
    pub fn clear(&mut self)
        ensures
            final(self).view() == Seq::<BatchUpdate>::empty(),
    {
        self.ops.clear();
        assert(self.ops@.map_values(|o: WriteBatchOp| o.view()) =~= Seq::<BatchUpdate>::empty());
    }
}

} // verus!

//! Column family descriptors and handles.
use vstd::prelude::*;

use crate::db_options::Options;
use std::sync::Arc;
use std::time::Duration;

verus! {

/// The name of the default column family.
///
/// The column family with this name is created implicitly whenever column
/// families are used.
pub const DEFAULT_COLUMN_FAMILY_NAME: &'static str = "default";

/// The time to live, in seconds, that the engine is given for a column
/// family opened with `ttl` (see [`column_family_ttl_secs`]).
pub open spec fn ttl_secs(ttl: ColumnFamilyTtl, db_ttl_secs: u64, own_secs: u64) -> i32 {
    match ttl {
        ColumnFamilyTtl::SameAsDb => db_ttl_secs as i32,
        ColumnFamilyTtl::Duration(_) => own_secs as i32,
        ColumnFamilyTtl::Disabled => -1i32,
    }
}

/// The times to live, in seconds, that the engine is given for the column
/// families `cfs` opened in a database whose own time to live is
/// `db_ttl_secs` seconds, in order; `own_secs[i]` is the seconds of the
/// `i`-th family's own duration, when it has one.
pub fn cf_ttl_secs(cfs: &[ColumnFamilyDescriptor], db_ttl_secs: u64, own_secs: &[u64]) -> (r: Vec<i32>)
    requires
        own_secs@.len() == cfs@.len(),
    ensures
        r@.len() == cfs@.len(),
        forall|i: int| 0 <= i < cfs@.len() ==> r@[i] == ttl_secs((#[trigger] cfs@[i]).spec_ttl(), db_ttl_secs, own_secs@[i]),
{
    let mut r: Vec<i32> = Vec::new();
    let mut i: usize = 0;
    while i < cfs.len()
        invariant
            own_secs@.len() == cfs@.len(),
            i <= cfs@.len(),
            r@.len() == i,
            forall|j: int| 0 <= j < i ==> r@[j] == ttl_secs((#[trigger] cfs@[j]).spec_ttl(), db_ttl_secs, own_secs@[j]),
        decreases cfs@.len() - i,
    {
        let t = cfs[i].ttl();
        r.push(column_family_ttl_secs(&t, db_ttl_secs, own_secs[i]));
        i = i + 1;
    }
    r
}

/// The time to live, in seconds, that the engine is given for a column
/// family opened with `ttl` in a database whose own time to live is
/// `db_ttl_secs` seconds; `own_secs` is the seconds of `ttl`'s duration when
/// it has one.  The engine takes a 32-bit number, to which larger values are
/// truncated; -1 disables the time to live.
pub fn column_family_ttl_secs(ttl: &ColumnFamilyTtl, db_ttl_secs: u64, own_secs: u64) -> (r: i32)
    ensures
        r == ttl_secs(*ttl, db_ttl_secs, own_secs),
{
    match ttl {
        ColumnFamilyTtl::SameAsDb => {
            #[verifier::truncate]
            let s = db_ttl_secs as i32;
            s
        },
        ColumnFamilyTtl::Duration(_) => {
            #[verifier::truncate]
            let s = own_secs as i32;
            s
        },
        ColumnFamilyTtl::Disabled => -1,
    }
}

/// A descriptor for a RocksDB column family.
///
/// A description of the column family, containing the name and `Options`.
pub struct ColumnFamilyDescriptor {
    pub(crate) name: String,
    pub(crate) options: Options,
    pub(crate) ttl: ColumnFamilyTtl,
}

/// Specifies the TTL behavior for a column family.
#[derive(Debug, Clone, Copy)]
pub enum ColumnFamilyTtl {
    /// Will internally set TTL to -1 (disabled)
    Disabled,
    /// Will set ttl to the specified duration
    Duration(Duration),
    /// Will use ttl specified at db open time
    SameAsDb,
}

impl ColumnFamilyDescriptor {
    /// The descriptor's name.
    pub closed spec fn spec_name(&self) -> Seq<char> {
        self.name@
    }

    /// The descriptor's options.
    pub closed spec fn spec_options(&self) -> Options {
        self.options
    }

    /// The descriptor's time to live.
    pub closed spec fn spec_ttl(&self) -> ColumnFamilyTtl {
        self.ttl
    }

    /// Create a new column family descriptor with the specified name and options.
    /// *WARNING*:
    /// Will use [`ColumnFamilyTtl::SameAsDb`] as ttl.
    pub fn new(name: &str, options: Options) -> (d: Self)
        ensures
            d.spec_name() == name@,
            d.spec_options() == options,
            d.spec_ttl() == ColumnFamilyTtl::SameAsDb,
    {
        ColumnFamilyDescriptor { name: name.to_owned(), options, ttl: ColumnFamilyTtl::SameAsDb }
    }

    /// Create a new column family descriptor with the specified name, options, and ttl.
    /// *WARNING*:
    /// The ttl is applied only when DB is opened with a time to live.
    pub fn new_with_ttl(name: &str, options: Options, ttl: ColumnFamilyTtl) -> (d: Self)
        ensures
            d.spec_name() == name@,
            d.spec_options() == options,
            d.spec_ttl() == ttl,
    {
        ColumnFamilyDescriptor { name: name.to_owned(), options, ttl }
    }

    /// Sets ttl for the column family. It's applied only when DB is opened with
    /// a time to live. Changing ttl after DB is opened has no effect.
    pub fn set_ttl(&mut self, ttl: ColumnFamilyTtl)
        ensures
            final(self).spec_ttl() == ttl,
            final(self).spec_name() == old(self).spec_name(),
            final(self).spec_options() == old(self).spec_options(),
    {
        self.ttl = ttl;
    }

    /// Get the name of the ColumnFamilyDescriptor.
    pub fn name(&self) -> (s: &str)
        ensures
            s@ == self.spec_name(),
    {
        self.name.as_str()
    }

    /// Get the time to live of the ColumnFamilyDescriptor.
    pub fn ttl(&self) -> (t: ColumnFamilyTtl)
        ensures
            t == self.spec_ttl(),
    {
        self.ttl
    }

    /// Get the options of the ColumnFamilyDescriptor.
    pub fn options(&self) -> (o: &Options)
        ensures
            *o == self.spec_options(),
    {
        &self.options
    }
}

/// An opaque type used to represent a column family. Returned from some functions, and used
/// in others.  It carries the number by which the engine knows its handle.
pub struct ColumnFamily {
    pub(crate) inner: u64,
}

/// A specialized opaque type used to represent a column family by the multi-threaded
/// mode.  Its lifetime is bound to the database like iterators and snapshots.
pub struct BoundColumnFamily<'a> {
    pub(crate) inner: u64,
    pub(crate) multi_threaded_cfs: std::marker::PhantomData<&'a u8>,
}

impl ColumnFamily {
    /// The column family whose engine handle is `inner`.
    pub fn new(inner: u64) -> (c: ColumnFamily)
        ensures
            c.spec_inner() == inner,
    {
        ColumnFamily { inner }
    }

    /// The handle that the engine gave for this column family.
    pub fn handle(&self) -> (h: u64)
        ensures
            h == self.spec_inner(),
    {
        self.inner
    }
}

impl<'a> BoundColumnFamily<'a> {
    /// A shared handle to the column family whose engine handle is `inner`.
    pub fn new_arc(inner: u64) -> (r: Arc<BoundColumnFamily<'a>>)
        ensures
            r.spec_inner() == inner,
    {
        Arc::new(BoundColumnFamily { inner, multi_threaded_cfs: std::marker::PhantomData })
    }
}

/// Utility trait to accept both supported references to `ColumnFamily`
/// (`&ColumnFamily` and `BoundColumnFamily`).
pub trait AsColumnFamilyRef {
    /// The engine handle that this reference stands for.
    spec fn spec_inner(&self) -> u64;

    fn inner(&self) -> (h: u64)
        ensures
            h == self.spec_inner(),
    ;
}

impl AsColumnFamilyRef for ColumnFamily {
    closed spec fn spec_inner(&self) -> u64 {
        self.inner
    }

    fn inner(&self) -> (h: u64) {
        self.inner
    }
}

impl<'b> AsColumnFamilyRef for &'b ColumnFamily {
    closed spec fn spec_inner(&self) -> u64 {
        self.inner
    }

    fn inner(&self) -> (h: u64) {
        self.inner
    }
}

impl<'a> AsColumnFamilyRef for Arc<BoundColumnFamily<'a>> {
    closed spec fn spec_inner(&self) -> u64 {
        (**self).inner
    }

    fn inner(&self) -> (h: u64) {
        let b: &BoundColumnFamily<'a> = &**self;
        b.inner
    }
}

} // verus!

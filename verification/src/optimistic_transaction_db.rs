//! Databases opened for optimistic transactions.
use vstd::prelude::*;

use crate::db::{
    descriptors_from_names, names_without_nul, planned_cf_names, str_names, AccessType, DBInner, DBWithThreadMode,
    SingleThreaded,
};
use crate::db_options::Options;
use crate::error::Error;
use crate::ffi_util::{cpath_error_text, first_nul};
use vstd::string::StringSliceAdditionalSpecFns;

verus! {

/// The options of an optimistic transaction: whether it takes a snapshot when
/// it begins (`None`: the engine's default, which is not to).
#[derive(Debug, Clone, Copy)]
pub struct OptimisticTransactionOptions {
    pub set_snapshot: Option<bool>,
}

impl OptimisticTransactionOptions {
    /// Create new optimistic transaction options
    pub fn new() -> (o: OptimisticTransactionOptions)
        ensures
            o.set_snapshot is None,
    {
        OptimisticTransactionOptions { set_snapshot: None }
    }

    /// The default options, the same as `new`.
    pub fn default() -> (o: OptimisticTransactionOptions)
        ensures
            o.set_snapshot is None,
    {
        OptimisticTransactionOptions::new()
    }

    /// Set a snapshot at start of transaction by setting set_snapshot=true
    /// Default: false
    pub fn set_snapshot(&mut self, set_snapshot: bool)
        ensures
            final(self).set_snapshot == Some(set_snapshot),
    {
        self.set_snapshot = Some(set_snapshot);
    }
}

/// A database opened for optimistic transactions; it is read and written
/// through its base database.
pub struct OptimisticTransactionDB<D: DBInner> {
    db: DBWithThreadMode<SingleThreaded, D>,
}

impl<D: DBInner> OptimisticTransactionDB<D> {
    /// The path the database was opened at.
    pub closed spec fn spec_path(&self) -> Seq<char> {
        self.db.spec_path()
    }

    /// The column family handles the database holds, by name.
    pub closed spec fn spec_cfs(&self) -> Map<Seq<char>, u64> {
        self.db.spec_cfs()
    }

    /// What opening promises: a path the engine cannot take is refused with
    /// its message, and an opened database is at `path` and holds the column
    /// families planned for `names`.
    pub open spec fn open_ensures(r: Result<Self, Error>, path: &str, names: Seq<Seq<char>>) -> bool {
        &&& (first_nul(path.spec_bytes()) matches Some(pos) ==> r matches Err(e) && e.view()
            == cpath_error_text(pos as nat))
        &&& (r matches Ok(db) ==> db.spec_path() == path@ && db.spec_cfs().dom()
            == planned_cf_names(names))
    }

    /// Opens the database at `path` for optimistic transactions.
    pub fn open(opts: &Options, path: &str) -> (r: Result<Self, Error>)
        ensures
            Self::open_ensures(r, path, Seq::empty()),
    {
        let none: [&str; 0] = [];
        let r = Self::open_cf(opts, path, none.as_slice());
        assert(str_names(none@) =~= Seq::<Seq<char>>::empty());
        r
    }

    /// Opens the database at `path`, with the column families `cfs`, for
    /// optimistic transactions.
    pub fn open_cf(opts: &Options, path: &str, cfs: &[&str]) -> (r: Result<Self, Error>)
        requires
            names_without_nul(str_names(cfs@)),
        ensures
            Self::open_ensures(r, path, str_names(cfs@)),
    {
        let descriptors = descriptors_from_names(cfs);
        match DBWithThreadMode::<SingleThreaded, D>::open_cf_descriptors_internal(
            opts,
            path,
            descriptors,
            &AccessType::OptimisticTransaction,
        ) {
            Ok(db) => Ok(OptimisticTransactionDB { db }),
            Err(e) => Err(e),
        }
    }

    /// Returns the path the database was opened at.
    pub fn path(&self) -> (p: &str)
        ensures
            p@ == self.spec_path(),
    {
        self.db.path()
    }

    /// The base database, to read and write through.
    pub fn base_db(&self) -> (d: &DBWithThreadMode<SingleThreaded, D>)
        ensures
            d.spec_path() == self.spec_path(),
            d.spec_cfs() == self.spec_cfs(),
    {
        &self.db
    }
}

} // verus!

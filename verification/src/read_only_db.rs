//! Databases opened for reading only.
use vstd::prelude::*;

use crate::db::{names_without_nul, planned_cf_names, str_names, DBInner, DBWithThreadMode, SingleThreaded};
use crate::db_options::Options;
use crate::error::Error;
use crate::ffi_util::{cpath_error_text, first_nul};
use vstd::string::StringSliceAdditionalSpecFns;

verus! {

/// How a database is opened for reading only: whether opening fails when a
/// write-ahead log file exists (by default it does).
#[derive(Debug, Clone, Copy)]
pub struct ReadOnlyOpenDescriptor {
    pub error_if_log_file_exists: bool,
}

impl ReadOnlyOpenDescriptor {
    /// The default descriptor: opening fails when a log file exists.
    pub fn default() -> (d: ReadOnlyOpenDescriptor)
        ensures
            d.error_if_log_file_exists,
    {
        ReadOnlyOpenDescriptor { error_if_log_file_exists: true }
    }
}

/// A database opened for reading only.
pub struct ReadOnlyDB<D: DBInner> {
    db: DBWithThreadMode<SingleThreaded, D>,
}

impl<D: DBInner> ReadOnlyDB<D> {
    /// The path the database was opened at.
    pub closed spec fn spec_path(&self) -> Seq<char> {
        self.db.spec_path()
    }

    /// The column family handles the database holds, by name.
    pub closed spec fn spec_cfs(&self) -> Map<Seq<char>, u64> {
        self.db.spec_cfs()
    }

    /// What opening promises: a path the engine cannot take is refused with
    /// its message, and an opened database is at `path` and holds the column
    /// families planned for `names`.
    pub open spec fn open_ensures(r: Result<Self, Error>, path: &str, names: Seq<Seq<char>>) -> bool {
        &&& (first_nul(path.spec_bytes()) matches Some(pos) ==> r matches Err(e) && e.view()
            == cpath_error_text(pos as nat))
        &&& (r matches Ok(db) ==> db.spec_path() == path@ && db.spec_cfs().dom()
            == planned_cf_names(names))
    }

    /// Opens the database at `path` for reading only.
    pub fn open(opts: &Options, path: &str, descriptor: ReadOnlyOpenDescriptor) -> (r: Result<Self, Error>)
        ensures
            Self::open_ensures(r, path, Seq::empty()),
    {
        match DBWithThreadMode::<SingleThreaded, D>::open_for_read_only(
            opts,
            path,
            descriptor.error_if_log_file_exists,
        ) {
            Ok(db) => Ok(ReadOnlyDB { db }),
            Err(e) => Err(e),
        }
    }

    /// Opens the database at `path`, with the column families `cfs`, for
    /// reading only.
    pub fn open_cf(opts: &Options, path: &str, cfs: &[&str], descriptor: ReadOnlyOpenDescriptor) -> (r:
        Result<Self, Error>)
        requires
            names_without_nul(str_names(cfs@)),
        ensures
            Self::open_ensures(r, path, str_names(cfs@)),
    {
        match DBWithThreadMode::<SingleThreaded, D>::open_cf_for_read_only(
            opts,
            path,
            cfs,
            descriptor.error_if_log_file_exists,
        ) {
            Ok(db) => Ok(ReadOnlyDB { db }),
            Err(e) => Err(e),
        }
    }

    /// Returns the path the database was opened at.
    pub fn path(&self) -> (p: &str)
        ensures
            p@ == self.spec_path(),
    {
        self.db.path()
    }

    /// The database, to read from.
    pub fn db(&self) -> (d: &DBWithThreadMode<SingleThreaded, D>)
        ensures
            d.spec_path() == self.spec_path(),
            d.spec_cfs() == self.spec_cfs(),
    {
        &self.db
    }
}

} // verus!

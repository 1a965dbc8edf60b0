//! The database: opening, column families, reads, writes and iterators.
use vstd::prelude::*;
use vstd::string::StringSliceAdditionalSpecFns;

use crate::cf_map::{
    cf_pairs, handle_pairs, lemma_map_of_pairs_dom, map_of_pairs, pair_names, CfMap,
};
use crate::column_family::{
    AsColumnFamilyRef, BoundColumnFamily, ColumnFamily, ColumnFamilyDescriptor, ColumnFamilyTtl,
    DEFAULT_COLUMN_FAMILY_NAME,
};
use crate::db_iterator::{
    converted, engine_result, mode_direction, seek_of, CursorMove, DBIteratorWithThreadMode, DBRawIteratorHandle,
    DBRawIteratorWithThreadMode, DBWALIterator, DBWalIteratorHandle, Direction, IteratorMode,
};
use crate::db_options::{
    CompactOptions, FlushOptions, IngestExternalFileOptions, Options, ReadOptions, WriteOptions,
};
use crate::error::Error;
use crate::ffi_util::{concat3, cpath_error_text, first_nul, find_nul, nul_error_text, push_decimal, to_cpath};
use crate::write_batch::{BatchUpdate, WriteBatch};
use std::sync::Arc;
use std::time::Duration;

verus! {

/// Marker trait to specify single or multi threaded column family alternations for
/// [`DBWithThreadMode<T>`].
///
/// Beside being a marker, it holds the column family handles of the database.
pub trait ThreadMode: Sized {
    /// The column family handles held, by name.
    spec fn cf_map(&self) -> Map<Seq<char>, u64>;

    /// Internal implementation for storing column family handles
    fn new_cf_map_internal(cfs: Vec<(String, u64)>) -> (r: Self)
        ensures
            r.cf_map() == map_of_pairs(handle_pairs(cfs@)),
    ;

    /// Internal implementation for dropping column family handles: gives the
    /// handles back, for the engine to destroy.
    fn drop_all_cfs_internal(&mut self) -> (r: Vec<(String, ColumnFamily)>)
        ensures
            final(self).cf_map() == Map::<Seq<char>, u64>::empty(),
            map_of_pairs(cf_pairs(r@)) == old(self).cf_map(),
    ;
}

/// Actual marker type for the marker trait `ThreadMode`, which holds
/// a collection of column families without synchronization primitive, providing
/// no overhead for the single-threaded column family alternations.
pub struct SingleThreaded {
    pub(crate) cfs: CfMap,
}

/// Actual marker type for the marker trait `ThreadMode`, used by the
/// multi-threaded column family mode: its handles are given out as
/// [`BoundColumnFamily`].
pub struct MultiThreaded {
    pub(crate) cfs: CfMap,
}

impl SingleThreaded {
    #[verifier::type_invariant]
    closed spec fn inv(&self) -> bool {
        self.cfs.wf()
    }

    /// Holds `cf` under `name`, giving back what was held there.
    pub(crate) fn insert_cf(&mut self, name: String, cf: ColumnFamily) -> (r: Option<ColumnFamily>)
        ensures
            final(self).cf_map() == old(self).cf_map().insert(name@, cf.spec_inner()),
            match r {
                Some(c) => old(self).cf_map().contains_key(name@) && c.spec_inner()
                    == old(self).cf_map()[name@],
                None => !old(self).cf_map().contains_key(name@),
            },
    {
        proof {
            use_type_invariant(&*self);
        }
        let mut tmp = CfMap::new();
        std::mem::swap(&mut self.cfs, &mut tmp);
        let r = tmp.insert(name, cf);
        std::mem::swap(&mut self.cfs, &mut tmp);
        r
    }

    /// Takes out the column family held under `name`, if any.
    pub(crate) fn remove_cf(&mut self, name: &str) -> (r: Option<ColumnFamily>)
        ensures
            final(self).cf_map() == old(self).cf_map().remove(name@),
            match r {
                Some(c) => old(self).cf_map().contains_key(name@) && c.spec_inner()
                    == old(self).cf_map()[name@],
                None => !old(self).cf_map().contains_key(name@),
            },
    {
        proof {
            use_type_invariant(&*self);
        }
        let mut tmp = CfMap::new();
        std::mem::swap(&mut self.cfs, &mut tmp);
        let r = tmp.remove(name);
        std::mem::swap(&mut self.cfs, &mut tmp);
        r
    }

    /// The column family held under `name`, if any.
    pub(crate) fn get_cf(&self, name: &str) -> (r: Option<&ColumnFamily>)
        ensures
            match r {
                Some(c) => self.cf_map().contains_key(name@) && c.spec_inner() == self.cf_map()[name@],
                None => !self.cf_map().contains_key(name@),
            },
    {
        proof {
            use_type_invariant(self);
        }
        self.cfs.get(name)
    }
}

impl MultiThreaded {
    #[verifier::type_invariant]
    closed spec fn inv(&self) -> bool {
        self.cfs.wf()
    }

    /// Holds `cf` under `name`, giving back what was held there.
    pub(crate) fn insert_cf(&mut self, name: String, cf: ColumnFamily) -> (r: Option<ColumnFamily>)
        ensures
            final(self).cf_map() == old(self).cf_map().insert(name@, cf.spec_inner()),
            match r {
                Some(c) => old(self).cf_map().contains_key(name@) && c.spec_inner()
                    == old(self).cf_map()[name@],
                None => !old(self).cf_map().contains_key(name@),
            },
    {
        proof {
            use_type_invariant(&*self);
        }
        let mut tmp = CfMap::new();
        std::mem::swap(&mut self.cfs, &mut tmp);
        let r = tmp.insert(name, cf);
        std::mem::swap(&mut self.cfs, &mut tmp);
        r
    }

    /// Takes out the column family held under `name`, if any.
    pub(crate) fn remove_cf(&mut self, name: &str) -> (r: Option<ColumnFamily>)
        ensures
            final(self).cf_map() == old(self).cf_map().remove(name@),
            match r {
                Some(c) => old(self).cf_map().contains_key(name@) && c.spec_inner()
                    == old(self).cf_map()[name@],
                None => !old(self).cf_map().contains_key(name@),
            },
    {
        proof {
            use_type_invariant(&*self);
        }
        let mut tmp = CfMap::new();
        std::mem::swap(&mut self.cfs, &mut tmp);
        let r = tmp.remove(name);
        std::mem::swap(&mut self.cfs, &mut tmp);
        r
    }

    /// The column family held under `name`, if any.
    pub(crate) fn get_cf(&self, name: &str) -> (r: Option<&ColumnFamily>)
        ensures
            match r {
                Some(c) => self.cf_map().contains_key(name@) && c.spec_inner() == self.cf_map()[name@],
                None => !self.cf_map().contains_key(name@),
            },
    {
        proof {
            use_type_invariant(self);
        }
        self.cfs.get(name)
    }
}

impl ThreadMode for SingleThreaded {
    closed spec fn cf_map(&self) -> Map<Seq<char>, u64> {
        self.cfs.view()
    }

    fn new_cf_map_internal(cfs: Vec<(String, u64)>) -> (r: Self) {
        SingleThreaded { cfs: CfMap::from_handles(cfs) }
    }

    fn drop_all_cfs_internal(&mut self) -> (r: Vec<(String, ColumnFamily)>) {
        proof {
            use_type_invariant(&*self);
        }
        let mut tmp = CfMap::new();
        std::mem::swap(&mut self.cfs, &mut tmp);
        tmp.take_all()
    }
}

impl ThreadMode for MultiThreaded {
    closed spec fn cf_map(&self) -> Map<Seq<char>, u64> {
        self.cfs.view()
    }

    fn new_cf_map_internal(cfs: Vec<(String, u64)>) -> (r: Self) {
        MultiThreaded { cfs: CfMap::from_handles(cfs) }
    }

    fn drop_all_cfs_internal(&mut self) -> (r: Vec<(String, ColumnFamily)>) {
        proof {
            use_type_invariant(&*self);
        }
        let mut tmp = CfMap::new();
        std::mem::swap(&mut self.cfs, &mut tmp);
        tmp.take_all()
    }
}

/// What the engine was asked when a database was opened: the way of opening,
/// the database options, and the column families handed to it, each by its
/// name, options and time to live (those given, with the default column
/// family added as [`planned_descriptors`] says).
pub struct OpenRequest {
    pub access: AccessType,
    pub opts: Options,
    pub descriptors: Seq<(Seq<char>, Options, ColumnFamilyTtl)>,
}

/// The descriptors handed to the engine for the given ones: none when none
/// are given (the database is then opened without naming column families);
/// otherwise those given, and the default column family, with default
/// options and the database's time to live, after them when none of them
/// names it.
pub open spec fn planned_descriptors(d: Seq<(Seq<char>, Options, ColumnFamilyTtl)>) -> Seq<(Seq<char>, Options, ColumnFamilyTtl)> {
    if d.len() == 0 {
        d
    } else if view_names(d).contains(DEFAULT_COLUMN_FAMILY_NAME@) {
        d
    } else {
        d.push((DEFAULT_COLUMN_FAMILY_NAME@, Options::spec_default(), ColumnFamilyTtl::SameAsDb))
    }
}

/// The names of descriptor views.
pub open spec fn view_names(d: Seq<(Seq<char>, Options, ColumnFamilyTtl)>) -> Seq<Seq<char>> {
    d.map_values(|x: (Seq<char>, Options, ColumnFamilyTtl)| x.0)
}

/// The name, options and time to live of each descriptor.
pub open spec fn descriptor_views(cfs: Seq<ColumnFamilyDescriptor>) -> Seq<(Seq<char>, Options, ColumnFamilyTtl)> {
    cfs.map_values(|d: ColumnFamilyDescriptor| (d.spec_name(), d.spec_options(), d.spec_ttl()))
}

/// Specifies how a database is opened.
pub enum AccessType {
    ReadWrite,
    ReadOnly { error_if_log_file_exist: bool },
    Secondary { secondary_path: String },
    WithTTL { ttl: Duration },
    /// Opened by `rocksdb_optimistictransactiondb_open`, read and written
    /// through its base database.
    OptimisticTransaction,
}

/// A value copied out of the engine, in place of a pinned slice.
pub struct DBPinnableSlice {
    data: Vec<u8>,
}

impl DBPinnableSlice {
    /// The bytes held.
    pub closed spec fn view(&self) -> Seq<u8> {
        self.data@
    }

    /// A slice holding `data`.
    pub fn from_vec(data: Vec<u8>) -> (r: DBPinnableSlice)
        ensures
            r.view() == data@,
    {
        DBPinnableSlice { data }
    }

    /// The bytes held.
    pub fn as_ref(&self) -> (r: &[u8])
        ensures
            r@ == self.view(),
    {
        self.data.as_slice()
    }

    /// The bytes held, as a vector.
    pub fn to_vec(&self) -> (r: Vec<u8>)
        ensures
            r@ == self.view(),
    {
        self.data.clone()
    }
}

/// The metadata that describes a SST file
#[derive(Debug, Clone)]
pub struct LiveFile {
    /// Name of the column family the file belongs to
    pub column_family_name: String,
    /// Name of the file
    pub name: String,
    /// Size of the file
    pub size: usize,
    /// Level at which this file resides
    pub level: i32,
    /// Smallest user defined key in the file
    pub start_key: Option<Vec<u8>>,
    /// Largest user defined key in the file
    pub end_key: Option<Vec<u8>>,
    /// Number of entries/alive keys in the file
    pub num_entries: u64,
    /// Number of deletions/tomb key(s) in the file
    pub num_deletions: u64,
}

/// The engine behind a database: the handle that the C API gives when a
/// database is opened, and the calls made on it.
///
/// Each method performs one call of the C API and hands back what the engine
/// reported, an error message where the call reports one.  Nothing is assumed
/// of those reports: the database decides on whatever comes back.  Column
/// families are named by the numbers of their engine handles.
pub trait DBInner: Sized {
    /// The engine's cursor type.
    type RawIterator: DBRawIteratorHandle;

    /// The engine's write-ahead-log cursor type.
    type WalIterator: DBWalIteratorHandle;

    /// What the engine may answer to [`Self::create_dir_all`] with these arguments.
    ///
    /// Each `..._reply` and `..._answer` item of this trait is a relation of
    /// a call's arguments to its answer, not a function: the engine's answer
    /// rests on its state, so two calls through a shared reference may be
    /// answered differently.  An engine that says nothing of its answers keeps
    /// the default, which admits every answer; the library's contracts are
    /// stated over the relation at exactly the arguments it hands over.
    closed spec fn dir_reply(path: Seq<char>, r: Result<(), String>) -> bool {
        true
    }

    /// Creates the database directory and its parents; gives back the
    /// debug text of the I/O error, if any.
    fn create_dir_all(path: &str) -> (r: Result<(), String>)
        ensures
            Self::dir_reply(path@, r),
    ;

    /// What the engine may answer to [`Self::open_raw`] with these arguments.
    closed spec fn open_reply(opts: Options, path: Seq<char>, access_type: AccessType, r: Result<Option<Self>, String>) -> bool {
        true
    }

    /// Performs `rocksdb_open` (or the read-only, secondary or TTL variant that
    /// `access_type` names); `None` stands for a null handle.
    fn open_raw(opts: &Options, path: &str, access_type: &AccessType) -> (r: Result<
        Option<Self>,
        String,
    >)
        ensures
            Self::open_reply(*opts, path@, *access_type, r),
    ;

    /// What the engine may answer to [`Self::open_cf_raw`] with these arguments.
    closed spec fn open_cf_reply(
        opts: Options,
        path: Seq<char>,
        cfs: Seq<(Seq<char>, Options, ColumnFamilyTtl)>,
        access_type: AccessType,
        r: Result<(Option<Self>, Vec<Option<u64>>), String>,
    ) -> bool {
        true
    }

    /// Performs `rocksdb_open_column_families` (or its variant that
    /// `access_type` names) for `cfs`; gives back the database handle and one
    /// column family handle per descriptor, `None` standing for a null handle.
    fn open_cf_raw(
        opts: &Options,
        path: &str,
        cfs: &[ColumnFamilyDescriptor],
        access_type: &AccessType,
    ) -> (r: Result<(Option<Self>, Vec<Option<u64>>), String>)
        ensures
            Self::open_cf_reply(*opts, path@, descriptor_views(cfs@), *access_type, r),
    ;

    /// What the engine may answer to [`Self::list_cf_raw`] with these arguments.
    closed spec fn list_cf_reply(opts: Options, path: Seq<char>, r: Result<Vec<String>, String>) -> bool {
        true
    }

    /// Performs `rocksdb_list_column_families`.
    fn list_cf_raw(opts: &Options, path: &str) -> (r: Result<Vec<String>, String>)
        ensures
            Self::list_cf_reply(*opts, path@, r),
    ;

    /// What the engine may answer to [`Self::destroy_raw`] with these arguments.
    closed spec fn destroy_reply(opts: Options, path: Seq<char>, r: Result<(), String>) -> bool {
        true
    }

    /// Performs `rocksdb_destroy_db`.
    fn destroy_raw(opts: &Options, path: &str) -> (r: Result<(), String>)
        ensures
            Self::destroy_reply(*opts, path@, r),
    ;

    /// What the engine may answer to [`Self::repair_raw`] with these arguments.
    closed spec fn repair_reply(opts: Options, path: Seq<char>, r: Result<(), String>) -> bool {
        true
    }

    /// Performs `rocksdb_repair_db`.
    fn repair_raw(opts: &Options, path: &str) -> (r: Result<(), String>)
        ensures
            Self::repair_reply(*opts, path@, r),
    ;

    /// What the engine may answer to [`Self::get_pinned_raw`] with these arguments.
    closed spec fn get_reply(&self, readopts: ReadOptions, cf: Option<u64>, key: Seq<u8>, r: Result<Option<Vec<u8>>, String>) -> bool {
        true
    }

    /// Performs `rocksdb_get_pinned` (or `rocksdb_get_pinned_cf`); `None` stands
    /// for a key that is not found.
    fn get_pinned_raw(&self, readopts: &ReadOptions, cf: Option<u64>, key: &[u8]) -> (r: Result<
        Option<Vec<u8>>,
        String,
    >)
        ensures
            self.get_reply(*readopts, cf, key@, r),
    ;

    /// What the engine may answer to [`Self::multi_get_raw`] with these arguments.
    closed spec fn multi_get_reply(&self, readopts: ReadOptions, keys: Seq<Seq<u8>>, r: Vec<(Option<Vec<u8>>, Option<String>)>) -> bool {
        true
    }

    /// Performs `rocksdb_multi_get`: per key, the value (if found) and the error message (if any).
    fn multi_get_raw(&self, readopts: &ReadOptions, keys: &[&[u8]]) -> (r: Vec<
        (Option<Vec<u8>>, Option<String>),
    >)
        ensures
            self.multi_get_reply(*readopts, key_seqs(keys@), r),
    ;

    /// What the engine may answer to [`Self::multi_get_cf_raw`] with these arguments.
    closed spec fn multi_get_cf_reply(
        &self,
        readopts: ReadOptions,
        cfs: Seq<u64>,
        keys: Seq<Seq<u8>>,
        r: Vec<(Option<Vec<u8>>, Option<String>)>,
    ) -> bool {
        true
    }

    /// Performs `rocksdb_multi_get_cf`, the i-th key read in the i-th column family.
    fn multi_get_cf_raw(&self, readopts: &ReadOptions, cfs: &[u64], keys: &[&[u8]]) -> (r: Vec<
        (Option<Vec<u8>>, Option<String>),
    >)
        ensures
            self.multi_get_cf_reply(*readopts, cfs@, key_seqs(keys@), r),
    ;

    /// What the engine may answer to [`Self::batched_multi_get_cf_raw`] with these arguments.
    closed spec fn batched_multi_get_reply(
        &self,
        readopts: ReadOptions,
        cf: u64,
        keys: Seq<Seq<u8>>,
        sorted_input: bool,
        r: Vec<(Option<Vec<u8>>, Option<String>)>,
    ) -> bool {
        true
    }

    /// Performs `rocksdb_batched_multi_get_cf`.
    fn batched_multi_get_cf_raw(
        &self,
        readopts: &ReadOptions,
        cf: u64,
        keys: &[&[u8]],
        sorted_input: bool,
    ) -> (r: Vec<(Option<Vec<u8>>, Option<String>)>)
        ensures
            self.batched_multi_get_reply(*readopts, cf, key_seqs(keys@), sorted_input, r),
    ;

    /// What the engine may give as the database's handle.
    closed spec fn handle_answer(&self, h: u64) -> bool {
        true
    }

    /// The engine's database handle, as a number, for the engine objects
    /// that take it (backup engines, checkpoints, memory consumers).
    fn handle(&self) -> (h: u64)
        ensures
            self.handle_answer(h),
    ;

    /// What the engine may answer to [`Self::key_may_exist_raw`] with these arguments.
    closed spec fn may_exist_answer(&self, readopts: ReadOptions, cf: Option<u64>, key: Seq<u8>, r: bool) -> bool {
        true
    }

    /// Performs `rocksdb_key_may_exist` (or `rocksdb_key_may_exist_cf`).
    fn key_may_exist_raw(&self, readopts: &ReadOptions, cf: Option<u64>, key: &[u8]) -> (r: bool)
        ensures
            self.may_exist_answer(*readopts, cf, key@, r),
    ;

    /// What the engine may answer to [`Self::key_may_exist_value_raw`] with these arguments.
    closed spec fn may_exist_value_answer(&self, readopts: ReadOptions, cf: u64, key: Seq<u8>, r: (bool, bool, Vec<u8>)) -> bool {
        true
    }

    /// Performs `rocksdb_key_may_exist_cf` asking for the value: whether the
    /// key may exist, whether the value was found, and the value's bytes.
    fn key_may_exist_value_raw(&self, readopts: &ReadOptions, cf: u64, key: &[u8]) -> (r: (bool, bool, Vec<u8>))
        ensures
            self.may_exist_value_answer(*readopts, cf, key@, r),
    ;

    /// What the engine may answer to [`Self::flush_cfs_raw`] with these arguments.
    closed spec fn flush_cfs_reply(&self, flushopts: FlushOptions, cfs: Seq<u64>, r: Result<(), String>) -> bool {
        true
    }

    /// Performs `rocksdb_flush_cfs` on the column families `cfs`.
    fn flush_cfs_raw(&self, flushopts: &FlushOptions, cfs: &[u64]) -> (r: Result<(), String>)
        ensures
            self.flush_cfs_reply(*flushopts, cfs@, r),
    ;

    /// What the engine may answer to [`Self::put_raw`] with these arguments.
    closed spec fn put_reply(&self, writeopts: WriteOptions, cf: Option<u64>, key: Seq<u8>, value: Seq<u8>, r: Result<(), String>) -> bool {
        true
    }

    /// Performs `rocksdb_put` (or `rocksdb_put_cf`).
    fn put_raw(&self, writeopts: &WriteOptions, cf: Option<u64>, key: &[u8], value: &[u8]) -> (r: Result<
        (),
        String,
    >)
        ensures
            self.put_reply(*writeopts, cf, key@, value@, r),
    ;

    /// What the engine may answer to [`Self::merge_raw`] with these arguments.
    closed spec fn merge_reply(&self, writeopts: WriteOptions, cf: Option<u64>, key: Seq<u8>, value: Seq<u8>, r: Result<(), String>) -> bool {
        true
    }

    /// Performs `rocksdb_merge` (or `rocksdb_merge_cf`).
    fn merge_raw(&self, writeopts: &WriteOptions, cf: Option<u64>, key: &[u8], value: &[u8]) -> (r: Result<
        (),
        String,
    >)
        ensures
            self.merge_reply(*writeopts, cf, key@, value@, r),
    ;

    /// What the engine may answer to [`Self::delete_raw`] with these arguments.
    closed spec fn delete_reply(&self, writeopts: WriteOptions, cf: Option<u64>, key: Seq<u8>, r: Result<(), String>) -> bool {
        true
    }

    /// Performs `rocksdb_delete` (or `rocksdb_delete_cf`).
    fn delete_raw(&self, writeopts: &WriteOptions, cf: Option<u64>, key: &[u8]) -> (r: Result<
        (),
        String,
    >)
        ensures
            self.delete_reply(*writeopts, cf, key@, r),
    ;

    /// What the engine may answer to [`Self::delete_range_raw`] with these arguments.
    closed spec fn delete_range_reply(&self, writeopts: WriteOptions, cf: u64, from: Seq<u8>, to: Seq<u8>, r: Result<(), String>) -> bool {
        true
    }

    /// Performs `rocksdb_delete_range_cf`.
    fn delete_range_raw(&self, writeopts: &WriteOptions, cf: u64, from: &[u8], to: &[u8]) -> (r: Result<
        (),
        String,
    >)
        ensures
            self.delete_range_reply(*writeopts, cf, from@, to@, r),
    ;

    /// What the engine may answer to [`Self::write_raw`] with these arguments.
    closed spec fn write_reply(&self, writeopts: WriteOptions, batch: Seq<BatchUpdate>, r: Result<(), String>) -> bool {
        true
    }

    /// Performs `rocksdb_write`.
    fn write_raw(&self, writeopts: &WriteOptions, batch: &WriteBatch) -> (r: Result<(), String>)
        ensures
            self.write_reply(*writeopts, batch.view(), r),
    ;

    /// What the engine may answer to [`Self::flush_raw`] with these arguments.
    closed spec fn flush_reply(&self, flushopts: FlushOptions, cf: Option<u64>, r: Result<(), String>) -> bool {
        true
    }

    /// Performs `rocksdb_flush` (or `rocksdb_flush_cf`).
    fn flush_raw(&self, flushopts: &FlushOptions, cf: Option<u64>) -> (r: Result<(), String>)
        ensures
            self.flush_reply(*flushopts, cf, r),
    ;

    /// What the engine may answer to [`Self::flush_wal_raw`] with these arguments.
    closed spec fn flush_wal_reply(&self, sync: bool, r: Result<(), String>) -> bool {
        true
    }

    /// Performs `rocksdb_flush_wal`.
    fn flush_wal_raw(&self, sync: bool) -> (r: Result<(), String>)
        ensures
            self.flush_wal_reply(sync, r),
    ;

    /// What the engine may answer to [`Self::create_cf_raw`] with these arguments.
    closed spec fn create_cf_reply(&self, opts: Options, name: Seq<char>, r: Result<u64, String>) -> bool {
        true
    }

    /// Performs `rocksdb_create_column_family`; gives back the new handle.
    fn create_cf_raw(&self, opts: &Options, name: &str) -> (r: Result<u64, String>)
        ensures
            self.create_cf_reply(*opts, name@, r),
    ;

    /// What the engine may answer to [`Self::drop_cf_raw`] with these arguments.
    closed spec fn drop_cf_reply(&self, cf: u64, r: Result<(), String>) -> bool {
        true
    }

    /// Performs `rocksdb_drop_column_family`.
    fn drop_cf_raw(&self, cf: u64) -> (r: Result<(), String>)
        ensures
            self.drop_cf_reply(cf, r),
    ;

    /// Performs `rocksdb_column_family_handle_destroy`.
    fn destroy_cf_handle_raw(&self, cf: u64);

    /// What the engine may answer to [`Self::ingest_external_file_raw`] with these arguments.
    closed spec fn ingest_reply(
        &self,
        opts: IngestExternalFileOptions,
        cf: Option<u64>,
        paths: Seq<Seq<char>>,
        r: Result<(), String>,
    ) -> bool {
        true
    }

    /// Performs `rocksdb_ingest_external_file` (or `rocksdb_ingest_external_file_cf`).
    fn ingest_external_file_raw(
        &self,
        opts: &IngestExternalFileOptions,
        cf: Option<u64>,
        paths: &[&str],
    ) -> (r: Result<(), String>)
        ensures
            self.ingest_reply(*opts, cf, str_names(paths@), r),
    ;

    /// Performs `rocksdb_create_iterator` (or `rocksdb_create_iterator_cf`).
    fn create_iterator_raw(&self, readopts: &ReadOptions, cf: Option<u64>) -> Self::RawIterator;

    /// What the engine may answer to [`Self::get_updates_since_raw`] with these arguments.
    closed spec fn updates_since_reply(&self, seq_number: u64, r: Result<Self::WalIterator, String>) -> bool {
        true
    }

    /// Performs `rocksdb_get_updates_since`.
    fn get_updates_since_raw(&self, seq_number: u64) -> (r: Result<Self::WalIterator, String>)
        ensures
            self.updates_since_reply(seq_number, r),
    ;

    /// What the engine may answer to [`Self::latest_sequence_number_raw`] with these arguments.
    closed spec fn latest_sequence_number_answer(&self, r: u64) -> bool {
        true
    }

    /// Performs `rocksdb_get_latest_sequence_number`.
    fn latest_sequence_number_raw(&self) -> (r: u64)
        ensures
            self.latest_sequence_number_answer(r),
    ;

    /// What the engine may answer to [`Self::property_value_raw`] with these arguments.
    closed spec fn property_reply(&self, cf: Option<u64>, name: Seq<char>, r: Option<Result<String, String>>) -> bool {
        true
    }

    /// Performs `rocksdb_property_value` (or `rocksdb_property_value_cf`):
    /// `None` stands for a null reply; otherwise the reply as text, or the
    /// text of the UTF-8 error met when reading it.
    fn property_value_raw(&self, cf: Option<u64>, name: &str) -> (r: Option<Result<String, String>>)
        ensures
            self.property_reply(cf, name@, r),
    ;

    /// That the engine was asked to compact as [`Self::compact_range_raw`] says.
    closed spec fn compact_request(
        &self,
        cf: Option<u64>,
        opts: Option<CompactOptions>,
        start: Option<Seq<u8>>,
        end: Option<Seq<u8>>,
    ) -> bool {
        true
    }

    /// Performs `rocksdb_compact_range` (or its `_cf` and `_opt` variants).
    fn compact_range_raw(
        &self,
        cf: Option<u64>,
        opts: Option<&CompactOptions>,
        start: Option<&[u8]>,
        end: Option<&[u8]>,
    )
        ensures
            self.compact_request(cf, opt_value(opts), opt_bytes(start), opt_bytes(end)),
    ;

    /// What the engine may answer to [`Self::set_options_raw`] with these arguments.
    closed spec fn set_options_reply(&self, cf: Option<u64>, names: Seq<Seq<char>>, values: Seq<Seq<char>>, r: Result<(), String>) -> bool {
        true
    }

    /// Performs `rocksdb_set_options` (or `rocksdb_set_options_cf`).
    fn set_options_raw(&self, cf: Option<u64>, names: &[&str], values: &[&str]) -> (r: Result<
        (),
        String,
    >)
        ensures
            self.set_options_reply(cf, str_names(names@), str_names(values@), r),
    ;

    /// What the engine may answer to [`Self::delete_file_in_range_raw`] with these arguments.
    closed spec fn delete_file_in_range_reply(&self, cf: Option<u64>, from: Seq<u8>, to: Seq<u8>, r: Result<(), String>) -> bool {
        true
    }

    /// Performs `rocksdb_delete_file_in_range` (or `rocksdb_delete_file_in_range_cf`).
    fn delete_file_in_range_raw(&self, cf: Option<u64>, from: &[u8], to: &[u8]) -> (r: Result<
        (),
        String,
    >)
        ensures
            self.delete_file_in_range_reply(cf, from@, to@, r),
    ;

    /// That the engine was asked to stop its background work.
    closed spec fn cancel_request(&self, wait: bool) -> bool {
        true
    }

    /// Performs `rocksdb_cancel_all_background_work`.
    fn cancel_all_background_work_raw(&self, wait: bool)
        ensures
            self.cancel_request(wait),
    ;

    /// What the engine may answer to [`Self::try_catch_up_with_primary_raw`] with these arguments.
    closed spec fn catch_up_reply(&self, r: Result<(), String>) -> bool {
        true
    }

    /// Performs `rocksdb_try_catch_up_with_primary`.
    fn try_catch_up_with_primary_raw(&self) -> (r: Result<(), String>)
        ensures
            self.catch_up_reply(r),
    ;

    /// What the engine may answer to [`Self::live_files_raw`] with these arguments.
    closed spec fn live_files_reply(&self, r: Option<Vec<LiveFile>>) -> bool {
        true
    }

    /// Performs `rocksdb_livefiles`; `None` stands for a null reply.
    fn live_files_raw(&self) -> (r: Option<Vec<LiveFile>>)
        ensures
            self.live_files_reply(r),
    ;
}

/// After `create_cf(name)` succeeds, `cf_handle(name)` finds a column family,
/// and every other column family is as it was.
pub proof fn law_create_cf_then_handle<T: ThreadMode, D: DBInner>(
    before: DBCommon<T, D>,
    after: DBCommon<T, D>,
    name: Seq<char>,
)
    requires
        exists|h: u64| after.spec_cfs() == before.spec_cfs().insert(name, h),
    ensures
        after.spec_cfs().contains_key(name),
        forall|n: Seq<char>| n != name ==> (after.spec_cfs().contains_key(n) == before.spec_cfs().contains_key(n)),
        forall|n: Seq<char>| n != name && before.spec_cfs().contains_key(n) ==> after.spec_cfs()[n] == before.spec_cfs()[n],
{
}

/// After `drop_cf(name)` of a held column family, `cf_handle(name)` finds
/// nothing, and every other column family is as it was.
pub proof fn law_drop_cf_then_handle<T: ThreadMode, D: DBInner>(
    before: DBCommon<T, D>,
    after: DBCommon<T, D>,
    name: Seq<char>,
)
    requires
        after.spec_cfs() == before.spec_cfs().remove(name),
    ensures
        !after.spec_cfs().contains_key(name),
        forall|n: Seq<char>| n != name ==> (after.spec_cfs().contains_key(n) == before.spec_cfs().contains_key(n)),
        forall|n: Seq<char>| n != name && before.spec_cfs().contains_key(n) ==> after.spec_cfs()[n] == before.spec_cfs()[n],
{
}

/// Creating a column family under a new name and then dropping it leaves the
/// database's column families as they were.
pub proof fn law_create_then_drop_cf<T: ThreadMode, D: DBInner>(
    before: DBCommon<T, D>,
    created: DBCommon<T, D>,
    dropped: DBCommon<T, D>,
    name: Seq<char>,
)
    requires
        !before.spec_cfs().contains_key(name),
        exists|h: u64| created.spec_cfs() == before.spec_cfs().insert(name, h),
        dropped.spec_cfs() == created.spec_cfs().remove(name),
    ensures
        dropped.spec_cfs() == before.spec_cfs(),
{
    let h = choose|h: u64| created.spec_cfs() == before.spec_cfs().insert(name, h);
    assert(before.spec_cfs().insert(name, h).remove(name) =~= before.spec_cfs());
}

/// A database opened with column family names holds each of them and the
/// default column family, and nothing else; opened without names, it holds none.
pub proof fn law_open_cf_names(names: Seq<Seq<char>>, n: Seq<char>)
    ensures
        names.len() > 0 ==> (planned_cf_names(names).contains(n) <==> (names.contains(n) || n == DEFAULT_COLUMN_FAMILY_NAME@)),
        names.len() == 0 ==> !planned_cf_names(names).contains(n),
{
}

/// A helper type to implement some common methods for [`DBWithThreadMode`]
/// and other database kinds.
pub struct DBCommon<T: ThreadMode, D: DBInner> {
    pub(crate) inner: D,
    cfs: T,
    path: String,
    /// What the engine was asked when the database was opened.
    opened: Ghost<OpenRequest>,
}

/// A RocksDB database.
pub type DBWithThreadMode<T, D> = DBCommon<T, D>;

/// The names of a list of descriptors.
pub open spec fn descriptor_names(s: Seq<ColumnFamilyDescriptor>) -> Seq<Seq<char>> {
    s.map_values(|d: ColumnFamilyDescriptor| d.spec_name())
}

/// The bytes of an optional key.
pub open spec fn opt_bytes(k: Option<&[u8]>) -> Option<Seq<u8>> {
    match k {
        Some(b) => Some(b@),
        None => None,
    }
}

/// The value behind an optional reference.
pub open spec fn opt_value<V>(v: Option<&V>) -> Option<V> {
    match v {
        Some(x) => Some(*x),
        None => None,
    }
}

/// The bytes of each key.
pub open spec fn key_seqs(keys: Seq<&[u8]>) -> Seq<Seq<u8>> {
    keys.map_values(|k: &[u8]| k@)
}

/// The names of a list of names.
pub open spec fn str_names(s: Seq<&str>) -> Seq<Seq<char>> {
    s.map_values(|n: &str| n@)
}

/// No name holds a NUL character.
pub open spec fn names_without_nul(s: Seq<Seq<char>>) -> bool {
    forall|i: int| 0 <= i < s.len() ==> !s[i].contains('\0')
}

/// The column families an opened database holds, when opened with `names`:
/// none when no name is given; otherwise the names given and the default one.
pub open spec fn planned_cf_names(names: Seq<Seq<char>>) -> Set<Seq<char>> {
    if names.len() == 0 {
        Set::empty()
    } else {
        names.to_set().insert(DEFAULT_COLUMN_FAMILY_NAME@)
    }
}

/// The message given when a column family name cannot become a C string.
pub open spec fn cf_name_error_text(pos: nat) -> Seq<char> {
    "Failed to convert path to CString when creating cf: "@ + nul_error_text(pos)
}

/// The message given when a column family to drop is not held.
pub open spec fn invalid_cf_text(name: Seq<char>) -> Seq<char> {
    "Invalid column family: "@ + name
}

impl<T: ThreadMode, D: DBInner> DBCommon<T, D> {
    /// The path the database was opened at.
    pub closed spec fn spec_path(&self) -> Seq<char> {
        self.path@
    }

    /// The column family handles the database holds, by name.
    pub closed spec fn spec_cfs(&self) -> Map<Seq<char>, u64> {
        self.cfs.cf_map()
    }

    /// The engine behind the database.
    pub closed spec fn spec_engine(&self) -> D {
        self.inner
    }

    /// What the engine was asked when the database was opened.
    pub closed spec fn spec_opened(&self) -> OpenRequest {
        self.opened@
    }

    /// What every way of opening a database promises: a path the engine
    /// cannot take is refused with its message, and an opened database is at
    /// `path` and holds the column families planned for `names`.
    pub open spec fn open_ensures(r: Result<Self, Error>, path: &str, names: Seq<Seq<char>>) -> bool {
        &&& (first_nul(path.spec_bytes()) matches Some(pos) ==> r matches Err(e) && e.view()
            == cpath_error_text(pos as nat))
        &&& (r matches Ok(db) ==> db.spec_path() == path@ && db.spec_cfs().dom()
            == planned_cf_names(names))
        &&& (first_nul(path.spec_bytes()) is None ==> exists|raw: Result<(), String>| #[trigger] D::dir_reply(path@, raw)
            && (raw matches Err(m) ==> r matches Err(e) && e.view() == dir_creation_error_text(m@)))
    }

    /// An open as a secondary keeping its files at `secondary`: once the
    /// database directory was made, a secondary path the engine cannot take
    /// is refused with its message.
    pub open spec fn secondary_refused(r: Result<Self, Error>, path: &str, secondary: Seq<u8>) -> bool {
        first_nul(path.spec_bytes()) is None ==> exists|raw: Result<(), String>| #[trigger] D::dir_reply(path@, raw)
            && ((raw is Ok && first_nul(secondary) is Some) ==> (r matches Err(e) && e.view()
            == cpath_error_text(first_nul(secondary)->0 as nat)))
    }

    /// An opened database is over the handle the engine gave when it was
    /// asked to open the database at `path` with `opts`, `access_type` and
    /// `descriptors` (by `open_raw` when there are none, else by
    /// `open_cf_raw`).
    pub open spec fn engine_opened(
        r: Result<Self, Error>,
        opts: Options,
        path: Seq<char>,
        access_type: AccessType,
        descriptors: Seq<(Seq<char>, Options, ColumnFamilyTtl)>,
    ) -> bool {
        r matches Ok(db) ==> if descriptors.len() == 0 {
            D::open_reply(opts, path, access_type, Ok(Some(db.spec_engine())))
        } else {
            exists|h: Vec<Option<u64>>| #[trigger] D::open_cf_reply(opts, path, descriptors, access_type, Ok((Some(db.spec_engine()), h)))
        }
    }

    /// An opened database was asked of the engine with `access`, the database
    /// options `opts` and the column families `descriptors`.
    pub open spec fn opened_with(
        r: Result<Self, Error>,
        access: AccessType,
        opts: Options,
        descriptors: Seq<(Seq<char>, Options, ColumnFamilyTtl)>,
    ) -> bool {
        r matches Ok(db) ==> db.spec_opened() == (OpenRequest { access, opts, descriptors })
    }

    /// An opened database was asked of the engine as a secondary keeping its
    /// own files at `secondary`, with the database options `opts` and the
    /// column families `descriptors`.
    pub open spec fn opened_as_secondary(
        r: Result<Self, Error>,
        secondary: Seq<char>,
        opts: Options,
        descriptors: Seq<(Seq<char>, Options, ColumnFamilyTtl)>,
    ) -> bool {
        r matches Ok(db) ==> (db.spec_opened().access matches AccessType::Secondary { secondary_path }
            && secondary_path@ == secondary && db.spec_opened().opts == opts
            && db.spec_opened().descriptors == descriptors)
    }

    /// A database over the engine handle `inner`, holding `cfs`, opened at `path`.
    pub(crate) fn new(inner: D, cfs: T, path: String, opened: Ghost<OpenRequest>) -> (r: Self)
        ensures
            r.spec_path() == path@,
            r.spec_cfs() == cfs.cf_map(),
            r.spec_opened() == opened@,
    {
        DBCommon { inner, cfs, path, opened }
    }

    /// The engine handle.
    pub fn inner(&self) -> (d: &D)
        ensures
            *d == self.spec_engine(),
    {
        &self.inner
    }

    /// Returns the path the database was opened at.
    pub fn path(&self) -> (p: &str)
        ensures
            p@ == self.spec_path(),
    {
        self.path.as_str()
    }

    /// The descriptors to open: those given, and the default column family
    /// after them when none of them names it.
    fn with_default_cf(cfs: Vec<ColumnFamilyDescriptor>) -> (r: Vec<ColumnFamilyDescriptor>)
        ensures
            descriptor_names(cfs@).contains(DEFAULT_COLUMN_FAMILY_NAME@) ==> descriptor_names(r@)
                == descriptor_names(cfs@),
            !descriptor_names(cfs@).contains(DEFAULT_COLUMN_FAMILY_NAME@) ==> descriptor_names(r@)
                == descriptor_names(cfs@).push(DEFAULT_COLUMN_FAMILY_NAME@),
            cfs@.len() > 0 ==> descriptor_views(r@) == planned_descriptors(descriptor_views(cfs@)),
    {
        assert(view_names(descriptor_views(cfs@)) =~= descriptor_names(cfs@));
        let default_name = String::from_str(DEFAULT_COLUMN_FAMILY_NAME);
        let mut found = false;
        let mut i: usize = 0;
        while i < cfs.len()
            invariant
                i <= cfs@.len(),
                default_name@ == DEFAULT_COLUMN_FAMILY_NAME@,
                found <==> exists|j: int| 0 <= j < i && cfs@[j].spec_name() == DEFAULT_COLUMN_FAMILY_NAME@,
            decreases cfs@.len() - i,
        {
            if String::from_str(cfs[i].name()) == default_name {
                found = true;
            }
            i = i + 1;
        }
        proof {
            let dn = descriptor_names(cfs@);
            if found {
                let j = choose|j: int| 0 <= j < cfs@.len() && cfs@[j].spec_name() == DEFAULT_COLUMN_FAMILY_NAME@;
                assert(dn[j] == DEFAULT_COLUMN_FAMILY_NAME@);
            }
            if dn.contains(DEFAULT_COLUMN_FAMILY_NAME@) {
                let j = choose|j: int| 0 <= j < dn.len() && dn[j] == DEFAULT_COLUMN_FAMILY_NAME@;
                assert(cfs@[j].spec_name() == DEFAULT_COLUMN_FAMILY_NAME@);
            }
        }
        let mut cfs_v = cfs;
        if !found {
            let d = ColumnFamilyDescriptor::new(DEFAULT_COLUMN_FAMILY_NAME, Options::default());
            let ghost before = cfs_v@;
            cfs_v.push(d);
            assert(descriptor_names(cfs_v@) =~= descriptor_names(before).push(DEFAULT_COLUMN_FAMILY_NAME@));
            assert(descriptor_views(cfs_v@) =~= descriptor_views(before).push(
                (DEFAULT_COLUMN_FAMILY_NAME@, Options::spec_default(), ColumnFamilyTtl::SameAsDb),
            ));
        }
        cfs_v
    }

    /// Pairs each descriptor's name with its handle, refusing a null handle.
    fn pair_handles(cfs_v: &Vec<ColumnFamilyDescriptor>, handles: Vec<Option<u64>>) -> (r: Result<
        Vec<(String, u64)>,
        Error,
    >)
        ensures
            r is Ok <==> (handles@.len() == cfs_v@.len() && forall|j: int|
                0 <= j < handles@.len() ==> #[trigger] handles@[j] is Some),
            r matches Err(e) ==> e.view() == "Received null column family handle from DB."@,
            r matches Ok(p) ==> p@.len() == cfs_v@.len() && forall|j: int| 0 <= j < p@.len() ==> (#[trigger] p@[j]).0@
                == cfs_v@[j].spec_name() && handles@[j] == Some(p@[j].1),
            r matches Ok(p) ==> pair_names(handle_pairs(p@)) == descriptor_names(cfs_v@).to_set(),
    {
        if handles.len() != cfs_v.len() {
            return Err(Error::new(String::from_str("Received null column family handle from DB.")));
        }
        let mut pairs: Vec<(String, u64)> = Vec::new();
        let mut i: usize = 0;
        while i < handles.len()
            invariant
                handles@.len() == cfs_v@.len(),
                i <= handles@.len(),
                pairs@.len() == i,
                forall|j: int| 0 <= j < i ==> (#[trigger] pairs@[j]).0@ == cfs_v@[j].spec_name()
                    && handles@[j] == Some(pairs@[j].1),
                forall|j: int| 0 <= j < i ==> #[trigger] handles@[j] is Some,
            decreases handles@.len() - i,
        {
            match handles[i] {
                None => {
                    return Err(Error::new(String::from_str("Received null column family handle from DB.")));
                },
                Some(h) => {
                    let name = cfs_v[i].name().to_owned();
                    pairs.push((name, h));
                },
            }
            i = i + 1;
        }
        proof {
            let hp = handle_pairs(pairs@);
            let dn = descriptor_names(cfs_v@);
            assert forall|n: Seq<char>| pair_names(hp).contains(n) <==> dn.to_set().contains(n) by {
                if pair_names(hp).contains(n) {
                    let j = choose|j: int| 0 <= j < hp.len() && hp[j].0 == n;
                    assert(pairs@[j].0@ == n);
                    assert(dn[j] == n);
                }
                if dn.to_set().contains(n) {
                    let j = choose|j: int| 0 <= j < dn.len() && dn[j] == n;
                    assert(pairs@[j].0@ == n);
                    assert(hp[j].0 == n);
                }
            }
            assert(pair_names(hp) =~= dn.to_set());
        }
        Ok(pairs)
    }

    /// Internal implementation for opening RocksDB.
    pub(crate) fn open_cf_descriptors_internal(
        opts: &Options,
        path: &str,
        cfs: Vec<ColumnFamilyDescriptor>,
        access_type: &AccessType,
    ) -> (r: Result<Self, Error>)
        requires
            names_without_nul(descriptor_names(cfs@)),
        ensures
            Self::open_ensures(r, path, descriptor_names(cfs@)),
            r is Ok ==> (access_type matches AccessType::Secondary { secondary_path }
                ==> first_nul(vstd::utf8::encode_utf8(secondary_path@)) is None),
            access_type matches AccessType::Secondary { secondary_path } ==> Self::secondary_refused(
                r,
                path,
                vstd::utf8::encode_utf8(secondary_path@),
            ),
            Self::opened_with(r, *access_type, *opts, planned_descriptors(descriptor_views(cfs@))),
            Self::engine_opened(r, *opts, path@, *access_type, planned_descriptors(descriptor_views(cfs@))),
    {
        let ghost cfs_given = cfs@;
        let ghost planned = planned_descriptors(descriptor_views(cfs@));
        let _cpath = to_cpath(path)?;
        let dir = D::create_dir_all(path);
        assert(D::dir_reply(path@, dir));
        dir_creation_result(dir)?;
        match access_type {
            AccessType::Secondary { secondary_path } => {
                let _secondary = to_cpath(secondary_path.as_str())?;
            },
            _ => {},
        }
        let ghost names = descriptor_names(cfs@);
        let db: Option<D>;
        let pairs: Vec<(String, u64)>;
        if cfs.len() == 0 {
            let raw = D::open_raw(opts, path, access_type);
            let ghost g = raw;
            db = engine_result(raw)?;
            proof {
                assert(descriptor_views(cfs_given) =~= planned);
                assert(g == Ok::<Option<D>, String>(db));
            }
            pairs = Vec::new();
            proof {
                assert(handle_pairs(pairs@) =~= Seq::<(Seq<char>, u64)>::empty());
                assert(pair_names(handle_pairs(pairs@)) =~= planned_cf_names(names));
            }
        } else {
            let cfs_v = Self::with_default_cf(cfs);
            let raw = D::open_cf_raw(opts, path, cfs_v.as_slice(), access_type);
            let ghost g = raw;
            let (d, handles) = engine_result(raw)?;
            let ghost h = handles;
            proof {
                assert(g == Ok::<(Option<D>, Vec<Option<u64>>), String>((d, h)));
                assert(descriptor_views(cfs_v@) == planned);
                assert(D::open_cf_reply(*opts, path@, planned, *access_type, Ok((d, h))));
            }
            pairs = Self::pair_handles(&cfs_v, handles)?;
            db = d;
            proof {
                let dn = descriptor_names(cfs_v@);
                assert(names.len() > 0);
                assert forall|n: Seq<char>| dn.to_set().contains(n) <==> planned_cf_names(names).contains(n) by {
                    if names.contains(DEFAULT_COLUMN_FAMILY_NAME@) {
                        let j = choose|j: int| 0 <= j < names.len() && names[j] == DEFAULT_COLUMN_FAMILY_NAME@;
                        assert(names.to_set().contains(DEFAULT_COLUMN_FAMILY_NAME@));
                    } else {
                        assert(dn[names.len() as int] == DEFAULT_COLUMN_FAMILY_NAME@);
                        if dn.contains(n) {
                            let j = choose|j: int| 0 <= j < dn.len() && dn[j] == n;
                            if j < names.len() {
                                assert(names[j] == n);
                            }
                        }
                        if names.contains(n) {
                            let j = choose|j: int| 0 <= j < names.len() && names[j] == n;
                            assert(dn[j] == n);
                        }
                    }
                }
                assert(dn.to_set() =~= planned_cf_names(names));
            }
        }
        proof {
            lemma_map_of_pairs_dom(handle_pairs(pairs@));
        }
        Self::from_raw_opened(
            db,
            pairs,
            path,
            Ghost(OpenRequest { access: *access_type, opts: *opts, descriptors: planned }),
        )
    }

    /// The database for the engine's reply to an open: an error when the
    /// engine gave no handle; otherwise the database over the handle given,
    /// at `path`, holding the column families `cfs` (by name, with their
    /// engine handles).
    pub fn from_raw(db: Option<D>, cfs: Vec<(String, u64)>, path: &str) -> (r: Result<Self, Error>)
        ensures
            match db {
                None => r matches Err(e) && e.view() == "Could not initialize database."@,
                Some(_) => r matches Ok(d) && d.spec_path() == path@ && d.spec_cfs() == map_of_pairs(
                    handle_pairs(cfs@),
                ),
            },
    {
        Self::from_raw_opened(db, cfs, path, Ghost(vstd::pervasive::arbitrary()))
    }

    /// As [`Self::from_raw`], for a database opened as `opened` says.
    pub(crate) fn from_raw_opened(db: Option<D>, cfs: Vec<(String, u64)>, path: &str, opened: Ghost<OpenRequest>) -> (r: Result<Self, Error>)
        ensures
            match db {
                None => r matches Err(e) && e.view() == "Could not initialize database."@,
                Some(_) => r matches Ok(d) && d.spec_path() == path@ && d.spec_cfs() == map_of_pairs(
                    handle_pairs(cfs@),
                ) && d.spec_opened() == opened@ && Some(d.spec_engine()) == db,
            },
    {
        match db {
            None => {
                proof {
                    reveal_strlit("Could not initialize database.");
                }
                Err(Error::new(String::from_str("Could not initialize database.")))
            },
            Some(inner) => {
                let cfs_map = T::new_cf_map_internal(cfs);
                Ok(DBCommon { inner, cfs: cfs_map, path: path.to_owned(), opened })
            },
        }
    }
}

/// The message given when the database directory cannot be created.
pub open spec fn dir_creation_error_text(reason: Seq<char>) -> Seq<char> {
    "Failed to create RocksDB directory: `"@ + reason + "`."@
}

/// What the library makes of the reply to creating the database directory:
/// nothing when it was made, else an error naming the reason given.
pub fn dir_creation_result(r: Result<(), String>) -> (out: Result<(), Error>)
    ensures
        match r {
            Ok(()) => out is Ok,
            Err(m) => out matches Err(e) && e.view() == dir_creation_error_text(m@),
        },
{
    match r {
        Ok(()) => Ok(()),
        Err(e) => {
            Err(Error::new(concat3("Failed to create RocksDB directory: `", e.as_str(), "`.")))
        },
    }
}

/// The descriptors that names get: each with default options and the
/// database's time to live.
pub open spec fn default_descriptors(names: Seq<Seq<char>>) -> Seq<(Seq<char>, Options, ColumnFamilyTtl)> {
    names.map_values(|n: Seq<char>| (n, Options::spec_default(), ColumnFamilyTtl::SameAsDb))
}

/// Descriptors with default options for the given names.
pub(crate) fn descriptors_from_names(names: &[&str]) -> (r: Vec<ColumnFamilyDescriptor>)
    ensures
        descriptor_names(r@) == str_names(names@),
        descriptor_views(r@) == default_descriptors(str_names(names@)),
{
    let mut r: Vec<ColumnFamilyDescriptor> = Vec::new();
    let mut i: usize = 0;
    while i < names.len()
        invariant
            i <= names@.len(),
            descriptor_names(r@) == str_names(names@).subrange(0, i as int),
            descriptor_views(r@) == default_descriptors(str_names(names@).subrange(0, i as int)),
        decreases names@.len() - i,
    {
        let ghost before = r@;
        r.push(ColumnFamilyDescriptor::new(names[i], Options::default()));
        assert(descriptor_names(r@) =~= descriptor_names(before).push(names@[i as int]@));
        assert(str_names(names@).subrange(0, i + 1) =~= str_names(names@).subrange(0, i as int).push(names@[i as int]@));
        assert(descriptor_views(r@) =~= descriptor_views(before).push(
            (names@[i as int]@, Options::spec_default(), ColumnFamilyTtl::SameAsDb),
        ));
        assert(default_descriptors(str_names(names@).subrange(0, i + 1)) =~= default_descriptors(
            str_names(names@).subrange(0, i as int),
        ).push((names@[i as int]@, Options::spec_default(), ColumnFamilyTtl::SameAsDb)));
        i = i + 1;
    }
    assert(str_names(names@).subrange(0, names@.len() as int) =~= str_names(names@));
    r
}

/// The names of a list of (name, options) pairs.
pub open spec fn named_opts_names(s: Seq<(&str, Options)>) -> Seq<Seq<char>> {
    s.map_values(|e: (&str, Options)| e.0@)
}

/// The descriptors that (name, options) pairs get: each with its options and
/// the database's time to live.
pub open spec fn named_descriptors(s: Seq<(&str, Options)>) -> Seq<(Seq<char>, Options, ColumnFamilyTtl)> {
    s.map_values(|e: (&str, Options)| (e.0@, e.1, ColumnFamilyTtl::SameAsDb))
}

/// A database opened with (name, options) pairs asks the engine for each
/// named column family with exactly the options given with it, in the order
/// given (the default column family, when not named, coming after them).
pub proof fn law_named_families_keep_their_options(s: Seq<(&str, Options)>, i: int)
    requires
        0 <= i < s.len(),
    ensures
        planned_descriptors(named_descriptors(s)).len() >= s.len(),
        planned_descriptors(named_descriptors(s))[i].0 == s[i].0@,
        planned_descriptors(named_descriptors(s))[i].1 == s[i].1,
{
}

/// Descriptors for the given names with their options.
fn descriptors_from_named_opts(cfs: Vec<(&str, Options)>) -> (r: Vec<ColumnFamilyDescriptor>)
    ensures
        descriptor_names(r@) == named_opts_names(cfs@),
        descriptor_views(r@) == named_descriptors(cfs@),
        r@.len() == cfs@.len(),
        forall|i: int| 0 <= i < cfs@.len() ==> (#[trigger] r@[i]).spec_options() == cfs@[i].1
            && r@[i].spec_name() == cfs@[i].0@,
{
    let ghost all = cfs@;
    let mut rest = cfs;
    let mut r: Vec<ColumnFamilyDescriptor> = Vec::new();
    while rest.len() > 0
        invariant
            r@.len() + rest@.len() == all.len(),
            rest@ == all.subrange(r@.len() as int, all.len() as int),
            descriptor_names(r@) == named_opts_names(all.subrange(0, r@.len() as int)),
            descriptor_views(r@) == named_descriptors(all.subrange(0, r@.len() as int)),
            forall|j: int| 0 <= j < r@.len() ==> (#[trigger] r@[j]).spec_options() == all[j].1
                && r@[j].spec_name() == all[j].0@,
        decreases rest@.len(),
    {
        let ghost before = r@;
        let ghost k = r@.len() as int;
        let (name, o) = rest.remove(0);
        assert(all[k] == (name, o));
        r.push(ColumnFamilyDescriptor::new(name, o));
        assert(all.subrange(0, k + 1) =~= all.subrange(0, k).push(all[k]));
        assert(descriptor_names(r@) =~= descriptor_names(before).push(name@));
        assert(named_opts_names(all.subrange(0, k + 1)) =~= named_opts_names(all.subrange(0, k)).push(name@));
        assert(descriptor_views(r@) =~= descriptor_views(before).push((name@, o, ColumnFamilyTtl::SameAsDb)));
        assert(named_descriptors(all.subrange(0, k + 1)) =~= named_descriptors(all.subrange(0, k)).push(
            (name@, o, ColumnFamilyTtl::SameAsDb),
        ));
        assert(rest@ =~= all.subrange(k + 1, all.len() as int));
    }
    assert(all.subrange(0, all.len() as int) =~= all);
    r
}

/// Methods of `DBWithThreadMode`.
impl<T: ThreadMode, D: DBInner> DBWithThreadMode<T, D> {
    /// Opens a database with default options.
    pub fn open_default(path: &str) -> (r: Result<Self, Error>)
        ensures
            Self::open_ensures(r, path, Seq::empty()),
            Self::opened_with(r, AccessType::ReadWrite, Options { create_if_missing: Some(true), ..Options::spec_default() }, planned_descriptors(Seq::<(Seq<char>, Options, ColumnFamilyTtl)>::empty())),
            Self::engine_opened(r, Options { create_if_missing: Some(true), ..Options::spec_default() }, path@, AccessType::ReadWrite, planned_descriptors(Seq::<(Seq<char>, Options, ColumnFamilyTtl)>::empty())),
    {
        let mut opts = Options::default();
        opts.create_if_missing(true);
        Self::open(&opts, path)
    }

    /// Opens the database with the specified options.
    pub fn open(opts: &Options, path: &str) -> (r: Result<Self, Error>)
        ensures
            Self::open_ensures(r, path, Seq::empty()),
            Self::opened_with(r, AccessType::ReadWrite, *opts, planned_descriptors(Seq::<(Seq<char>, Options, ColumnFamilyTtl)>::empty())),
            Self::engine_opened(r, *opts, path@, AccessType::ReadWrite, planned_descriptors(Seq::<(Seq<char>, Options, ColumnFamilyTtl)>::empty())),
    {
        let none: [&str; 0] = [];
        let r = Self::open_cf(opts, path, none.as_slice());
        assert(str_names(none@) =~= Seq::<Seq<char>>::empty());
        assert(default_descriptors(str_names(none@)) =~= Seq::<(Seq<char>, Options, ColumnFamilyTtl)>::empty());
        r
    }

    /// Opens the database for read only with the specified options.
    pub fn open_for_read_only(opts: &Options, path: &str, error_if_log_file_exist: bool) -> (r:
        Result<Self, Error>)
        ensures
            Self::open_ensures(r, path, Seq::empty()),
            Self::opened_with(r, AccessType::ReadOnly { error_if_log_file_exist }, *opts, planned_descriptors(Seq::<(Seq<char>, Options, ColumnFamilyTtl)>::empty())),
            Self::engine_opened(r, *opts, path@, AccessType::ReadOnly { error_if_log_file_exist }, planned_descriptors(Seq::<(Seq<char>, Options, ColumnFamilyTtl)>::empty())),
    {
        let none: [&str; 0] = [];
        let r = Self::open_cf_for_read_only(opts, path, none.as_slice(), error_if_log_file_exist);
        assert(str_names(none@) =~= Seq::<Seq<char>>::empty());
        assert(default_descriptors(str_names(none@)) =~= Seq::<(Seq<char>, Options, ColumnFamilyTtl)>::empty());
        r
    }

    /// Opens the database as a secondary.
    pub fn open_as_secondary(opts: &Options, primary_path: &str, secondary_path: &str) -> (r:
        Result<Self, Error>)
        ensures
            Self::open_ensures(r, primary_path, Seq::empty()),
            r is Ok ==> first_nul(secondary_path.spec_bytes()) is None,
            Self::opened_as_secondary(r, secondary_path@, *opts, planned_descriptors(Seq::<(Seq<char>, Options, ColumnFamilyTtl)>::empty())),
            Self::secondary_refused(r, primary_path, secondary_path.spec_bytes()),
    {
        let none: [&str; 0] = [];
        let r = Self::open_cf_as_secondary(opts, primary_path, secondary_path, none.as_slice());
        assert(str_names(none@) =~= Seq::<Seq<char>>::empty());
        assert(default_descriptors(str_names(none@)) =~= Seq::<(Seq<char>, Options, ColumnFamilyTtl)>::empty());
        r
    }

    /// Opens the database with a Time to Live compaction filter.
    pub fn open_with_ttl(opts: &Options, path: &str, ttl: Duration) -> (r: Result<Self, Error>)
        ensures
            Self::open_ensures(r, path, Seq::empty()),
            Self::opened_with(r, AccessType::WithTTL { ttl }, *opts, planned_descriptors(Seq::<(Seq<char>, Options, ColumnFamilyTtl)>::empty())),
            Self::engine_opened(r, *opts, path@, AccessType::WithTTL { ttl }, planned_descriptors(Seq::<(Seq<char>, Options, ColumnFamilyTtl)>::empty())),
    {
        let r = Self::open_cf_descriptors_with_ttl(opts, path, Vec::new(), ttl);
        assert(descriptor_names(Seq::<ColumnFamilyDescriptor>::empty()) =~= Seq::<Seq<char>>::empty());
        assert(descriptor_views(Seq::<ColumnFamilyDescriptor>::empty()) =~= Seq::<(Seq<char>, Options, ColumnFamilyTtl)>::empty());
        r
    }

    /// Opens the database with a Time to Live compaction filter and column family names.
    ///
    /// Column families opened using this function will be created with default `Options`.
    pub fn open_cf_with_ttl(opts: &Options, path: &str, cfs: &[&str], ttl: Duration) -> (r: Result<
        Self,
        Error,
    >)
        requires
            names_without_nul(str_names(cfs@)),
        ensures
            Self::open_ensures(r, path, str_names(cfs@)),
            Self::opened_with(r, AccessType::WithTTL { ttl }, *opts, planned_descriptors(default_descriptors(str_names(cfs@)))),
            Self::engine_opened(r, *opts, path@, AccessType::WithTTL { ttl }, planned_descriptors(default_descriptors(str_names(cfs@)))),
    {
        let cfs = descriptors_from_names(cfs);
        Self::open_cf_descriptors_with_ttl(opts, path, cfs, ttl)
    }

    /// Opens a database with the given database with a Time to Live compaction filter and
    /// column family descriptors.
    pub fn open_cf_descriptors_with_ttl(
        opts: &Options,
        path: &str,
        cfs: Vec<ColumnFamilyDescriptor>,
        ttl: Duration,
    ) -> (r: Result<Self, Error>)
        requires
            names_without_nul(descriptor_names(cfs@)),
        ensures
            Self::open_ensures(r, path, descriptor_names(cfs@)),
            Self::opened_with(r, AccessType::WithTTL { ttl }, *opts, planned_descriptors(descriptor_views(cfs@))),
            Self::engine_opened(r, *opts, path@, AccessType::WithTTL { ttl }, planned_descriptors(descriptor_views(cfs@))),
    {
        Self::open_cf_descriptors_internal(opts, path, cfs, &AccessType::WithTTL { ttl })
    }

    /// Opens a database with the given database options and column family names.
    ///
    /// Column families opened using this function will be created with default `Options`.
    pub fn open_cf(opts: &Options, path: &str, cfs: &[&str]) -> (r: Result<Self, Error>)
        requires
            names_without_nul(str_names(cfs@)),
        ensures
            Self::open_ensures(r, path, str_names(cfs@)),
            Self::opened_with(r, AccessType::ReadWrite, *opts, planned_descriptors(default_descriptors(str_names(cfs@)))),
            Self::engine_opened(r, *opts, path@, AccessType::ReadWrite, planned_descriptors(default_descriptors(str_names(cfs@)))),
    {
        let cfs = descriptors_from_names(cfs);
        Self::open_cf_descriptors_internal(opts, path, cfs, &AccessType::ReadWrite)
    }

    /// Opens a database with the given database options and column family names.
    ///
    /// Column families opened using given `Options`.
    pub fn open_cf_with_opts(opts: &Options, path: &str, cfs: Vec<(&str, Options)>) -> (r: Result<
        Self,
        Error,
    >)
        requires
            names_without_nul(named_opts_names(cfs@)),
        ensures
            Self::open_ensures(r, path, named_opts_names(cfs@)),
            Self::opened_with(r, AccessType::ReadWrite, *opts, planned_descriptors(named_descriptors(cfs@))),
            Self::engine_opened(r, *opts, path@, AccessType::ReadWrite, planned_descriptors(named_descriptors(cfs@))),
    {
        let cfs = descriptors_from_named_opts(cfs);
        Self::open_cf_descriptors(opts, path, cfs)
    }

    /// Opens a database for read only with the given database options and column family names.
    pub fn open_cf_for_read_only(
        opts: &Options,
        path: &str,
        cfs: &[&str],
        error_if_log_file_exist: bool,
    ) -> (r: Result<Self, Error>)
        requires
            names_without_nul(str_names(cfs@)),
        ensures
            Self::open_ensures(r, path, str_names(cfs@)),
            Self::opened_with(r, AccessType::ReadOnly { error_if_log_file_exist }, *opts, planned_descriptors(default_descriptors(str_names(cfs@)))),
            Self::engine_opened(r, *opts, path@, AccessType::ReadOnly { error_if_log_file_exist }, planned_descriptors(default_descriptors(str_names(cfs@)))),
    {
        let cfs = descriptors_from_names(cfs);
        Self::open_cf_descriptors_internal(
            opts,
            path,
            cfs,
            &AccessType::ReadOnly { error_if_log_file_exist },
        )
    }

    /// Opens a database for read only with the given database options and column family names.
    pub fn open_cf_with_opts_for_read_only(
        db_opts: &Options,
        path: &str,
        cfs: Vec<(&str, Options)>,
        error_if_log_file_exist: bool,
    ) -> (r: Result<Self, Error>)
        requires
            names_without_nul(named_opts_names(cfs@)),
        ensures
            Self::open_ensures(r, path, named_opts_names(cfs@)),
            Self::opened_with(r, AccessType::ReadOnly { error_if_log_file_exist }, *db_opts, planned_descriptors(named_descriptors(cfs@))),
            Self::engine_opened(r, *db_opts, path@, AccessType::ReadOnly { error_if_log_file_exist }, planned_descriptors(named_descriptors(cfs@))),
    {
        let cfs = descriptors_from_named_opts(cfs);
        Self::open_cf_descriptors_internal(
            db_opts,
            path,
            cfs,
            &AccessType::ReadOnly { error_if_log_file_exist },
        )
    }

    /// Opens a database for ready only with the given database options and
    /// column family descriptors.
    pub fn open_cf_descriptors_read_only(
        opts: &Options,
        path: &str,
        cfs: Vec<ColumnFamilyDescriptor>,
        error_if_log_file_exist: bool,
    ) -> (r: Result<Self, Error>)
        requires
            names_without_nul(descriptor_names(cfs@)),
        ensures
            Self::open_ensures(r, path, descriptor_names(cfs@)),
            Self::opened_with(r, AccessType::ReadOnly { error_if_log_file_exist }, *opts, planned_descriptors(descriptor_views(cfs@))),
            Self::engine_opened(r, *opts, path@, AccessType::ReadOnly { error_if_log_file_exist }, planned_descriptors(descriptor_views(cfs@))),
    {
        Self::open_cf_descriptors_internal(
            opts,
            path,
            cfs,
            &AccessType::ReadOnly { error_if_log_file_exist },
        )
    }

    /// Opens the database as a secondary with the given database options and column family names.
    pub fn open_cf_as_secondary(
        opts: &Options,
        primary_path: &str,
        secondary_path: &str,
        cfs: &[&str],
    ) -> (r: Result<Self, Error>)
        requires
            names_without_nul(str_names(cfs@)),
        ensures
            Self::open_ensures(r, primary_path, str_names(cfs@)),
            r is Ok ==> first_nul(secondary_path.spec_bytes()) is None,
            Self::opened_as_secondary(r, secondary_path@, *opts, planned_descriptors(default_descriptors(str_names(cfs@)))),
            Self::secondary_refused(r, primary_path, secondary_path.spec_bytes()),
    {
        let cfs = descriptors_from_names(cfs);
        Self::open_cf_descriptors_as_secondary(opts, primary_path, secondary_path, cfs)
    }

    /// Opens the database as a secondary with the given database options and
    /// column family descriptors.
    pub fn open_cf_descriptors_as_secondary(
        opts: &Options,
        path: &str,
        secondary_path: &str,
        cfs: Vec<ColumnFamilyDescriptor>,
    ) -> (r: Result<Self, Error>)
        requires
            names_without_nul(descriptor_names(cfs@)),
        ensures
            Self::open_ensures(r, path, descriptor_names(cfs@)),
            r is Ok ==> first_nul(secondary_path.spec_bytes()) is None,
            Self::opened_as_secondary(r, secondary_path@, *opts, planned_descriptors(descriptor_views(cfs@))),
            Self::secondary_refused(r, path, secondary_path.spec_bytes()),
    {
        let access = AccessType::Secondary { secondary_path: secondary_path.to_owned() };
        Self::open_cf_descriptors_internal(opts, path, cfs, &access)
    }

    /// Opens a database with the given database options and column family descriptors.
    pub fn open_cf_descriptors(opts: &Options, path: &str, cfs: Vec<ColumnFamilyDescriptor>) -> (r:
        Result<Self, Error>)
        requires
            names_without_nul(descriptor_names(cfs@)),
        ensures
            Self::open_ensures(r, path, descriptor_names(cfs@)),
            Self::opened_with(r, AccessType::ReadWrite, *opts, planned_descriptors(descriptor_views(cfs@))),
            Self::engine_opened(r, *opts, path@, AccessType::ReadWrite, planned_descriptors(descriptor_views(cfs@))),
    {
        Self::open_cf_descriptors_internal(opts, path, cfs, &AccessType::ReadWrite)
    }

    /// Removes the database entries in the range `["from", "to")` using given write options.
    pub fn delete_range_cf_opt(
        &self,
        cf: &impl AsColumnFamilyRef,
        from: &[u8],
        to: &[u8],
        writeopts: &WriteOptions,
    ) -> (r: Result<(), Error>)
        ensures
            exists|raw: Result<(), String>| #[trigger] self.spec_engine().delete_range_reply(*writeopts, cf.spec_inner(), from@, to@, raw) && converted(raw, r),
    {
        proof {
            assert(self.spec_engine() == self.inner);
        }
        engine_result(self.inner.delete_range_raw(writeopts, cf.inner(), from, to))
    }

    /// Removes the database entries in the range `["from", "to")` using default write options.
    pub fn delete_range_cf(&self, cf: &impl AsColumnFamilyRef, from: &[u8], to: &[u8]) -> (r: Result<
        (),
        Error,
    >)
        ensures
            exists|raw: Result<(), String>| #[trigger] self.spec_engine().delete_range_reply(WriteOptions::spec_default(), cf.spec_inner(), from@, to@, raw) && converted(raw, r),
    {
        self.delete_range_cf_opt(cf, from, to, &WriteOptions::default())
    }

    /// Applies a batch of updates atomically, using given write options.
    pub fn write_opt(&self, batch: WriteBatch, writeopts: &WriteOptions) -> (r: Result<(), Error>)
        ensures
            exists|raw: Result<(), String>| #[trigger] self.spec_engine().write_reply(*writeopts, batch.view(), raw) && converted(raw, r),
    {
        proof {
            assert(self.spec_engine() == self.inner);
        }
        engine_result(self.inner.write_raw(writeopts, &batch))
    }

    /// Applies a batch of updates atomically.
    pub fn write(&self, batch: WriteBatch) -> (r: Result<(), Error>)
        ensures
            exists|raw: Result<(), String>| #[trigger] self.spec_engine().write_reply(WriteOptions::spec_default(), batch.view(), raw) && converted(raw, r),
    {
        self.write_opt(batch, &WriteOptions::default())
    }

    /// Applies a batch of updates atomically, without the write-ahead log.
    pub fn write_without_wal(&self, batch: WriteBatch) -> (r: Result<(), Error>)
        ensures
            exists|raw: Result<(), String>| #[trigger] self.spec_engine().write_reply(write_options_without_wal(), batch.view(), raw) && converted(raw, r),
    {
        let mut wo = WriteOptions::new();
        wo.disable_wal(true);
        self.write_opt(batch, &wo)
    }
}

/// What one raw multi-get reply converts to: the engine's error, or the value found (if any).
pub open spec fn converted_value(raw: (Option<Vec<u8>>, Option<String>), out: Result<Option<Vec<u8>>, Error>) -> bool {
    match raw.1 {
        Some(m) => out matches Err(e) && e.view() == m@,
        None => out matches Ok(v) && crate::iter_range::opt_bytes(v) == crate::iter_range::opt_bytes(raw.0),
    }
}

/// What one raw batched reply converts to.
pub open spec fn converted_pinned(raw: (Option<Vec<u8>>, Option<String>), out: Result<Option<DBPinnableSlice>, Error>) -> bool {
    match raw.1 {
        Some(m) => out matches Err(e) && e.view() == m@,
        None => match raw.0 {
            Some(v) => out matches Ok(Some(p)) && p.view() == v@,
            None => out matches Ok(None),
        },
    }
}

/// The default write options with the write-ahead log disabled.
pub open spec fn write_options_without_wal() -> WriteOptions {
    WriteOptions { disable_wal: Some(true), ..WriteOptions::spec_default() }
}

/// The replies of a multi-get, converted one by one, in order.
pub open spec fn all_converted_values(raw: Seq<(Option<Vec<u8>>, Option<String>)>, r: Seq<Result<Option<Vec<u8>>, Error>>) -> bool {
    r.len() == raw.len() && forall|i: int| 0 <= i < raw.len() ==> converted_value(raw[i], #[trigger] r[i])
}

/// The replies of a batched multi-get, converted one by one, in order.
pub open spec fn all_converted_pinned(raw: Seq<(Option<Vec<u8>>, Option<String>)>, r: Seq<Result<Option<DBPinnableSlice>, Error>>) -> bool {
    r.len() == raw.len() && forall|i: int| 0 <= i < raw.len() ==> converted_pinned(raw[i], #[trigger] r[i])
}

/// The column family of each (column family, key) pair.
pub open spec fn pair_cfs<W: AsColumnFamilyRef>(keys: Seq<(&W, &[u8])>) -> Seq<u64> {
    keys.map_values(|p: (&W, &[u8])| p.0.spec_inner())
}

/// The key of each (column family, key) pair.
pub open spec fn pair_keys<W: AsColumnFamilyRef>(keys: Seq<(&W, &[u8])>) -> Seq<Seq<u8>> {
    keys.map_values(|p: (&W, &[u8])| p.1@)
}

/// The handle of each column family.
pub open spec fn cf_inners<C: AsColumnFamilyRef>(cfs: Seq<&C>) -> Seq<u64> {
    cfs.map_values(|c: &C| c.spec_inner())
}

/// The names of (name, value) option pairs.
pub open spec fn option_names(opts: Seq<(&str, &str)>) -> Seq<Seq<char>> {
    opts.map_values(|p: (&str, &str)| p.0@)
}

/// The values of (name, value) option pairs.
pub open spec fn option_values(opts: Seq<(&str, &str)>) -> Seq<Seq<char>> {
    opts.map_values(|p: (&str, &str)| p.1@)
}

/// A read's reply as a pinned slice: the value found, if any, or the
/// engine's error.
pub open spec fn pinned_converted(raw: Result<Option<Vec<u8>>, String>, out: Result<Option<DBPinnableSlice>, Error>) -> bool {
    match raw {
        Ok(Some(v)) => out matches Ok(Some(p)) && p.view() == v@,
        Ok(None) => out matches Ok(None),
        Err(m) => out matches Err(e) && e.view() == m@,
    }
}

/// What the engine's answer to a may-exist question with the value comes
/// to: whether the key may exist, and the value when it was found.
pub open spec fn may_exist_converted(raw: (bool, bool, Vec<u8>), r: (bool, Option<Vec<u8>>)) -> bool {
    &&& r.0 == raw.0
    &&& (raw.0 && raw.1) ==> (r.1 matches Some(v) && v@ == raw.2@)
    &&& !(raw.0 && raw.1) ==> r.1 is None
}

/// What a property reply comes to: no value for a null reply, the text, or
/// the error met when reading it.
pub open spec fn property_converted(raw: Option<Result<String, String>>, r: Result<Option<String>, Error>) -> bool {
    match raw {
        None => r matches Ok(None),
        Some(Ok(v)) => r matches Ok(Some(s)) && s@ == v@,
        Some(Err(m)) => r matches Err(e) && e.view() == property_value_error_text(m@),
    }
}

/// What a property reply comes to as an integer.
pub open spec fn property_int_converted(raw: Option<Result<String, String>>, o: Result<Option<u64>, Error>) -> bool {
    match raw {
        None => o matches Ok(None),
        Some(Ok(v)) => match parse_u64_text(v@) {
            Ok(n) => o matches Ok(Some(m)) && m == n,
            Err(k) => o matches Err(e) && e.view() == property_int_error_text(v@, k),
        },
        Some(Err(m)) => o matches Err(e) && e.view() == property_value_error_text(m@),
    }
}

/// What the list of live files comes to: the files listed, or an error
/// when the engine listed none.
pub open spec fn live_files_converted(raw: Option<Vec<LiveFile>>, r: Result<Vec<LiveFile>, Error>) -> bool {
    match raw {
        None => r matches Err(e) && e.view() == "Could not get live files"@,
        Some(files) => r == Ok::<Vec<LiveFile>, Error>(files),
    }
}

/// The column families and the keys of a multi-get, in the order given:
/// the `i`-th key is read in the `i`-th column family.
pub fn split_cf_keys<'b, W: AsColumnFamilyRef>(keys: &[(&W, &'b [u8])]) -> (r: (Vec<u64>, Vec<&'b [u8]>))
    ensures
        r.0@.len() == keys@.len(),
        r.1@.len() == keys@.len(),
        forall|i: int| 0 <= i < keys@.len() ==> r.0@[i] == (#[trigger] keys@[i]).0.spec_inner() && r.1@[i]
            == keys@[i].1,
{
    let mut cfs: Vec<u64> = Vec::new();
    let mut ks: Vec<&'b [u8]> = Vec::new();
    let mut i: usize = 0;
    while i < keys.len()
        invariant
            i <= keys@.len(),
            cfs@.len() == i,
            ks@.len() == i,
            forall|j: int| 0 <= j < i ==> cfs@[j] == (#[trigger] keys@[j]).0.spec_inner() && ks@[j] == keys@[j].1,
        decreases keys@.len() - i,
    {
        let (cf, k) = keys[i];
        cfs.push(cf.inner());
        ks.push(k);
        i = i + 1;
    }
    (cfs, ks)
}

/// A read's reply as a pinned slice: the value found, if any, or the error.
pub fn pinned_reply(r: Result<Option<Vec<u8>>, Error>) -> (out: Result<Option<DBPinnableSlice>, Error>)
    ensures
        match r {
            Ok(Some(v)) => out matches Ok(Some(p)) && p.view() == v@,
            Ok(None) => out matches Ok(None),
            Err(e) => out == Err::<Option<DBPinnableSlice>, Error>(e),
        },
{
    match r {
        Ok(Some(v)) => Ok(Some(DBPinnableSlice::from_vec(v))),
        Ok(None) => Ok(None),
        Err(e) => Err(e),
    }
}

/// Converts the engine's per-key replies of a multi-get into results.
pub fn convert_values(raw: Vec<(Option<Vec<u8>>, Option<String>)>) -> (r: Vec<Result<Option<Vec<u8>>, Error>>)
    ensures
        r@.len() == raw@.len(),
        forall|i: int| 0 <= i < raw@.len() ==> converted_value(raw@[i], #[trigger] r@[i]),
{
    let mut r: Vec<Result<Option<Vec<u8>>, Error>> = Vec::new();
    let n = raw.len();
    let mut i: usize = 0;
    while i < n
        invariant
            n == raw@.len(),
            i <= n,
            r@.len() == i,
            forall|j: int| 0 <= j < i ==> converted_value(raw@[j], #[trigger] r@[j]),
        decreases n - i,
    {
        let out = match &raw[i].1 {
            Some(m) => Err(Error::new(m.clone())),
            None => Ok(raw[i].0.clone()),
        };
        r.push(out);
        i = i + 1;
    }
    r
}

/// Converts the engine's per-key replies of a batched multi-get into results.
pub fn convert_pinned_values(raw: Vec<(Option<Vec<u8>>, Option<String>)>) -> (r: Vec<Result<Option<DBPinnableSlice>, Error>>)
    ensures
        r@.len() == raw@.len(),
        forall|i: int| 0 <= i < raw@.len() ==> converted_pinned(raw@[i], #[trigger] r@[i]),
{
    let mut r: Vec<Result<Option<DBPinnableSlice>, Error>> = Vec::new();
    let n = raw.len();
    let mut i: usize = 0;
    while i < n
        invariant
            n == raw@.len(),
            i <= n,
            r@.len() == i,
            forall|j: int| 0 <= j < i ==> converted_pinned(raw@[j], #[trigger] r@[j]),
        decreases n - i,
    {
        let out = match &raw[i].1 {
            Some(m) => Err(Error::new(m.clone())),
            None => match &raw[i].0 {
                Some(v) => Ok(Some(DBPinnableSlice::from_vec(v.clone()))),
                None => Ok(None),
            },
        };
        r.push(out);
        i = i + 1;
    }
    r
}

/// The message of the first path in `s` that cannot become a C string, if any.
pub open spec fn first_path_error(s: Seq<&str>) -> Option<Seq<char>>
    decreases s.len(),
{
    if s.len() == 0 {
        None
    } else {
        match first_nul(s[0].spec_bytes()) {
            Some(pos) => Some(cpath_error_text(pos as nat)),
            None => first_path_error(s.drop_first()),
        }
    }
}

proof fn lemma_first_path_error_step(s: Seq<&str>, i: int)
    requires
        0 <= i < s.len(),
    ensures
        first_path_error(s.subrange(i, s.len() as int)) == match first_nul(s[i].spec_bytes()) {
            Some(pos) => Some(cpath_error_text(pos as nat)),
            None => first_path_error(s.subrange(i + 1, s.len() as int)),
        },
{
    assert(s.subrange(i, s.len() as int).drop_first() =~= s.subrange(i + 1, s.len() as int));
}

/// Checks that each path can be handed to the engine as a C string.
fn check_paths(paths: &[&str]) -> (r: Result<(), Error>)
    ensures
        match first_path_error(paths@) {
            None => r is Ok,
            Some(m) => r matches Err(e) && e.view() == m,
        },
{
    let mut i: usize = 0;
    assert(paths@.subrange(0, paths@.len() as int) =~= paths@);
    while i < paths.len()
        invariant
            i <= paths@.len(),
            first_path_error(paths@) == first_path_error(paths@.subrange(i as int, paths@.len() as int)),
        decreases paths@.len() - i,
    {
        proof {
            lemma_first_path_error_step(paths@, i as int);
        }
        let _c = to_cpath(paths[i])?;
        i = i + 1;
    }
    assert(paths@.subrange(i as int, paths@.len() as int) =~= Seq::<&str>::empty());
    Ok(())
}

/// The message of a refused option setting, if the pair is refused.
pub open spec fn option_error(name: &str, value: &str) -> Option<Seq<char>> {
    match first_nul(name.spec_bytes()) {
        Some(pos) => Some("Invalid option name `"@ + nul_error_text(pos as nat) + "`"@),
        None => match first_nul(value.spec_bytes()) {
            Some(pos) => Some("Invalid option value: `"@ + nul_error_text(pos as nat) + "`"@),
            None => None,
        },
    }
}

/// The message of the first refused option setting, if any.
pub open spec fn first_option_error(s: Seq<(&str, &str)>) -> Option<Seq<char>>
    decreases s.len(),
{
    if s.len() == 0 {
        None
    } else {
        match option_error(s[0].0, s[0].1) {
            Some(m) => Some(m),
            None => first_option_error(s.drop_first()),
        }
    }
}

fn nul_message(prefix: &str, pos: usize, suffix: &str) -> (s: String)
    ensures
        s@ == prefix@ + nul_error_text(pos as nat) + suffix@,
{
    let mut m = String::from_str(prefix);
    m.append("nul byte found in provided data at position: ");
    push_decimal(&mut m, pos);
    m.append(suffix);
    m
}

/// Checks each option setting, and splits them into names and values.
fn convert_options<'a>(opts: &[(&'a str, &'a str)]) -> (r: Result<(Vec<&'a str>, Vec<&'a str>), Error>)
    ensures
        match first_option_error(opts@) {
            None => r matches Ok((n, v)) && n@.len() == opts@.len() && v@.len() == opts@.len()
                && forall|i: int| 0 <= i < opts@.len() ==> n@[i] == opts@[i].0 && v@[i] == opts@[i].1,
            Some(m) => r matches Err(e) && e.view() == m,
        },
{
    let mut names: Vec<&'a str> = Vec::new();
    let mut values: Vec<&'a str> = Vec::new();
    let mut i: usize = 0;
    assert(opts@.subrange(0, opts@.len() as int) =~= opts@);
    while i < opts.len()
        invariant
            i <= opts@.len(),
            first_option_error(opts@) == first_option_error(opts@.subrange(i as int, opts@.len() as int)),
            names@.len() == i,
            values@.len() == i,
            forall|j: int| 0 <= j < i ==> names@[j] == opts@[j].0 && values@[j] == opts@[j].1,
        decreases opts@.len() - i,
    {
        proof {
            assert(opts@.subrange(i as int, opts@.len() as int).drop_first() =~= opts@.subrange(i + 1, opts@.len() as int));
        }
        let (name, value) = opts[i];
        match find_nul(name.as_bytes()) {
            Some(pos) => {
                return Err(Error::new(nul_message("Invalid option name `", pos, "`")));
            },
            None => {},
        }
        match find_nul(value.as_bytes()) {
            Some(pos) => {
                return Err(Error::new(nul_message("Invalid option value: `", pos, "`")));
            },
            None => {},
        }
        names.push(name);
        values.push(value);
        i = i + 1;
    }
    assert(opts@.subrange(i as int, opts@.len() as int) =~= Seq::<(&str, &str)>::empty());
    Ok((names, values))
}

/// The message given when a property name cannot become a C string.
pub open spec fn property_name_error_text(pos: nat) -> Seq<char> {
    "Failed to convert property name to CString: "@ + nul_error_text(pos)
}

/// The message given when a property value is not UTF-8.
pub open spec fn property_value_error_text(e: Seq<char>) -> Seq<char> {
    "Failed to convert property value to string: "@ + e
}

/// Turns the engine's reply to a property read into a result.
pub fn property_value_from_raw(raw: Option<Result<String, String>>) -> (r: Result<Option<String>, Error>)
    ensures
        match raw {
            None => r matches Ok(None),
            Some(Ok(v)) => r matches Ok(Some(s)) && s@ == v@,
            Some(Err(m)) => r matches Err(e) && e.view() == property_value_error_text(m@),
        },
{
    match raw {
        None => Ok(None),
        Some(Ok(v)) => Ok(Some(v)),
        Some(Err(m)) => {
            let mut s = String::from_str("Failed to convert property value to string: ");
            s.append(m.as_str());
            Err(Error::new(s))
        },
    }
}

/// Why a text is not the decimal form of a `u64`.
#[derive(Debug, Clone, Copy, PartialEq, Eq, Structural)]
pub enum ParseIntErrorKind {
    Empty,
    InvalidDigit,
    PosOverflow,
}

/// The value of a decimal digit, if `c` is one.
pub open spec fn digit_value(c: char) -> Option<int> {
    if '0' <= c && c <= '9' {
        Some(c as int - '0' as int)
    } else {
        None
    }
}

/// Reads the digits `d` from left to right onto `acc`: the first character
/// that is no digit, or the first digit that takes the number past
/// `u64::MAX`, stops the reading with its error.
pub open spec fn scan_decimal(d: Seq<char>, acc: int) -> Result<int, ParseIntErrorKind>
    decreases d.len(),
{
    if d.len() == 0 {
        Ok(acc)
    } else {
        match digit_value(d[0]) {
            None => Err(ParseIntErrorKind::InvalidDigit),
            Some(v) => if acc * 10 + v > u64::MAX {
                Err(ParseIntErrorKind::PosOverflow)
            } else {
                scan_decimal(d.drop_first(), acc * 10 + v)
            },
        }
    }
}

/// How `str::parse::<u64>` reads `s`: empty text is an error of its own; a
/// lone sign is an invalid digit; one leading `+` is allowed; the rest is
/// read as decimal digits.
pub open spec fn parse_u64_text(s: Seq<char>) -> Result<int, ParseIntErrorKind> {
    if s.len() == 0 {
        Err(ParseIntErrorKind::Empty)
    } else if s.len() == 1 && (s[0] == '+' || s[0] == '-') {
        Err(ParseIntErrorKind::InvalidDigit)
    } else if s[0] == '+' {
        scan_decimal(s.drop_first(), 0)
    } else {
        scan_decimal(s, 0)
    }
}

/// The text by which an integer parsing error describes itself.
pub open spec fn parse_int_error_text(k: ParseIntErrorKind) -> Seq<char> {
    match k {
        ParseIntErrorKind::Empty => "cannot parse integer from empty string"@,
        ParseIntErrorKind::InvalidDigit => "invalid digit found in string"@,
        ParseIntErrorKind::PosOverflow => "number too large to fit in target type"@,
    }
}

proof fn lemma_scan_decimal_bounded(d: Seq<char>, acc: int)
    requires
        0 <= acc <= u64::MAX,
    ensures
        scan_decimal(d, acc) matches Ok(n) ==> 0 <= n <= u64::MAX,
    decreases d.len(),
{
    if d.len() > 0 {
        match digit_value(d[0]) {
            None => {},
            Some(v) => {
                if acc * 10 + v <= u64::MAX {
                    lemma_scan_decimal_bounded(d.drop_first(), acc * 10 + v);
                }
            },
        }
    }
}

/// The decimal digit for `d`.
pub open spec fn decimal_digit(d: int) -> char {
    if d == 0 {
        '0'
    } else if d == 1 {
        '1'
    } else if d == 2 {
        '2'
    } else if d == 3 {
        '3'
    } else if d == 4 {
        '4'
    } else if d == 5 {
        '5'
    } else if d == 6 {
        '6'
    } else if d == 7 {
        '7'
    } else if d == 8 {
        '8'
    } else {
        '9'
    }
}

/// The decimal form of `n`: its digits, most significant first, with no
/// leading zero.
pub open spec fn decimal(n: nat) -> Seq<char>
    decreases n,
{
    if n < 10 {
        seq![decimal_digit(n as int)]
    } else {
        decimal(n / 10).push(decimal_digit((n % 10) as int))
    }
}

proof fn lemma_decimal_digit(d: int)
    requires
        0 <= d < 10,
    ensures
        digit_value(decimal_digit(d)) == Some(d),
        decimal_digit(d) != '+' && decimal_digit(d) != '-',
{
}

/// Reading one more character after `s` continues from what `s` was read to.
proof fn lemma_scan_decimal_push(s: Seq<char>, c: char, acc: int)
    ensures
        scan_decimal(s.push(c), acc) == match scan_decimal(s, acc) {
            Err(e) => Err(e),
            Ok(a) => match digit_value(c) {
                None => Err(ParseIntErrorKind::InvalidDigit),
                Some(v) => if a * 10 + v > u64::MAX {
                    Err(ParseIntErrorKind::PosOverflow)
                } else {
                    Ok(a * 10 + v)
                },
            },
        },
    decreases s.len(),
{
    if s.len() == 0 {
        assert(s.push(c).drop_first() =~= Seq::<char>::empty());
        assert(s.push(c)[0] == c);
        match digit_value(c) {
            None => {},
            Some(v) => {
                assert(scan_decimal(Seq::<char>::empty(), acc * 10 + v) == Ok::<int, ParseIntErrorKind>(acc * 10 + v));
            },
        }
    } else {
        assert(s.push(c).drop_first() =~= s.drop_first().push(c));
        assert(s.push(c)[0] == s[0]);
        match digit_value(s[0]) {
            None => {},
            Some(v) => {
                if acc * 10 + v <= u64::MAX {
                    lemma_scan_decimal_push(s.drop_first(), c, acc * 10 + v);
                }
            },
        }
    }
}

proof fn lemma_scan_decimal_of(n: nat)
    requires
        n <= u64::MAX,
    ensures
        scan_decimal(decimal(n), 0) == Ok::<int, ParseIntErrorKind>(n as int),
        decimal(n).len() > 0,
        decimal(n)[0] != '+' && decimal(n)[0] != '-',
    decreases n,
{
    if n < 10 {
        lemma_decimal_digit(n as int);
        let d = decimal(n);
        assert(d.drop_first() =~= Seq::<char>::empty());
        assert(scan_decimal(Seq::<char>::empty(), n as int) == Ok::<int, ParseIntErrorKind>(n as int));
    } else {
        lemma_scan_decimal_of(n / 10);
        lemma_decimal_digit((n % 10) as int);
        lemma_scan_decimal_push(decimal(n / 10), decimal_digit((n % 10) as int), 0);
        assert((n / 10) * 10 + n % 10 == n);
        assert(decimal(n)[0] == decimal(n / 10)[0]);
    }
}

/// Reading a property as an integer reads decimal text: the decimal form of
/// any `u64` reads back as that number.
pub proof fn law_parse_decimal_round_trip(n: u64)
    ensures
        parse_u64_text(decimal(n as nat)) == Ok::<int, ParseIntErrorKind>(n as int),
{
    lemma_scan_decimal_of(n as nat);
}

/// One leading `+` is allowed before the digits, and a leading `-` is not:
/// the decimal form of `n` after a `+` reads as `n`, and after a `-` as an
/// invalid digit.
pub proof fn law_parse_decimal_signs(n: u64)
    ensures
        parse_u64_text(seq!['+'] + decimal(n as nat)) == Ok::<int, ParseIntErrorKind>(n as int),
        parse_u64_text(seq!['-'] + decimal(n as nat)) == Err::<int, ParseIntErrorKind>(
            ParseIntErrorKind::InvalidDigit,
        ),
{
    lemma_scan_decimal_of(n as nat);
    let plus = seq!['+'] + decimal(n as nat);
    let minus = seq!['-'] + decimal(n as nat);
    assert(plus.drop_first() =~= decimal(n as nat));
    assert(plus[0] == '+');
    assert(minus[0] == '-');
    assert(digit_value('-') is None);
}

/// Reads `s` as the decimal form of a `u64`, as `str::parse::<u64>` does.
pub fn parse_u64(s: &str) -> (r: Result<u64, ParseIntErrorKind>)
    ensures
        match parse_u64_text(s@) {
            Ok(n) => r == Ok::<u64, ParseIntErrorKind>(n as u64),
            Err(k) => r == Err::<u64, ParseIntErrorKind>(k),
        },
        parse_u64_text(s@) matches Ok(n) ==> 0 <= n <= u64::MAX,
{
    let n = s.unicode_len();
    if n == 0 {
        return Err(ParseIntErrorKind::Empty);
    }
    let first = s.get_char(0);
    if n == 1 && (first == '+' || first == '-') {
        return Err(ParseIntErrorKind::InvalidDigit);
    }
    let start: usize = if first == '+' { 1 } else { 0 };
    let ghost digits = if first == '+' { s@.drop_first() } else { s@ };
    assert(digits =~= s@.subrange(start as int, n as int));
    assert(parse_u64_text(s@) == scan_decimal(digits, 0));
    let mut acc: u64 = 0;
    let mut i: usize = start;
    while i < n
        invariant
            n == s@.len(),
            start <= i <= n,
            digits == s@.subrange(start as int, n as int),
            parse_u64_text(s@) == scan_decimal(digits, 0),
            scan_decimal(digits, 0) == scan_decimal(s@.subrange(i as int, n as int), acc as int),
        decreases n - i,
    {
        let ghost rest = s@.subrange(i as int, n as int);
        assert(rest[0] == s@[i as int]);
        assert(rest.drop_first() =~= s@.subrange(i + 1, n as int));
        let c = s.get_char(i);
        if c < '0' || c > '9' {
            return Err(ParseIntErrorKind::InvalidDigit);
        }
        let v: u64 = if c == '0' { 0 } else if c == '1' { 1 } else if c == '2' { 2 } else if c == '3' {
            3
        } else if c == '4' { 4 } else if c == '5' { 5 } else if c == '6' { 6 } else if c == '7' {
            7
        } else if c == '8' { 8 } else { 9 };
        assert(digit_value(c) == Some(v as int));
        match acc.checked_mul(10) {
            None => {
                return Err(ParseIntErrorKind::PosOverflow);
            },
            Some(m) => match m.checked_add(v) {
                None => {
                    return Err(ParseIntErrorKind::PosOverflow);
                },
                Some(a) => {
                    acc = a;
                },
            },
        }
        i = i + 1;
    }
    proof {
        assert(s@.subrange(n as int, n as int) =~= Seq::<char>::empty());
        lemma_scan_decimal_bounded(digits, 0);
    }
    Ok(acc)
}

/// The message given when a property value is not the decimal form of a
/// `u64`.
pub open spec fn property_int_error_text(value: Seq<char>, k: ParseIntErrorKind) -> Seq<char> {
    "Failed to convert property value "@ + value + " to int: "@ + parse_int_error_text(k)
}

/// Reads a property value as an integer.
pub fn parse_property_int_value(value: &str) -> (r: Result<u64, Error>)
    ensures
        match parse_u64_text(value@) {
            Ok(n) => r matches Ok(m) && m == n,
            Err(k) => r matches Err(e) && e.view() == property_int_error_text(value@, k),
        },
{
    match parse_u64(value) {
        Ok(n) => Ok(n),
        Err(k) => {
            let mut m = String::from_str("Failed to convert property value ");
            m.append(value);
            m.append(" to int: ");
            let text = match k {
                ParseIntErrorKind::Empty => "cannot parse integer from empty string",
                ParseIntErrorKind::InvalidDigit => "invalid digit found in string",
                ParseIntErrorKind::PosOverflow => "number too large to fit in target type",
            };
            proof {
                reveal_strlit("cannot parse integer from empty string");
                reveal_strlit("invalid digit found in string");
                reveal_strlit("number too large to fit in target type");
            }
            assert(text@ == parse_int_error_text(k));
            m.append(text);
            Err(Error::new(m))
        },
    }
}

/// A property read as an integer: the property's absence and the errors of
/// the read stay as they are; a value is read as the decimal form of a `u64`.
pub fn property_int_from_value(r: Result<Option<String>, Error>) -> (o: Result<Option<u64>, Error>)
    ensures
        match r {
            Err(e) => o == Err::<Option<u64>, Error>(e),
            Ok(None) => o matches Ok(None),
            Ok(Some(v)) => match parse_u64_text(v@) {
                Ok(n) => o matches Ok(Some(m)) && m == n,
                Err(k) => o matches Err(e) && e.view() == property_int_error_text(v@, k),
            },
        },
{
    match r {
        Err(e) => Err(e),
        Ok(None) => Ok(None),
        Ok(Some(v)) => match parse_property_int_value(v.as_str()) {
            Ok(n) => Ok(Some(n)),
            Err(e) => Err(e),
        },
    }
}

/// What `key_may_exist_cf_opt_value` gives for the engine's reply: whether the
/// key may exist, and the value only when the key may exist and the engine
/// found the value.
pub fn may_exist_reply(may_exist: bool, value_found: bool, value: Vec<u8>) -> (r: (bool, Option<Vec<u8>>))
    ensures
        r.0 == may_exist,
        (may_exist && value_found) ==> (r.1 matches Some(v) && v@ == value@),
        !(may_exist && value_found) ==> r.1 is None,
{
    if may_exist && value_found {
        (may_exist, Some(value))
    } else {
        (may_exist, None)
    }
}

/// The engine handles of the column families `cfs`, in order.
pub fn cf_handles<C: AsColumnFamilyRef>(cfs: &[&C]) -> (r: Vec<u64>)
    ensures
        r@.len() == cfs@.len(),
        forall|i: int| 0 <= i < cfs@.len() ==> r@[i] == cfs@[i].spec_inner(),
{
    let mut r: Vec<u64> = Vec::new();
    let mut i: usize = 0;
    while i < cfs.len()
        invariant
            i <= cfs@.len(),
            r@.len() == i,
            forall|j: int| 0 <= j < i ==> r@[j] == cfs@[j].spec_inner(),
        decreases cfs@.len() - i,
    {
        r.push(cfs[i].inner());
        i = i + 1;
    }
    r
}

/// The live files the engine listed, or an error when it gave no list.
pub fn live_files_from_raw(raw: Option<Vec<LiveFile>>) -> (r: Result<Vec<LiveFile>, Error>)
    ensures
        raw is None <==> r is Err,
        r matches Err(e) ==> e.view() == "Could not get live files"@,
        raw matches Some(files) ==> r == Ok::<Vec<LiveFile>, Error>(files),
{
    match raw {
        None => {
            proof {
                reveal_strlit("Could not get live files");
            }
            Err(Error::new(String::from_str("Could not get live files")))
        },
        Some(files) => Ok(files),
    }
}

/// Common methods of `DBWithThreadMode` and other database kinds.
impl<T: ThreadMode, D: DBInner> DBCommon<T, D> {
    /// Lists the column families of the database at `path`.
    pub fn list_cf(opts: &Options, path: &str) -> (r: Result<Vec<String>, Error>)
        ensures
            first_nul(path.spec_bytes()) matches Some(pos) ==> r matches Err(e) && e.view() == cpath_error_text(pos as nat),
            first_nul(path.spec_bytes()) is None ==> exists|raw: Result<Vec<String>, String>| #[trigger] D::list_cf_reply(*opts, path@, raw) && converted(raw, r),
    {
        let _c = to_cpath(path)?;
        engine_result(D::list_cf_raw(opts, path))
    }

    /// Destroys the database at `path`.
    pub fn destroy(opts: &Options, path: &str) -> (r: Result<(), Error>)
        ensures
            first_nul(path.spec_bytes()) matches Some(pos) ==> r matches Err(e) && e.view() == cpath_error_text(pos as nat),
            first_nul(path.spec_bytes()) is None ==> exists|raw: Result<(), String>| #[trigger] D::destroy_reply(*opts, path@, raw) && converted(raw, r),
    {
        let _c = to_cpath(path)?;
        engine_result(D::destroy_raw(opts, path))
    }

    /// Repairs the database at `path`.
    pub fn repair(opts: &Options, path: &str) -> (r: Result<(), Error>)
        ensures
            first_nul(path.spec_bytes()) matches Some(pos) ==> r matches Err(e) && e.view() == cpath_error_text(pos as nat),
            first_nul(path.spec_bytes()) is None ==> exists|raw: Result<(), String>| #[trigger] D::repair_reply(*opts, path@, raw) && converted(raw, r),
    {
        let _c = to_cpath(path)?;
        engine_result(D::repair_raw(opts, path))
    }

    /// Flushes the WAL buffer. If `sync` is set to `true`, also syncs
    /// the data to disk.
    pub fn flush_wal(&self, sync: bool) -> (r: Result<(), Error>)
        ensures
            exists|raw: Result<(), String>| #[trigger] self.spec_engine().flush_wal_reply(sync, raw) && converted(raw, r),
    {
        let raw = self.inner.flush_wal_raw(sync);
        assert(self.spec_engine().flush_wal_reply(sync, raw));
        engine_result(raw)
    }

    /// Flushes database memtables to SST files on the disk.
    pub fn flush_opt(&self, flushopts: &FlushOptions) -> (r: Result<(), Error>)
        ensures
            exists|raw: Result<(), String>| #[trigger] self.spec_engine().flush_reply(*flushopts, None, raw) && converted(raw, r),
    {
        proof {
            assert(self.spec_engine() == self.inner);
        }
        engine_result(self.inner.flush_raw(flushopts, None))
    }

    /// Flushes database memtables to SST files on the disk using default options.
    pub fn flush(&self) -> (r: Result<(), Error>)
        ensures
            exists|raw: Result<(), String>| #[trigger] self.spec_engine().flush_reply(FlushOptions::spec_default(), None, raw) && converted(raw, r),
    {
        self.flush_opt(&FlushOptions::default())
    }

    /// Flushes database memtables to SST files on the disk for a given column family.
    pub fn flush_cf_opt(&self, cf: &impl AsColumnFamilyRef, flushopts: &FlushOptions) -> (r: Result<(), Error>)
        ensures
            exists|raw: Result<(), String>| #[trigger] self.spec_engine().flush_reply(*flushopts, Some(cf.spec_inner()), raw) && converted(raw, r),
    {
        proof {
            assert(self.spec_engine() == self.inner);
        }
        engine_result(self.inner.flush_raw(flushopts, Some(cf.inner())))
    }

    /// Flushes database memtables to SST files on the disk for a given column family using default
    /// options.
    pub fn flush_cf(&self, cf: &impl AsColumnFamilyRef) -> (r: Result<(), Error>)
        ensures
            exists|raw: Result<(), String>| #[trigger] self.spec_engine().flush_reply(FlushOptions::spec_default(), Some(cf.spec_inner()), raw) && converted(raw, r),
    {
        self.flush_cf_opt(cf, &FlushOptions::default())
    }

    /// Return the bytes associated with a key value with read options.
    pub fn get_opt(&self, key: &[u8], readopts: &ReadOptions) -> (r: Result<Option<Vec<u8>>, Error>)
        ensures
            exists|raw: Result<Option<Vec<u8>>, String>| #[trigger] self.spec_engine().get_reply(*readopts, None, key@, raw) && converted(raw, r),
    {
        proof {
            assert(self.spec_engine() == self.inner);
        }
        engine_result(self.inner.get_pinned_raw(readopts, None, key))
    }

    /// Return the bytes associated with a key value.
    pub fn get(&self, key: &[u8]) -> (r: Result<Option<Vec<u8>>, Error>)
        ensures
            exists|raw: Result<Option<Vec<u8>>, String>| #[trigger] self.spec_engine().get_reply(ReadOptions::spec_default(), None, key@, raw) && converted(raw, r),
    {
        self.get_opt(key, &ReadOptions::default())
    }

    /// Return the bytes associated with a key value and the given column family with read options.
    pub fn get_cf_opt(&self, cf: &impl AsColumnFamilyRef, key: &[u8], readopts: &ReadOptions) -> (r: Result<Option<Vec<u8>>, Error>)
        ensures
            exists|raw: Result<Option<Vec<u8>>, String>| #[trigger] self.spec_engine().get_reply(*readopts, Some(cf.spec_inner()), key@, raw) && converted(raw, r),
    {
        proof {
            assert(self.spec_engine() == self.inner);
        }
        engine_result(self.inner.get_pinned_raw(readopts, Some(cf.inner()), key))
    }

    /// Return the bytes associated with a key value and the given column family.
    pub fn get_cf(&self, cf: &impl AsColumnFamilyRef, key: &[u8]) -> (r: Result<Option<Vec<u8>>, Error>)
        ensures
            exists|raw: Result<Option<Vec<u8>>, String>| #[trigger] self.spec_engine().get_reply(ReadOptions::spec_default(), Some(cf.spec_inner()), key@, raw) && converted(raw, r),
    {
        self.get_cf_opt(cf, key, &ReadOptions::default())
    }

    /// Return the value associated with a key, as a pinned slice.
    pub fn get_pinned_opt(&self, key: &[u8], readopts: &ReadOptions) -> (r: Result<Option<DBPinnableSlice>, Error>)
        ensures
            exists|raw: Result<Option<Vec<u8>>, String>| #[trigger] self.spec_engine().get_reply(*readopts, None, key@, raw) && pinned_converted(raw, r),
    {
        pinned_reply(self.get_opt(key, readopts))
    }

    /// Return the value associated with a key, as a pinned slice, using default options.
    pub fn get_pinned(&self, key: &[u8]) -> (r: Result<Option<DBPinnableSlice>, Error>)
        ensures
            exists|raw: Result<Option<Vec<u8>>, String>| #[trigger] self.spec_engine().get_reply(ReadOptions::spec_default(), None, key@, raw) && pinned_converted(raw, r),
    {
        self.get_pinned_opt(key, &ReadOptions::default())
    }

    /// Return the value associated with a key in a column family, as a pinned slice.
    pub fn get_pinned_cf_opt(&self, cf: &impl AsColumnFamilyRef, key: &[u8], readopts: &ReadOptions) -> (r: Result<Option<DBPinnableSlice>, Error>)
        ensures
            exists|raw: Result<Option<Vec<u8>>, String>| #[trigger] self.spec_engine().get_reply(*readopts, Some(cf.spec_inner()), key@, raw) && pinned_converted(raw, r),
    {
        pinned_reply(self.get_cf_opt(cf, key, readopts))
    }

    /// Return the value associated with a key in a column family, as a pinned slice, using
    /// default options.
    pub fn get_pinned_cf(&self, cf: &impl AsColumnFamilyRef, key: &[u8]) -> (r: Result<Option<DBPinnableSlice>, Error>)
        ensures
            exists|raw: Result<Option<Vec<u8>>, String>| #[trigger] self.spec_engine().get_reply(ReadOptions::spec_default(), Some(cf.spec_inner()), key@, raw) && pinned_converted(raw, r),
    {
        self.get_pinned_cf_opt(cf, key, &ReadOptions::default())
    }

    /// Return the values associated with the given keys using read options.
    pub fn multi_get_opt(&self, keys: &[&[u8]], readopts: &ReadOptions) -> (r: Vec<Result<Option<Vec<u8>>, Error>>)
        ensures
            exists|raw: Vec<(Option<Vec<u8>>, Option<String>)>| #[trigger] self.spec_engine().multi_get_reply(*readopts, key_seqs(keys@), raw) && all_converted_values(raw@, r@),
    {
        proof {
            assert(self.spec_engine() == self.inner);
        }
        convert_values(self.inner.multi_get_raw(readopts, keys))
    }

    /// Return the values associated with the given keys.
    pub fn multi_get(&self, keys: &[&[u8]]) -> (r: Vec<Result<Option<Vec<u8>>, Error>>)
        ensures
            exists|raw: Vec<(Option<Vec<u8>>, Option<String>)>| #[trigger] self.spec_engine().multi_get_reply(ReadOptions::spec_default(), key_seqs(keys@), raw) && all_converted_values(raw@, r@),
    {
        self.multi_get_opt(keys, &ReadOptions::default())
    }

    /// Return the values associated with the given keys and column families using read options.
    pub fn multi_get_cf_opt<W: AsColumnFamilyRef>(&self, keys: &[(&W, &[u8])], readopts: &ReadOptions) -> (r: Vec<Result<Option<Vec<u8>>, Error>>)
        ensures
            exists|raw: Vec<(Option<Vec<u8>>, Option<String>)>| #[trigger] self.spec_engine().multi_get_cf_reply(*readopts, pair_cfs(keys@), pair_keys(keys@), raw) && all_converted_values(raw@, r@),
    {
        proof {
            assert(self.spec_engine() == self.inner);
        }
        let (cfs, ks) = split_cf_keys(keys);
        assert(cfs@ =~= pair_cfs(keys@));
        assert(key_seqs(ks@) =~= pair_keys(keys@));
        convert_values(self.inner.multi_get_cf_raw(readopts, cfs.as_slice(), ks.as_slice()))
    }

    /// Return the values associated with the given keys and column families.
    pub fn multi_get_cf<W: AsColumnFamilyRef>(&self, keys: &[(&W, &[u8])]) -> (r: Vec<Result<Option<Vec<u8>>, Error>>)
        ensures
            exists|raw: Vec<(Option<Vec<u8>>, Option<String>)>| #[trigger] self.spec_engine().multi_get_cf_reply(ReadOptions::spec_default(), pair_cfs(keys@), pair_keys(keys@), raw) && all_converted_values(raw@, r@),
    {
        self.multi_get_cf_opt(keys, &ReadOptions::default())
    }

    /// Return the values associated with the given keys and the specified column family
    /// where internally the read requests are processed in batch.
    pub fn batched_multi_get_cf_opt(&self, cf: &impl AsColumnFamilyRef, keys: &[&[u8]], sorted_input: bool, readopts: &ReadOptions) -> (r: Vec<Result<Option<DBPinnableSlice>, Error>>)
        ensures
            exists|raw: Vec<(Option<Vec<u8>>, Option<String>)>| #[trigger] self.spec_engine().batched_multi_get_reply(*readopts, cf.spec_inner(), key_seqs(keys@), sorted_input, raw) && all_converted_pinned(raw@, r@),
    {
        proof {
            assert(self.spec_engine() == self.inner);
        }
        convert_pinned_values(self.inner.batched_multi_get_cf_raw(readopts, cf.inner(), keys, sorted_input))
    }

    /// Return the values associated with the given keys and the specified column family
    /// where internally the read requests are processed in batch.
    pub fn batched_multi_get_cf(&self, cf: &impl AsColumnFamilyRef, keys: &[&[u8]], sorted_input: bool) -> (r: Vec<Result<Option<DBPinnableSlice>, Error>>)
        ensures
            exists|raw: Vec<(Option<Vec<u8>>, Option<String>)>| #[trigger] self.spec_engine().batched_multi_get_reply(ReadOptions::spec_default(), cf.spec_inner(), key_seqs(keys@), sorted_input, raw) && all_converted_pinned(raw@, r@),
    {
        self.batched_multi_get_cf_opt(cf, keys, sorted_input, &ReadOptions::default())
    }

    /// Returns `false` if the given key definitely doesn't exist in the database, otherwise returns
    /// `true`.
    pub fn key_may_exist_opt(&self, key: &[u8], readopts: &ReadOptions) -> (r: bool)
        ensures
            self.spec_engine().may_exist_answer(*readopts, None, key@, r),
    {
        proof {
            assert(self.spec_engine() == self.inner);
        }
        self.inner.key_may_exist_raw(readopts, None, key)
    }

    /// Returns `false` if the given key definitely doesn't exist in the database, otherwise returns
    /// `true`. This function uses default `ReadOptions`.
    pub fn key_may_exist(&self, key: &[u8]) -> (r: bool)
        ensures
            self.spec_engine().may_exist_answer(ReadOptions::spec_default(), None, key@, r),
    {
        self.key_may_exist_opt(key, &ReadOptions::default())
    }

    /// Returns `false` if the given key definitely doesn't exist in the specified column family,
    /// otherwise returns `true`.
    pub fn key_may_exist_cf_opt(&self, cf: &impl AsColumnFamilyRef, key: &[u8], readopts: &ReadOptions) -> (r: bool)
        ensures
            self.spec_engine().may_exist_answer(*readopts, Some(cf.spec_inner()), key@, r),
    {
        proof {
            assert(self.spec_engine() == self.inner);
        }
        self.inner.key_may_exist_raw(readopts, Some(cf.inner()), key)
    }

    /// Returns `false` if the given key definitely doesn't exist in the specified column family,
    /// otherwise returns `true`. This function uses default `ReadOptions`.
    pub fn key_may_exist_cf(&self, cf: &impl AsColumnFamilyRef, key: &[u8]) -> (r: bool)
        ensures
            self.spec_engine().may_exist_answer(ReadOptions::spec_default(), Some(cf.spec_inner()), key@, r),
    {
        self.key_may_exist_cf_opt(cf, key, &ReadOptions::default())
    }

    /// If the key definitely does not exist in the database, then this method
    /// returns `(false, None)`, else `(true, None)` if it may.
    /// If the key is found in memory, then it returns `(true, Some<CSlice>)`.
    ///
    /// This check is potentially lighter-weight than calling `get()`. One way
    /// to make this lighter weight is to avoid doing any IOs.
    pub fn key_may_exist_cf_opt_value(&self, cf: &impl AsColumnFamilyRef, key: &[u8], readopts: &ReadOptions) -> (r: (bool, Option<Vec<u8>>))
        ensures
            r.1 is Some ==> r.0,
            exists|raw: (bool, bool, Vec<u8>)| #[trigger] self.spec_engine().may_exist_value_answer(*readopts, cf.spec_inner(), key@, raw) && may_exist_converted(raw, r),
    {
        proof {
            assert(self.spec_engine() == self.inner);
        }
        let (may_exist, value_found, value) = self.inner.key_may_exist_value_raw(readopts, cf.inner(), key);
        may_exist_reply(may_exist, value_found, value)
    }

    /// Flushes multiple column families.
    ///
    /// If atomic flush is not enabled, it is equivalent to calling flush_cf multiple times.
    /// If atomic flush is enabled, it will flush all column families specified in `cfs` up to the latest sequence
    /// number at the time when flush is requested.
    pub fn flush_cfs_opt<C: AsColumnFamilyRef>(&self, cfs: &[&C], opts: &FlushOptions) -> (r: Result<(), Error>)
        ensures
            exists|raw: Result<(), String>| #[trigger] self.spec_engine().flush_cfs_reply(*opts, cf_inners(cfs@), raw) && converted(raw, r),
    {
        proof {
            assert(self.spec_engine() == self.inner);
        }
        let handles = cf_handles(cfs);
        assert(handles@ =~= cf_inners(cfs@));
        engine_result(self.inner.flush_cfs_raw(opts, handles.as_slice()))
    }

    /// Opens an iterator over the database, using the given read options.
    pub fn iterator_opt<'a>(&'a self, mode: IteratorMode, readopts: ReadOptions) -> (r: DBIteratorWithThreadMode<'a, D::RawIterator>)
        ensures
            r.spec_readopts() == readopts,
            r.spec_direction() == mode_direction(mode),
            !r.spec_done(),
            r.spec_moves() == seq![seek_of(mode)],
            r.spec_cf() == None::<u64>,
    {
        let raw = self.raw_iterator_opt(readopts);
        DBIteratorWithThreadMode::from_raw(raw, mode)
    }

    /// Opens an iterator over the database.
    pub fn iterator<'a>(&'a self, mode: IteratorMode) -> (r: DBIteratorWithThreadMode<'a, D::RawIterator>)
        ensures
            r.spec_readopts() == ReadOptions::spec_default(),
            r.spec_direction() == mode_direction(mode),
            !r.spec_done(),
            r.spec_moves() == seq![seek_of(mode)],
            r.spec_cf() == None::<u64>,
    {
        self.iterator_opt(mode, ReadOptions::default())
    }

    /// Opens an iterator using the provided ReadOptions.
    /// This is used when you want to iterate over a specific ColumnFamily with a modified ReadOptions
    pub fn iterator_cf_opt<'a>(&'a self, cf_handle: &impl AsColumnFamilyRef, readopts: ReadOptions, mode: IteratorMode) -> (r: DBIteratorWithThreadMode<'a, D::RawIterator>)
        ensures
            r.spec_readopts() == readopts,
            r.spec_direction() == mode_direction(mode),
            !r.spec_done(),
            r.spec_moves() == seq![seek_of(mode)],
            r.spec_cf() == Some(cf_handle.spec_inner()),
    {
        let raw = self.raw_iterator_cf_opt(cf_handle, readopts);
        DBIteratorWithThreadMode::from_raw(raw, mode)
    }

    /// Opens an iterator with `set_total_order_seek` enabled.
    /// This must be used to iterate across prefixes when `set_memtable_factory` has been called
    /// with a Hash-based implementation.
    pub fn full_iterator<'a>(&'a self, mode: IteratorMode) -> (r: DBIteratorWithThreadMode<'a, D::RawIterator>)
        ensures
            r.spec_readopts() == (ReadOptions { total_order_seek: Some(true), ..ReadOptions::spec_default() }),
            r.spec_direction() == mode_direction(mode),
            !r.spec_done(),
            r.spec_moves() == seq![seek_of(mode)],
            r.spec_cf() == None::<u64>,
    {
        let mut opts = ReadOptions::default();
        opts.set_total_order_seek(true);
        self.iterator_opt(mode, opts)
    }

    /// Opens an iterator over the keys that start with `prefix`, forwards from it.
    pub fn prefix_iterator<'a>(&'a self, prefix: &[u8]) -> (r: DBIteratorWithThreadMode<'a, D::RawIterator>)
        ensures
            r.spec_readopts() == (ReadOptions { prefix_same_as_start: Some(true), ..ReadOptions::spec_default() }),
            r.spec_direction() == Direction::Forward,
            !r.spec_done(),
            r.spec_moves() == seq![CursorMove::Seek(prefix@)],
            r.spec_cf() == None::<u64>,
    {
        let mut opts = ReadOptions::default();
        opts.set_prefix_same_as_start(true);
        self.iterator_opt(IteratorMode::From(prefix, Direction::Forward), opts)
    }

    /// Opens an iterator over a column family.
    pub fn iterator_cf<'a>(&'a self, cf_handle: &impl AsColumnFamilyRef, mode: IteratorMode) -> (r: DBIteratorWithThreadMode<'a, D::RawIterator>)
        ensures
            r.spec_readopts() == ReadOptions::spec_default(),
            r.spec_direction() == mode_direction(mode),
            !r.spec_done(),
            r.spec_moves() == seq![seek_of(mode)],
            r.spec_cf() == Some(cf_handle.spec_inner()),
    {
        self.iterator_cf_opt(cf_handle, ReadOptions::default(), mode)
    }

    /// Opens an iterator over a column family with `set_total_order_seek` enabled.
    pub fn full_iterator_cf<'a>(&'a self, cf_handle: &impl AsColumnFamilyRef, mode: IteratorMode) -> (r: DBIteratorWithThreadMode<'a, D::RawIterator>)
        ensures
            r.spec_readopts() == (ReadOptions { total_order_seek: Some(true), ..ReadOptions::spec_default() }),
            r.spec_direction() == mode_direction(mode),
            !r.spec_done(),
            r.spec_moves() == seq![seek_of(mode)],
            r.spec_cf() == Some(cf_handle.spec_inner()),
    {
        let mut opts = ReadOptions::default();
        opts.set_total_order_seek(true);
        self.iterator_cf_opt(cf_handle, opts, mode)
    }

    /// Opens an iterator over the keys of a column family that start with `prefix`.
    pub fn prefix_iterator_cf<'a>(&'a self, cf_handle: &impl AsColumnFamilyRef, prefix: &[u8]) -> (r: DBIteratorWithThreadMode<'a, D::RawIterator>)
        ensures
            r.spec_readopts() == (ReadOptions { prefix_same_as_start: Some(true), ..ReadOptions::spec_default() }),
            r.spec_direction() == Direction::Forward,
            !r.spec_done(),
            r.spec_moves() == seq![CursorMove::Seek(prefix@)],
            r.spec_cf() == Some(cf_handle.spec_inner()),
    {
        let mut opts = ReadOptions::default();
        opts.set_prefix_same_as_start(true);
        self.iterator_cf_opt(cf_handle, opts, IteratorMode::From(prefix, Direction::Forward))
    }

    /// Opens a raw iterator over the database, using the default read options
    pub fn raw_iterator<'a>(&'a self) -> (r: DBRawIteratorWithThreadMode<'a, D::RawIterator>)
        ensures
            r.spec_readopts() == ReadOptions::spec_default(),
            r.spec_moves() == Seq::<CursorMove>::empty(),
            r.spec_cf() == None::<u64>,
    {
        self.raw_iterator_opt(ReadOptions::default())
    }

    /// Opens a raw iterator over the given column family, using the default read options
    pub fn raw_iterator_cf<'a>(&'a self, cf_handle: &impl AsColumnFamilyRef) -> (r: DBRawIteratorWithThreadMode<'a, D::RawIterator>)
        ensures
            r.spec_readopts() == ReadOptions::spec_default(),
            r.spec_moves() == Seq::<CursorMove>::empty(),
            r.spec_cf() == Some(cf_handle.spec_inner()),
    {
        self.raw_iterator_cf_opt(cf_handle, ReadOptions::default())
    }

    /// Opens a raw iterator over the database, using the given read options
    pub fn raw_iterator_opt<'a>(&'a self, readopts: ReadOptions) -> (r: DBRawIteratorWithThreadMode<'a, D::RawIterator>)
        ensures
            r.spec_readopts() == readopts,
            r.spec_moves() == Seq::<CursorMove>::empty(),
            r.spec_cf() == None::<u64>,
    {
        let inner = self.inner.create_iterator_raw(&readopts, None);
        DBRawIteratorWithThreadMode::from_inner_cf(inner, readopts, Ghost(None))
    }

    /// Opens a raw iterator over the given column family, using the given read options
    pub fn raw_iterator_cf_opt<'a>(&'a self, cf_handle: &impl AsColumnFamilyRef, readopts: ReadOptions) -> (r: DBRawIteratorWithThreadMode<'a, D::RawIterator>)
        ensures
            r.spec_readopts() == readopts,
            r.spec_moves() == Seq::<CursorMove>::empty(),
            r.spec_cf() == Some(cf_handle.spec_inner()),
    {
        let inner = self.inner.create_iterator_raw(&readopts, Some(cf_handle.inner()));
        DBRawIteratorWithThreadMode::from_inner_cf(inner, readopts, Ghost(Some(cf_handle.spec_inner())))
    }

    pub fn put_opt(&self, key: &[u8], value: &[u8], writeopts: &WriteOptions) -> (r: Result<(), Error>)
        ensures
            exists|raw: Result<(), String>| #[trigger] self.spec_engine().put_reply(*writeopts, None, key@, value@, raw) && converted(raw, r),
    {
        proof {
            assert(self.spec_engine() == self.inner);
        }
        engine_result(self.inner.put_raw(writeopts, None, key, value))
    }

    pub fn put_cf_opt(&self, cf: &impl AsColumnFamilyRef, key: &[u8], value: &[u8], writeopts: &WriteOptions) -> (r: Result<(), Error>)
        ensures
            exists|raw: Result<(), String>| #[trigger] self.spec_engine().put_reply(*writeopts, Some(cf.spec_inner()), key@, value@, raw) && converted(raw, r),
    {
        proof {
            assert(self.spec_engine() == self.inner);
        }
        engine_result(self.inner.put_raw(writeopts, Some(cf.inner()), key, value))
    }

    pub fn merge_opt(&self, key: &[u8], value: &[u8], writeopts: &WriteOptions) -> (r: Result<(), Error>)
        ensures
            exists|raw: Result<(), String>| #[trigger] self.spec_engine().merge_reply(*writeopts, None, key@, value@, raw) && converted(raw, r),
    {
        proof {
            assert(self.spec_engine() == self.inner);
        }
        engine_result(self.inner.merge_raw(writeopts, None, key, value))
    }

    pub fn merge_cf_opt(&self, cf: &impl AsColumnFamilyRef, key: &[u8], value: &[u8], writeopts: &WriteOptions) -> (r: Result<(), Error>)
        ensures
            exists|raw: Result<(), String>| #[trigger] self.spec_engine().merge_reply(*writeopts, Some(cf.spec_inner()), key@, value@, raw) && converted(raw, r),
    {
        proof {
            assert(self.spec_engine() == self.inner);
        }
        engine_result(self.inner.merge_raw(writeopts, Some(cf.inner()), key, value))
    }

    pub fn delete_opt(&self, key: &[u8], writeopts: &WriteOptions) -> (r: Result<(), Error>)
        ensures
            exists|raw: Result<(), String>| #[trigger] self.spec_engine().delete_reply(*writeopts, None, key@, raw) && converted(raw, r),
    {
        proof {
            assert(self.spec_engine() == self.inner);
        }
        engine_result(self.inner.delete_raw(writeopts, None, key))
    }

    pub fn delete_cf_opt(&self, cf: &impl AsColumnFamilyRef, key: &[u8], writeopts: &WriteOptions) -> (r: Result<(), Error>)
        ensures
            exists|raw: Result<(), String>| #[trigger] self.spec_engine().delete_reply(*writeopts, Some(cf.spec_inner()), key@, raw) && converted(raw, r),
    {
        proof {
            assert(self.spec_engine() == self.inner);
        }
        engine_result(self.inner.delete_raw(writeopts, Some(cf.inner()), key))
    }

    pub fn put(&self, key: &[u8], value: &[u8]) -> (r: Result<(), Error>)
        ensures
            exists|raw: Result<(), String>| #[trigger] self.spec_engine().put_reply(WriteOptions::spec_default(), None, key@, value@, raw) && converted(raw, r),
    {
        self.put_opt(key, value, &WriteOptions::default())
    }

    pub fn put_cf(&self, cf: &impl AsColumnFamilyRef, key: &[u8], value: &[u8]) -> (r: Result<(), Error>)
        ensures
            exists|raw: Result<(), String>| #[trigger] self.spec_engine().put_reply(WriteOptions::spec_default(), Some(cf.spec_inner()), key@, value@, raw) && converted(raw, r),
    {
        self.put_cf_opt(cf, key, value, &WriteOptions::default())
    }

    pub fn merge(&self, key: &[u8], value: &[u8]) -> (r: Result<(), Error>)
        ensures
            exists|raw: Result<(), String>| #[trigger] self.spec_engine().merge_reply(WriteOptions::spec_default(), None, key@, value@, raw) && converted(raw, r),
    {
        self.merge_opt(key, value, &WriteOptions::default())
    }

    pub fn merge_cf(&self, cf: &impl AsColumnFamilyRef, key: &[u8], value: &[u8]) -> (r: Result<(), Error>)
        ensures
            exists|raw: Result<(), String>| #[trigger] self.spec_engine().merge_reply(WriteOptions::spec_default(), Some(cf.spec_inner()), key@, value@, raw) && converted(raw, r),
    {
        self.merge_cf_opt(cf, key, value, &WriteOptions::default())
    }

    pub fn delete(&self, key: &[u8]) -> (r: Result<(), Error>)
        ensures
            exists|raw: Result<(), String>| #[trigger] self.spec_engine().delete_reply(WriteOptions::spec_default(), None, key@, raw) && converted(raw, r),
    {
        self.delete_opt(key, &WriteOptions::default())
    }

    pub fn delete_cf(&self, cf: &impl AsColumnFamilyRef, key: &[u8]) -> (r: Result<(), Error>)
        ensures
            exists|raw: Result<(), String>| #[trigger] self.spec_engine().delete_reply(WriteOptions::spec_default(), Some(cf.spec_inner()), key@, raw) && converted(raw, r),
    {
        self.delete_cf_opt(cf, key, &WriteOptions::default())
    }

    /// Runs a manual compaction on the Range of keys given. This is not likely to be needed for typical usage.
    pub fn compact_range(&self, start: Option<&[u8]>, end: Option<&[u8]>)
        ensures
            self.spec_engine().compact_request(None, None, opt_bytes(start), opt_bytes(end)),
    {
        proof {
            assert(self.spec_engine() == self.inner);
        }
        self.inner.compact_range_raw(None, None, start, end)
    }

    /// Same as `compact_range` but with custom options.
    pub fn compact_range_opt(&self, start: Option<&[u8]>, end: Option<&[u8]>, opts: &CompactOptions)
        ensures
            self.spec_engine().compact_request(None, Some(*opts), opt_bytes(start), opt_bytes(end)),
    {
        proof {
            assert(self.spec_engine() == self.inner);
        }
        self.inner.compact_range_raw(None, Some(opts), start, end)
    }

    /// Runs a manual compaction on the Range of keys given on the
    /// given column family. This is not likely to be needed for typical usage.
    pub fn compact_range_cf(&self, cf: &impl AsColumnFamilyRef, start: Option<&[u8]>, end: Option<&[u8]>)
        ensures
            self.spec_engine().compact_request(Some(cf.spec_inner()), None, opt_bytes(start), opt_bytes(end)),
    {
        proof {
            assert(self.spec_engine() == self.inner);
        }
        self.inner.compact_range_raw(Some(cf.inner()), None, start, end)
    }

    /// Same as `compact_range_cf` but with custom options.
    pub fn compact_range_cf_opt(&self, cf: &impl AsColumnFamilyRef, start: Option<&[u8]>, end: Option<&[u8]>, opts: &CompactOptions)
        ensures
            self.spec_engine().compact_request(Some(cf.spec_inner()), Some(*opts), opt_bytes(start), opt_bytes(end)),
    {
        proof {
            assert(self.spec_engine() == self.inner);
        }
        self.inner.compact_range_raw(Some(cf.inner()), Some(opts), start, end)
    }

    /// Sets database options; a name or value that cannot become a C string is refused
    /// before the engine is called.
    pub fn set_options(&self, opts: &[(&str, &str)]) -> (r: Result<(), Error>)
        ensures
            first_option_error(opts@) matches Some(m) ==> r matches Err(e) && e.view() == m,
            first_option_error(opts@) is None ==> exists|raw: Result<(), String>| #[trigger] self.spec_engine().set_options_reply(None, option_names(opts@), option_values(opts@), raw) && converted(raw, r),
    {
        proof {
            assert(self.spec_engine() == self.inner);
        }
        let (names, values) = convert_options(opts)?;
        assert(str_names(names@) =~= option_names(opts@));
        assert(str_names(values@) =~= option_values(opts@));
        engine_result(self.inner.set_options_raw(None, names.as_slice(), values.as_slice()))
    }

    /// Sets options of a column family; a name or value that cannot become a C string is
    /// refused before the engine is called.
    pub fn set_options_cf(&self, cf: &impl AsColumnFamilyRef, opts: &[(&str, &str)]) -> (r: Result<(), Error>)
        ensures
            first_option_error(opts@) matches Some(m) ==> r matches Err(e) && e.view() == m,
            first_option_error(opts@) is None ==> exists|raw: Result<(), String>| #[trigger] self.spec_engine().set_options_reply(Some(cf.spec_inner()), option_names(opts@), option_values(opts@), raw) && converted(raw, r),
    {
        proof {
            assert(self.spec_engine() == self.inner);
        }
        let (names, values) = convert_options(opts)?;
        assert(str_names(names@) =~= option_names(opts@));
        assert(str_names(values@) =~= option_values(opts@));
        engine_result(self.inner.set_options_raw(Some(cf.inner()), names.as_slice(), values.as_slice()))
    }

    fn property_value_impl(&self, cf: Option<u64>, name: &str) -> (r: Result<Option<String>, Error>)
        ensures
            first_nul(name.spec_bytes()) matches Some(pos) ==> r matches Err(e) && e.view() == property_name_error_text(pos as nat),
            first_nul(name.spec_bytes()) is None ==> exists|raw: Option<Result<String, String>>| #[trigger] self.spec_engine().property_reply(cf, name@, raw) && property_converted(raw, r),
    {
        proof {
            assert(self.spec_engine() == self.inner);
        }
        match find_nul(name.as_bytes()) {
            Some(pos) => {
                proof {
                    reveal_strlit("");
                }
                let m = nul_message("Failed to convert property name to CString: ", pos, "");
                assert(m@ =~= property_name_error_text(pos as nat));
                return Err(Error::new(m));
            },
            None => {},
        }
        property_value_from_raw(self.inner.property_value_raw(cf, name))
    }

    /// Retrieves a RocksDB property by name.
    pub fn property_value(&self, name: &str) -> (r: Result<Option<String>, Error>)
        ensures
            first_nul(name.spec_bytes()) matches Some(pos) ==> r matches Err(e) && e.view() == property_name_error_text(pos as nat),
            first_nul(name.spec_bytes()) is None ==> exists|raw: Option<Result<String, String>>| #[trigger] self.spec_engine().property_reply(None, name@, raw) && property_converted(raw, r),
    {
        self.property_value_impl(None, name)
    }

    /// Retrieves a RocksDB property by name, for a specific column family.
    pub fn property_value_cf(&self, cf: &impl AsColumnFamilyRef, name: &str) -> (r: Result<Option<String>, Error>)
        ensures
            first_nul(name.spec_bytes()) matches Some(pos) ==> r matches Err(e) && e.view() == property_name_error_text(pos as nat),
            first_nul(name.spec_bytes()) is None ==> exists|raw: Option<Result<String, String>>| #[trigger] self.spec_engine().property_reply(Some(cf.spec_inner()), name@, raw) && property_converted(raw, r),
    {
        self.property_value_impl(Some(cf.inner()), name)
    }

    /// Retrieves a RocksDB property and casts it to an integer.
    pub fn property_int_value(&self, name: &str) -> (r: Result<Option<u64>, Error>)
        ensures
            first_nul(name.spec_bytes()) matches Some(pos) ==> r matches Err(e) && e.view() == property_name_error_text(pos as nat),
            first_nul(name.spec_bytes()) is None ==> exists|raw: Option<Result<String, String>>| #[trigger] self.spec_engine().property_reply(None, name@, raw) && property_int_converted(raw, r),
    {
        let v = self.property_value_impl(None, name);
        let r = property_int_from_value(v);
        proof {
            if first_nul(name.spec_bytes()) is None {
                let raw = choose|raw: Option<Result<String, String>>| #[trigger] self.spec_engine().property_reply(None, name@, raw) && property_converted(raw, v);
                assert(property_int_converted(raw, r));
            }
        }
        r
    }

    /// Retrieves a RocksDB property for a specific column family and casts it to an integer.
    pub fn property_int_value_cf(&self, cf: &impl AsColumnFamilyRef, name: &str) -> (r: Result<Option<u64>, Error>)
        ensures
            first_nul(name.spec_bytes()) matches Some(pos) ==> r matches Err(e) && e.view() == property_name_error_text(pos as nat),
            first_nul(name.spec_bytes()) is None ==> exists|raw: Option<Result<String, String>>| #[trigger] self.spec_engine().property_reply(Some(cf.spec_inner()), name@, raw) && property_int_converted(raw, r),
    {
        let v = self.property_value_impl(Some(cf.inner()), name);
        let r = property_int_from_value(v);
        proof {
            if first_nul(name.spec_bytes()) is None {
                let raw = choose|raw: Option<Result<String, String>>| #[trigger] self.spec_engine().property_reply(Some(cf.spec_inner()), name@, raw) && property_converted(raw, v);
                assert(property_int_converted(raw, r));
            }
        }
        r
    }

    /// The sequence number of the most recent transaction.
    pub fn latest_sequence_number(&self) -> (r: u64)
        ensures
            self.spec_engine().latest_sequence_number_answer(r),
    {
        proof {
            assert(self.spec_engine() == self.inner);
        }
        self.inner.latest_sequence_number_raw()
    }

    /// Iterate over batches of write operations since a given sequence.
    pub fn get_updates_since(&self, seq_number: u64) -> (r: Result<DBWALIterator<D::WalIterator>, Error>)
        ensures
            r matches Ok(it) ==> it.spec_start() == seq_number,
            exists|raw: Result<D::WalIterator, String>| #[trigger] self.spec_engine().updates_since_reply(seq_number, raw) && (raw is Ok <==> r is Ok) && (raw matches Err(m) ==> r matches Err(e) && e.view() == m@),
    {
        proof {
            assert(self.spec_engine() == self.inner);
        }
        let iter = engine_result(self.inner.get_updates_since_raw(seq_number))?;
        Ok(DBWALIterator::new(iter, seq_number))
    }

    /// Tries to catch up with the primary by reading as much as possible from the
    /// log files.
    pub fn try_catch_up_with_primary(&self) -> (r: Result<(), Error>)
        ensures
            exists|raw: Result<(), String>| #[trigger] self.spec_engine().catch_up_reply(raw) && converted(raw, r),
    {
        proof {
            assert(self.spec_engine() == self.inner);
        }
        engine_result(self.inner.try_catch_up_with_primary_raw())
    }

    /// Loads a list of external SST files created with SstFileWriter into the DB
    pub fn ingest_external_file_opts(&self, opts: &IngestExternalFileOptions, paths: &[&str]) -> (r: Result<(), Error>)
        ensures
            first_path_error(paths@) matches Some(m) ==> r matches Err(e) && e.view() == m,
            first_path_error(paths@) is None ==> exists|raw: Result<(), String>| #[trigger] self.spec_engine().ingest_reply(*opts, None, str_names(paths@), raw) && converted(raw, r),
    {
        proof {
            assert(self.spec_engine() == self.inner);
        }
        check_paths(paths)?;
        engine_result(self.inner.ingest_external_file_raw(opts, None, paths))
    }

    /// Loads a list of external SST files created with SstFileWriter into the DB with default opts
    pub fn ingest_external_file(&self, paths: &[&str]) -> (r: Result<(), Error>)
        ensures
            first_path_error(paths@) matches Some(m) ==> r matches Err(e) && e.view() == m,
            first_path_error(paths@) is None ==> exists|raw: Result<(), String>| #[trigger] self.spec_engine().ingest_reply(IngestExternalFileOptions::spec_default(), None, str_names(paths@), raw) && converted(raw, r),
    {
        let opts = IngestExternalFileOptions::default();
        self.ingest_external_file_opts(&opts, paths)
    }

    /// Loads a list of external SST files created with SstFileWriter into the DB for given Column Family
    pub fn ingest_external_file_cf_opts(&self, cf: &impl AsColumnFamilyRef, opts: &IngestExternalFileOptions, paths: &[&str]) -> (r: Result<(), Error>)
        ensures
            first_path_error(paths@) matches Some(m) ==> r matches Err(e) && e.view() == m,
            first_path_error(paths@) is None ==> exists|raw: Result<(), String>| #[trigger] self.spec_engine().ingest_reply(*opts, Some(cf.spec_inner()), str_names(paths@), raw) && converted(raw, r),
    {
        proof {
            assert(self.spec_engine() == self.inner);
        }
        check_paths(paths)?;
        engine_result(self.inner.ingest_external_file_raw(opts, Some(cf.inner()), paths))
    }

    /// Loads a list of external SST files created with SstFileWriter into the DB for given Column Family
    /// with default opts
    pub fn ingest_external_file_cf(&self, cf: &impl AsColumnFamilyRef, paths: &[&str]) -> (r: Result<(), Error>)
        ensures
            first_path_error(paths@) matches Some(m) ==> r matches Err(e) && e.view() == m,
            first_path_error(paths@) is None ==> exists|raw: Result<(), String>| #[trigger] self.spec_engine().ingest_reply(IngestExternalFileOptions::spec_default(), Some(cf.spec_inner()), str_names(paths@), raw) && converted(raw, r),
    {
        let opts = IngestExternalFileOptions::default();
        self.ingest_external_file_cf_opts(cf, &opts, paths)
    }

    /// Returns a list of all table files with their level, start key
    /// and end key
    pub fn live_files(&self) -> (r: Result<Vec<LiveFile>, Error>)
        ensures
            r matches Err(e) ==> e.view() == "Could not get live files"@,
            exists|raw: Option<Vec<LiveFile>>| #[trigger] self.spec_engine().live_files_reply(raw) && live_files_converted(raw, r),
    {
        proof {
            assert(self.spec_engine() == self.inner);
        }
        live_files_from_raw(self.inner.live_files_raw())
    }

    /// Delete sst files whose keys are entirely in the given range.
    pub fn delete_file_in_range(&self, from: &[u8], to: &[u8]) -> (r: Result<(), Error>)
        ensures
            exists|raw: Result<(), String>| #[trigger] self.spec_engine().delete_file_in_range_reply(None, from@, to@, raw) && converted(raw, r),
    {
        proof {
            assert(self.spec_engine() == self.inner);
        }
        engine_result(self.inner.delete_file_in_range_raw(None, from, to))
    }

    /// Same as `delete_file_in_range` but only for specific column family
    pub fn delete_file_in_range_cf(&self, cf: &impl AsColumnFamilyRef, from: &[u8], to: &[u8]) -> (r: Result<(), Error>)
        ensures
            exists|raw: Result<(), String>| #[trigger] self.spec_engine().delete_file_in_range_reply(Some(cf.spec_inner()), from@, to@, raw) && converted(raw, r),
    {
        proof {
            assert(self.spec_engine() == self.inner);
        }
        engine_result(self.inner.delete_file_in_range_raw(Some(cf.inner()), from, to))
    }

    /// Request stopping background work, if wait is true wait until it's done.
    pub fn cancel_all_background_work(&self, wait: bool)
        ensures
            self.spec_engine().cancel_request(wait),
    {
        proof {
            assert(self.spec_engine() == self.inner);
        }
        self.inner.cancel_all_background_work_raw(wait)
    }

    /// Marks the column family dropped in the engine, then destroys its handle.
    fn drop_column_family(&self, cf: ColumnFamily) -> (r: Result<(), Error>)
        ensures
            exists|raw: Result<(), String>| #[trigger] self.spec_engine().drop_cf_reply(cf.spec_inner(), raw) && converted(raw, r),
    {
        let h = cf.handle();
        let raw = self.inner.drop_cf_raw(h);
        assert(self.spec_engine().drop_cf_reply(cf.spec_inner(), raw));
        let r = engine_result(raw);
        self.inner.destroy_cf_handle_raw(h);
        r
    }

    /// Creates the column family handle for `name` in the engine.
    fn create_inner_cf_handle(&self, name: &str, opts: &Options) -> (r: Result<u64, Error>)
        ensures
            first_nul(name.spec_bytes()) matches Some(pos) ==> r matches Err(e) && e.view() == cf_name_error_text(pos as nat),
            first_nul(name.spec_bytes()) is None ==> exists|raw: Result<u64, String>| #[trigger] self.spec_engine().create_cf_reply(*opts, name@, raw) && converted(raw, r),
    {
        proof {
            assert(self.spec_engine() == self.inner);
        }
        match find_nul(name.as_bytes()) {
            Some(pos) => {
                proof {
                    reveal_strlit("");
                }
                let m = nul_message("Failed to convert path to CString when creating cf: ", pos, "");
                assert(m@ =~= cf_name_error_text(pos as nat));
                return Err(Error::new(m));
            },
            None => {},
        }
        engine_result(self.inner.create_cf_raw(opts, name))
    }

    /// Closes the database: destroys every column family handle it holds.
    pub fn drop_all_cfs(&mut self)
        ensures
            final(self).spec_cfs() == Map::<Seq<char>, u64>::empty(),
            final(self).spec_path() == old(self).spec_path(),
    {
        let cfs = self.cfs.drop_all_cfs_internal();
        let mut i: usize = 0;
        while i < cfs.len()
            invariant
                i <= cfs@.len(),
            decreases cfs@.len() - i,
        {
            self.inner.destroy_cf_handle_raw(cfs[i].1.handle());
            i = i + 1;
        }
    }
}

impl<D: DBInner> DBCommon<SingleThreaded, D> {
    /// Creates column family with given name and options
    pub fn create_cf(&mut self, name: &str, opts: &Options) -> (r: Result<(), Error>)
        ensures
            final(self).spec_path() == old(self).spec_path(),
            first_nul(name.spec_bytes()) matches Some(pos) ==> r matches Err(e) && e.view() == cf_name_error_text(pos as nat),
            r is Err ==> final(self).spec_cfs() == old(self).spec_cfs(),
            r is Ok ==> exists|h: u64| #[trigger] old(self).spec_engine().create_cf_reply(*opts, name@, Ok(h))
                && final(self).spec_cfs() == old(self).spec_cfs().insert(name@, h),
            r is Err && first_nul(name.spec_bytes()) is None ==> exists|raw: Result<u64, String>| #[trigger] old(
                self,
            ).spec_engine().create_cf_reply(*opts, name@, raw) && (raw matches Err(m) && r matches Err(e)
                && e.view() == m@),
    {
        let h = self.create_inner_cf_handle(name, opts)?;
        let replaced = self.cfs.insert_cf(name.to_owned(), ColumnFamily::new(h));
        assert(self.spec_cfs() == old(self).spec_cfs().insert(name@, h));
        match replaced {
            Some(old_cf) => self.inner.destroy_cf_handle_raw(old_cf.handle()),
            None => {},
        }
        Ok(())
    }

    /// Drops the column family with the given name
    pub fn drop_cf(&mut self, name: &str) -> (r: Result<(), Error>)
        ensures
            final(self).spec_path() == old(self).spec_path(),
            old(self).spec_cfs().contains_key(name@) ==> final(self).spec_cfs() == old(self).spec_cfs().remove(name@),
            !old(self).spec_cfs().contains_key(name@) ==> (r matches Err(e) && e.view() == invalid_cf_text(name@)),
            !old(self).spec_cfs().contains_key(name@) ==> final(self).spec_cfs() == old(self).spec_cfs(),
            old(self).spec_cfs().contains_key(name@) ==> exists|raw: Result<(), String>| #[trigger] old(
                self,
            ).spec_engine().drop_cf_reply(old(self).spec_cfs()[name@], raw) && converted(raw, r),
    {
        match self.cfs.remove_cf(name) {
            Some(cf) => {
                proof {
                    assert(self.spec_engine() == old(self).spec_engine());
                }
                self.drop_column_family(cf)
            },
            None => {
                let mut m = String::from_str("Invalid column family: ");
                m.append(name);
                Err(Error::new(m))
            },
        }
    }

    /// Returns the underlying column family handle
    pub fn cf_handle(&self, name: &str) -> (r: Option<&ColumnFamily>)
        ensures
            match r {
                Some(cf) => self.spec_cfs().contains_key(name@) && cf.spec_inner() == self.spec_cfs()[name@],
                None => !self.spec_cfs().contains_key(name@),
            },
    {
        self.cfs.get_cf(name)
    }
}

impl<D: DBInner> DBCommon<MultiThreaded, D> {
    /// Creates column family with given name and options.  The column
    /// families are held without a lock, so this takes the database mutably.
    pub fn create_cf(&mut self, name: &str, opts: &Options) -> (r: Result<(), Error>)
        ensures
            final(self).spec_path() == old(self).spec_path(),
            first_nul(name.spec_bytes()) matches Some(pos) ==> r matches Err(e) && e.view() == cf_name_error_text(pos as nat),
            r is Err ==> final(self).spec_cfs() == old(self).spec_cfs(),
            r is Ok ==> exists|h: u64| #[trigger] old(self).spec_engine().create_cf_reply(*opts, name@, Ok(h))
                && final(self).spec_cfs() == old(self).spec_cfs().insert(name@, h),
            r is Err && first_nul(name.spec_bytes()) is None ==> exists|raw: Result<u64, String>| #[trigger] old(
                self,
            ).spec_engine().create_cf_reply(*opts, name@, raw) && (raw matches Err(m) && r matches Err(e)
                && e.view() == m@),
    {
        let h = self.create_inner_cf_handle(name, opts)?;
        let replaced = self.cfs.insert_cf(name.to_owned(), ColumnFamily::new(h));
        assert(self.spec_cfs() == old(self).spec_cfs().insert(name@, h));
        match replaced {
            Some(old_cf) => self.inner.destroy_cf_handle_raw(old_cf.handle()),
            None => {},
        }
        Ok(())
    }

    /// Drops the column family with the given name.  The column families are
    /// held without a lock, so this takes the database mutably.
    pub fn drop_cf(&mut self, name: &str) -> (r: Result<(), Error>)
        ensures
            final(self).spec_path() == old(self).spec_path(),
            old(self).spec_cfs().contains_key(name@) ==> final(self).spec_cfs() == old(self).spec_cfs().remove(name@),
            !old(self).spec_cfs().contains_key(name@) ==> (r matches Err(e) && e.view() == invalid_cf_text(name@)),
            !old(self).spec_cfs().contains_key(name@) ==> final(self).spec_cfs() == old(self).spec_cfs(),
            old(self).spec_cfs().contains_key(name@) ==> exists|raw: Result<(), String>| #[trigger] old(
                self,
            ).spec_engine().drop_cf_reply(old(self).spec_cfs()[name@], raw) && converted(raw, r),
    {
        match self.cfs.remove_cf(name) {
            Some(cf) => {
                proof {
                    assert(self.spec_engine() == old(self).spec_engine());
                }
                self.drop_column_family(cf)
            },
            None => {
                let mut m = String::from_str("Invalid column family: ");
                m.append(name);
                Err(Error::new(m))
            },
        }
    }

    /// Returns the underlying column family handle
    pub fn cf_handle<'a>(&'a self, name: &str) -> (r: Option<Arc<BoundColumnFamily<'a>>>)
        ensures
            match r {
                Some(cf) => self.spec_cfs().contains_key(name@) && cf.spec_inner() == self.spec_cfs()[name@],
                None => !self.spec_cfs().contains_key(name@),
            },
    {
        match self.cfs.get_cf(name) {
            Some(cf) => Some(BoundColumnFamily::new_arc(cf.handle())),
            None => None,
        }
    }
}

/// Minimal set of DB-related methods, intended to be generic over
/// `DBWithThreadMode<T>`.
pub trait DBAccess {
    /// Return the bytes associated with a key value with read options.
    fn get_opt(&self, key: &[u8], readopts: &ReadOptions) -> Result<Option<Vec<u8>>, Error>;

    /// Return the bytes associated with a key value and the given column family with read options.
    fn get_cf_opt<C: AsColumnFamilyRef>(&self, cf: &C, key: &[u8], readopts: &ReadOptions) -> Result<
        Option<Vec<u8>>,
        Error,
    >;

    /// Return the value associated with a key, with read options.
    fn get_pinned_opt(&self, key: &[u8], readopts: &ReadOptions) -> Result<Option<DBPinnableSlice>, Error>;

    /// Return the value associated with a key and the given column family, with read options.
    fn get_pinned_cf_opt<C: AsColumnFamilyRef>(&self, cf: &C, key: &[u8], readopts: &ReadOptions) -> Result<
        Option<DBPinnableSlice>,
        Error,
    >;

    /// Return the values associated with the given keys, with read options.
    fn multi_get_opt(&self, keys: &[&[u8]], readopts: &ReadOptions) -> Vec<Result<Option<Vec<u8>>, Error>>;

    /// Return the values associated with the given keys and column families, with read options.
    fn multi_get_cf_opt<W: AsColumnFamilyRef>(&self, keys_cf: &[(&W, &[u8])], readopts: &ReadOptions) -> Vec<
        Result<Option<Vec<u8>>, Error>,
    >;
}

impl<T: ThreadMode, D: DBInner> DBAccess for DBCommon<T, D> {
    fn get_opt(&self, key: &[u8], readopts: &ReadOptions) -> Result<Option<Vec<u8>>, Error> {
        DBCommon::get_opt(self, key, readopts)
    }

    fn get_cf_opt<C: AsColumnFamilyRef>(&self, cf: &C, key: &[u8], readopts: &ReadOptions) -> Result<
        Option<Vec<u8>>,
        Error,
    > {
        DBCommon::get_cf_opt(self, cf, key, readopts)
    }

    fn get_pinned_opt(&self, key: &[u8], readopts: &ReadOptions) -> Result<Option<DBPinnableSlice>, Error> {
        DBCommon::get_pinned_opt(self, key, readopts)
    }

    fn get_pinned_cf_opt<C: AsColumnFamilyRef>(&self, cf: &C, key: &[u8], readopts: &ReadOptions) -> Result<
        Option<DBPinnableSlice>,
        Error,
    > {
        DBCommon::get_pinned_cf_opt(self, cf, key, readopts)
    }

    fn multi_get_opt(&self, keys: &[&[u8]], readopts: &ReadOptions) -> Vec<Result<Option<Vec<u8>>, Error>> {
        DBCommon::multi_get_opt(self, keys, readopts)
    }

    fn multi_get_cf_opt<W: AsColumnFamilyRef>(&self, keys_cf: &[(&W, &[u8])], readopts: &ReadOptions) -> Vec<
        Result<Option<Vec<u8>>, Error>,
    > {
        DBCommon::multi_get_cf_opt(self, keys_cf, readopts)
    }
}

} // verus!

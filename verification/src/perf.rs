//! Performance statistics: the levels at which the engine gathers them, the
//! counters it keeps, and the memory it reports.
use vstd::prelude::*;

use crate::db::{DBCommon, DBInner, ThreadMode};
use crate::db_options::Cache;
use crate::db_iterator::{converted, engine_result};
use crate::error::Error;

verus! {

/// How much the engine measures for the current thread.
#[derive(Debug, Copy, Clone, PartialEq, Eq, Structural)]
pub enum PerfStatsLevel {
    /// Unknown settings
    Uninitialized,
    /// Disable perf stats
    Disable,
    /// Enables only count stats
    EnableCount,
    /// Count stats and enable time stats except for mutexes
    EnableTimeExceptForMutex,
    /// Other than time, also measure CPU time counters. Still don't measure
    /// time (neither wall time nor CPU time) for mutexes
    EnableTimeAndCPUTimeExceptForMutex,
    /// Enables count and time stats
    EnableTime,
    /// N.B must always be the last value!
    OutOfBound,
}

/// The number by which the engine knows a perf stats level.
pub open spec fn perf_stats_level_code(l: PerfStatsLevel) -> int {
    match l {
        PerfStatsLevel::Uninitialized => 0,
        PerfStatsLevel::Disable => 1,
        PerfStatsLevel::EnableCount => 2,
        PerfStatsLevel::EnableTimeExceptForMutex => 3,
        PerfStatsLevel::EnableTimeAndCPUTimeExceptForMutex => 4,
        PerfStatsLevel::EnableTime => 5,
        PerfStatsLevel::OutOfBound => 6,
    }
}

impl PerfStatsLevel {
    /// The number by which the engine knows this level.
    pub fn code(&self) -> (c: i32)
        ensures
            c == perf_stats_level_code(*self),
    {
        match self {
            PerfStatsLevel::Uninitialized => 0,
            PerfStatsLevel::Disable => 1,
            PerfStatsLevel::EnableCount => 2,
            PerfStatsLevel::EnableTimeExceptForMutex => 3,
            PerfStatsLevel::EnableTimeAndCPUTimeExceptForMutex => 4,
            PerfStatsLevel::EnableTime => 5,
            PerfStatsLevel::OutOfBound => 6,
        }
    }
}

/// The same thread setting, as the engine's perf context module names it.
#[derive(Debug, Copy, Clone, PartialEq, Eq, Structural)]
pub enum PerfLevel {
    Uninitialized,
    Disable,
    EnableCount,
    EnableTimeExceptForMutex,
    EnableTimeAndCPUTimeExceptForMutex,
    EnableTime,
    OutOfBounds,
}

/// The number by which the engine knows a perf level.
pub open spec fn perf_level_code(l: PerfLevel) -> int {
    match l {
        PerfLevel::Uninitialized => 0,
        PerfLevel::Disable => 1,
        PerfLevel::EnableCount => 2,
        PerfLevel::EnableTimeExceptForMutex => 3,
        PerfLevel::EnableTimeAndCPUTimeExceptForMutex => 4,
        PerfLevel::EnableTime => 5,
        PerfLevel::OutOfBounds => 6,
    }
}

impl PerfLevel {
    /// The number by which the engine knows this level, as `set_perf_level`
    /// hands it over.
    pub fn code(&self) -> (c: i32)
        ensures
            c == perf_level_code(*self),
    {
        match self {
            PerfLevel::Uninitialized => 0,
            PerfLevel::Disable => 1,
            PerfLevel::EnableCount => 2,
            PerfLevel::EnableTimeExceptForMutex => 3,
            PerfLevel::EnableTimeAndCPUTimeExceptForMutex => 4,
            PerfLevel::EnableTime => 5,
            PerfLevel::OutOfBounds => 6,
        }
    }

    /// The level the engine reports by `code`, as `get_perf_level` reads it;
    /// the engine reports no other number.
    pub fn from_code(code: i32) -> (l: PerfLevel)
        requires
            0 <= code <= 6,
        ensures
            perf_level_code(l) == code,
    {
        match code {
            0 => PerfLevel::Uninitialized,
            1 => PerfLevel::Disable,
            2 => PerfLevel::EnableCount,
            3 => PerfLevel::EnableTimeExceptForMutex,
            4 => PerfLevel::EnableTimeAndCPUTimeExceptForMutex,
            5 => PerfLevel::EnableTime,
            _ => PerfLevel::OutOfBounds,
        }
    }
}

/// A level survives being handed to the engine by its number and read back.
pub proof fn law_perf_level_round_trip(l: PerfLevel, back: PerfLevel)
    requires
        perf_level_code(back) == perf_level_code(l),
    ensures
        back == l,
{
}

/// A counter kept in the engine's perf context.
#[derive(Debug, Copy, Clone, PartialEq, Eq, Structural)]
#[non_exhaustive]
pub enum PerfMetric {
    UserKeyComparisonCount,
    BlockCacheHitCount,
    BlockReadCount,
    BlockReadByte,
    BlockReadTime,
    BlockChecksumTime,
    BlockDecompressTime,
    GetReadBytes,
    MultigetReadBytes,
    IterReadBytes,
    InternalKeySkippedCount,
    InternalDeleteSkippedCount,
    InternalRecentSkippedCount,
    InternalMergeCount,
    GetSnapshotTime,
    GetFromMemtableTime,
    GetFromMemtableCount,
    GetPostProcessTime,
    GetFromOutputFilesTime,
    SeekOnMemtableTime,
    SeekOnMemtableCount,
    NextOnMemtableCount,
    PrevOnMemtableCount,
    SeekChildSeekTime,
    SeekChildSeekCount,
    SeekMinHeapTime,
    SeekMaxHeapTime,
    SeekInternalSeekTime,
    FindNextUserEntryTime,
    WriteWalTime,
    WriteMemtableTime,
    WriteDelayTime,
    WritePreAndPostProcessTime,
    DbMutexLockNanos,
    DbConditionWaitNanos,
    MergeOperatorTimeNanos,
    ReadIndexBlockNanos,
    ReadFilterBlockNanos,
    NewTableBlockIterNanos,
    NewTableIteratorNanos,
    BlockSeekNanos,
    FindTableNanos,
    BloomMemtableHitCount,
    BloomMemtableMissCount,
    BloomSstHitCount,
    BloomSstMissCount,
    KeyLockWaitTime,
    KeyLockWaitCount,
    EnvNewSequentialFileNanos,
    EnvNewRandomAccessFileNanos,
    EnvNewWritableFileNanos,
    EnvReuseWritableFileNanos,
    EnvNewRandomRwFileNanos,
    EnvNewDirectoryNanos,
    EnvFileExistsNanos,
    EnvGetChildrenNanos,
    EnvGetChildrenFileAttributesNanos,
    EnvDeleteFileNanos,
    EnvCreateDirNanos,
    EnvCreateDirIfMissingNanos,
    EnvDeleteDirNanos,
    EnvGetFileSizeNanos,
    EnvGetFileModificationTimeNanos,
    EnvRenameFileNanos,
    EnvLinkFileNanos,
    EnvLockFileNanos,
    EnvUnlockFileNanos,
    EnvNewLoggerNanos,
    TotalMetricCount,
}

/// The number by which the engine knows a counter.
pub open spec fn perf_metric_code(m: PerfMetric) -> int {
    match m {
        PerfMetric::UserKeyComparisonCount => 0,
        PerfMetric::BlockCacheHitCount => 1,
        PerfMetric::BlockReadCount => 2,
        PerfMetric::BlockReadByte => 3,
        PerfMetric::BlockReadTime => 4,
        PerfMetric::BlockChecksumTime => 5,
        PerfMetric::BlockDecompressTime => 6,
        PerfMetric::GetReadBytes => 7,
        PerfMetric::MultigetReadBytes => 8,
        PerfMetric::IterReadBytes => 9,
        PerfMetric::InternalKeySkippedCount => 10,
        PerfMetric::InternalDeleteSkippedCount => 11,
        PerfMetric::InternalRecentSkippedCount => 12,
        PerfMetric::InternalMergeCount => 13,
        PerfMetric::GetSnapshotTime => 14,
        PerfMetric::GetFromMemtableTime => 15,
        PerfMetric::GetFromMemtableCount => 16,
        PerfMetric::GetPostProcessTime => 17,
        PerfMetric::GetFromOutputFilesTime => 18,
        PerfMetric::SeekOnMemtableTime => 19,
        PerfMetric::SeekOnMemtableCount => 20,
        PerfMetric::NextOnMemtableCount => 21,
        PerfMetric::PrevOnMemtableCount => 22,
        PerfMetric::SeekChildSeekTime => 23,
        PerfMetric::SeekChildSeekCount => 24,
        PerfMetric::SeekMinHeapTime => 25,
        PerfMetric::SeekMaxHeapTime => 26,
        PerfMetric::SeekInternalSeekTime => 27,
        PerfMetric::FindNextUserEntryTime => 28,
        PerfMetric::WriteWalTime => 29,
        PerfMetric::WriteMemtableTime => 30,
        PerfMetric::WriteDelayTime => 31,
        PerfMetric::WritePreAndPostProcessTime => 32,
        PerfMetric::DbMutexLockNanos => 33,
        PerfMetric::DbConditionWaitNanos => 34,
        PerfMetric::MergeOperatorTimeNanos => 35,
        PerfMetric::ReadIndexBlockNanos => 36,
        PerfMetric::ReadFilterBlockNanos => 37,
        PerfMetric::NewTableBlockIterNanos => 38,
        PerfMetric::NewTableIteratorNanos => 39,
        PerfMetric::BlockSeekNanos => 40,
        PerfMetric::FindTableNanos => 41,
        PerfMetric::BloomMemtableHitCount => 42,
        PerfMetric::BloomMemtableMissCount => 43,
        PerfMetric::BloomSstHitCount => 44,
        PerfMetric::BloomSstMissCount => 45,
        PerfMetric::KeyLockWaitTime => 46,
        PerfMetric::KeyLockWaitCount => 47,
        PerfMetric::EnvNewSequentialFileNanos => 48,
        PerfMetric::EnvNewRandomAccessFileNanos => 49,
        PerfMetric::EnvNewWritableFileNanos => 50,
        PerfMetric::EnvReuseWritableFileNanos => 51,
        PerfMetric::EnvNewRandomRwFileNanos => 52,
        PerfMetric::EnvNewDirectoryNanos => 53,
        PerfMetric::EnvFileExistsNanos => 54,
        PerfMetric::EnvGetChildrenNanos => 55,
        PerfMetric::EnvGetChildrenFileAttributesNanos => 56,
        PerfMetric::EnvDeleteFileNanos => 57,
        PerfMetric::EnvCreateDirNanos => 58,
        PerfMetric::EnvCreateDirIfMissingNanos => 59,
        PerfMetric::EnvDeleteDirNanos => 60,
        PerfMetric::EnvGetFileSizeNanos => 61,
        PerfMetric::EnvGetFileModificationTimeNanos => 62,
        PerfMetric::EnvRenameFileNanos => 63,
        PerfMetric::EnvLinkFileNanos => 64,
        PerfMetric::EnvLockFileNanos => 65,
        PerfMetric::EnvUnlockFileNanos => 66,
        PerfMetric::EnvNewLoggerNanos => 67,
        PerfMetric::TotalMetricCount => 68,
    }
}

impl PerfMetric {
    /// The number by which the engine knows this counter, as
    /// `PerfContext::metric` hands it over.
    pub fn code(&self) -> (c: i32)
        ensures
            c == perf_metric_code(*self),
    {
        match self {
            PerfMetric::UserKeyComparisonCount => 0,
            PerfMetric::BlockCacheHitCount => 1,
            PerfMetric::BlockReadCount => 2,
            PerfMetric::BlockReadByte => 3,
            PerfMetric::BlockReadTime => 4,
            PerfMetric::BlockChecksumTime => 5,
            PerfMetric::BlockDecompressTime => 6,
            PerfMetric::GetReadBytes => 7,
            PerfMetric::MultigetReadBytes => 8,
            PerfMetric::IterReadBytes => 9,
            PerfMetric::InternalKeySkippedCount => 10,
            PerfMetric::InternalDeleteSkippedCount => 11,
            PerfMetric::InternalRecentSkippedCount => 12,
            PerfMetric::InternalMergeCount => 13,
            PerfMetric::GetSnapshotTime => 14,
            PerfMetric::GetFromMemtableTime => 15,
            PerfMetric::GetFromMemtableCount => 16,
            PerfMetric::GetPostProcessTime => 17,
            PerfMetric::GetFromOutputFilesTime => 18,
            PerfMetric::SeekOnMemtableTime => 19,
            PerfMetric::SeekOnMemtableCount => 20,
            PerfMetric::NextOnMemtableCount => 21,
            PerfMetric::PrevOnMemtableCount => 22,
            PerfMetric::SeekChildSeekTime => 23,
            PerfMetric::SeekChildSeekCount => 24,
            PerfMetric::SeekMinHeapTime => 25,
            PerfMetric::SeekMaxHeapTime => 26,
            PerfMetric::SeekInternalSeekTime => 27,
            PerfMetric::FindNextUserEntryTime => 28,
            PerfMetric::WriteWalTime => 29,
            PerfMetric::WriteMemtableTime => 30,
            PerfMetric::WriteDelayTime => 31,
            PerfMetric::WritePreAndPostProcessTime => 32,
            PerfMetric::DbMutexLockNanos => 33,
            PerfMetric::DbConditionWaitNanos => 34,
            PerfMetric::MergeOperatorTimeNanos => 35,
            PerfMetric::ReadIndexBlockNanos => 36,
            PerfMetric::ReadFilterBlockNanos => 37,
            PerfMetric::NewTableBlockIterNanos => 38,
            PerfMetric::NewTableIteratorNanos => 39,
            PerfMetric::BlockSeekNanos => 40,
            PerfMetric::FindTableNanos => 41,
            PerfMetric::BloomMemtableHitCount => 42,
            PerfMetric::BloomMemtableMissCount => 43,
            PerfMetric::BloomSstHitCount => 44,
            PerfMetric::BloomSstMissCount => 45,
            PerfMetric::KeyLockWaitTime => 46,
            PerfMetric::KeyLockWaitCount => 47,
            PerfMetric::EnvNewSequentialFileNanos => 48,
            PerfMetric::EnvNewRandomAccessFileNanos => 49,
            PerfMetric::EnvNewWritableFileNanos => 50,
            PerfMetric::EnvReuseWritableFileNanos => 51,
            PerfMetric::EnvNewRandomRwFileNanos => 52,
            PerfMetric::EnvNewDirectoryNanos => 53,
            PerfMetric::EnvFileExistsNanos => 54,
            PerfMetric::EnvGetChildrenNanos => 55,
            PerfMetric::EnvGetChildrenFileAttributesNanos => 56,
            PerfMetric::EnvDeleteFileNanos => 57,
            PerfMetric::EnvCreateDirNanos => 58,
            PerfMetric::EnvCreateDirIfMissingNanos => 59,
            PerfMetric::EnvDeleteDirNanos => 60,
            PerfMetric::EnvGetFileSizeNanos => 61,
            PerfMetric::EnvGetFileModificationTimeNanos => 62,
            PerfMetric::EnvRenameFileNanos => 63,
            PerfMetric::EnvLinkFileNanos => 64,
            PerfMetric::EnvLockFileNanos => 65,
            PerfMetric::EnvUnlockFileNanos => 66,
            PerfMetric::EnvNewLoggerNanos => 67,
            PerfMetric::TotalMetricCount => 68,
        }
    }
}

/// Memory usage stats
pub struct MemoryUsageStats {
    /// Approximate memory usage of all the mem-tables
    pub mem_table_total: u64,
    /// Approximate memory usage of un-flushed mem-tables
    pub mem_table_unflushed: u64,
    /// Approximate memory usage of all the table readers
    pub mem_table_readers_total: u64,
    /// Approximate memory usage by cache
    pub cache_total: u64,
}

/// What the engine measured of the memory of some databases and caches.
#[derive(Debug, Clone, Copy)]
pub struct MemoryUsage {
    pub mem_table_total: u64,
    pub mem_table_unflushed: u64,
    pub mem_table_readers_total: u64,
    pub cache_total: u64,
}

impl MemoryUsage {
    /// Approximate memory usage of all the mem-tables
    pub fn approximate_mem_table_total(&self) -> (r: u64)
        ensures
            r == self.mem_table_total,
    {
        self.mem_table_total
    }

    /// Approximate memory usage of un-flushed mem-tables
    pub fn approximate_mem_table_unflushed(&self) -> (r: u64)
        ensures
            r == self.mem_table_unflushed,
    {
        self.mem_table_unflushed
    }

    /// Approximate memory usage of all the table readers
    pub fn approximate_mem_table_readers_total(&self) -> (r: u64)
        ensures
            r == self.mem_table_readers_total,
    {
        self.mem_table_readers_total
    }

    /// Approximate memory usage by cache
    pub fn approximate_cache_total(&self) -> (r: u64)
        ensures
            r == self.cache_total,
    {
        self.cache_total
    }
}

/// The engine's collection of memory consumers, as the engine gives it.
/// Nothing is assumed of what its methods report.
pub trait MemoryConsumersHandle: Sized {
    /// Performs `rocksdb_memory_consumers_create`; `None` stands for a null handle.
    fn create_raw() -> Option<Self>;

    /// Performs `rocksdb_memory_consumers_add_db` with the database whose
    /// handle is `db`.
    fn add_db_raw(&mut self, db: u64);

    /// Performs `rocksdb_memory_consumers_add_cache`.
    fn add_cache_raw(&mut self, cache: &Cache);

    /// What the engine may measure for the consumers in the collection.
    closed spec fn measured(&self, r: Result<MemoryUsage, String>) -> bool {
        true
    }

    /// Performs `rocksdb_approximate_memory_usage_create` and reads the four
    /// totals of what it gives.
    fn build_raw(&self) -> (r: Result<MemoryUsage, String>)
        ensures
            self.measured(r),
    ;
}

/// A memory consumer handed to the engine's collection: a database, known
/// by its path, or a cache.
pub enum MemoryConsumer {
    Db(Seq<char>),
    Cache(Cache),
}

/// Builder for MemoryUsage
pub struct MemoryUsageBuilder<B: MemoryConsumersHandle> {
    inner: B,
    /// The consumers handed to the engine's collection, in order.
    consumers: Ghost<Seq<MemoryConsumer>>,
}

/// The message given when the engine makes no collection of consumers.
pub open spec fn builder_error_text() -> Seq<char> {
    "Could not create MemoryUsage builder"@
}

impl<B: MemoryConsumersHandle> MemoryUsageBuilder<B> {
    /// The consumers handed to the engine's collection so far, in order.
    pub closed spec fn spec_consumers(&self) -> Seq<MemoryConsumer> {
        self.consumers@
    }

    /// What the engine may measure for the consumers handed so far.
    pub closed spec fn spec_measured(&self, r: Result<MemoryUsage, String>) -> bool {
        self.inner.measured(r)
    }

    /// Create new instance
    pub fn new() -> (r: Result<Self, Error>)
        ensures
            r matches Err(e) ==> e.view() == builder_error_text(),
            r matches Ok(b) ==> b.spec_consumers() == Seq::<MemoryConsumer>::empty(),
    {
        Self::from_raw(B::create_raw())
    }

    /// The builder over the engine's collection, or an error of its own when
    /// the engine made none.
    pub fn from_raw(raw: Option<B>) -> (r: Result<Self, Error>)
        ensures
            raw is None <==> r is Err,
            r matches Err(e) ==> e.view() == builder_error_text(),
            r matches Ok(b) ==> b.spec_consumers() == Seq::<MemoryConsumer>::empty(),
    {
        match raw {
            None => {
                proof {
                    reveal_strlit("Could not create MemoryUsage builder");
                }
                Err(Error::new(String::from_str("Could not create MemoryUsage builder")))
            },
            Some(inner) => Ok(MemoryUsageBuilder { inner, consumers: Ghost(Seq::empty()) }),
        }
    }

    /// Add a DB instance to collect memory usage from it and add up in total stats
    pub fn add_db<T: ThreadMode, D: DBInner>(&mut self, db: &DBCommon<T, D>)
        ensures
            final(self).spec_consumers() == old(self).spec_consumers().push(MemoryConsumer::Db(db.spec_path())),
    {
        self.inner.add_db_raw(db.inner().handle());
        proof {
            self.consumers@ = self.consumers@.push(MemoryConsumer::Db(db.spec_path()));
        }
    }

    /// Add a cache to collect memory usage from it and add up in total stats
    pub fn add_cache(&mut self, cache: &Cache)
        ensures
            final(self).spec_consumers() == old(self).spec_consumers().push(MemoryConsumer::Cache(*cache)),
    {
        self.inner.add_cache_raw(cache);
        proof {
            self.consumers@ = self.consumers@.push(MemoryConsumer::Cache(*cache));
        }
    }

    /// Build up MemoryUsage
    pub fn build(&self) -> (r: Result<MemoryUsage, Error>)
        ensures
            exists|raw: Result<MemoryUsage, String>| #[trigger] self.spec_measured(raw) && converted(raw, r),
    {
        let raw = self.inner.build_raw();
        assert(self.spec_measured(raw));
        engine_result(raw)
    }
}

/// The stats that a measurement gives.
pub open spec fn stats_of_usage(u: MemoryUsage) -> MemoryUsageStats {
    MemoryUsageStats {
        mem_table_total: u.mem_table_total,
        mem_table_unflushed: u.mem_table_unflushed,
        mem_table_readers_total: u.mem_table_readers_total,
        cache_total: u.cache_total,
    }
}

/// The stats that a measurement gives.
pub fn usage_stats(mu: &MemoryUsage) -> (r: MemoryUsageStats)
    ensures
        r == stats_of_usage(*mu),
{
    MemoryUsageStats {
        mem_table_total: mu.approximate_mem_table_total(),
        mem_table_unflushed: mu.approximate_mem_table_unflushed(),
        mem_table_readers_total: mu.approximate_mem_table_readers_total(),
        cache_total: mu.approximate_cache_total(),
    }
}

/// The consumers handed to the engine for `dbs` and `caches`: the databases,
/// by their paths, then the caches, in order.
pub open spec fn consumers_of<T: ThreadMode, D: DBInner>(
    dbs: Option<&[&DBCommon<T, D>]>,
    caches: Option<&[&Cache]>,
) -> Seq<MemoryConsumer> {
    let d = match dbs {
        Some(ds) => ds@.map_values(|db: &DBCommon<T, D>| MemoryConsumer::Db(db.spec_path())),
        None => Seq::empty(),
    };
    let c = match caches {
        Some(cs) => cs@.map_values(|cache: &Cache| MemoryConsumer::Cache(*cache)),
        None => Seq::empty(),
    };
    d + c
}

/// Get memory usage stats from DB instances and Cache instances
pub fn get_memory_usage_stats<B: MemoryConsumersHandle, T: ThreadMode, D: DBInner>(
    dbs: Option<&[&DBCommon<T, D>]>,
    caches: Option<&[&Cache]>,
) -> (r: Result<MemoryUsageStats, Error>)
    ensures
        r is Ok ==> exists|b: MemoryUsageBuilder<B>, raw: Result<MemoryUsage, String>|
            b.spec_consumers() == consumers_of(dbs, caches) && #[trigger] b.spec_measured(raw) && raw is Ok
                && r == Ok::<MemoryUsageStats, Error>(stats_of_usage(raw->Ok_0)),
        r matches Err(e) ==> e.view() == builder_error_text() || exists|
            b: MemoryUsageBuilder<B>,
            raw: Result<MemoryUsage, String>,
        |
            b.spec_consumers() == consumers_of(dbs, caches) && #[trigger] b.spec_measured(raw) && (raw matches Err(
                m,
            ) && e.view() == m@),
{
    let mut builder = MemoryUsageBuilder::<B>::new()?;
    let ghost d_part: Seq<MemoryConsumer> = match dbs {
        Some(ds) => ds@.map_values(|db: &DBCommon<T, D>| MemoryConsumer::Db(db.spec_path())),
        None => Seq::empty(),
    };
    match dbs {
        Some(dbs_) => {
            let mut i: usize = 0;
            while i < dbs_.len()
                invariant
                    i <= dbs_@.len(),
                    builder.spec_consumers() == dbs_@.subrange(0, i as int).map_values(
                        |db: &DBCommon<T, D>| MemoryConsumer::Db(db.spec_path()),
                    ),
                decreases dbs_@.len() - i,
            {
                let ghost before = builder.spec_consumers();
                builder.add_db(dbs_[i]);
                assert(dbs_@.subrange(0, i + 1).map_values(|db: &DBCommon<T, D>| MemoryConsumer::Db(db.spec_path()))
                    =~= before.push(MemoryConsumer::Db(dbs_@[i as int].spec_path())));
                i = i + 1;
            }
            assert(dbs_@.subrange(0, dbs_@.len() as int) =~= dbs_@);
        },
        None => {
            assert(builder.spec_consumers() =~= d_part);
        },
    }
    assert(builder.spec_consumers() == d_part);
    match caches {
        Some(caches_) => {
            let mut i: usize = 0;
            while i < caches_.len()
                invariant
                    i <= caches_@.len(),
                    builder.spec_consumers() == d_part + caches_@.subrange(0, i as int).map_values(
                        |cache: &Cache| MemoryConsumer::Cache(*cache),
                    ),
                decreases caches_@.len() - i,
            {
                let ghost before = builder.spec_consumers();
                builder.add_cache(caches_[i]);
                assert(d_part + caches_@.subrange(0, i + 1).map_values(|cache: &Cache| MemoryConsumer::Cache(*cache))
                    =~= before.push(MemoryConsumer::Cache(*caches_@[i as int])));
                i = i + 1;
            }
            assert(caches_@.subrange(0, caches_@.len() as int) =~= caches_@);
        },
        None => {
            assert(builder.spec_consumers() =~= d_part + Seq::<MemoryConsumer>::empty());
        },
    }
    assert(builder.spec_consumers() == consumers_of(dbs, caches));
    match builder.build() {
        Ok(mu) => {
            let r = Ok(usage_stats(&mu));
            proof {
                let raw = choose|raw: Result<MemoryUsage, String>| #[trigger] builder.spec_measured(raw) && converted(raw, Ok::<MemoryUsage, Error>(mu));
                assert(builder.spec_measured(raw) && raw == Ok::<MemoryUsage, String>(mu));
            }
            r
        },
        Err(e) => Err(e),
    }
}

} // verus!

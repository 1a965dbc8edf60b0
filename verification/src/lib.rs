//! A verified Rust layer for RocksDB.
//!
//! The library holds the logic of a RocksDB binding: column family
//! bookkeeping, opening plans, iterator stepping, iterate bounds, error
//! classification, the conversion of raw engine replies, and the decisions
//! of the callbacks the engine calls (compaction filters, merge operators,
//! compaction services).  The raw engine itself stands behind the
//! [`DBInner`] trait and the handle traits beside it.
use vstd::prelude::*;

pub mod backup;
pub mod cf_map;
pub mod checkpoint;
pub mod column_family;
pub mod compaction_filter;
pub mod compaction_service;
pub mod db;
pub mod db_iterator;
pub mod db_options;
pub mod error;
pub mod ffi_util;
pub mod file_system;
pub mod iter_range;
pub mod merge_operator;
pub mod metadata;
pub mod optimistic_transaction_db;
pub mod perf;
pub mod properties;
pub mod read_only_db;
pub mod write_batch;
pub use crate::column_family::{
    AsColumnFamilyRef, BoundColumnFamily, ColumnFamily, ColumnFamilyDescriptor, ColumnFamilyTtl,
    DEFAULT_COLUMN_FAMILY_NAME,
};
pub use crate::db_options::{
    AccessHint, BlockBasedIndexType, BlockBasedOptions, BottommostLevelCompaction, Cache,
    CompactOptions, DBCompactionStyle, DBCompressionType, DBPath, DBRecoveryMode,
    DataBlockIndexType, Env, FifoCompactOptions, FlushOptions, IngestExternalFileOptions,
    MemtableFactory, Options, ReadOptions, ReadTier, UniversalCompactOptions,
    UniversalCompactionStopStyle, WriteOptions,
};
pub use crate::backup::{BackupEngine, BackupEngineHandle, BackupEngineInfo, BackupEngineOptions, RestoreOptions};
pub use crate::compaction_filter::{
    CompactionFilter, CompactionFilterContext, CompactionFilterDecision, CompactionFilterFactory,
    CompactionFilterValueType,
};
pub use crate::compaction_service::{
    CompactionReason, CompactionService, CompactionServiceJobInfo, CompactionServiceJobStatus,
    CompactionServiceScheduleResponse,
};
pub use crate::db::{
    AccessType, DBAccess, DBCommon, DBInner, DBPinnableSlice, DBWithThreadMode, LiveFile, MultiThreaded,
    SingleThreaded, ThreadMode,
};
pub use crate::db_iterator::{
    DBIteratorWithThreadMode, DBRawIteratorHandle, DBRawIteratorWithThreadMode, DBWALIterator,
    DBWalIteratorHandle, Direction, IteratorMode, KVBytes, WalStep,
};
pub use crate::error::{Error, ErrorKind};
pub use crate::merge_operator::MergeOperands;
pub use crate::metadata::{ColumnFamilyMetaData, LevelMetaData, SstFileMetaData};
pub use crate::optimistic_transaction_db::{OptimisticTransactionDB, OptimisticTransactionOptions};
pub use crate::perf::{MemoryUsageStats, PerfLevel, PerfMetric, PerfStatsLevel};
pub use crate::read_only_db::{ReadOnlyDB, ReadOnlyOpenDescriptor};
pub use crate::write_batch::{BatchUpdate, WriteBatch, WriteBatchOp};
pub use crate::iter_range::{IterateBounds, PrefixRange};

verus! {

} // verus!

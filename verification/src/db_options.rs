//! Option records for the database, reads, writes, flushes, compactions and
//! tables.  They hold plain settings; the engine reads them when it performs
//! the operation they are handed to.
use vstd::prelude::*;

use crate::error::Error;
use crate::ffi_util::first_nul;
use vstd::string::StringSliceAdditionalSpecFns;
use crate::iter_range::{opt_bytes, IterateBounds};

verus! {

/// Used by `ReadOptions::set_read_tier`.
#[derive(Debug, Copy, Clone, PartialEq, Eq, Structural)]
pub enum ReadTier {
    /// Reads data in memtable, block cache, OS cache or storage.
    All,
    /// Reads data in memtable or block cache.
    BlockCache,
}

/// Used by BlockBasedOptions::set_index_type.
#[derive(Debug, Copy, Clone, PartialEq, Eq, Structural)]
pub enum BlockBasedIndexType {
    /// A space efficient index block that is optimized for
    /// binary-search-based index.
    BinarySearch,
    /// The hash index, if enabled, will perform a hash lookup if
    /// a prefix extractor has been provided through Options::set_prefix_extractor.
    HashSearch,
    /// A two-level index implementation. Both levels are binary search indexes.
    TwoLevelIndexSearch,
}

/// Used by BlockBasedOptions::set_data_block_index_type.
#[derive(Debug, Copy, Clone, PartialEq, Eq, Structural)]
pub enum DataBlockIndexType {
    /// Use binary search when performing point lookup for keys in data blocks.
    /// This is the default.
    BinarySearch,
    /// Appends a compact hash table to the end of the data block for efficient indexing.
    BinaryAndHash,
}

/// Defines the underlying memtable implementation.
#[derive(Debug, Copy, Clone, PartialEq, Eq, Structural)]
pub enum MemtableFactory {
    Vector,
    HashSkipList { bucket_count: usize, height: i32, branching_factor: i32 },
    HashLinkList { bucket_count: usize },
}

#[derive(Debug, Copy, Clone, PartialEq, Eq, Structural)]
pub enum DBCompressionType {
    /// No compression (named `None` in the C API).
    NoCompression,
    Snappy,
    Zlib,
    Bz2,
    Lz4,
    Lz4hc,
    Zstd,
}

#[derive(Debug, Copy, Clone, PartialEq, Eq, Structural)]
pub enum DBCompactionStyle {
    Level,
    Universal,
    Fifo,
}

#[derive(Debug, Copy, Clone, PartialEq, Eq, Structural)]
pub enum DBRecoveryMode {
    TolerateCorruptedTailRecords,
    AbsoluteConsistency,
    PointInTime,
    SkipAnyCorruptedRecord,
}

/// File access pattern once a compaction has started
#[derive(Debug, Copy, Clone, PartialEq, Eq, Structural)]
pub enum AccessHint {
    /// No access hint (named `None` in the C API).
    NoHint,
    Normal,
    Sequential,
    WillNeed,
}

#[derive(Debug, Copy, Clone, PartialEq, Eq, Structural)]
pub enum UniversalCompactionStopStyle {
    Similar,
    Total,
}

#[derive(Debug, Copy, Clone, PartialEq, Eq, Structural)]
pub enum BottommostLevelCompaction {
    /// Skip bottommost level compaction
    Skip,
    /// Only compact bottommost level if there is a compaction filter
    /// This is the default option
    IfHaveCompactionFilter,
    /// Always compact bottommost level
    Force,
    /// Always compact bottommost level but in bottommost level avoid
    /// double-compacting files created in the same compaction
    ForceOptimized,
}

/// Database-wide and column-family-wide options.
///
/// Each setting is `None` until a setter gives it a value; a setting left
/// `None` keeps the engine's own default.
#[derive(Clone)]
pub struct Options {
    pub create_if_missing: Option<bool>,
    pub create_missing_column_families: Option<bool>,
    pub error_if_exists: Option<bool>,
    pub paranoid_checks: Option<bool>,
    pub use_fsync: Option<bool>,
    pub use_direct_reads: Option<bool>,
    pub use_direct_io_for_flush_and_compaction: Option<bool>,
    pub allow_mmap_reads: Option<bool>,
    pub allow_mmap_writes: Option<bool>,
    pub max_open_files: Option<i32>,
    pub write_buffer_size: Option<usize>,
    pub db_write_buffer_size: Option<usize>,
    pub max_write_buffer_number: Option<i32>,
    pub min_write_buffer_number_to_merge: Option<i32>,
    pub target_file_size_base: Option<u64>,
    pub max_bytes_for_level_base: Option<u64>,
    pub level_zero_file_num_compaction_trigger: Option<i32>,
    pub level_zero_slowdown_writes_trigger: Option<i32>,
    pub level_zero_stop_writes_trigger: Option<i32>,
    pub num_levels: Option<i32>,
    pub max_background_jobs: Option<i32>,
    pub compression_type: Option<DBCompressionType>,
    pub compaction_style: Option<DBCompactionStyle>,
    pub disable_auto_compactions: Option<bool>,
    pub atomic_flush: Option<bool>,
    pub wal_recovery_mode: Option<DBRecoveryMode>,
    pub keep_log_file_num: Option<usize>,
    pub bytes_per_sync: Option<u64>,
    pub access_hint_on_compaction_start: Option<AccessHint>,
    pub memtable_factory: Option<MemtableFactory>,
    pub level_compaction_dynamic_level_bytes: Option<bool>,
    pub compaction_readahead_size: Option<usize>,
    pub optimize_filters_for_hits: Option<bool>,
    pub delete_obsolete_files_period_micros: Option<u64>,
    pub max_file_opening_threads: Option<i32>,
    pub wal_bytes_per_sync: Option<u64>,
    pub writable_file_max_buffer_size: Option<u64>,
    pub allow_concurrent_memtable_write: Option<bool>,
    pub enable_write_thread_adaptive_yield: Option<bool>,
    pub max_sequential_skip_in_iterations: Option<u64>,
    pub is_fd_close_on_exec: Option<bool>,
    pub skip_log_error_on_recovery: Option<bool>,
    pub table_cache_num_shard_bits: Option<i32>,
    pub target_file_size_multiplier: Option<i32>,
    pub max_manifest_file_size: Option<usize>,
    pub unordered_write: Option<bool>,
    pub max_subcompactions: Option<u32>,
    pub max_background_compactions: Option<i32>,
    pub max_background_flushes: Option<i32>,
    pub memtable_huge_page_size: Option<usize>,
    pub max_successive_merges: Option<usize>,
    pub bloom_locality: Option<u32>,
    pub inplace_update_support: Option<bool>,
    pub inplace_update_locks: Option<usize>,
    pub skip_checking_sst_file_sizes_on_db_open: Option<bool>,
    pub max_write_buffer_size_to_maintain: Option<i64>,
    pub enable_pipelined_write: Option<bool>,
    pub min_level_to_compress: Option<i32>,
    pub report_bg_io_stats: Option<bool>,
    pub max_total_wal_size: Option<u64>,
    pub stats_dump_period_sec: Option<u32>,
    pub advise_random_on_open: Option<bool>,
    pub use_adaptive_mutex: Option<bool>,
    pub max_compaction_bytes: Option<u64>,
    pub wal_ttl_seconds: Option<u64>,
    pub wal_size_limit_mb: Option<u64>,
    pub manifest_preallocation_size: Option<usize>,
    pub purge_redundant_kvs_while_flush: Option<bool>,
    pub skip_stats_update_on_db_open: Option<bool>,
    pub max_log_file_size: Option<usize>,
    pub log_file_time_to_roll: Option<usize>,
    pub recycle_log_file_num: Option<usize>,
    pub soft_pending_compaction_bytes_limit: Option<usize>,
    pub hard_pending_compaction_bytes_limit: Option<usize>,
    pub rate_limit_delay_max_milliseconds: Option<u32>,
    pub arena_block_size: Option<usize>,
    pub dump_malloc_stats: Option<bool>,
    pub memtable_whole_key_filtering: Option<bool>,
    pub increase_parallelism: Option<i32>,
    pub optimize_for_point_lookup: Option<u64>,
    pub optimize_level_style_compaction: Option<u64>,
    pub optimize_universal_style_compaction: Option<u64>,
    pub db_log_dir: Option<String>,
    pub wal_dir: Option<String>,
    pub env: Option<Env>,
    pub block_based_table_factory: Option<BlockBasedOptions>,
    pub universal_compaction_options: Option<UniversalCompactOptions>,
    pub fifo_compaction_options: Option<FifoCompactOptions>,
    pub row_cache: Option<Cache>,
    pub compression_options: Option<(i32, i32, i32, i32)>,
    pub compression_per_level: Option<Vec<DBCompressionType>>,
    pub max_bytes_for_level_multiplier_additional: Option<Vec<i32>>,
    pub db_paths: Option<Vec<DBPath>>,
    pub statistics: Option<bool>,
    pub prepare_for_bulk_load: Option<bool>,
    pub ratelimiter: Option<(i64, i64, i32)>,
}

impl Options {
    /// The options with no setting given.
    pub open spec fn spec_default() -> Self {
        Options { create_if_missing: None, create_missing_column_families: None, error_if_exists: None, paranoid_checks: None, use_fsync: None, use_direct_reads: None, use_direct_io_for_flush_and_compaction: None, allow_mmap_reads: None, allow_mmap_writes: None, max_open_files: None, write_buffer_size: None, db_write_buffer_size: None, max_write_buffer_number: None, min_write_buffer_number_to_merge: None, target_file_size_base: None, max_bytes_for_level_base: None, level_zero_file_num_compaction_trigger: None, level_zero_slowdown_writes_trigger: None, level_zero_stop_writes_trigger: None, num_levels: None, max_background_jobs: None, compression_type: None, compaction_style: None, disable_auto_compactions: None, atomic_flush: None, wal_recovery_mode: None, keep_log_file_num: None, bytes_per_sync: None, access_hint_on_compaction_start: None, memtable_factory: None, level_compaction_dynamic_level_bytes: None, compaction_readahead_size: None, optimize_filters_for_hits: None, delete_obsolete_files_period_micros: None, max_file_opening_threads: None, wal_bytes_per_sync: None, writable_file_max_buffer_size: None, allow_concurrent_memtable_write: None, enable_write_thread_adaptive_yield: None, max_sequential_skip_in_iterations: None, is_fd_close_on_exec: None, skip_log_error_on_recovery: None, table_cache_num_shard_bits: None, target_file_size_multiplier: None, max_manifest_file_size: None, unordered_write: None, max_subcompactions: None, max_background_compactions: None, max_background_flushes: None, memtable_huge_page_size: None, max_successive_merges: None, bloom_locality: None, inplace_update_support: None, inplace_update_locks: None, skip_checking_sst_file_sizes_on_db_open: None, max_write_buffer_size_to_maintain: None, enable_pipelined_write: None, min_level_to_compress: None, report_bg_io_stats: None, max_total_wal_size: None, stats_dump_period_sec: None, advise_random_on_open: None, use_adaptive_mutex: None, max_compaction_bytes: None, wal_ttl_seconds: None, wal_size_limit_mb: None, manifest_preallocation_size: None, purge_redundant_kvs_while_flush: None, skip_stats_update_on_db_open: None, max_log_file_size: None, log_file_time_to_roll: None, recycle_log_file_num: None, soft_pending_compaction_bytes_limit: None, hard_pending_compaction_bytes_limit: None, rate_limit_delay_max_milliseconds: None, arena_block_size: None, dump_malloc_stats: None, memtable_whole_key_filtering: None, increase_parallelism: None, optimize_for_point_lookup: None, optimize_level_style_compaction: None, optimize_universal_style_compaction: None, db_log_dir: None, wal_dir: None, env: None, block_based_table_factory: None, universal_compaction_options: None, fifo_compaction_options: None, row_cache: None, compression_options: None, compression_per_level: None, max_bytes_for_level_multiplier_additional: None, db_paths: None, statistics: None, prepare_for_bulk_load: None, ratelimiter: None }
    }
}

impl Default for Options {
    fn default() -> (r: Self)
        ensures
            r == Options::spec_default(),
    {
        Options { create_if_missing: None, create_missing_column_families: None, error_if_exists: None, paranoid_checks: None, use_fsync: None, use_direct_reads: None, use_direct_io_for_flush_and_compaction: None, allow_mmap_reads: None, allow_mmap_writes: None, max_open_files: None, write_buffer_size: None, db_write_buffer_size: None, max_write_buffer_number: None, min_write_buffer_number_to_merge: None, target_file_size_base: None, max_bytes_for_level_base: None, level_zero_file_num_compaction_trigger: None, level_zero_slowdown_writes_trigger: None, level_zero_stop_writes_trigger: None, num_levels: None, max_background_jobs: None, compression_type: None, compaction_style: None, disable_auto_compactions: None, atomic_flush: None, wal_recovery_mode: None, keep_log_file_num: None, bytes_per_sync: None, access_hint_on_compaction_start: None, memtable_factory: None, level_compaction_dynamic_level_bytes: None, compaction_readahead_size: None, optimize_filters_for_hits: None, delete_obsolete_files_period_micros: None, max_file_opening_threads: None, wal_bytes_per_sync: None, writable_file_max_buffer_size: None, allow_concurrent_memtable_write: None, enable_write_thread_adaptive_yield: None, max_sequential_skip_in_iterations: None, is_fd_close_on_exec: None, skip_log_error_on_recovery: None, table_cache_num_shard_bits: None, target_file_size_multiplier: None, max_manifest_file_size: None, unordered_write: None, max_subcompactions: None, max_background_compactions: None, max_background_flushes: None, memtable_huge_page_size: None, max_successive_merges: None, bloom_locality: None, inplace_update_support: None, inplace_update_locks: None, skip_checking_sst_file_sizes_on_db_open: None, max_write_buffer_size_to_maintain: None, enable_pipelined_write: None, min_level_to_compress: None, report_bg_io_stats: None, max_total_wal_size: None, stats_dump_period_sec: None, advise_random_on_open: None, use_adaptive_mutex: None, max_compaction_bytes: None, wal_ttl_seconds: None, wal_size_limit_mb: None, manifest_preallocation_size: None, purge_redundant_kvs_while_flush: None, skip_stats_update_on_db_open: None, max_log_file_size: None, log_file_time_to_roll: None, recycle_log_file_num: None, soft_pending_compaction_bytes_limit: None, hard_pending_compaction_bytes_limit: None, rate_limit_delay_max_milliseconds: None, arena_block_size: None, dump_malloc_stats: None, memtable_whole_key_filtering: None, increase_parallelism: None, optimize_for_point_lookup: None, optimize_level_style_compaction: None, optimize_universal_style_compaction: None, db_log_dir: None, wal_dir: None, env: None, block_based_table_factory: None, universal_compaction_options: None, fifo_compaction_options: None, row_cache: None, compression_options: None, compression_per_level: None, max_bytes_for_level_multiplier_additional: None, db_paths: None, statistics: None, prepare_for_bulk_load: None, ratelimiter: None }
    }
}

/// Optionally disable WAL or sync for this write.
#[derive(Clone, Copy)]
pub struct WriteOptions {
    pub sync: Option<bool>,
    pub disable_wal: Option<bool>,
    pub ignore_missing_column_families: Option<bool>,
    pub no_slowdown: Option<bool>,
    pub low_pri: Option<bool>,
    pub memtable_insert_hint_per_batch: Option<bool>,
}

impl WriteOptions {
    /// The options with no setting given.
    pub open spec fn spec_default() -> Self {
        WriteOptions { sync: None, disable_wal: None, ignore_missing_column_families: None, no_slowdown: None, low_pri: None, memtable_insert_hint_per_batch: None }
    }
}

impl Default for WriteOptions {
    fn default() -> (r: Self)
        ensures
            r == WriteOptions::spec_default(),
    {
        WriteOptions { sync: None, disable_wal: None, ignore_missing_column_families: None, no_slowdown: None, low_pri: None, memtable_insert_hint_per_batch: None }
    }
}

/// Optionally wait for the memtable flush to be performed.
#[derive(Clone, Copy)]
pub struct FlushOptions {
    pub wait: Option<bool>,
}

impl FlushOptions {
    /// The options with no setting given.
    pub open spec fn spec_default() -> Self {
        FlushOptions { wait: None }
    }
}

impl Default for FlushOptions {
    fn default() -> (r: Self)
        ensures
            r == FlushOptions::spec_default(),
    {
        FlushOptions { wait: None }
    }
}

/// Options for reads and iterators.
#[derive(Clone)]
pub struct ReadOptions {
    pub fill_cache: Option<bool>,
    pub read_tier: Option<ReadTier>,
    pub prefix_same_as_start: Option<bool>,
    pub total_order_seek: Option<bool>,
    pub max_skippable_internal_keys: Option<u64>,
    pub background_purge_on_iterator_cleanup: Option<bool>,
    pub ignore_range_deletions: Option<bool>,
    pub verify_checksums: Option<bool>,
    pub readahead_size: Option<usize>,
    pub tailing: Option<bool>,
    pub pin_data: Option<bool>,
    pub iterate_upper_bound: Option<Vec<u8>>,
    pub iterate_lower_bound: Option<Vec<u8>>,
}

impl ReadOptions {
    /// The options with no setting given.
    pub open spec fn spec_default() -> Self {
        ReadOptions { fill_cache: None, read_tier: None, prefix_same_as_start: None, total_order_seek: None, max_skippable_internal_keys: None, background_purge_on_iterator_cleanup: None, ignore_range_deletions: None, verify_checksums: None, readahead_size: None, tailing: None, pin_data: None, iterate_upper_bound: None, iterate_lower_bound: None }
    }
}

impl Default for ReadOptions {
    fn default() -> (r: Self)
        ensures
            r == ReadOptions::spec_default(),
    {
        ReadOptions { fill_cache: None, read_tier: None, prefix_same_as_start: None, total_order_seek: None, max_skippable_internal_keys: None, background_purge_on_iterator_cleanup: None, ignore_range_deletions: None, verify_checksums: None, readahead_size: None, tailing: None, pin_data: None, iterate_upper_bound: None, iterate_lower_bound: None }
    }
}

/// For configuring external files ingestion.
#[derive(Clone, Copy)]
pub struct IngestExternalFileOptions {
    pub move_files: Option<bool>,
    pub snapshot_consistency: Option<bool>,
    pub allow_global_seqno: Option<bool>,
    pub allow_blocking_flush: Option<bool>,
    pub ingest_behind: Option<bool>,
}

impl IngestExternalFileOptions {
    /// The options with no setting given.
    pub open spec fn spec_default() -> Self {
        IngestExternalFileOptions { move_files: None, snapshot_consistency: None, allow_global_seqno: None, allow_blocking_flush: None, ingest_behind: None }
    }
}

impl Default for IngestExternalFileOptions {
    fn default() -> (r: Self)
        ensures
            r == IngestExternalFileOptions::spec_default(),
    {
        IngestExternalFileOptions { move_files: None, snapshot_consistency: None, allow_global_seqno: None, allow_blocking_flush: None, ingest_behind: None }
    }
}

/// Options for a manual compaction.
#[derive(Clone, Copy)]
pub struct CompactOptions {
    pub exclusive_manual_compaction: Option<bool>,
    pub bottommost_level_compaction: Option<BottommostLevelCompaction>,
    pub change_level: Option<bool>,
    pub target_level: Option<i32>,
}

impl CompactOptions {
    /// The options with no setting given.
    pub open spec fn spec_default() -> Self {
        CompactOptions { exclusive_manual_compaction: None, bottommost_level_compaction: None, change_level: None, target_level: None }
    }
}

impl Default for CompactOptions {
    fn default() -> (r: Self)
        ensures
            r == CompactOptions::spec_default(),
    {
        CompactOptions { exclusive_manual_compaction: None, bottommost_level_compaction: None, change_level: None, target_level: None }
    }
}

/// Options for FIFO compaction.
#[derive(Clone, Copy)]
pub struct FifoCompactOptions {
    pub max_table_files_size: Option<u64>,
}

impl FifoCompactOptions {
    /// The options with no setting given.
    pub open spec fn spec_default() -> Self {
        FifoCompactOptions { max_table_files_size: None }
    }
}

impl Default for FifoCompactOptions {
    fn default() -> (r: Self)
        ensures
            r == FifoCompactOptions::spec_default(),
    {
        FifoCompactOptions { max_table_files_size: None }
    }
}

/// Options for universal compaction.
#[derive(Clone, Copy)]
pub struct UniversalCompactOptions {
    pub size_ratio: Option<i32>,
    pub min_merge_width: Option<i32>,
    pub max_merge_width: Option<i32>,
    pub max_size_amplification_percent: Option<i32>,
    pub compression_size_percent: Option<i32>,
    pub stop_style: Option<UniversalCompactionStopStyle>,
}

impl UniversalCompactOptions {
    /// The options with no setting given.
    pub open spec fn spec_default() -> Self {
        UniversalCompactOptions { size_ratio: None, min_merge_width: None, max_merge_width: None, max_size_amplification_percent: None, compression_size_percent: None, stop_style: None }
    }
}

impl Default for UniversalCompactOptions {
    fn default() -> (r: Self)
        ensures
            r == UniversalCompactOptions::spec_default(),
    {
        UniversalCompactOptions { size_ratio: None, min_merge_width: None, max_merge_width: None, max_size_amplification_percent: None, compression_size_percent: None, stop_style: None }
    }
}

/// For configuring block-based file storage.
#[derive(Clone, Copy)]
pub struct BlockBasedOptions {
    pub block_size: Option<usize>,
    pub metadata_block_size: Option<usize>,
    pub partition_filters: Option<bool>,
    pub cache_index_and_filter_blocks: Option<bool>,
    pub index_type: Option<BlockBasedIndexType>,
    pub pin_l0_filter_and_index_blocks_in_cache: Option<bool>,
    pub pin_top_level_index_and_filter: Option<bool>,
    pub format_version: Option<i32>,
    pub block_restart_interval: Option<i32>,
    pub index_block_restart_interval: Option<i32>,
    pub data_block_index_type: Option<DataBlockIndexType>,
    pub no_block_cache: Option<bool>,
    pub block_cache: Option<Cache>,
    pub block_cache_compressed: Option<Cache>,
    pub bloom_filter: Option<(i32, bool)>,
}

impl BlockBasedOptions {
    /// The options with no setting given.
    pub open spec fn spec_default() -> Self {
        BlockBasedOptions { block_size: None, metadata_block_size: None, partition_filters: None, cache_index_and_filter_blocks: None, index_type: None, pin_l0_filter_and_index_blocks_in_cache: None, pin_top_level_index_and_filter: None, format_version: None, block_restart_interval: None, index_block_restart_interval: None, data_block_index_type: None, no_block_cache: None, block_cache: None, block_cache_compressed: None, bloom_filter: None }
    }
}

impl Default for BlockBasedOptions {
    fn default() -> (r: Self)
        ensures
            r == BlockBasedOptions::spec_default(),
    {
        BlockBasedOptions { block_size: None, metadata_block_size: None, partition_filters: None, cache_index_and_filter_blocks: None, index_type: None, pin_l0_filter_and_index_blocks_in_cache: None, pin_top_level_index_and_filter: None, format_version: None, block_restart_interval: None, index_block_restart_interval: None, data_block_index_type: None, no_block_cache: None, block_cache: None, block_cache_compressed: None, bloom_filter: None }
    }
}
impl Options {
    /// If true, the database will be created if it is missing.
    pub fn create_if_missing(&mut self, v: bool)
        ensures
            *final(self) == (Options { create_if_missing: Some(v), ..*old(self) }),
    {
        self.create_if_missing = Some(v);
    }

    /// If true, any column families that didn't exist when opening the database will be created.
    pub fn create_missing_column_families(&mut self, v: bool)
        ensures
            *final(self) == (Options { create_missing_column_families: Some(v), ..*old(self) }),
    {
        self.create_missing_column_families = Some(v);
    }

    /// Specifies whether an error should be raised if the database already exists.
    pub fn set_error_if_exists(&mut self, v: bool)
        ensures
            *final(self) == (Options { error_if_exists: Some(v), ..*old(self) }),
    {
        self.error_if_exists = Some(v);
    }

    /// Enable/disable paranoid checks.
    pub fn set_paranoid_checks(&mut self, v: bool)
        ensures
            *final(self) == (Options { paranoid_checks: Some(v), ..*old(self) }),
    {
        self.paranoid_checks = Some(v);
    }

    /// If true, then every store to stable storage will issue a fsync.
    pub fn set_use_fsync(&mut self, v: bool)
        ensures
            *final(self) == (Options { use_fsync: Some(v), ..*old(self) }),
    {
        self.use_fsync = Some(v);
    }

    /// Enable direct I/O mode for reading.
    pub fn set_use_direct_reads(&mut self, v: bool)
        ensures
            *final(self) == (Options { use_direct_reads: Some(v), ..*old(self) }),
    {
        self.use_direct_reads = Some(v);
    }

    /// Enable direct I/O mode for flush and compaction.
    pub fn set_use_direct_io_for_flush_and_compaction(&mut self, v: bool)
        ensures
            *final(self) == (Options { use_direct_io_for_flush_and_compaction: Some(v), ..*old(self) }),
    {
        self.use_direct_io_for_flush_and_compaction = Some(v);
    }

    /// Allow the OS to mmap file for reading sst tables.
    pub fn set_allow_mmap_reads(&mut self, v: bool)
        ensures
            *final(self) == (Options { allow_mmap_reads: Some(v), ..*old(self) }),
    {
        self.allow_mmap_reads = Some(v);
    }

    /// Allow the OS to mmap file for writing.
    pub fn set_allow_mmap_writes(&mut self, v: bool)
        ensures
            *final(self) == (Options { allow_mmap_writes: Some(v), ..*old(self) }),
    {
        self.allow_mmap_writes = Some(v);
    }

    /// Sets the number of open files that can be used by the DB.
    pub fn set_max_open_files(&mut self, v: i32)
        ensures
            *final(self) == (Options { max_open_files: Some(v), ..*old(self) }),
    {
        self.max_open_files = Some(v);
    }

    /// Sets the amount of data to build up in memory before converting to a sorted on-disk file.
    pub fn set_write_buffer_size(&mut self, v: usize)
        ensures
            *final(self) == (Options { write_buffer_size: Some(v), ..*old(self) }),
    {
        self.write_buffer_size = Some(v);
    }

    /// Amount of data to build up in memtables across all column families before writing to disk.
    pub fn set_db_write_buffer_size(&mut self, v: usize)
        ensures
            *final(self) == (Options { db_write_buffer_size: Some(v), ..*old(self) }),
    {
        self.db_write_buffer_size = Some(v);
    }

    /// Sets the maximum number of write buffers that are built up in memory.
    pub fn set_max_write_buffer_number(&mut self, v: i32)
        ensures
            *final(self) == (Options { max_write_buffer_number: Some(v), ..*old(self) }),
    {
        self.max_write_buffer_number = Some(v);
    }

    /// Sets the minimum number of write buffers that will be merged together before writing to storage.
    pub fn set_min_write_buffer_number_to_merge(&mut self, v: i32)
        ensures
            *final(self) == (Options { min_write_buffer_number_to_merge: Some(v), ..*old(self) }),
    {
        self.min_write_buffer_number_to_merge = Some(v);
    }

    /// Sets the target file size for compaction.
    pub fn set_target_file_size_base(&mut self, v: u64)
        ensures
            *final(self) == (Options { target_file_size_base: Some(v), ..*old(self) }),
    {
        self.target_file_size_base = Some(v);
    }

    /// Sets the maximum total data size for base level.
    pub fn set_max_bytes_for_level_base(&mut self, v: u64)
        ensures
            *final(self) == (Options { max_bytes_for_level_base: Some(v), ..*old(self) }),
    {
        self.max_bytes_for_level_base = Some(v);
    }

    /// Sets the number of files to trigger level-0 compaction.
    pub fn set_level_zero_file_num_compaction_trigger(&mut self, v: i32)
        ensures
            *final(self) == (Options { level_zero_file_num_compaction_trigger: Some(v), ..*old(self) }),
    {
        self.level_zero_file_num_compaction_trigger = Some(v);
    }

    /// Sets the soft limit on number of level-0 files.
    pub fn set_level_zero_slowdown_writes_trigger(&mut self, v: i32)
        ensures
            *final(self) == (Options { level_zero_slowdown_writes_trigger: Some(v), ..*old(self) }),
    {
        self.level_zero_slowdown_writes_trigger = Some(v);
    }

    /// Sets the maximum number of level-0 files.
    pub fn set_level_zero_stop_writes_trigger(&mut self, v: i32)
        ensures
            *final(self) == (Options { level_zero_stop_writes_trigger: Some(v), ..*old(self) }),
    {
        self.level_zero_stop_writes_trigger = Some(v);
    }

    /// Sets the number of levels for this database.
    pub fn set_num_levels(&mut self, v: i32)
        ensures
            *final(self) == (Options { num_levels: Some(v), ..*old(self) }),
    {
        self.num_levels = Some(v);
    }

    /// Specifies the maximum number of concurrent background jobs.
    pub fn set_max_background_jobs(&mut self, v: i32)
        ensures
            *final(self) == (Options { max_background_jobs: Some(v), ..*old(self) }),
    {
        self.max_background_jobs = Some(v);
    }

    /// Sets the compression algorithm that will be used for compressing blocks.
    pub fn set_compression_type(&mut self, v: DBCompressionType)
        ensures
            *final(self) == (Options { compression_type: Some(v), ..*old(self) }),
    {
        self.compression_type = Some(v);
    }

    /// Sets the compaction style.
    pub fn set_compaction_style(&mut self, v: DBCompactionStyle)
        ensures
            *final(self) == (Options { compaction_style: Some(v), ..*old(self) }),
    {
        self.compaction_style = Some(v);
    }

    /// Disables automatic compactions.
    pub fn set_disable_auto_compactions(&mut self, v: bool)
        ensures
            *final(self) == (Options { disable_auto_compactions: Some(v), ..*old(self) }),
    {
        self.disable_auto_compactions = Some(v);
    }

    /// Guarantee that all column families are flushed together atomically.
    pub fn set_atomic_flush(&mut self, v: bool)
        ensures
            *final(self) == (Options { atomic_flush: Some(v), ..*old(self) }),
    {
        self.atomic_flush = Some(v);
    }

    /// Recovery mode to control the consistency while replaying WAL.
    pub fn set_wal_recovery_mode(&mut self, v: DBRecoveryMode)
        ensures
            *final(self) == (Options { wal_recovery_mode: Some(v), ..*old(self) }),
    {
        self.wal_recovery_mode = Some(v);
    }

    /// Sets the maximal info log files to be kept.
    pub fn set_keep_log_file_num(&mut self, v: usize)
        ensures
            *final(self) == (Options { keep_log_file_num: Some(v), ..*old(self) }),
    {
        self.keep_log_file_num = Some(v);
    }

    /// Allows OS to incrementally sync files to disk while they are being written.
    pub fn set_bytes_per_sync(&mut self, v: u64)
        ensures
            *final(self) == (Options { bytes_per_sync: Some(v), ..*old(self) }),
    {
        self.bytes_per_sync = Some(v);
    }

    /// Specifies the file access pattern once a compaction is started.
    pub fn set_access_hint_on_compaction_start(&mut self, v: AccessHint)
        ensures
            *final(self) == (Options { access_hint_on_compaction_start: Some(v), ..*old(self) }),
    {
        self.access_hint_on_compaction_start = Some(v);
    }

    /// Allow RocksDB to pick dynamic base of bytes for levels.
    /// With this feature turned on, RocksDB will automatically adjust max bytes for each level.
    /// The goal of this feature is to have lower bound on size amplification.
    ///
    /// Default: false.
    pub fn set_level_compaction_dynamic_level_bytes(&mut self, v: bool)
        ensures
            *final(self) == (Options { level_compaction_dynamic_level_bytes: Some(v), ..*old(self) }),
    {
        self.level_compaction_dynamic_level_bytes = Some(v);
    }

    /// If non-zero, we perform bigger reads when doing compaction. If you're
    /// running RocksDB on spinning disks, you should set this to at least 2MB.
    /// That way RocksDB's compaction is doing sequential instead of random reads.
    ///
    /// When non-zero, we also force new_table_reader_for_compaction_inputs to
    /// true.
    ///
    /// Default: `0`
    pub fn set_compaction_readahead_size(&mut self, v: usize)
        ensures
            *final(self) == (Options { compaction_readahead_size: Some(v), ..*old(self) }),
    {
        self.compaction_readahead_size = Some(v);
    }

    /// Sets the optimize_filters_for_hits flag
    ///
    /// Default: `false`
    pub fn set_optimize_filters_for_hits(&mut self, v: bool)
        ensures
            *final(self) == (Options { optimize_filters_for_hits: Some(v), ..*old(self) }),
    {
        self.optimize_filters_for_hits = Some(v);
    }

    /// Sets the periodicity when obsolete files get deleted.
    ///
    /// The files that get out of scope by compaction
    /// process will still get automatically delete on every compaction,
    /// regardless of this setting.
    ///
    /// Default: 6 hours
    pub fn set_delete_obsolete_files_period_micros(&mut self, v: u64)
        ensures
            *final(self) == (Options { delete_obsolete_files_period_micros: Some(v), ..*old(self) }),
    {
        self.delete_obsolete_files_period_micros = Some(v);
    }

    /// If max_open_files is -1, DB will open all files on DB::Open(). You can
    /// use this option to increase the number of threads used to open the files.
    /// Default: 16
    pub fn set_max_file_opening_threads(&mut self, v: i32)
        ensures
            *final(self) == (Options { max_file_opening_threads: Some(v), ..*old(self) }),
    {
        self.max_file_opening_threads = Some(v);
    }

    /// Same as bytes_per_sync, but applies to WAL files.
    ///
    /// Default: 0, turned off
    ///
    /// Dynamically changeable through SetDBOptions() API.
    pub fn set_wal_bytes_per_sync(&mut self, v: u64)
        ensures
            *final(self) == (Options { wal_bytes_per_sync: Some(v), ..*old(self) }),
    {
        self.wal_bytes_per_sync = Some(v);
    }

    /// Sets the maximum buffer size that is used by WritableFileWriter.
    ///
    /// On Windows, we need to maintain an aligned buffer for writes.
    /// We allow the buffer to grow until it's size hits the limit in buffered
    /// IO and fix the buffer size when using direct IO to ensure alignment of
    /// write requests if the logical sector size is unusual
    ///
    /// Default: 1024 * 1024 (1 MB)
    ///
    /// Dynamically changeable through SetDBOptions() API.
    pub fn set_writable_file_max_buffer_size(&mut self, v: u64)
        ensures
            *final(self) == (Options { writable_file_max_buffer_size: Some(v), ..*old(self) }),
    {
        self.writable_file_max_buffer_size = Some(v);
    }

    /// If true, allow multi-writers to update mem tables in parallel.
    /// Only some memtable_factory-s support concurrent writes; currently it
    /// is implemented only for SkipListFactory.  Concurrent memtable writes
    /// are not compatible with inplace_update_support or filter_deletes.
    /// It is strongly recommended to set enable_write_thread_adaptive_yield
    /// if you are going to use this feature.
    ///
    /// Default: true
    pub fn set_allow_concurrent_memtable_write(&mut self, v: bool)
        ensures
            *final(self) == (Options { allow_concurrent_memtable_write: Some(v), ..*old(self) }),
    {
        self.allow_concurrent_memtable_write = Some(v);
    }

    /// If true, threads synchronizing with the write batch group leader will wait for up to
    /// write_thread_max_yield_usec before blocking on a mutex. This can substantially improve
    /// throughput for concurrent workloads, regardless of whether allow_concurrent_memtable_write
    /// is enabled.
    ///
    /// Default: true
    pub fn set_enable_write_thread_adaptive_yield(&mut self, v: bool)
        ensures
            *final(self) == (Options { enable_write_thread_adaptive_yield: Some(v), ..*old(self) }),
    {
        self.enable_write_thread_adaptive_yield = Some(v);
    }

    /// Specifies whether an iteration->Next() sequentially skips over keys with the same user-key or not.
    ///
    /// This number specifies the number of keys (with the same userkey)
    /// that will be sequentially skipped before a reseek is issued.
    ///
    /// Default: 8
    pub fn set_max_sequential_skip_in_iterations(&mut self, v: u64)
        ensures
            *final(self) == (Options { max_sequential_skip_in_iterations: Some(v), ..*old(self) }),
    {
        self.max_sequential_skip_in_iterations = Some(v);
    }

    /// Enable/dsiable child process inherit open files.
    ///
    /// Default: true
    pub fn set_is_fd_close_on_exec(&mut self, v: bool)
        ensures
            *final(self) == (Options { is_fd_close_on_exec: Some(v), ..*old(self) }),
    {
        self.is_fd_close_on_exec = Some(v);
    }

    /// Enable/disable skipping of log corruption error on recovery (If client is ok with
    /// losing most recent changes)
    ///
    /// Default: false
    pub fn set_skip_log_error_on_recovery(&mut self, v: bool)
        ensures
            *final(self) == (Options { skip_log_error_on_recovery: Some(v), ..*old(self) }),
    {
        self.skip_log_error_on_recovery = Some(v);
    }

    /// Sets the number of shards used for table cache.
    ///
    /// Default: `6`
    pub fn set_table_cache_num_shard_bits(&mut self, v: i32)
        ensures
            *final(self) == (Options { table_cache_num_shard_bits: Some(v), ..*old(self) }),
    {
        self.table_cache_num_shard_bits = Some(v);
    }

    /// By default target_file_size_multiplier is 1, which means
    /// by default files in different levels will have similar size.
    ///
    /// Dynamically changeable through SetOptions() API
    pub fn set_target_file_size_multiplier(&mut self, v: i32)
        ensures
            *final(self) == (Options { target_file_size_multiplier: Some(v), ..*old(self) }),
    {
        self.target_file_size_multiplier = Some(v);
    }

    /// Sets the minimum number of write buffers that will be merged together
    /// before writing to storage.  If set to `1`, then
    /// all write buffers are flushed to L0 as individual files and this increases
    /// read amplification because a get request has to check in all of these
    /// files. Also, an in-memory merge may result in writing lesser
    /// data to storage if there are duplicate records in each of these
    /// individual write buffers.
    ///
    /// Default: `1`
    pub fn set_min_write_buffer_number(&mut self, v: i32)
        ensures
            *final(self) == (Options { min_write_buffer_number_to_merge: Some(v), ..*old(self) }),
    {
        self.min_write_buffer_number_to_merge = Some(v);
    }

    /// The manifest file is rolled over on reaching this limit.
    /// The older manifest file be deleted.
    /// The default value is MAX_INT so that roll-over does not take place.
    pub fn set_max_manifest_file_size(&mut self, v: usize)
        ensures
            *final(self) == (Options { max_manifest_file_size: Some(v), ..*old(self) }),
    {
        self.max_manifest_file_size = Some(v);
    }

    /// Sets unordered_write to true trades higher write throughput with
    /// relaxing the immutability guarantee of snapshots. This violates the
    /// repeatability one expects from ::Get from a snapshot, as well as
    /// ::MultiGet and Iterator's consistent-point-in-time view property.
    /// If the application cannot tolerate the relaxed guarantees, it can implement
    /// its own mechanisms to work around that and yet benefit from the higher
    /// throughput. Using TransactionDB with WRITE_PREPARED write policy and
    /// two_write_queues=true is one way to achieve immutable snapshots despite
    /// unordered_write.
    ///
    /// By default, i.e., when it is false, rocksdb does not advance the sequence
    /// number for new snapshots unless all the writes with lower sequence numbers
    /// are already finished. This provides the immutability that we except from
    /// snapshots. Moreover, since Iterator and MultiGet internally depend on
    /// snapshots, the snapshot immutability results into Iterator and MultiGet
    /// offering consistent-point-in-time view. If set to true, although
    /// Read-Your-Own-Write property is still provided, the snapshot immutability
    /// property is relaxed: the writes issued after the snapshot is obtained (with
    /// larger sequence numbers) will be still not visible to the reads from that
    /// snapshot, however, there still might be pending writes (with lower sequence
    /// number) that will change the state visible to the snapshot after they are
    /// landed to the memtable.
    ///
    /// Default: false
    pub fn set_unordered_write(&mut self, v: bool)
        ensures
            *final(self) == (Options { unordered_write: Some(v), ..*old(self) }),
    {
        self.unordered_write = Some(v);
    }

    /// Sets maximum number of threads that will
    /// concurrently perform a compaction job by breaking it into multiple,
    /// smaller ones that are run simultaneously.
    ///
    /// Default: 1 (i.e. no subcompactions)
    pub fn set_max_subcompactions(&mut self, v: u32)
        ensures
            *final(self) == (Options { max_subcompactions: Some(v), ..*old(self) }),
    {
        self.max_subcompactions = Some(v);
    }

    /// Sets the maximum number of concurrent background compaction jobs, submitted to
    /// the default LOW priority thread pool.
    /// We first try to schedule compactions based on
    /// `base_background_compactions`. If the compaction cannot catch up , we
    /// will increase number of compaction threads up to
    /// `max_background_compactions`.
    ///
    /// If you're increasing this, also consider increasing number of threads in
    /// LOW priority thread pool. For more information, see
    /// Env::SetBackgroundThreads
    ///
    /// Default: `1`
    pub fn set_max_background_compactions(&mut self, v: i32)
        ensures
            *final(self) == (Options { max_background_compactions: Some(v), ..*old(self) }),
    {
        self.max_background_compactions = Some(v);
    }

    /// Sets the maximum number of concurrent background memtable flush jobs, submitted to
    /// the HIGH priority thread pool.
    ///
    /// By default, all background jobs (major compaction and memtable flush) go
    /// to the LOW priority pool. If this option is set to a positive number,
    /// memtable flush jobs will be submitted to the HIGH priority pool.
    /// It is important when the same Env is shared by multiple db instances.
    /// Without a separate pool, long running major compaction jobs could
    /// potentially block memtable flush jobs of other db instances, leading to
    /// unnecessary Put stalls.
    ///
    /// If you're increasing this, also consider increasing number of threads in
    /// HIGH priority thread pool. For more information, see
    /// Env::SetBackgroundThreads
    ///
    /// Default: `1`
    pub fn set_max_background_flushes(&mut self, v: i32)
        ensures
            *final(self) == (Options { max_background_flushes: Some(v), ..*old(self) }),
    {
        self.max_background_flushes = Some(v);
    }

    /// SetMemtableHugePageSize sets the page size for huge page for
    /// arena used by the memtable.
    /// If <=0, it won't allocate from huge page but from malloc.
    /// Users are responsible to reserve huge pages for it to be allocated. For
    /// example:
    ///      sysctl -w vm.nr_hugepages=20
    /// See linux doc Documentation/vm/hugetlbpage.txt
    /// If there isn't enough free huge page available, it will fall back to
    /// malloc.
    ///
    /// Dynamically changeable through SetOptions() API
    pub fn set_memtable_huge_page_size(&mut self, v: usize)
        ensures
            *final(self) == (Options { memtable_huge_page_size: Some(v), ..*old(self) }),
    {
        self.memtable_huge_page_size = Some(v);
    }

    /// Sets the maximum number of successive merge operations on a key in the memtable.
    ///
    /// When a merge operation is added to the memtable and the maximum number of
    /// successive merges is reached, the value of the key will be calculated and
    /// inserted into the memtable instead of the merge operation. This will
    /// ensure that there are never more than max_successive_merges merge
    /// operations in the memtable.
    ///
    /// Default: 0 (disabled)
    pub fn set_max_successive_merges(&mut self, v: usize)
        ensures
            *final(self) == (Options { max_successive_merges: Some(v), ..*old(self) }),
    {
        self.max_successive_merges = Some(v);
    }

    /// Control locality of bloom filter probes to improve cache miss rate.
    /// This option only applies to memtable prefix bloom and plaintable
    /// prefix bloom. It essentially limits the max number of cache lines each
    /// bloom filter check can touch.
    ///
    /// This optimization is turned off when set to 0. The number should never
    /// be greater than number of probes. This option can boost performance
    /// for in-memory workload but should use with care since it can cause
    /// higher false positive rate.
    ///
    /// Default: 0
    pub fn set_bloom_locality(&mut self, v: u32)
        ensures
            *final(self) == (Options { bloom_locality: Some(v), ..*old(self) }),
    {
        self.bloom_locality = Some(v);
    }

    /// Enable/disable thread-safe inplace updates.
    ///
    /// Requires updates if
    /// * key exists in current memtable
    /// * new sizeof(new_value) <= sizeof(old_value)
    /// * old_value for that key is a put i.e. kTypeValue
    ///
    /// Default: false.
    pub fn set_inplace_update_support(&mut self, v: bool)
        ensures
            *final(self) == (Options { inplace_update_support: Some(v), ..*old(self) }),
    {
        self.inplace_update_support = Some(v);
    }

    /// Sets the number of locks used for inplace update.
    ///
    /// Default: 10000 when inplace_update_support = true, otherwise 0.
    pub fn set_inplace_update_locks(&mut self, v: usize)
        ensures
            *final(self) == (Options { inplace_update_locks: Some(v), ..*old(self) }),
    {
        self.inplace_update_locks = Some(v);
    }

    /// If true, then DB::Open() will not fetch and check sizes of all sst files.
    /// This may significantly speed up startup if there are many sst files,
    /// especially when using non-default Env with expensive GetFileSize().
    /// We'll still check that all required sst files exist.
    /// If paranoid_checks is false, this option is ignored, and sst files are
    /// not checked at all.
    ///
    /// Default: false
    pub fn set_skip_checking_sst_file_sizes_on_db_open(&mut self, v: bool)
        ensures
            *final(self) == (Options { skip_checking_sst_file_sizes_on_db_open: Some(v), ..*old(self) }),
    {
        self.skip_checking_sst_file_sizes_on_db_open = Some(v);
    }

    /// The total maximum size(bytes) of write buffers to maintain in memory
    /// including copies of buffers that have already been flushed. This parameter
    /// only affects trimming of flushed buffers and does not affect flushing.
    /// This controls the maximum amount of write history that will be available
    /// in memory for conflict checking when Transactions are used. The actual
    /// size of write history (flushed Memtables) might be higher than this limit
    /// if further trimming will reduce write history total size below this
    /// limit. For example, if max_write_buffer_size_to_maintain is set to 64MB,
    /// and there are three flushed Memtables, with sizes of 32MB, 20MB, 20MB.
    /// Because trimming the next Memtable of size 20MB will reduce total memory
    /// usage to 52MB which is below the limit, RocksDB will stop trimming.
    ///
    /// When using an OptimisticTransactionDB:
    /// If this value is too low, some transactions may fail at commit time due
    /// to not being able to determine whether there were any write conflicts.
    ///
    /// When using a TransactionDB:
    /// If Transaction::SetSnapshot is used, TransactionDB will read either
    /// in-memory write buffers or SST files to do write-conflict checking.
    /// Increasing this value can reduce the number of reads to SST files
    /// done for conflict detection.
    ///
    /// Setting this value to 0 will cause write buffers to be freed immediately
    /// after they are flushed. If this value is set to -1,
    /// 'max_write_buffer_number * write_buffer_size' will be used.
    ///
    /// Default:
    /// If using a TransactionDB/OptimisticTransactionDB, the default value will
    /// be set to the value of 'max_write_buffer_number * write_buffer_size'
    /// if it is not explicitly set by the user.  Otherwise, the default is 0.
    pub fn set_max_write_buffer_size_to_maintain(&mut self, v: i64)
        ensures
            *final(self) == (Options { max_write_buffer_size_to_maintain: Some(v), ..*old(self) }),
    {
        self.max_write_buffer_size_to_maintain = Some(v);
    }

    /// By default, a single write thread queue is maintained. The thread gets
    /// to the head of the queue becomes write batch group leader and responsible
    /// for writing to WAL and memtable for the batch group.
    ///
    /// If enable_pipelined_write is true, separate write thread queue is
    /// maintained for WAL write and memtable write. A write thread first enter WAL
    /// writer queue and then memtable writer queue. Pending thread on the WAL
    /// writer queue thus only have to wait for previous writers to finish their
    /// WAL writing but not the memtable writing. Enabling the feature may improve
    /// write throughput and reduce latency of the prepare phase of two-phase
    /// commit.
    ///
    /// Default: false
    pub fn set_enable_pipelined_write(&mut self, v: bool)
        ensures
            *final(self) == (Options { enable_pipelined_write: Some(v), ..*old(self) }),
    {
        self.enable_pipelined_write = Some(v);
    }

    /// Sets the start level to use compression.
    pub fn set_min_level_to_compress(&mut self, v: i32)
        ensures
            *final(self) == (Options { min_level_to_compress: Some(v), ..*old(self) }),
    {
        self.min_level_to_compress = Some(v);
    }

    /// Measure IO stats in compactions and flushes, if `true`.
    ///
    /// Default: `false`
    pub fn set_report_bg_io_stats(&mut self, v: bool)
        ensures
            *final(self) == (Options { report_bg_io_stats: Some(v), ..*old(self) }),
    {
        self.report_bg_io_stats = Some(v);
    }

    /// Once write-ahead logs exceed this size, we will start forcing the flush of
    /// column families whose memtables are backed by the oldest live WAL file
    /// (i.e. the ones that are causing all the space amplification).
    ///
    /// Default: `0`
    pub fn set_max_total_wal_size(&mut self, v: u64)
        ensures
            *final(self) == (Options { max_total_wal_size: Some(v), ..*old(self) }),
    {
        self.max_total_wal_size = Some(v);
    }

    /// If not zero, dump `rocksdb.stats` to LOG every `stats_dump_period_sec`.
    ///
    /// Default: `600` (10 mins)
    pub fn set_stats_dump_period_sec(&mut self, v: u32)
        ensures
            *final(self) == (Options { stats_dump_period_sec: Some(v), ..*old(self) }),
    {
        self.stats_dump_period_sec = Some(v);
    }

    /// When set to true, reading SST files will opt out of the filesystem's
    /// readahead. Setting this to false may improve sequential iteration
    /// performance.
    ///
    /// Default: `true`
    pub fn set_advise_random_on_open(&mut self, v: bool)
        ensures
            *final(self) == (Options { advise_random_on_open: Some(v), ..*old(self) }),
    {
        self.advise_random_on_open = Some(v);
    }

    /// Enable/disable adaptive mutex, which spins in the user space before resorting to kernel.
    ///
    /// This could reduce context switch when the mutex is not
    /// heavily contended. However, if the mutex is hot, we could end up
    /// wasting spin time.
    ///
    /// Default: false
    pub fn set_use_adaptive_mutex(&mut self, v: bool)
        ensures
            *final(self) == (Options { use_adaptive_mutex: Some(v), ..*old(self) }),
    {
        self.use_adaptive_mutex = Some(v);
    }

    /// Sets the maximum number of bytes in all compacted files.
    /// We try to limit number of bytes in one compaction to be lower than this
    /// threshold. But it's not guaranteed.
    ///
    /// Value 0 will be sanitized.
    ///
    /// Default: target_file_size_base * 25
    pub fn set_max_compaction_bytes(&mut self, v: u64)
        ensures
            *final(self) == (Options { max_compaction_bytes: Some(v), ..*old(self) }),
    {
        self.max_compaction_bytes = Some(v);
    }

    /// Sets the WAL ttl in seconds.
    ///
    /// The following two options affect how archived logs will be deleted.
    /// 1. If both set to 0, logs will be deleted asap and will not get into
    ///    the archive.
    /// 2. If wal_ttl_seconds is 0 and wal_size_limit_mb is not 0,
    ///    WAL files will be checked every 10 min and if total size is greater
    ///    then wal_size_limit_mb, they will be deleted starting with the
    ///    earliest until size_limit is met. All empty files will be deleted.
    /// 3. If wal_ttl_seconds is not 0 and wall_size_limit_mb is 0, then
    ///    WAL files will be checked every wal_ttl_seconds / 2 and those that
    ///    are older than wal_ttl_seconds will be deleted.
    /// 4. If both are not 0, WAL files will be checked every 10 min and both
    ///    checks will be performed with ttl being first.
    ///
    /// Default: 0
    pub fn set_wal_ttl_seconds(&mut self, v: u64)
        ensures
            *final(self) == (Options { wal_ttl_seconds: Some(v), ..*old(self) }),
    {
        self.wal_ttl_seconds = Some(v);
    }

    /// Sets the WAL size limit in MB.
    ///
    /// If total size of WAL files is greater then wal_size_limit_mb,
    /// they will be deleted starting with the earliest until size_limit is met.
    ///
    /// Default: 0
    pub fn set_wal_size_limit_mb(&mut self, v: u64)
        ensures
            *final(self) == (Options { wal_size_limit_mb: Some(v), ..*old(self) }),
    {
        self.wal_size_limit_mb = Some(v);
    }

    /// Sets the number of bytes to preallocate (via fallocate) the manifest files.
    ///
    /// Default is 4MB, which is reasonable to reduce random IO
    /// as well as prevent overallocation for mounts that preallocate
    /// large amounts of data (such as xfs's allocsize option).
    pub fn set_manifest_preallocation_size(&mut self, v: usize)
        ensures
            *final(self) == (Options { manifest_preallocation_size: Some(v), ..*old(self) }),
    {
        self.manifest_preallocation_size = Some(v);
    }

    /// Enable/disable purging of duplicate/deleted keys when a memtable is flushed to storage.
    ///
    /// Default: true
    pub fn set_purge_redundant_kvs_while_flush(&mut self, v: bool)
        ensures
            *final(self) == (Options { purge_redundant_kvs_while_flush: Some(v), ..*old(self) }),
    {
        self.purge_redundant_kvs_while_flush = Some(v);
    }

    /// If true, then DB::Open() will not update the statistics used to optimize
    /// compaction decision by loading table properties from many files.
    /// Turning off this feature will improve DBOpen time especially in disk environment.
    ///
    /// Default: false
    pub fn set_skip_stats_update_on_db_open(&mut self, v: bool)
        ensures
            *final(self) == (Options { skip_stats_update_on_db_open: Some(v), ..*old(self) }),
    {
        self.skip_stats_update_on_db_open = Some(v);
    }

    /// Sets the maximal size of the info log file.
    ///
    /// If the log file is larger than `max_log_file_size`, a new info log file
    /// will be created. If `max_log_file_size` is equal to zero, all logs will
    /// be written to one log file.
    ///
    /// Default: 0
    pub fn set_max_log_file_size(&mut self, v: usize)
        ensures
            *final(self) == (Options { max_log_file_size: Some(v), ..*old(self) }),
    {
        self.max_log_file_size = Some(v);
    }

    /// Sets the time for the info log file to roll (in seconds).
    ///
    /// If specified with non-zero value, log file will be rolled
    /// if it has been active longer than `log_file_time_to_roll`.
    /// Default: 0 (disabled)
    pub fn set_log_file_time_to_roll(&mut self, v: usize)
        ensures
            *final(self) == (Options { log_file_time_to_roll: Some(v), ..*old(self) }),
    {
        self.log_file_time_to_roll = Some(v);
    }

    /// Controls the recycling of log files.
    ///
    /// If non-zero, previously written log files will be reused for new logs,
    /// overwriting the old data. The value indicates how many such files we will
    /// keep around at any point in time for later use. This is more efficient
    /// because the blocks are already allocated and fdatasync does not need to
    /// update the inode after each write.
    ///
    /// Default: 0
    pub fn set_recycle_log_file_num(&mut self, v: usize)
        ensures
            *final(self) == (Options { recycle_log_file_num: Some(v), ..*old(self) }),
    {
        self.recycle_log_file_num = Some(v);
    }

    /// Sets the threshold at which all writes will be slowed down to at least delayed_write_rate if estimated
    /// bytes needed to be compaction exceed this threshold.
    ///
    /// Default: 64GB
    pub fn set_soft_pending_compaction_bytes_limit(&mut self, v: usize)
        ensures
            *final(self) == (Options { soft_pending_compaction_bytes_limit: Some(v), ..*old(self) }),
    {
        self.soft_pending_compaction_bytes_limit = Some(v);
    }

    /// Sets the bytes threshold at which all writes are stopped if estimated bytes needed to be compaction exceed
    /// this threshold.
    ///
    /// Default: 256GB
    pub fn set_hard_pending_compaction_bytes_limit(&mut self, v: usize)
        ensures
            *final(self) == (Options { hard_pending_compaction_bytes_limit: Some(v), ..*old(self) }),
    {
        self.hard_pending_compaction_bytes_limit = Some(v);
    }

    /// Sets the max time a put will be stalled when hard_rate_limit is enforced.
    /// If 0, then there is no limit.
    ///
    /// Default: 1000
    pub fn set_rate_limit_delay_max_milliseconds(&mut self, v: u32)
        ensures
            *final(self) == (Options { rate_limit_delay_max_milliseconds: Some(v), ..*old(self) }),
    {
        self.rate_limit_delay_max_milliseconds = Some(v);
    }

    /// Sets the size of one block in arena memory allocation.
    ///
    /// If <= 0, a proper value is automatically calculated (usually 1/10 of
    /// writer_buffer_size).
    ///
    /// Default: 0
    pub fn set_arena_block_size(&mut self, v: usize)
        ensures
            *final(self) == (Options { arena_block_size: Some(v), ..*old(self) }),
    {
        self.arena_block_size = Some(v);
    }

    /// If true, then print malloc stats together with rocksdb.stats when printing to LOG.
    ///
    /// Default: false
    pub fn set_dump_malloc_stats(&mut self, v: bool)
        ensures
            *final(self) == (Options { dump_malloc_stats: Some(v), ..*old(self) }),
    {
        self.dump_malloc_stats = Some(v);
    }

    /// Enable whole key bloom filter in memtable. Note this will only take effect
    /// if memtable_prefix_bloom_size_ratio is not 0. Enabling whole key filtering
    /// can potentially reduce CPU usage for point-look-ups.
    ///
    /// Default: false (disable)
    ///
    /// Dynamically changeable through SetOptions() API
    pub fn set_memtable_whole_key_filtering(&mut self, v: bool)
        ensures
            *final(self) == (Options { memtable_whole_key_filtering: Some(v), ..*old(self) }),
    {
        self.memtable_whole_key_filtering = Some(v);
    }

    /// By default, RocksDB uses only one background thread for flush and
    /// compaction. Calling this function will set it up such that total of
    /// `total_threads` is used. Good value for `total_threads` is the number of
    /// cores. You almost definitely want to call this function if your system is
    /// bottlenecked by RocksDB.
    pub fn increase_parallelism(&mut self, v: i32)
        ensures
            *final(self) == (Options { increase_parallelism: Some(v), ..*old(self) }),
    {
        self.increase_parallelism = Some(v);
    }

    /// Optimizes the options for point lookups, with a block cache of
    /// `v` megabytes.
    pub fn optimize_for_point_lookup(&mut self, v: u64)
        ensures
            *final(self) == (Options { optimize_for_point_lookup: Some(v), ..*old(self) }),
    {
        self.optimize_for_point_lookup = Some(v);
    }

    /// Optimize level style compaction.
    ///
    /// Default values for some parameters in `Options` are not optimized for heavy
    /// workloads and big datasets, which means you might observe write stalls under
    /// some conditions.
    ///
    /// This can be used as one of the starting points for tuning RocksDB options in
    /// such cases.
    ///
    /// Internally, it sets `write_buffer_size`, `min_write_buffer_number_to_merge`,
    /// `max_write_buffer_number`, `level0_file_num_compaction_trigger`,
    /// `target_file_size_base`, `max_bytes_for_level_base`, so it can override if those
    /// parameters were set before.
    ///
    /// It sets buffer sizes so that memory consumption would be constrained by
    /// `memtable_memory_budget`.
    pub fn optimize_level_style_compaction(&mut self, memtable_memory_budget: usize)
        ensures
            *final(self) == (Options {
                optimize_level_style_compaction: Some(memtable_memory_budget as u64),
                ..*old(self)
            }),
    {
        self.optimize_level_style_compaction = Some(memtable_memory_budget as u64);
    }

    /// Optimize universal style compaction.
    ///
    /// Default values for some parameters in `Options` are not optimized for heavy
    /// workloads and big datasets, which means you might observe write stalls under
    /// some conditions.
    ///
    /// This can be used as one of the starting points for tuning RocksDB options in
    /// such cases.
    ///
    /// Internally, it sets `write_buffer_size`, `min_write_buffer_number_to_merge`,
    /// `max_write_buffer_number`, `level0_file_num_compaction_trigger`,
    /// `target_file_size_base`, `max_bytes_for_level_base`, so it can override if those
    /// parameters were set before.
    ///
    /// It sets buffer sizes so that memory consumption would be constrained by
    /// `memtable_memory_budget`.
    pub fn optimize_universal_style_compaction(&mut self, memtable_memory_budget: usize)
        ensures
            *final(self) == (Options {
                optimize_universal_style_compaction: Some(memtable_memory_budget as u64),
                ..*old(self)
            }),
    {
        self.optimize_universal_style_compaction = Some(memtable_memory_budget as u64);
    }

    /// Specifies the absolute info LOG dir.
    ///
    /// If it is empty, the log files will be in the same dir as data.
    /// If it is non empty, the log files will be in the specified dir,
    /// and the db data dir's absolute path will be used as the log file
    /// name's prefix.
    ///
    /// Default: empty
    pub fn set_db_log_dir(&mut self, path: &str)
        requires
            first_nul(path.spec_bytes()) is None,
        ensures
            final(self).db_log_dir matches Some(d) && d@ == path@,
            *final(self) == (Options { db_log_dir: final(self).db_log_dir, ..*old(self) }),
    {
        self.db_log_dir = Some(String::from_str(path));
    }

    /// Specifies the absolute path of the directory the
    /// write-ahead log (WAL) should be written to.
    ///
    /// Default: same directory as the database
    pub fn set_wal_dir(&mut self, path: &str)
        requires
            first_nul(path.spec_bytes()) is None,
        ensures
            final(self).wal_dir matches Some(d) && d@ == path@,
            *final(self) == (Options { wal_dir: final(self).wal_dir, ..*old(self) }),
    {
        self.wal_dir = Some(String::from_str(path));
    }

    /// Use the specified object to interact with the environment,
    /// e.g. to read/write files, schedule background work, etc. In the near
    /// future, support for doing storage operations such as read/write files
    /// through env will be deprecated in favor of file_system.
    ///
    /// Default: Env::default()
    pub fn set_env(&mut self, env: &Env)
        ensures
            *final(self) == (Options { env: Some(*env), ..*old(self) }),
    {
        self.env = Some(*env);
    }

    /// Sets the table factory to a block-based one with the given options.
    pub fn set_block_based_table_factory(&mut self, factory: &BlockBasedOptions)
        ensures
            *final(self) == (Options { block_based_table_factory: Some(*factory), ..*old(self) }),
    {
        self.block_based_table_factory = Some(*factory);
    }

    /// Sets the options needed to support Universal Style compactions.
    pub fn set_universal_compaction_options(&mut self, uco: &UniversalCompactOptions)
        ensures
            *final(self) == (Options { universal_compaction_options: Some(*uco), ..*old(self) }),
    {
        self.universal_compaction_options = Some(*uco);
    }

    /// Sets the options for FIFO compaction style.
    pub fn set_fifo_compaction_options(&mut self, fco: &FifoCompactOptions)
        ensures
            *final(self) == (Options { fifo_compaction_options: Some(*fco), ..*old(self) }),
    {
        self.fifo_compaction_options = Some(*fco);
    }

    /// Prepare the DB for bulk loading.
    ///
    /// All data will be in level 0 without any automatic compaction.
    /// It's recommended to manually call CompactRange(NULL, NULL) before reading
    /// from the database, because otherwise the read can be very slow.
    pub fn prepare_for_bulk_load(&mut self)
        ensures
            *final(self) == (Options { prepare_for_bulk_load: Some(true), ..*old(self) }),
    {
        self.prepare_for_bulk_load = Some(true);
    }

    /// Asks the engine to gather statistics.
    pub fn enable_statistics(&mut self)
        ensures
            *final(self) == (Options { statistics: Some(true), ..*old(self) }),
    {
        self.statistics = Some(true);
    }

    /// Use to control write rate of flush and compaction. Flush has higher
    /// priority than compaction.
    /// If rate limiter is enabled, bytes_per_sync is set to 1MB by default.
    ///
    /// Default: disable
    pub fn set_ratelimiter(&mut self, rate_bytes_per_sec: i64, refill_period_us: i64, fairness: i32)
        ensures
            *final(self) == (Options {
                ratelimiter: Some((rate_bytes_per_sec, refill_period_us, fairness)),
                ..*old(self)
            }),
    {
        self.ratelimiter = Some((rate_bytes_per_sec, refill_period_us, fairness));
    }

    /// Sets global cache for table-level rows. Cache must outlive DB instance which uses it.
    ///
    /// Default: null (disabled)
    /// Not supported in ROCKSDB_LITE mode!
    pub fn set_row_cache(&mut self, cache: &Cache)
        ensures
            *final(self) == (Options { row_cache: Some(*cache), ..*old(self) }),
    {
        self.row_cache = Some(*cache);
    }

    /// Sets the options of the compression algorithm: the window bits, the
    /// level, the strategy and the maximum size of the dictionary.
    pub fn set_compression_options(&mut self, w_bits: i32, level: i32, strategy: i32, max_dict_bytes: i32)
        ensures
            *final(self) == (Options {
                compression_options: Some((w_bits, level, strategy, max_dict_bytes)),
                ..*old(self)
            }),
    {
        self.compression_options = Some((w_bits, level, strategy, max_dict_bytes));
    }

    /// Different levels can have different compression policies. There
    /// are cases where most lower levels would like to use quick compression
    /// algorithms while the higher levels (which have more data) use
    /// compression algorithms that have better compression but could
    /// be slower. This array, if non-empty, should have an entry for
    /// each level of the database; these override the value specified in
    /// the previous field 'compression'.
    pub fn set_compression_per_level(&mut self, level_types: &[DBCompressionType])
        ensures
            final(self).compression_per_level matches Some(v) && v@ == level_types@,
            *final(self) == (Options { compression_per_level: final(self).compression_per_level, ..*old(self) }),
    {
        self.compression_per_level = Some(vstd::slice::slice_to_vec(level_types));
    }

    /// Different max-size multipliers for different levels.
    /// These are multiplied by max_bytes_for_level_multiplier to arrive
    /// at the max-size of each level.
    ///
    /// Default: 1
    ///
    /// Dynamically changeable through SetOptions() API
    pub fn set_max_bytes_for_level_multiplier_additional(&mut self, level_values: &[i32])
        ensures
            final(self).max_bytes_for_level_multiplier_additional matches Some(v) && v@ == level_values@,
            *final(self) == (Options {
                max_bytes_for_level_multiplier_additional: final(self).max_bytes_for_level_multiplier_additional,
                ..*old(self)
            }),
    {
        self.max_bytes_for_level_multiplier_additional = Some(vstd::slice::slice_to_vec(level_values));
    }

    /// A list of paths where SST files can be put into, with its target size.
    /// Newer data is placed into paths specified earlier in the vector while
    /// older data gradually moves to paths specified later in the vector.
    ///
    /// For example, you have a flash device with 10GB allocated for the DB,
    /// as well as a hard drive of 2TB, you should config it to be:
    ///   [{"/flash_path", 10GB}, {"/hard_drive", 2TB}]
    ///
    /// The system will try to guarantee data under each path is close to but
    /// not larger than the target size. But current and future file sizes used
    /// by determining where to place a file are based on best-effort estimation,
    /// which means there is a chance that the actual size under the directory
    /// is slightly more than target size under some workloads. User should give
    /// some buffer room for those cases.
    ///
    /// If none of the paths has sufficient room to place a file, the file will
    /// be placed to the last path anyway, despite to the target size.
    ///
    /// Placing newer data to earlier paths is also best-efforts. User should
    /// expect user files to be placed in higher levels in some extreme cases.
    ///
    /// If left empty, only one path will be used, which is `path` passed when
    /// opening the DB.
    ///
    /// Default: empty
    pub fn set_db_paths(&mut self, paths: &[DBPath])
        ensures
            final(self).db_paths matches Some(v) && db_path_views(v@) == db_path_views(paths@),
            *final(self) == (Options { db_paths: final(self).db_paths, ..*old(self) }),
    {
        let mut v: Vec<DBPath> = Vec::new();
        let mut i: usize = 0;
        while i < paths.len()
            invariant
                i <= paths@.len(),
                db_path_views(v@) == db_path_views(paths@).subrange(0, i as int),
            decreases paths@.len() - i,
        {
            let ghost before = v@;
            v.push(DBPath { path: paths[i].path.clone(), target_size: paths[i].target_size });
            assert(db_path_views(v@) =~= db_path_views(before).push((paths@[i as int].path@, paths@[i as int].target_size)));
            assert(db_path_views(paths@).subrange(0, i + 1) =~= db_path_views(paths@).subrange(0, i as int).push((paths@[i as int].path@, paths@[i as int].target_size)));
            i = i + 1;
        }
        assert(db_path_views(paths@).subrange(0, paths@.len() as int) =~= db_path_views(paths@));
        self.db_paths = Some(v);
    }

}

impl WriteOptions {
    /// Sets the sync mode.
    pub fn set_sync(&mut self, v: bool)
        ensures
            *final(self) == (WriteOptions { sync: Some(v), ..*old(self) }),
    {
        self.sync = Some(v);
    }

    /// Sets whether WAL should be active or not.
    pub fn disable_wal(&mut self, v: bool)
        ensures
            *final(self) == (WriteOptions { disable_wal: Some(v), ..*old(self) }),
    {
        self.disable_wal = Some(v);
    }

    /// If true, writes to column families that don't exist are ignored.
    pub fn set_ignore_missing_column_families(&mut self, v: bool)
        ensures
            *final(self) == (WriteOptions { ignore_missing_column_families: Some(v), ..*old(self) }),
    {
        self.ignore_missing_column_families = Some(v);
    }

    /// If true and we need to wait or sleep for the write request, fails immediately.
    pub fn set_no_slowdown(&mut self, v: bool)
        ensures
            *final(self) == (WriteOptions { no_slowdown: Some(v), ..*old(self) }),
    {
        self.no_slowdown = Some(v);
    }

    /// If true, this write request is of lower priority if compaction is behind.
    pub fn set_low_pri(&mut self, v: bool)
        ensures
            *final(self) == (WriteOptions { low_pri: Some(v), ..*old(self) }),
    {
        self.low_pri = Some(v);
    }

    /// If true, writebatch will maintain the last insert positions of each memtable as hints.
    pub fn set_memtable_insert_hint_per_batch(&mut self, v: bool)
        ensures
            *final(self) == (WriteOptions { memtable_insert_hint_per_batch: Some(v), ..*old(self) }),
    {
        self.memtable_insert_hint_per_batch = Some(v);
    }

}

impl FlushOptions {
    /// Waits until the flush is done.
    pub fn set_wait(&mut self, v: bool)
        ensures
            *final(self) == (FlushOptions { wait: Some(v), ..*old(self) }),
    {
        self.wait = Some(v);
    }

}

impl ReadOptions {
    /// Specify whether the blocks read for this iteration should be cached in memory.
    pub fn fill_cache(&mut self, v: bool)
        ensures
            *final(self) == (ReadOptions { fill_cache: Some(v), ..*old(self) }),
    {
        self.fill_cache = Some(v);
    }

    /// Specify if this read request should process data that already resides on a particular cache.
    pub fn set_read_tier(&mut self, v: ReadTier)
        ensures
            *final(self) == (ReadOptions { read_tier: Some(v), ..*old(self) }),
    {
        self.read_tier = Some(v);
    }

    /// Enforce that the iterator only iterates over the same prefix as the seek.
    pub fn set_prefix_same_as_start(&mut self, v: bool)
        ensures
            *final(self) == (ReadOptions { prefix_same_as_start: Some(v), ..*old(self) }),
    {
        self.prefix_same_as_start = Some(v);
    }

    /// Enable a total order seek regardless of index format.
    pub fn set_total_order_seek(&mut self, v: bool)
        ensures
            *final(self) == (ReadOptions { total_order_seek: Some(v), ..*old(self) }),
    {
        self.total_order_seek = Some(v);
    }

    /// Sets a threshold for the number of keys that can be skipped before failing an iterator seek as incomplete.
    pub fn set_max_skippable_internal_keys(&mut self, v: u64)
        ensures
            *final(self) == (ReadOptions { max_skippable_internal_keys: Some(v), ..*old(self) }),
    {
        self.max_skippable_internal_keys = Some(v);
    }

    /// If true, obsolete files are deleted in background when an iterator is cleaned up.
    pub fn set_background_purge_on_interator_cleanup(&mut self, v: bool)
        ensures
            *final(self) == (ReadOptions { background_purge_on_iterator_cleanup: Some(v), ..*old(self) }),
    {
        self.background_purge_on_iterator_cleanup = Some(v);
    }

    /// If true, keys deleted using the DeleteRange() API will be visible to readers until they are naturally deleted during compaction.
    pub fn set_ignore_range_deletions(&mut self, v: bool)
        ensures
            *final(self) == (ReadOptions { ignore_range_deletions: Some(v), ..*old(self) }),
    {
        self.ignore_range_deletions = Some(v);
    }

    /// If true, all data read from underlying storage will be verified against corresponding checksums.
    pub fn set_verify_checksums(&mut self, v: bool)
        ensures
            *final(self) == (ReadOptions { verify_checksums: Some(v), ..*old(self) }),
    {
        self.verify_checksums = Some(v);
    }

    /// If non-zero, an iterator will create a new table reader which performs reads of the given size.
    pub fn set_readahead_size(&mut self, v: usize)
        ensures
            *final(self) == (ReadOptions { readahead_size: Some(v), ..*old(self) }),
    {
        self.readahead_size = Some(v);
    }

    /// If true, create a tailing iterator.
    pub fn set_tailing(&mut self, v: bool)
        ensures
            *final(self) == (ReadOptions { tailing: Some(v), ..*old(self) }),
    {
        self.tailing = Some(v);
    }

    /// Specifies the value of "pin_data".
    pub fn set_pin_data(&mut self, v: bool)
        ensures
            *final(self) == (ReadOptions { pin_data: Some(v), ..*old(self) }),
    {
        self.pin_data = Some(v);
    }

}

impl IngestExternalFileOptions {
    /// Can be set to true to move the files instead of copying them.
    pub fn set_move_files(&mut self, v: bool)
        ensures
            *final(self) == (IngestExternalFileOptions { move_files: Some(v), ..*old(self) }),
    {
        self.move_files = Some(v);
    }

    /// If set to false, an ingested file keys could appear in existing snapshots.
    pub fn set_snapshot_consistency(&mut self, v: bool)
        ensures
            *final(self) == (IngestExternalFileOptions { snapshot_consistency: Some(v), ..*old(self) }),
    {
        self.snapshot_consistency = Some(v);
    }

    /// If set to false, ingestion fails if the file key range overlaps with existing keys.
    pub fn set_allow_global_seqno(&mut self, v: bool)
        ensures
            *final(self) == (IngestExternalFileOptions { allow_global_seqno: Some(v), ..*old(self) }),
    {
        self.allow_global_seqno = Some(v);
    }

    /// If set to false and the file key range overlaps with the memtable key range, ingestion fails.
    pub fn set_allow_blocking_flush(&mut self, v: bool)
        ensures
            *final(self) == (IngestExternalFileOptions { allow_blocking_flush: Some(v), ..*old(self) }),
    {
        self.allow_blocking_flush = Some(v);
    }

    /// Set to true if you would like duplicate keys in the file being ingested to be skipped.
    pub fn set_ingest_behind(&mut self, v: bool)
        ensures
            *final(self) == (IngestExternalFileOptions { ingest_behind: Some(v), ..*old(self) }),
    {
        self.ingest_behind = Some(v);
    }

}

impl CompactOptions {
    /// If true, the call will disable scheduling of automatic compaction jobs.
    pub fn set_exclusive_manual_compaction(&mut self, v: bool)
        ensures
            *final(self) == (CompactOptions { exclusive_manual_compaction: Some(v), ..*old(self) }),
    {
        self.exclusive_manual_compaction = Some(v);
    }

    /// Sets bottommost level compaction.
    pub fn set_bottommost_level_compaction(&mut self, v: BottommostLevelCompaction)
        ensures
            *final(self) == (CompactOptions { bottommost_level_compaction: Some(v), ..*old(self) }),
    {
        self.bottommost_level_compaction = Some(v);
    }

    /// If true, compacted files will be moved to the minimum level capable of holding the data.
    pub fn set_change_level(&mut self, v: bool)
        ensures
            *final(self) == (CompactOptions { change_level: Some(v), ..*old(self) }),
    {
        self.change_level = Some(v);
    }

    /// If change_level is true and target_level have non-negative value, compacted files will be moved to target_level.
    pub fn set_target_level(&mut self, v: i32)
        ensures
            *final(self) == (CompactOptions { target_level: Some(v), ..*old(self) }),
    {
        self.target_level = Some(v);
    }

}

impl FifoCompactOptions {
    /// Sets the max table file size.
    pub fn set_max_table_files_size(&mut self, v: u64)
        ensures
            *final(self) == (FifoCompactOptions { max_table_files_size: Some(v), ..*old(self) }),
    {
        self.max_table_files_size = Some(v);
    }

}

impl UniversalCompactOptions {
    /// Sets the percentage flexibility while comparing file size.
    pub fn set_size_ratio(&mut self, v: i32)
        ensures
            *final(self) == (UniversalCompactOptions { size_ratio: Some(v), ..*old(self) }),
    {
        self.size_ratio = Some(v);
    }

    /// Sets the minimum number of files in a single compaction run.
    pub fn set_min_merge_width(&mut self, v: i32)
        ensures
            *final(self) == (UniversalCompactOptions { min_merge_width: Some(v), ..*old(self) }),
    {
        self.min_merge_width = Some(v);
    }

    /// Sets the maximum number of files in a single compaction run.
    pub fn set_max_merge_width(&mut self, v: i32)
        ensures
            *final(self) == (UniversalCompactOptions { max_merge_width: Some(v), ..*old(self) }),
    {
        self.max_merge_width = Some(v);
    }

    /// Sets the size amplification.
    pub fn set_max_size_amplification_percent(&mut self, v: i32)
        ensures
            *final(self) == (UniversalCompactOptions { max_size_amplification_percent: Some(v), ..*old(self) }),
    {
        self.max_size_amplification_percent = Some(v);
    }

    /// Sets the percentage of compression size.
    pub fn set_compression_size_percent(&mut self, v: i32)
        ensures
            *final(self) == (UniversalCompactOptions { compression_size_percent: Some(v), ..*old(self) }),
    {
        self.compression_size_percent = Some(v);
    }

    /// Sets the algorithm used to stop picking files into a single compaction run.
    pub fn set_stop_style(&mut self, v: UniversalCompactionStopStyle)
        ensures
            *final(self) == (UniversalCompactOptions { stop_style: Some(v), ..*old(self) }),
    {
        self.stop_style = Some(v);
    }

}

impl BlockBasedOptions {
    /// Sets the approximate size of user data packed per block.
    pub fn set_block_size(&mut self, v: usize)
        ensures
            *final(self) == (BlockBasedOptions { block_size: Some(v), ..*old(self) }),
    {
        self.block_size = Some(v);
    }

    /// Sets the block size for partitioned metadata.
    pub fn set_metadata_block_size(&mut self, v: usize)
        ensures
            *final(self) == (BlockBasedOptions { metadata_block_size: Some(v), ..*old(self) }),
    {
        self.metadata_block_size = Some(v);
    }

    /// Use partitioned full filters for each SST file.
    pub fn set_partition_filters(&mut self, v: bool)
        ensures
            *final(self) == (BlockBasedOptions { partition_filters: Some(v), ..*old(self) }),
    {
        self.partition_filters = Some(v);
    }

    /// Whether to put index and filter blocks in the block cache.
    pub fn set_cache_index_and_filter_blocks(&mut self, v: bool)
        ensures
            *final(self) == (BlockBasedOptions { cache_index_and_filter_blocks: Some(v), ..*old(self) }),
    {
        self.cache_index_and_filter_blocks = Some(v);
    }

    /// Defines the index type to be used for SS-table lookups.
    pub fn set_index_type(&mut self, v: BlockBasedIndexType)
        ensures
            *final(self) == (BlockBasedOptions { index_type: Some(v), ..*old(self) }),
    {
        self.index_type = Some(v);
    }

    /// Whether level-0 index and filter blocks are pinned in the cache.
    pub fn set_pin_l0_filter_and_index_blocks_in_cache(&mut self, v: bool)
        ensures
            *final(self) == (BlockBasedOptions { pin_l0_filter_and_index_blocks_in_cache: Some(v), ..*old(self) }),
    {
        self.pin_l0_filter_and_index_blocks_in_cache = Some(v);
    }

    /// Whether the top-level index of partitioned filters and indexes is pinned.
    pub fn set_pin_top_level_index_and_filter(&mut self, v: bool)
        ensures
            *final(self) == (BlockBasedOptions { pin_top_level_index_and_filter: Some(v), ..*old(self) }),
    {
        self.pin_top_level_index_and_filter = Some(v);
    }

    /// Sets the format version of the table files.
    pub fn set_format_version(&mut self, v: i32)
        ensures
            *final(self) == (BlockBasedOptions { format_version: Some(v), ..*old(self) }),
    {
        self.format_version = Some(v);
    }

    /// Number of keys between restart points for delta encoding of keys.
    pub fn set_block_restart_interval(&mut self, v: i32)
        ensures
            *final(self) == (BlockBasedOptions { block_restart_interval: Some(v), ..*old(self) }),
    {
        self.block_restart_interval = Some(v);
    }

    /// Same as block_restart_interval but used for the index block.
    pub fn set_index_block_restart_interval(&mut self, v: i32)
        ensures
            *final(self) == (BlockBasedOptions { index_block_restart_interval: Some(v), ..*old(self) }),
    {
        self.index_block_restart_interval = Some(v);
    }

    /// Set the data block index type for point lookups.
    pub fn set_data_block_index_type(&mut self, v: DataBlockIndexType)
        ensures
            *final(self) == (BlockBasedOptions { data_block_index_type: Some(v), ..*old(self) }),
    {
        self.data_block_index_type = Some(v);
    }

    /// Disable the block cache.
    pub fn disable_cache(&mut self)
        ensures
            *final(self) == (BlockBasedOptions { no_block_cache: Some(true), ..*old(self) }),
    {
        self.no_block_cache = Some(true);
    }

    /// When provided: use the specified cache for blocks.
    /// Otherwise rocksdb will automatically create and use an 8MB internal cache.
    pub fn set_lru_cache(&mut self, size: usize)
        ensures
            *final(self) == (BlockBasedOptions { block_cache: Some(Cache { capacity: size }), ..*old(self) }),
    {
        let cache = Cache::new_lru_cache(size);
        self.set_block_cache(&cache);
    }

    /// When configured: use the specified cache for compressed blocks.
    /// Otherwise rocksdb will not use a compressed block cache.
    ///
    /// Note: though it looks similar to `block_cache`, RocksDB doesn't put the
    /// same type of object there.
    pub fn set_lru_cache_compressed(&mut self, size: usize)
        ensures
            *final(self) == (BlockBasedOptions {
                block_cache_compressed: Some(Cache { capacity: size }),
                ..*old(self)
            }),
    {
        let cache = Cache::new_lru_cache(size);
        self.set_block_cache_compressed(&cache);
    }

    /// Sets global cache for blocks (user data is stored in a set of blocks, and
    /// a block is the unit of reading from disk). Cache must outlive DB instance which uses it.
    ///
    /// If set, use the specified cache for blocks.
    /// By default, rocksdb will automatically create and use an 8MB internal cache.
    pub fn set_block_cache(&mut self, cache: &Cache)
        ensures
            *final(self) == (BlockBasedOptions { block_cache: Some(*cache), ..*old(self) }),
    {
        self.block_cache = Some(*cache);
    }

    /// Sets global cache for compressed blocks. Cache must outlive DB instance which uses it.
    ///
    /// By default, rocksdb will not use a compressed block cache.
    pub fn set_block_cache_compressed(&mut self, cache: &Cache)
        ensures
            *final(self) == (BlockBasedOptions { block_cache_compressed: Some(*cache), ..*old(self) }),
    {
        self.block_cache_compressed = Some(*cache);
    }

    /// Sets the filter policy to reduce disk reads: a bloom filter with
    /// `bits_per_key` bits per key, block-based or full.
    pub fn set_bloom_filter(&mut self, bits_per_key: i32, block_based: bool)
        ensures
            *final(self) == (BlockBasedOptions { bloom_filter: Some((bits_per_key, block_based)), ..*old(self) }),
    {
        self.bloom_filter = Some((bits_per_key, block_based));
    }

}
impl Options {
    /// Hints to the OS that it should not buffer disk I/O: enables or disables
    /// direct I/O for reads and for flush and compaction together.
    pub fn set_allow_os_buffer(&mut self, is_allow: bool)
        ensures
            *final(self) == (Options {
                use_direct_reads: Some(!is_allow),
                use_direct_io_for_flush_and_compaction: Some(!is_allow),
                ..*old(self)
            }),
    {
        self.set_use_direct_reads(!is_allow);
        self.set_use_direct_io_for_flush_and_compaction(!is_allow);
    }

    /// Defines the underlying memtable implementation.
    pub fn set_memtable_factory(&mut self, factory: MemtableFactory)
        ensures
            *final(self) == (Options { memtable_factory: Some(factory), ..*old(self) }),
    {
        self.memtable_factory = Some(factory);
    }
}

impl FlushOptions {
    pub fn new() -> (r: FlushOptions)
        ensures
            r == FlushOptions::spec_default(),
    {
        FlushOptions::default()
    }
}

impl WriteOptions {
    pub fn new() -> (r: WriteOptions)
        ensures
            r == WriteOptions::spec_default(),
    {
        WriteOptions::default()
    }
}

impl ReadOptions {
    /// Sets the upper bound for an iterator.
    /// The upper bound itself is not included on the iteration result.
    pub fn set_iterate_upper_bound(&mut self, key: Vec<u8>)
        ensures
            *final(self) == (ReadOptions { iterate_upper_bound: Some(key), ..*old(self) }),
    {
        self.iterate_upper_bound = Some(key);
    }

    /// Sets the lower bound for an iterator.
    pub fn set_iterate_lower_bound(&mut self, key: Vec<u8>)
        ensures
            *final(self) == (ReadOptions { iterate_lower_bound: Some(key), ..*old(self) }),
    {
        self.iterate_lower_bound = Some(key);
    }

    /// Sets lower and upper bounds based on the provided range.  A bound that
    /// the range leaves open is cleared.
    pub fn set_iterate_range<R: IterateBounds>(&mut self, range: R)
        ensures
            opt_bytes(final(self).iterate_lower_bound) == range.spec_bounds().0,
            opt_bytes(final(self).iterate_upper_bound) == range.spec_bounds().1,
            *final(self) == (ReadOptions {
                iterate_lower_bound: final(self).iterate_lower_bound,
                iterate_upper_bound: final(self).iterate_upper_bound,
                ..*old(self)
            }),
    {
        let (lower, upper) = range.into_bounds();
        self.iterate_lower_bound = lower;
        self.iterate_upper_bound = upper;
    }
}

/// The paths and target sizes of a list of database paths.
pub open spec fn db_path_views(s: Seq<DBPath>) -> Seq<(Seq<char>, u64)> {
    s.map_values(|p: DBPath| (p.path@, p.target_size))
}

/// A cache of blocks, by its capacity in bytes.
#[derive(Debug, Clone, Copy)]
pub struct Cache {
    pub capacity: usize,
}

impl Cache {
    /// Create a lru cache with capacity
    pub fn new_lru_cache(capacity: usize) -> (r: Cache)
        ensures
            r.capacity == capacity,
    {
        Cache { capacity }
    }

    /// Sets cache capacity
    pub fn set_capacity(&mut self, capacity: usize)
        ensures
            final(self).capacity == capacity,
    {
        self.capacity = capacity;
    }
}

/// The environment the engine uses to reach the operating system: whether it
/// keeps files in memory, and the sizes of its background thread pools.
#[derive(Clone, Copy)]
pub struct Env {
    pub in_memory: bool,
    pub background_threads: Option<i32>,
    pub high_priority_background_threads: Option<i32>,
    pub thread_pool_io_priority_lowered: bool,
    pub high_priority_thread_pool_io_priority_lowered: bool,
    pub thread_pool_cpu_priority_lowered: bool,
    pub high_priority_thread_pool_cpu_priority_lowered: bool,
}

/// A fresh environment, in memory or not, with nothing set.
pub open spec fn fresh_env(in_memory: bool) -> Env {
    Env {
        in_memory,
        background_threads: None,
        high_priority_background_threads: None,
        thread_pool_io_priority_lowered: false,
        high_priority_thread_pool_io_priority_lowered: false,
        thread_pool_cpu_priority_lowered: false,
        high_priority_thread_pool_cpu_priority_lowered: false,
    }
}

impl Env {
    /// Returns the default environment.
    pub fn default() -> (r: Result<Env, Error>)
        ensures
            r == Ok::<Env, Error>(fresh_env(false)),
    {
        Ok(Env {
            in_memory: false,
            background_threads: None,
            high_priority_background_threads: None,
            thread_pool_io_priority_lowered: false,
            high_priority_thread_pool_io_priority_lowered: false,
            thread_pool_cpu_priority_lowered: false,
            high_priority_thread_pool_cpu_priority_lowered: false,
        })
    }

    /// Returns a new environment that stores its data in memory.
    pub fn mem_env() -> (r: Result<Env, Error>)
        ensures
            r == Ok::<Env, Error>(fresh_env(true)),
    {
        Ok(Env {
            in_memory: true,
            background_threads: None,
            high_priority_background_threads: None,
            thread_pool_io_priority_lowered: false,
            high_priority_thread_pool_io_priority_lowered: false,
            thread_pool_cpu_priority_lowered: false,
            high_priority_thread_pool_cpu_priority_lowered: false,
        })
    }

    /// Sets the number of background worker threads of a specific thread pool for this environment.
    pub fn set_background_threads(&mut self, num_threads: i32)
        ensures
            *final(self) == (Env { background_threads: Some(num_threads), ..*old(self) }),
    {
        self.background_threads = Some(num_threads);
    }

    /// Sets the size of the high priority thread pool that can be used to
    /// prevent compactions from stalling memtable flushes.
    pub fn set_high_priority_background_threads(&mut self, n: i32)
        ensures
            *final(self) == (Env { high_priority_background_threads: Some(n), ..*old(self) }),
    {
        self.high_priority_background_threads = Some(n);
    }

    /// Lowering IO priority for threads from the specified pool.
    pub fn lower_thread_pool_io_priority(&mut self)
        ensures
            *final(self) == (Env { thread_pool_io_priority_lowered: true, ..*old(self) }),
    {
        self.thread_pool_io_priority_lowered = true;
    }

    /// Lowering IO priority for high priority thread pool.
    pub fn lower_high_priority_thread_pool_io_priority(&mut self)
        ensures
            *final(self) == (Env { high_priority_thread_pool_io_priority_lowered: true, ..*old(self) }),
    {
        self.high_priority_thread_pool_io_priority_lowered = true;
    }

    /// Lowering CPU priority for threads from the specified pool.
    pub fn lower_thread_pool_cpu_priority(&mut self)
        ensures
            *final(self) == (Env { thread_pool_cpu_priority_lowered: true, ..*old(self) }),
    {
        self.thread_pool_cpu_priority_lowered = true;
    }

    /// Lowering CPU priority for high priority thread pool.
    pub fn lower_high_priority_thread_pool_cpu_priority(&mut self)
        ensures
            *final(self) == (Env { high_priority_thread_pool_cpu_priority_lowered: true, ..*old(self) }),
    {
        self.high_priority_thread_pool_cpu_priority_lowered = true;
    }
}

/// Represents a path where sst files can be put into
#[derive(Clone)]
pub struct DBPath {
    pub path: String,
    pub target_size: u64,
}

impl DBPath {
    /// Create a new path
    pub fn new(path: &str, target_size: u64) -> (r: Result<Self, Error>)
        ensures
            r matches Ok(p) && p.path@ == path@ && p.target_size == target_size,
    {
        Ok(DBPath { path: path.to_owned(), target_size })
    }
}

} // verus!

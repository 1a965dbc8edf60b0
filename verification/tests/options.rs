use rocksdb::backup::RestoreOptions;
use rocksdb::{
    BlockBasedOptions, Cache, DBCompressionType, DBPath, Env, MemtableFactory, OptimisticTransactionOptions,
    Options,
};

#[test]
fn setters_change_one_setting() {
    let mut o = Options::default();
    o.set_min_write_buffer_number(3);
    assert_eq!(o.min_write_buffer_number_to_merge, Some(3));
    o.set_min_write_buffer_number_to_merge(4);
    assert_eq!(o.min_write_buffer_number_to_merge, Some(4));
    o.set_max_subcompactions(2);
    o.set_skip_checking_sst_file_sizes_on_db_open(true);
    assert_eq!(o.max_subcompactions, Some(2));
    assert_eq!(o.skip_checking_sst_file_sizes_on_db_open, Some(true));
    assert_eq!(o.max_open_files, None);
    o.optimize_level_style_compaction(512 * 1024 * 1024);
    assert_eq!(o.optimize_level_style_compaction, Some(536870912));
    o.set_compression_per_level(&[DBCompressionType::NoCompression, DBCompressionType::Snappy]);
    assert_eq!(
        o.compression_per_level,
        Some(vec![DBCompressionType::NoCompression, DBCompressionType::Snappy])
    );
    o.set_max_bytes_for_level_multiplier_additional(&[1, 2, 3]);
    assert_eq!(o.max_bytes_for_level_multiplier_additional, Some(vec![1, 2, 3]));
    o.set_compression_options(4, 5, 6, 7);
    assert_eq!(o.compression_options, Some((4, 5, 6, 7)));
    o.set_wal_dir("/path/to/dir");
    assert_eq!(o.wal_dir.as_deref(), Some("/path/to/dir"));
    o.set_db_log_dir("/logs");
    assert_eq!(o.db_log_dir.as_deref(), Some("/logs"));
    let paths = vec![DBPath::new("/flash_path", 10).unwrap(), DBPath::new("/hard_drive", 2000).unwrap()];
    o.set_db_paths(&paths);
    let got = o.db_paths.as_ref().unwrap();
    assert_eq!(got.len(), 2);
    assert_eq!(got[1].path, "/hard_drive");
    assert_eq!(got[1].target_size, 2000);
    o.set_env(&Env::mem_env().unwrap());
    assert!(o.env.unwrap().in_memory);
    o.set_row_cache(&Cache::new_lru_cache(100));
    assert_eq!(o.row_cache.unwrap().capacity, 100);
}

#[test]
fn lru_cache_is_a_block_cache_of_that_size() {
    let mut a = BlockBasedOptions::default();
    a.set_lru_cache(64);
    let mut b = BlockBasedOptions::default();
    b.set_block_cache(&Cache::new_lru_cache(64));
    assert_eq!(a.block_cache.unwrap().capacity, b.block_cache.unwrap().capacity);
    a.set_lru_cache_compressed(32);
    assert_eq!(a.block_cache_compressed.unwrap().capacity, 32);
    a.set_bloom_filter(10, false);
    assert_eq!(a.bloom_filter, Some((10, false)));
    let mut o = Options::default();
    o.set_block_based_table_factory(&a);
    assert_eq!(o.block_based_table_factory.unwrap().bloom_filter, Some((10, false)));
}

#[test]
fn transaction_and_restore_options() {
    let mut t = OptimisticTransactionOptions::new();
    assert_eq!(t.set_snapshot, None);
    t.set_snapshot(true);
    assert_eq!(t.set_snapshot, Some(true));
    assert_eq!(OptimisticTransactionOptions::default().set_snapshot, None);
    assert_eq!(RestoreOptions::default().keep_log_files, None);
}

#[test]
fn actions_are_recorded() {
    let mut o = Options::default();
    o.prepare_for_bulk_load();
    o.enable_statistics();
    o.set_ratelimiter(1024 * 1024, 100 * 1000, 10);
    assert_eq!(o.prepare_for_bulk_load, Some(true));
    assert_eq!(o.statistics, Some(true));
    assert_eq!(o.ratelimiter, Some((1048576, 100000, 10)));
    let mut e = Env::default().unwrap();
    assert!(!e.in_memory);
    e.lower_thread_pool_io_priority();
    e.lower_high_priority_thread_pool_cpu_priority();
    assert!(e.thread_pool_io_priority_lowered);
    assert!(!e.thread_pool_cpu_priority_lowered);
    assert!(e.high_priority_thread_pool_cpu_priority_lowered);
    e.set_background_threads(4);
    assert_eq!(e.background_threads, Some(4));
}

#[test]
fn test_set_memtable_factory() {
    let mut opts = Options::default();
    opts.set_memtable_factory(MemtableFactory::Vector);
    opts.set_memtable_factory(MemtableFactory::HashLinkList { bucket_count: 100 });
    opts.set_memtable_factory(MemtableFactory::HashSkipList {
        bucket_count: 100,
        height: 4,
        branching_factor: 4,
    });
}

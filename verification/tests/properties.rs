use rocksdb::perf::{PerfLevel, PerfMetric, PerfStatsLevel};
use rocksdb::properties::{
    aggregated_table_properties_at_level, compression_ratio_at_level, num_files_at_level,
    CFSTATS, CFSTATS_NO_FILE_HISTOGRAM, ESTIMATE_NUM_KEYS, OPTIONS_STATISTICS, STATS,
};

#[test]
fn properties_sanity_checks() {
    let want = "rocksdb.cfstats-no-file-histogram".to_string();
    assert_eq!(want.as_str(), CFSTATS_NO_FILE_HISTOGRAM);

    let want = "rocksdb.num-files-at-level5".to_string();
    assert_eq!(want, num_files_at_level(5));
}

#[test]
fn prop_name_sanity_checks() {
    let want = "rocksdb.cfstats-no-file-histogram";
    assert_eq!(want, CFSTATS_NO_FILE_HISTOGRAM);

    let want = "rocksdb.num-files-at-level5";
    assert_eq!(want, &*num_files_at_level(5));
}

#[test]
fn level_property_names() {
    assert_eq!(num_files_at_level(0), "rocksdb.num-files-at-level0");
    assert_eq!(compression_ratio_at_level(12), "rocksdb.compression-ratio-at-level12");
    assert_eq!(
        aggregated_table_properties_at_level(1234567),
        "rocksdb.aggregated-table-properties-at-level1234567"
    );
    assert_eq!(STATS, "rocksdb.stats");
    assert_eq!(CFSTATS, "rocksdb.CFSTATS");
    assert_eq!(ESTIMATE_NUM_KEYS, "rocksdb.estimate-num-keys");
    assert_eq!(OPTIONS_STATISTICS, "rocksdb.options-statistics");
}

#[test]
fn perf_level_codes() {
    assert_eq!(PerfLevel::Disable.code(), 1);
    assert_eq!(PerfLevel::OutOfBounds.code(), 6);
    for c in 0..=6 {
        assert_eq!(PerfLevel::from_code(c).code(), c);
    }
    assert_eq!(PerfLevel::from_code(5), PerfLevel::EnableTime);
    assert_eq!(PerfStatsLevel::EnableCount.code(), 2);
    assert_eq!(PerfStatsLevel::OutOfBound.code(), 6);
    assert_eq!(PerfMetric::UserKeyComparisonCount.code(), 0);
    assert_eq!(PerfMetric::BlockReadByte.code(), 3);
    assert_eq!(PerfMetric::EnvNewLoggerNanos.code(), 67);
    assert_eq!(PerfMetric::TotalMetricCount.code(), 68);
}

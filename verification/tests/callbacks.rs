use rocksdb::compaction_filter::{
    default_should_filter, filter_decision, raw_decision, CompactionFilter, CompactionFilterContext,
    CompactionFilterDecision, CompactionFilterFactory, CompactionFilterValueType,
    RawCompactionFilterDecision, TableFileCreationReason,
};
use rocksdb::compaction_service::{
    on_installation_callback, schedule_callback, schedule_reply, wait_callback, wait_reply,
    CompactionReason, CompactionService, CompactionServiceJobInfo, CompactionServiceJobStatus,
    CompactionServiceScheduleResponse, Priority,
};
use rocksdb::file_system::{inspect_read, inspect_write, inspector_reply, FileSystemInspector};
use rocksdb::merge_operator::{concat_merge, merge_reply, MergeOperands};
use rocksdb::Error;
use std::cell::RefCell;

/// Removes keys starting with `_r`, rewrites values of keys starting with
/// `_c`, keeps the rest.
struct PrefixFilter;

impl CompactionFilter for PrefixFilter {
    fn filter(
        &mut self,
        _level: usize,
        key: &[u8],
        value: &[u8],
        new_value: &mut Vec<u8>,
        value_changed: &mut bool,
    ) -> bool {
        if key.starts_with(b"_r") {
            return true;
        }
        if key.starts_with(b"_c") {
            new_value.extend_from_slice(value);
            new_value.extend_from_slice(b"!");
            *value_changed = true;
        }
        false
    }
}

struct KeepAll;

impl CompactionFilter for KeepAll {}

fn kind(d: &CompactionFilterDecision) -> &'static str {
    match d {
        CompactionFilterDecision::Keep => "keep",
        CompactionFilterDecision::Remove => "remove",
        CompactionFilterDecision::ChangeValue(_) => "change",
        CompactionFilterDecision::RemoveAndSkipUntil(_) => "skip",
    }
}

#[test]
fn featured_filter_follows_filter() {
    let mut f = PrefixFilter;
    let v = CompactionFilterValueType::Value;
    assert_eq!(kind(&f.featured_filter(0, b"_rk", 1, b"v", v)), "remove");
    match f.featured_filter(0, b"_ck", 1, b"v", v) {
        CompactionFilterDecision::ChangeValue(nv) => assert_eq!(nv, b"v!".to_vec()),
        _ => panic!("expected a changed value"),
    }
    assert_eq!(kind(&f.featured_filter(0, b"k", 1, b"v", v)), "keep");
}

#[test]
fn merge_operands_and_blob_indexes_are_kept() {
    let mut f = PrefixFilter;
    assert_eq!(kind(&f.featured_filter(0, b"_rk", 1, b"v", CompactionFilterValueType::MergeOperand)), "keep");
    assert_eq!(kind(&f.featured_filter(0, b"_rk", 1, b"v", CompactionFilterValueType::BlobIndex)), "keep");
    let mut k = KeepAll;
    assert_eq!(kind(&k.featured_filter(3, b"_rk", 1, b"v", CompactionFilterValueType::Value)), "keep");
}

#[test]
fn filter_decision_prefers_removal() {
    assert_eq!(kind(&filter_decision(true, true, b"x".to_vec())), "remove");
    assert_eq!(kind(&filter_decision(false, false, b"x".to_vec())), "keep");
    match filter_decision(false, true, b"x".to_vec()) {
        CompactionFilterDecision::ChangeValue(v) => assert_eq!(v, b"x".to_vec()),
        _ => panic!("expected a changed value"),
    }
}

#[test]
fn raw_decision_hands_over_the_bytes() {
    let (k, nv, su) = raw_decision(CompactionFilterDecision::ChangeValue(b"new".to_vec()));
    assert_eq!(k, RawCompactionFilterDecision::ChangeValue);
    assert_eq!(nv, b"new".to_vec());
    assert!(su.is_empty());
    let (k, nv, su) = raw_decision(CompactionFilterDecision::RemoveAndSkipUntil(b"z".to_vec()));
    assert_eq!(k, RawCompactionFilterDecision::RemoveAndSkipUntil);
    assert!(nv.is_empty());
    assert_eq!(su, b"z".to_vec());
    let (k, nv, su) = raw_decision(CompactionFilterDecision::Remove);
    assert_eq!(k, RawCompactionFilterDecision::Remove);
    assert!(nv.is_empty() && su.is_empty());
    assert_eq!(raw_decision(CompactionFilterDecision::Keep).0, RawCompactionFilterDecision::Keep);
}

struct FlushFactory;

impl CompactionFilterFactory for FlushFactory {
    type Filter = KeepAll;
    fn create_compaction_filter(&self, _context: &CompactionFilterContext) -> KeepAll {
        KeepAll
    }
    fn should_filter_table_file_creation(&self, reason: TableFileCreationReason) -> bool {
        reason == TableFileCreationReason::Flush
    }
}

struct DefaultFactory;

impl CompactionFilterFactory for DefaultFactory {
    type Filter = PrefixFilter;
    fn create_compaction_filter(&self, _context: &CompactionFilterContext) -> PrefixFilter {
        PrefixFilter
    }
}

#[test]
fn filters_apply_to_compactions_by_default() {
    assert!(DefaultFactory.should_filter_table_file_creation(TableFileCreationReason::Compaction));
    assert!(!DefaultFactory.should_filter_table_file_creation(TableFileCreationReason::Flush));
    assert!(!default_should_filter(TableFileCreationReason::Recovery));
    assert!(FlushFactory.should_filter_table_file_creation(TableFileCreationReason::Flush));
    let ctx = CompactionFilterContext {
        full_compaction: true,
        manual_compaction: false,
        bottommost_level: true,
        file_numbers: vec![7, 9],
        start_key: b"key0".to_vec(),
        end_key: b"key9".to_vec(),
    };
    assert!(ctx.is_full_compaction());
    assert!(!ctx.is_manual_compaction());
    assert!(ctx.is_bottommost_level());
    assert_eq!(ctx.file_numbers(), &[7, 9]);
    assert_eq!(ctx.start_key(), b"key0");
    assert_eq!(ctx.end_key(), b"key9");
    let mut f = DefaultFactory.create_compaction_filter(&ctx);
    assert_eq!(kind(&f.featured_filter(0, b"_rk", 1, b"v", CompactionFilterValueType::Value)), "remove");
}

#[test]
fn job_status_codes() {
    for (s, c) in [
        (CompactionServiceJobStatus::Success, 0),
        (CompactionServiceJobStatus::Failure, 1),
        (CompactionServiceJobStatus::Aborted, 2),
        (CompactionServiceJobStatus::UseLocal, 3),
    ] {
        assert_eq!(s.code(), c);
        assert_eq!(CompactionServiceJobStatus::from_code(c), s);
    }
    assert_eq!(CompactionServiceJobStatus::from_code(7), CompactionServiceJobStatus::Failure);
    assert_eq!(CompactionServiceJobStatus::from_code(-1), CompactionServiceJobStatus::Failure);
}

#[test]
fn compaction_reason_codes() {
    assert_eq!(CompactionReason::from_code(0), Some(CompactionReason::Unknown));
    assert_eq!(CompactionReason::from_code(9), Some(CompactionReason::ManualCompaction));
    assert_eq!(CompactionReason::from_code(13), Some(CompactionReason::Flush));
    assert_eq!(CompactionReason::from_code(20), Some(CompactionReason::NumOfReasons));
    assert_eq!(CompactionReason::from_code(21), None);
    assert_eq!(CompactionReason::from_code(-3), None);
    assert_eq!(CompactionReason::RefitLevel.code(), 19);
    assert_eq!(CompactionReason::from_code(CompactionReason::ForcedBlobGC.code()), Some(CompactionReason::ForcedBlobGC));
}

#[test]
fn schedule_response_ids() {
    let r = CompactionServiceScheduleResponse::new("job-1", CompactionServiceJobStatus::Success).unwrap();
    assert_eq!(r.scheduled_job_id().unwrap(), "job-1");
    assert_eq!(r.status(), CompactionServiceJobStatus::Success);
    let e = CompactionServiceScheduleResponse::new("jo\0b", CompactionServiceJobStatus::Success).err().unwrap();
    assert_eq!(e.as_str(), "Invalid job_id: nul byte found in provided data at position: 2");
    let w = CompactionServiceScheduleResponse::with_status(CompactionServiceJobStatus::UseLocal).unwrap();
    assert_eq!(w.status(), CompactionServiceJobStatus::UseLocal);
    assert_eq!(w.scheduled_job_id().unwrap_err().as_str(), "No scheduled job ID");
}

fn job_info(db_name: Option<&str>) -> CompactionServiceJobInfo {
    CompactionServiceJobInfo {
        db_name: db_name.map(|s| s.to_string()),
        db_id: Some("id".to_string()),
        db_session_id: None,
        cf_name: Some("default".to_string()),
        cf_id: 0,
        job_id: 42,
        priority: Priority::Low,
        compaction_reason: CompactionReason::LevelL0FilesNum,
        base_input_level: 0,
        output_level: 1,
        full_compaction: false,
        manual_compaction: true,
        bottommost_level: false,
    }
}

#[test]
fn job_info_texts() {
    let info = job_info(Some("db"));
    assert_eq!(info.db_name().unwrap(), "db");
    assert_eq!(info.db_id().unwrap(), "id");
    assert_eq!(info.db_session_id().unwrap_err().as_str(), "Failed to get db_session_id");
    assert_eq!(info.cf_name().unwrap(), "default");
    assert_eq!(info.job_id(), 42);
    assert_eq!(info.cf_id(), 0);
    assert_eq!(info.priority(), Priority::Low);
    assert_eq!(info.compaction_reason(), CompactionReason::LevelL0FilesNum);
    assert_eq!(info.output_level(), 1);
    assert_eq!(info.base_input_level(), 0);
    assert!(info.is_manual_compaction() && !info.is_full_compaction() && !info.is_bottommost_level());
    assert_eq!(job_info(None).db_name().unwrap_err().as_str(), "Failed to get db_name");
}

/// A service that refuses jobs of databases it does not know.
struct Remote {
    installed: RefCell<Vec<(String, CompactionServiceJobStatus)>>,
}

impl CompactionService for Remote {
    fn schedule(&self, job_info: &CompactionServiceJobInfo, input: &[u8]) -> Result<CompactionServiceScheduleResponse, Error> {
        match job_info.db_name() {
            Ok(name) if !input.is_empty() => CompactionServiceScheduleResponse::new(&name, CompactionServiceJobStatus::Success),
            _ => Err(Error::new("unknown job".to_string())),
        }
    }
    fn wait(&self, scheduled_job_id: &str) -> Result<CompactionServiceJobStatus, Error> {
        if scheduled_job_id == "db" {
            Ok(CompactionServiceJobStatus::Aborted)
        } else {
            Err(Error::new("no such job".to_string()))
        }
    }
    fn on_installation(&self, scheduled_job_id: &str, status: CompactionServiceJobStatus) {
        self.installed.borrow_mut().push((scheduled_job_id.to_string(), status));
    }
    fn name(&self) -> &str {
        "remote"
    }
}

#[test]
fn service_errors_become_failures() {
    let svc = Remote { installed: RefCell::new(Vec::new()) };
    let ok = schedule_callback(&svc, &job_info(Some("db")), b"input");
    assert_eq!(ok.scheduled_job_id().unwrap(), "db");
    let failed = schedule_callback(&svc, &job_info(None), b"input");
    assert_eq!(failed.status(), CompactionServiceJobStatus::Failure);
    assert!(failed.scheduled_job_id().is_err());
    assert_eq!(wait_callback(&svc, "db"), 2);
    assert_eq!(wait_callback(&svc, "other"), 1);
    assert_eq!(wait_reply(Ok(CompactionServiceJobStatus::UseLocal)), 3);
    let r = schedule_reply(Err(Error::new("x".to_string())));
    assert_eq!(r.status(), CompactionServiceJobStatus::Failure);
    on_installation_callback(&svc, "db", 0);
    on_installation_callback(&svc, "db", 99);
    assert_eq!(
        *svc.installed.borrow(),
        vec![
            ("db".to_string(), CompactionServiceJobStatus::Success),
            ("db".to_string(), CompactionServiceJobStatus::Failure)
        ]
    );
    assert_eq!(svc.name(), "remote");
    svc.cancel_awaiting_jobs();
}

#[test]
fn concat_merge_appends_operands() {
    let mut ops = MergeOperands::new(vec![b"b".to_vec(), b"c".to_vec(), b"d".to_vec(), b"efg".to_vec()]);
    assert_eq!(ops.size_hint(), (4, Some(4)));
    let r = concat_merge(b"k1", Some(b"a"), &mut ops);
    assert_eq!(r, Some(b"abcdefg".to_vec()));
    assert_eq!(ops.size_hint(), (0, Some(0)));
    assert_eq!(ops.next(), None);
    let mut ops = MergeOperands::new(vec![b"x".to_vec()]);
    assert_eq!(concat_merge(b"k", None, &mut ops), Some(b"x".to_vec()));
    let mut none = MergeOperands::new(Vec::new());
    assert_eq!(concat_merge(b"k", None, &mut none), Some(Vec::new()));
}

#[test]
fn merge_operands_step_in_order() {
    let mut ops = MergeOperands::new(vec![b"1".to_vec(), b"22".to_vec()]);
    assert_eq!(ops.next(), Some(b"1".to_vec()));
    assert_eq!(ops.size_hint().0, 1);
    assert_eq!(ops.next(), Some(b"22".to_vec()));
    assert_eq!(ops.next(), None);
    assert_eq!(merge_reply(Some(b"v".to_vec())), (true, b"v".to_vec()));
    assert_eq!(merge_reply(None), (false, Vec::new()));
}

struct TestFileSystemInspector {
    refill_bytes: usize,
    read_called: std::cell::Cell<usize>,
    write_called: std::cell::Cell<usize>,
}

impl FileSystemInspector for TestFileSystemInspector {
    fn read(&self, len: usize) -> Result<usize, String> {
        self.read_called.set(self.read_called.get() + 1);
        if len <= self.refill_bytes {
            Ok(len)
        } else {
            Err("request exceeds refill bytes".into())
        }
    }
    fn write(&self, len: usize) -> Result<usize, String> {
        self.write_called.set(self.write_called.get() + 1);
        if len <= self.refill_bytes {
            Ok(len)
        } else {
            Err("request exceeds refill bytes".into())
        }
    }
}

#[test]
fn test_inspected_operation() {
    let fs = TestFileSystemInspector {
        refill_bytes: 4,
        read_called: std::cell::Cell::new(0),
        write_called: std::cell::Cell::new(0),
    };
    assert_eq!(inspect_read(&fs, 2), (2, None));
    assert_eq!(inspect_read(&fs, 8), (0, Some("request exceeds refill bytes".to_string())));
    assert_eq!(inspect_write(&fs, 2), (2, None));
    assert!(inspect_write(&fs, 8).1.is_some());
    assert_eq!(fs.read_called.get(), 2);
    assert_eq!(fs.write_called.get(), 2);
    assert_eq!(inspector_reply(Ok(9)), (9, None));
}

#[test]
fn partial_then_full_merge_equals_full_merge() {
    let mut all = MergeOperands::new(vec![b"b".to_vec(), b"c".to_vec(), b"d".to_vec()]);
    let whole = concat_merge(b"k", Some(b"a"), &mut all).unwrap();
    let mut first = MergeOperands::new(vec![b"b".to_vec(), b"c".to_vec()]);
    let partial = concat_merge(b"k", None, &mut first).unwrap();
    let mut rest = MergeOperands::new(vec![partial, b"d".to_vec()]);
    assert_eq!(concat_merge(b"k", Some(b"a"), &mut rest).unwrap(), whole);
    assert_eq!(whole, b"abcd".to_vec());
}

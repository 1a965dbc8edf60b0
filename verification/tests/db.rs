use rocksdb::column_family::{column_family_ttl_secs, ColumnFamilyTtl};
use std::time::Duration;
use rocksdb::{
    AccessType, ColumnFamilyDescriptor, DBCommon, DBInner, DBRawIteratorHandle,
    DBWalIteratorHandle, Direction, ErrorKind, FlushOptions, IngestExternalFileOptions,
    IteratorMode, LiveFile, MultiThreaded, Options, ReadOptions, SingleThreaded, WriteBatch,
    WriteOptions,
};
use rocksdb::checkpoint::{CheckpointHandle, Checkpointer};
use rocksdb::perf::{get_memory_usage_stats, MemoryConsumersHandle, MemoryUsage};
use rocksdb::Cache;
use rocksdb::backup::{BackupEngine, BackupEngineHandle, BackupEngineInfo, BackupEngineOptions, RestoreOptions};
use rocksdb::{CompactOptions, Env, OptimisticTransactionDB, ReadOnlyDB, ReadOnlyOpenDescriptor, WalStep, WriteBatchOp};
use std::cell::RefCell;
use std::collections::BTreeMap;

/// An in-memory engine: column family 0 is the default one.
struct MemDb {
    data: RefCell<BTreeMap<(u64, Vec<u8>), Vec<u8>>>,
    next_cf: RefCell<u64>,
    wal: RefCell<Vec<(u64, WriteBatch)>>,
    fail_writes: bool,
}

struct MemIter {
    items: Vec<(Vec<u8>, Vec<u8>)>,
    pos: isize,
}

impl DBRawIteratorHandle for MemIter {
    fn valid(&self) -> bool {
        self.pos >= 0 && (self.pos as usize) < self.items.len()
    }
    fn status(&self) -> Result<(), String> {
        Ok(())
    }
    fn seek_to_first(&mut self) {
        self.pos = 0;
    }
    fn seek_to_last(&mut self) {
        self.pos = self.items.len() as isize - 1;
    }
    fn seek(&mut self, key: &[u8]) {
        self.pos = self.items.iter().position(|(k, _)| k.as_slice() >= key).map_or(self.items.len() as isize, |p| p as isize);
    }
    fn seek_for_prev(&mut self, key: &[u8]) {
        self.pos = self.items.iter().rposition(|(k, _)| k.as_slice() <= key).map_or(-1, |p| p as isize);
    }
    fn next(&mut self) {
        self.pos += 1;
    }
    fn prev(&mut self) {
        self.pos -= 1;
    }
    fn key(&self) -> &[u8] {
        &self.items[self.pos as usize].0
    }
    fn value(&self) -> &[u8] {
        &self.items[self.pos as usize].1
    }
}

struct MemWal {
    batches: Vec<(u64, WriteBatch)>,
    pos: usize,
}

impl DBWalIteratorHandle for MemWal {
    fn valid(&self) -> bool {
        self.pos < self.batches.len()
    }
    fn status(&self) -> Result<(), String> {
        Ok(())
    }
    fn get_batch(&self) -> (u64, WriteBatch) {
        let (s, b) = &self.batches[self.pos];
        (*s, WriteBatch::from_ops(b.ops().clone()))
    }
    fn next(&mut self) {
        self.pos += 1;
    }
}

impl MemDb {
    fn new(fail_writes: bool) -> MemDb {
        MemDb {
            data: RefCell::new(BTreeMap::new()),
            next_cf: RefCell::new(1),
            wal: RefCell::new(Vec::new()),
            fail_writes,
        }
    }
    fn apply(&self, op: &WriteBatchOp) {
        let mut d = self.data.borrow_mut();
        match op {
            WriteBatchOp::Put { cf, key, value } => {
                d.insert((cf.unwrap_or(0), key.clone()), value.clone());
            }
            WriteBatchOp::Merge { cf, key, value } => {
                let e = d.entry((cf.unwrap_or(0), key.clone())).or_default();
                e.extend_from_slice(value);
            }
            WriteBatchOp::Delete { cf, key } => {
                d.remove(&(cf.unwrap_or(0), key.clone()));
            }
            WriteBatchOp::DeleteRange { cf, from, to } => {
                let c = cf.unwrap_or(0);
                d.retain(|(kc, k), _| !(*kc == c && k >= from && k < to));
            }
        }
    }
    fn record(&self, op: WriteBatchOp) -> Result<(), String> {
        if self.fail_writes {
            return Err("IO error: disk full".to_string());
        }
        self.apply(&op);
        let mut wal = self.wal.borrow_mut();
        let seq = wal.len() as u64 + 1;
        wal.push((seq, WriteBatch::from_ops(vec![op])));
        Ok(())
    }
}

impl DBInner for MemDb {
    type RawIterator = MemIter;
    type WalIterator = MemWal;

    fn create_dir_all(path: &str) -> Result<(), String> {
        if path.starts_with("/forbidden") {
            Err("Permission denied".to_string())
        } else {
            Ok(())
        }
    }
    fn open_raw(_opts: &Options, _path: &str, _access_type: &AccessType) -> Result<Option<Self>, String> {
        Ok(Some(MemDb::new(false)))
    }
    fn open_cf_raw(
        _opts: &Options,
        _path: &str,
        cfs: &[ColumnFamilyDescriptor],
        _access_type: &AccessType,
    ) -> Result<(Option<Self>, Vec<Option<u64>>), String> {
        let db = MemDb::new(false);
        let mut handles = Vec::new();
        for cf in cfs {
            if cf.name() == "default" {
                handles.push(Some(0));
            } else {
                let mut n = db.next_cf.borrow_mut();
                handles.push(Some(*n));
                *n += 1;
            }
        }
        Ok((Some(db), handles))
    }
    fn list_cf_raw(_opts: &Options, _path: &str) -> Result<Vec<String>, String> {
        Ok(vec!["default".to_string()])
    }
    fn destroy_raw(_opts: &Options, _path: &str) -> Result<(), String> {
        Ok(())
    }
    fn repair_raw(_opts: &Options, _path: &str) -> Result<(), String> {
        Ok(())
    }
    fn get_pinned_raw(&self, _readopts: &ReadOptions, cf: Option<u64>, key: &[u8]) -> Result<Option<Vec<u8>>, String> {
        Ok(self.data.borrow().get(&(cf.unwrap_or(0), key.to_vec())).cloned())
    }
    fn multi_get_raw(&self, readopts: &ReadOptions, keys: &[&[u8]]) -> Vec<(Option<Vec<u8>>, Option<String>)> {
        keys.iter().map(|k| (self.get_pinned_raw(readopts, None, k).unwrap(), None)).collect()
    }
    fn multi_get_cf_raw(&self, readopts: &ReadOptions, cfs: &[u64], keys: &[&[u8]]) -> Vec<(Option<Vec<u8>>, Option<String>)> {
        cfs.iter().zip(keys.iter()).map(|(c, k)| (self.get_pinned_raw(readopts, Some(*c), k).unwrap(), None)).collect()
    }
    fn batched_multi_get_cf_raw(&self, readopts: &ReadOptions, cf: u64, keys: &[&[u8]], _sorted_input: bool) -> Vec<(Option<Vec<u8>>, Option<String>)> {
        keys.iter().map(|k| {
            if k.is_empty() {
                (None, Some("Invalid argument: empty key".to_string()))
            } else {
                (self.get_pinned_raw(readopts, Some(cf), k).unwrap(), None)
            }
        }).collect()
    }
    fn key_may_exist_raw(&self, _readopts: &ReadOptions, cf: Option<u64>, key: &[u8]) -> bool {
        self.data.borrow().contains_key(&(cf.unwrap_or(0), key.to_vec()))
    }
    fn handle(&self) -> u64 {
        7
    }
    fn key_may_exist_value_raw(&self, _readopts: &ReadOptions, cf: u64, key: &[u8]) -> (bool, bool, Vec<u8>) {
        match self.data.borrow().get(&(cf, key.to_vec())) {
            Some(v) => (true, true, v.clone()),
            None => (key.starts_with(b"maybe"), false, Vec::new()),
        }
    }
    fn flush_cfs_raw(&self, _f: &FlushOptions, cfs: &[u64]) -> Result<(), String> {
        if cfs.is_empty() {
            Err("Invalid argument: no column family".to_string())
        } else {
            Ok(())
        }
    }
    fn put_raw(&self, _w: &WriteOptions, cf: Option<u64>, key: &[u8], value: &[u8]) -> Result<(), String> {
        self.record(WriteBatchOp::Put { cf, key: key.to_vec(), value: value.to_vec() })
    }
    fn merge_raw(&self, _w: &WriteOptions, cf: Option<u64>, key: &[u8], value: &[u8]) -> Result<(), String> {
        self.record(WriteBatchOp::Merge { cf, key: key.to_vec(), value: value.to_vec() })
    }
    fn delete_raw(&self, _w: &WriteOptions, cf: Option<u64>, key: &[u8]) -> Result<(), String> {
        self.record(WriteBatchOp::Delete { cf, key: key.to_vec() })
    }
    fn delete_range_raw(&self, _w: &WriteOptions, cf: u64, from: &[u8], to: &[u8]) -> Result<(), String> {
        self.record(WriteBatchOp::DeleteRange { cf: Some(cf), from: from.to_vec(), to: to.to_vec() })
    }
    fn write_raw(&self, _w: &WriteOptions, batch: &WriteBatch) -> Result<(), String> {
        if self.fail_writes {
            return Err("IO error: disk full".to_string());
        }
        for op in batch.ops() {
            self.apply(op);
        }
        Ok(())
    }
    fn flush_raw(&self, _f: &FlushOptions, _cf: Option<u64>) -> Result<(), String> {
        Ok(())
    }
    fn flush_wal_raw(&self, _sync: bool) -> Result<(), String> {
        Ok(())
    }
    fn create_cf_raw(&self, _opts: &Options, name: &str) -> Result<u64, String> {
        if name == "bad" {
            return Err("Invalid argument: bad name".to_string());
        }
        let mut n = self.next_cf.borrow_mut();
        let h = *n;
        *n += 1;
        Ok(h)
    }
    fn drop_cf_raw(&self, _cf: u64) -> Result<(), String> {
        Ok(())
    }
    fn destroy_cf_handle_raw(&self, _cf: u64) {}
    fn ingest_external_file_raw(&self, _o: &IngestExternalFileOptions, _cf: Option<u64>, _paths: &[&str]) -> Result<(), String> {
        Ok(())
    }
    fn create_iterator_raw(&self, readopts: &ReadOptions, cf: Option<u64>) -> MemIter {
        let c = cf.unwrap_or(0);
        let items = self
            .data
            .borrow()
            .iter()
            .filter(|((kc, k), _)| {
                *kc == c
                    && readopts.iterate_lower_bound.as_ref().map_or(true, |l| k >= l)
                    && readopts.iterate_upper_bound.as_ref().map_or(true, |u| k < u)
            })
            .map(|((_, k), v)| (k.clone(), v.clone()))
            .collect();
        MemIter { items, pos: -1 }
    }
    fn get_updates_since_raw(&self, _seq: u64) -> Result<MemWal, String> {
        let batches = self.wal.borrow().iter().map(|(s, b)| (*s, WriteBatch::from_ops(b.ops().clone()))).collect();
        Ok(MemWal { batches, pos: 0 })
    }
    fn latest_sequence_number_raw(&self) -> u64 {
        self.wal.borrow().len() as u64
    }
    fn property_value_raw(&self, _cf: Option<u64>, name: &str) -> Option<Result<String, String>> {
        match name {
            "rocksdb.estimate-num-keys" => Some(Ok(self.data.borrow().len().to_string())),
            "rocksdb.stats" => Some(Ok("** DB Stats **".to_string())),
            "rocksdb.huge" => Some(Ok("18446744073709551616".to_string())),
            "rocksdb.empty" => Some(Ok(String::new())),
            "bad.utf8" => Some(Err("invalid utf-8 sequence of 1 bytes from index 0".to_string())),
            _ => None,
        }
    }
    fn compact_range_raw(&self, _cf: Option<u64>, _o: Option<&CompactOptions>, _s: Option<&[u8]>, _e: Option<&[u8]>) {}
    fn set_options_raw(&self, _cf: Option<u64>, _n: &[&str], _v: &[&str]) -> Result<(), String> {
        Ok(())
    }
    fn delete_file_in_range_raw(&self, _cf: Option<u64>, _f: &[u8], _t: &[u8]) -> Result<(), String> {
        Ok(())
    }
    fn cancel_all_background_work_raw(&self, _wait: bool) {}
    fn try_catch_up_with_primary_raw(&self) -> Result<(), String> {
        Err("Not implemented: not a secondary".to_string())
    }
    fn live_files_raw(&self) -> Option<Vec<LiveFile>> {
        None
    }
}

type DB = DBCommon<SingleThreaded, MemDb>;

#[test]
fn put_get_delete_roundtrip() {
    let db = DB::open_default("mem_db").unwrap();
    assert_eq!(db.path(), "mem_db");
    db.put(b"my key", b"my value").unwrap();
    assert_eq!(db.get(b"my key").unwrap(), Some(b"my value".to_vec()));
    assert!(db.key_may_exist(b"my key"));
    db.delete(b"my key").unwrap();
    assert_eq!(db.get(b"my key").unwrap(), None);
    let pinned = db.get_pinned(b"missing").unwrap();
    assert!(pinned.is_none());
}

#[test]
fn engine_errors_become_errors() {
    let db = DB::open_default("mem_db_fail").unwrap();
    let db = {
        let mut d = db;
        d.drop_all_cfs();
        d
    };
    let failing = MemDb::new(true);
    let e = failing.put_raw(&WriteOptions::default(), None, b"k", b"v").unwrap_err();
    assert_eq!(e, "IO error: disk full");
    let r = db.try_catch_up_with_primary().unwrap_err();
    assert_eq!(r.kind(), ErrorKind::NotSupported);
    assert_eq!(r.into_string(), "Not implemented: not a secondary");
}

#[test]
fn open_path_with_nul_is_refused() {
    let r = DB::open_default("a\0b");
    let e = r.err().unwrap();
    assert_eq!(e.as_str(), "Failed to convert path to CString: nul byte found in provided data at position: 1");
    let r = DB::open_default("/forbidden/db");
    assert_eq!(r.err().unwrap().as_str(), "Failed to create RocksDB directory: `Permission denied`.");
}

#[test]
fn open_cf_holds_default_and_named() {
    let opts = Options::default();
    let db = DB::open_cf(&opts, "mem_cf", &["cf1", "cf2"]).unwrap();
    assert!(db.cf_handle("cf1").is_some());
    assert!(db.cf_handle("cf2").is_some());
    assert!(db.cf_handle("default").is_some());
    assert!(db.cf_handle("cf3").is_none());
    let plain = DB::open(&opts, "mem_plain").unwrap();
    assert!(plain.cf_handle("default").is_none());
}

#[test]
fn create_and_drop_cf() {
    let mut db = DB::open_default("mem_create").unwrap();
    db.create_cf("cf1", &Options::default()).unwrap();
    {
        let cf = db.cf_handle("cf1").unwrap();
        db.put_cf(cf, b"k", b"v").unwrap();
        assert_eq!(db.get_cf(cf, b"k").unwrap(), Some(b"v".to_vec()));
        assert_eq!(db.get(b"k").unwrap(), None);
    }
    db.drop_cf("cf1").unwrap();
    assert!(db.cf_handle("cf1").is_none());
    let e = db.drop_cf("cf1").unwrap_err();
    assert_eq!(e.as_str(), "Invalid column family: cf1");
    let e = db.create_cf("x\0y", &Options::default()).unwrap_err();
    assert_eq!(
        e.as_str(),
        "Failed to convert path to CString when creating cf: nul byte found in provided data at position: 1"
    );
    let e = db.create_cf("bad", &Options::default()).unwrap_err();
    assert_eq!(e.kind(), ErrorKind::InvalidArgument);
    assert!(db.cf_handle("bad").is_none());
}

#[test]
fn create_and_drop_cf_multi_threaded() {
    let mut db = DBCommon::<MultiThreaded, MemDb>::open_default("mem_create_mt").unwrap();
    db.create_cf("cf1", &Options::default()).unwrap();
    {
        let cf = db.cf_handle("cf1").unwrap();
        db.put_cf(&cf, b"k", b"v").unwrap();
        assert_eq!(db.get_cf(&cf, b"k").unwrap(), Some(b"v".to_vec()));
    }
    db.drop_cf("cf1").unwrap();
    assert!(db.cf_handle("cf1").is_none());
    let e = db.drop_cf("cf1").unwrap_err();
    assert_eq!(e.as_str(), "Invalid column family: cf1");
}

#[test]
fn iterators_follow_mode() {
    let db = DB::open_default("mem_iter").unwrap();
    for k in [b"a", b"b", b"c"] {
        db.put(k, k).unwrap();
    }
    let mut it = db.iterator(IteratorMode::Start);
    let mut keys = Vec::new();
    while let Some(item) = it.next() {
        keys.push(item.unwrap().0);
    }
    assert_eq!(keys, vec![b"a".to_vec(), b"b".to_vec(), b"c".to_vec()]);
    assert!(it.next().is_none());

    let mut it = db.iterator(IteratorMode::End);
    assert_eq!(it.next().unwrap().unwrap().0, b"c".to_vec());
    assert_eq!(it.next().unwrap().unwrap().0, b"b".to_vec());

    it.set_mode(IteratorMode::From(b"b", Direction::Forward));
    assert_eq!(it.next().unwrap().unwrap().0, b"b".to_vec());
    assert_eq!(it.next().unwrap().unwrap().0, b"c".to_vec());
    assert!(it.next().is_none());
    assert!(it.next().is_none());

    let mut raw = db.raw_iterator();
    raw.seek_to_first();
    assert_eq!(raw.item(), Some((&b"a"[..], &b"a"[..])));
    raw.seek_for_prev(b"bb");
    assert_eq!(raw.key(), Some(&b"b"[..]));
    raw.prev();
    raw.prev();
    assert!(!raw.valid());
    assert_eq!(raw.value(), None);
}

#[test]
fn prefix_iterator_starts_at_prefix() {
    let db = DB::open_default("mem_prefix").unwrap();
    db.put(b"aa", b"1").unwrap();
    db.put(b"ab", b"2").unwrap();
    db.put(b"b", b"3").unwrap();
    let mut it = db.prefix_iterator(b"ab");
    assert_eq!(it.next().unwrap().unwrap(), (b"ab".to_vec(), b"2".to_vec()));
}

#[test]
fn write_batch_and_multi_get() {
    let db = DB::open_default("mem_batch").unwrap();
    let mut batch = WriteBatch::new();
    batch.put(b"k1", b"v1");
    batch.put(b"k2", b"v2");
    batch.delete(b"k1");
    assert_eq!(batch.len(), 3);
    db.write(batch).unwrap();
    let got = db.multi_get(&[b"k1", b"k2"]);
    assert_eq!(got.len(), 2);
    assert_eq!(got[0].as_ref().unwrap(), &None);
    assert_eq!(got[1].as_ref().unwrap(), &Some(b"v2".to_vec()));
    let mut empty = WriteBatch::new();
    assert!(empty.is_empty());
    empty.merge(b"m", b"x");
    empty.clear();
    assert!(empty.is_empty());
}

#[test]
fn batched_multi_get_reports_each_key() {
    let mut db = DB::open_default("mem_batched").unwrap();
    db.create_cf("cf", &Options::default()).unwrap();
    let cf = db.cf_handle("cf").unwrap();
    db.put_cf(cf, b"x", b"1").unwrap();
    let got = db.batched_multi_get_cf(cf, &[b"x", b"", b"y"], false);
    assert_eq!(got[0].as_ref().unwrap().as_ref().unwrap().as_ref(), b"1");
    assert_eq!(got[1].as_ref().err().unwrap().kind(), ErrorKind::InvalidArgument);
    assert!(got[2].as_ref().unwrap().is_none());
}

#[test]
fn merge_and_delete_range() {
    let mut db = DB::open_default("mem_merge").unwrap();
    db.merge(b"m", b"a").unwrap();
    db.merge(b"m", b"b").unwrap();
    assert_eq!(db.get(b"m").unwrap(), Some(b"ab".to_vec()));
    db.create_cf("r", &Options::default()).unwrap();
    let cf = db.cf_handle("r").unwrap();
    for k in [b"a", b"b", b"c"] {
        db.put_cf(cf, k, b"v").unwrap();
    }
    db.delete_range_cf(cf, b"a", b"c").unwrap();
    assert_eq!(db.get_cf(cf, b"a").unwrap(), None);
    assert_eq!(db.get_cf(cf, b"c").unwrap(), Some(b"v".to_vec()));
}

#[test]
fn wal_iterator_accepts_only_later_batches() {
    let db = DB::open_default("mem_wal").unwrap();
    db.put(b"a", b"1").unwrap();
    db.put(b"b", b"2").unwrap();
    assert_eq!(db.latest_sequence_number(), 2);
    let it = db.get_updates_since(1).unwrap();
    assert_eq!(it.start_seq_number(), 1);
    assert!(!it.accepts(1));
    assert!(it.accepts(2));
    assert!(it.valid());
    let (seq, batch) = it.raw().get_batch();
    assert_eq!(seq, 1);
    assert_eq!(batch.len(), 1);
}

#[test]
fn set_options_refuses_nul() {
    let db = DB::open_default("mem_opts").unwrap();
    db.set_options(&[("max_write_buffer_number", "4")]).unwrap();
    let e = db.set_options(&[("a", "1"), ("b\0", "2")]).unwrap_err();
    assert_eq!(e.as_str(), "Invalid option name `nul byte found in provided data at position: 1`");
    let e = db.set_options(&[("a", "x\0")]).unwrap_err();
    assert_eq!(e.as_str(), "Invalid option value: `nul byte found in provided data at position: 1`");
}

#[test]
fn property_values() {
    let db = DB::open_default("mem_prop").unwrap();
    db.put(b"k", b"v").unwrap();
    assert_eq!(db.property_value("rocksdb.estimate-num-keys").unwrap(), Some("1".to_string()));
    assert_eq!(db.property_value("nothing").unwrap(), None);
    let e = db.property_value("bad.utf8").unwrap_err();
    assert_eq!(
        e.as_str(),
        "Failed to convert property value to string: invalid utf-8 sequence of 1 bytes from index 0"
    );
    let e = db.property_value("a\0").unwrap_err();
    assert_eq!(
        e.as_str(),
        "Failed to convert property name to CString: nul byte found in provided data at position: 1"
    );
}

#[test]
fn ingest_refuses_nul_path() {
    let db = DB::open_default("mem_ingest").unwrap();
    db.ingest_external_file(&["ok.sst"]).unwrap();
    let e = db.ingest_external_file(&["ok.sst", "b\0ad.sst", "c\0"]).unwrap_err();
    assert_eq!(e.as_str(), "Failed to convert path to CString: nul byte found in provided data at position: 1");
    assert_eq!(db.live_files().unwrap_err().as_str(), "Could not get live files");
}

#[test]
fn write_batch_records_updates() {
    let mut b = WriteBatch::new();
    b.put(b"k", b"v");
    b.delete(b"k");
    match &b.ops()[0] {
        WriteBatchOp::Put { cf, key, value } => {
            assert_eq!(*cf, None);
            assert_eq!(key, &b"k".to_vec());
            assert_eq!(value, &b"v".to_vec());
        }
        _ => panic!("expected a put"),
    }
}

#[test]
fn wal_iterator_steps_past_requested_batches() {
    let db = DB::open_default("mem_wal_steps").unwrap();
    db.put(b"a", b"1").unwrap();
    db.put(b"b", b"2").unwrap();
    db.put(b"c", b"3").unwrap();
    let mut it = db.get_updates_since(2).unwrap();
    assert!(matches!(it.next_step(), WalStep::Skipped));
    assert!(matches!(it.next_step(), WalStep::Skipped));
    match it.next_step() {
        WalStep::Item(Ok((seq, batch))) => {
            assert_eq!(seq, 3);
            assert_eq!(batch.len(), 1);
        }
        _ => panic!("expected the third batch"),
    }
    assert!(matches!(it.next_step(), WalStep::End));
    assert!(matches!(it.next_step(), WalStep::End));
}

#[test]
fn property_int_values() {
    let db = DB::open_default("mem_prop_int").unwrap();
    db.put(b"k", b"v").unwrap();
    db.put(b"l", b"w").unwrap();
    assert_eq!(db.property_int_value("rocksdb.estimate-num-keys").unwrap(), Some(2));
    assert_eq!(db.property_int_value("nothing").unwrap(), None);
    assert_eq!(
        db.property_int_value("rocksdb.stats").unwrap_err().as_str(),
        "Failed to convert property value ** DB Stats ** to int: invalid digit found in string"
    );
    assert_eq!(
        db.property_int_value("rocksdb.huge").unwrap_err().as_str(),
        "Failed to convert property value 18446744073709551616 to int: number too large to fit in target type"
    );
    assert_eq!(
        db.property_int_value("rocksdb.empty").unwrap_err().as_str(),
        "Failed to convert property value  to int: cannot parse integer from empty string"
    );
    assert_eq!(
        db.property_int_value("x\0y").unwrap_err().as_str(),
        "Failed to convert property name to CString: nul byte found in provided data at position: 1"
    );
}

#[test]
fn key_may_exist_gives_found_values() {
    let db = DB::open_cf(&Options::default(), "mem_kme", &["cf1"]).unwrap();
    let cf = db.cf_handle("cf1").unwrap();
    db.put_cf(cf, b"k", b"v").unwrap();
    let ro = ReadOptions::default();
    assert_eq!(db.key_may_exist_cf_opt_value(cf, b"k", &ro), (true, Some(b"v".to_vec())));
    assert_eq!(db.key_may_exist_cf_opt_value(cf, b"maybe", &ro), (true, None));
    assert_eq!(db.key_may_exist_cf_opt_value(cf, b"no", &ro), (false, None));
    assert!(db.key_may_exist_cf(cf, b"k"));
}

#[test]
fn flush_cfs_hands_every_handle() {
    let db = DB::open_cf(&Options::default(), "mem_flush_cfs", &["a", "b"]).unwrap();
    let a = db.cf_handle("a").unwrap();
    let b = db.cf_handle("b").unwrap();
    db.flush_cfs_opt(&[a, b], &FlushOptions::default()).unwrap();
    let none: [&rocksdb::ColumnFamily; 0] = [];
    assert_eq!(
        db.flush_cfs_opt(&none, &FlushOptions::default()).unwrap_err().as_str(),
        "Invalid argument: no column family"
    );
}

#[test]
fn read_only_and_transaction_databases_keep_their_path() {
    let ro = ReadOnlyDB::<MemDb>::open(&Options::default(), "mem_ro", ReadOnlyOpenDescriptor::default()).unwrap();
    assert_eq!(ro.path(), "mem_ro");
    assert!(ReadOnlyOpenDescriptor::default().error_if_log_file_exists);
    assert_eq!(ro.db().get(b"nothing").unwrap(), None);
    let ro_cf = ReadOnlyDB::<MemDb>::open_cf(&Options::default(), "mem_ro_cf", &["x"], ReadOnlyOpenDescriptor::default()).unwrap();
    assert!(ro_cf.db().cf_handle("x").is_some());
    assert!(ro_cf.db().cf_handle("default").is_some());
    let e = ReadOnlyDB::<MemDb>::open(&Options::default(), "a\0b", ReadOnlyOpenDescriptor::default()).err().unwrap();
    assert_eq!(e.as_str(), "Failed to convert path to CString: nul byte found in provided data at position: 1");
    let tx = OptimisticTransactionDB::<MemDb>::open(&Options::default(), "mem_tx").unwrap();
    assert_eq!(tx.path(), "mem_tx");
    tx.base_db().put(b"k", b"v").unwrap();
    assert_eq!(tx.base_db().get(b"k").unwrap(), Some(b"v".to_vec()));
}

/// A backup engine that keeps the backups it is asked for.
struct MemBackups {
    backups: Vec<BackupEngineInfo>,
}

impl BackupEngineHandle for MemBackups {
    fn open_raw(opts: &BackupEngineOptions, _env: &Env) -> Result<Option<Self>, String> {
        if opts.backup_dir.is_empty() {
            Ok(None)
        } else if opts.backup_dir == b"/readonly".to_vec() {
            Err("IO error: read-only file system".to_string())
        } else {
            Ok(Some(MemBackups { backups: Vec::new() }))
        }
    }
    fn create_new_backup_flush_raw(&mut self, _db: u64, _flush: bool) -> Result<(), String> {
        let id = self.backups.len() as u32 + 1;
        self.backups.push(BackupEngineInfo { timestamp: 0, backup_id: id, size: 10, num_files: 1 });
        Ok(())
    }
    fn purge_old_backups_raw(&mut self, keep: u32) -> Result<(), String> {
        while self.backups.len() > keep as usize {
            self.backups.remove(0);
        }
        Ok(())
    }
    fn restore_from_latest_backup_raw(&mut self, _d: &str, _w: &str, _o: &RestoreOptions) -> Result<(), String> {
        if self.backups.is_empty() {
            Err("NotFound: no backup".to_string())
        } else {
            Ok(())
        }
    }
    fn restore_from_backup_raw(&mut self, _d: &str, _w: &str, _o: &RestoreOptions, id: u32) -> Result<(), String> {
        if self.backups.iter().any(|b| b.backup_id == id) {
            Ok(())
        } else {
            Err("NotFound: no such backup".to_string())
        }
    }
    fn verify_backup_raw(&self, id: u32) -> Result<(), String> {
        self.backups.iter().find(|b| b.backup_id == id).map(|_| ()).ok_or_else(|| "NotFound".to_string())
    }
    fn get_backup_info_raw(&self) -> Vec<BackupEngineInfo> {
        self.backups.clone()
    }
}

#[test]
fn backups_are_created_restored_and_purged() {
    let db = DB::open_default("mem_backup_src").unwrap();
    let env = Env::default().unwrap();
    let opts = BackupEngineOptions::new("/backups").unwrap();
    assert_eq!(opts.backup_dir, b"/backups".to_vec());
    let mut be = BackupEngine::<MemBackups>::open(&opts, &env).unwrap();
    let mut restore = RestoreOptions::default();
    restore.set_keep_log_files(true);
    assert_eq!(restore.keep_log_files, Some(true));
    assert_eq!(
        be.restore_from_latest_backup("db", "wal", &restore).unwrap_err().kind(),
        ErrorKind::NotFound
    );
    be.create_new_backup(&db).unwrap();
    be.create_new_backup_flush(&db, true).unwrap();
    assert_eq!(be.get_backup_info().len(), 2);
    be.verify_backup(2).unwrap();
    be.restore_from_backup("db", "wal", &restore, 1).unwrap();
    assert_eq!(
        be.restore_from_latest_backup("d\0b", "wal", &restore).unwrap_err().as_str(),
        "Failed to convert path to CString: nul byte found in provided data at position: 1"
    );
    assert_eq!(
        be.restore_from_backup("db", "w\0al", &restore, 1).unwrap_err().as_str(),
        "Failed to convert path to CString: nul byte found in provided data at position: 1"
    );
    be.purge_old_backups(1).unwrap();
    assert_eq!(be.get_backup_info()[0].backup_id, 2);
    assert_eq!(
        BackupEngineOptions::new("a\0").err().unwrap().as_str(),
        "Failed to convert backup_dir to CString when constructing BackupEngineOptions"
    );
    let empty = BackupEngineOptions::new("").unwrap();
    assert_eq!(
        BackupEngine::<MemBackups>::open(&empty, &env).err().unwrap().as_str(),
        "Could not initialize backup engine."
    );
    let ro = BackupEngineOptions::new("/readonly").unwrap();
    assert_eq!(
        BackupEngine::<MemBackups>::open(&ro, &env).err().unwrap().kind(),
        ErrorKind::IOError
    );
}

/// A checkpoint object that records the directories it was asked for.
struct MemCheckpoint {
    made: Vec<(String, Option<String>, u64)>,
}

impl CheckpointHandle for MemCheckpoint {
    fn create_raw(_db: u64, _is_titan: bool) -> Result<Self, String> {
        Ok(MemCheckpoint { made: Vec::new() })
    }
    fn create_checkpoint_raw(&mut self, basedb_out_dir: &str, log_size_for_flush: u64) -> Result<(), String> {
        if basedb_out_dir == "exists" {
            return Err("Invalid argument: Directory exists".to_string());
        }
        self.made.push((basedb_out_dir.to_string(), None, log_size_for_flush));
        Ok(())
    }
    fn create_titan_checkpoint_raw(&mut self, basedb_out_dir: &str, titan_out_dir: &str, log_size_for_flush: u64) -> Result<(), String> {
        self.made.push((basedb_out_dir.to_string(), Some(titan_out_dir.to_string()), log_size_for_flush));
        Ok(())
    }
}

#[test]
fn checkpoints_check_their_directories() {
    let db = DB::open_default("mem_checkpoint").unwrap();
    let mut plain = Checkpointer::<MemCheckpoint>::new(&db, false).unwrap();
    plain.create_at("/cp1", Some("/ignored"), 0).unwrap();
    assert_eq!(plain.create_at("exists", None, 0).unwrap_err(), "Invalid argument: Directory exists");
    assert_eq!(plain.create_at("/c\0p", None, 0).unwrap_err(), "/c\0p is not a valid directory");
    assert_eq!(plain.create_at("/cp", Some("t\0"), 0).unwrap_err(), "t\0 is not a valid directory");
    let mut titan = Checkpointer::<MemCheckpoint>::new(&db, true).unwrap();
    titan.create_at("/cp2", None, 7).unwrap();
    titan.create_at("/cp3", Some("/titan3"), 8).unwrap();
}

/// Memory consumers that count what they are given.
struct MemConsumers {
    dbs: u64,
    caches: u64,
}

impl MemoryConsumersHandle for MemConsumers {
    fn create_raw() -> Option<Self> {
        Some(MemConsumers { dbs: 0, caches: 0 })
    }
    fn add_db_raw(&mut self, _db: u64) {
        self.dbs += 1;
    }
    fn add_cache_raw(&mut self, cache: &Cache) {
        self.caches += cache.capacity as u64;
    }
    fn build_raw(&self) -> Result<MemoryUsage, String> {
        Ok(MemoryUsage {
            mem_table_total: self.dbs * 100,
            mem_table_unflushed: self.dbs * 10,
            mem_table_readers_total: 1,
            cache_total: self.caches,
        })
    }
}

struct NoConsumers;

impl MemoryConsumersHandle for NoConsumers {
    fn create_raw() -> Option<Self> {
        None
    }
    fn add_db_raw(&mut self, _db: u64) {}
    fn add_cache_raw(&mut self, _cache: &Cache) {}
    fn build_raw(&self) -> Result<MemoryUsage, String> {
        Err("never built".to_string())
    }
}

#[test]
fn memory_usage_of_databases_and_caches() {
    let a = DB::open_default("mem_usage_a").unwrap();
    let b = DB::open_default("mem_usage_b").unwrap();
    let c = Cache::new_lru_cache(64);
    let stats = get_memory_usage_stats::<MemConsumers, SingleThreaded, MemDb>(Some(&[&a, &b]), Some(&[&c])).unwrap();
    assert_eq!(stats.mem_table_total, 200);
    assert_eq!(stats.mem_table_unflushed, 20);
    assert_eq!(stats.mem_table_readers_total, 1);
    assert_eq!(stats.cache_total, 64);
    let none = get_memory_usage_stats::<MemConsumers, SingleThreaded, MemDb>(None, None).unwrap();
    assert_eq!(none.mem_table_total, 0);
    let e = get_memory_usage_stats::<NoConsumers, SingleThreaded, MemDb>(None, None).err().unwrap();
    assert_eq!(e.as_str(), "Could not create MemoryUsage builder");
}

#[test]
fn engine_replies_to_opens() {
    let e = DB::from_raw(None, Vec::new(), "p").err().unwrap();
    assert_eq!(e.as_str(), "Could not initialize database.");
    let db = DB::from_raw(Some(MemDb::new(false)), vec![("default".to_string(), 0), ("x".to_string(), 5)], "p").unwrap();
    assert_eq!(db.path(), "p");
    assert_eq!(db.cf_handle("x").unwrap().handle(), 5);
    assert!(db.cf_handle("y").is_none());
    let env = Env::default().unwrap();
    assert_eq!(
        BackupEngine::<MemBackups>::from_raw(Ok(None), &env).err().unwrap().as_str(),
        "Could not initialize backup engine."
    );
    assert_eq!(
        BackupEngine::<MemBackups>::from_raw(Err("IO error: x".to_string()), &env).err().unwrap().as_str(),
        "IO error: x"
    );
    assert!(BackupEngine::<MemBackups>::from_raw(Ok(Some(MemBackups { backups: Vec::new() })), &env).is_ok());
    assert_eq!(
        rocksdb::perf::MemoryUsageBuilder::<NoConsumers>::from_raw(None).err().unwrap().as_str(),
        "Could not create MemoryUsage builder"
    );
    assert_eq!(rocksdb::db::live_files_from_raw(None).unwrap_err().as_str(), "Could not get live files");
    assert_eq!(rocksdb::db::live_files_from_raw(Some(Vec::new())).unwrap().len(), 0);
}

#[test]
fn multi_get_hands_each_key_with_its_family() {
    let a = rocksdb::ColumnFamily::new(7);
    let b = rocksdb::ColumnFamily::new(9);
    let keys: Vec<(&rocksdb::ColumnFamily, &[u8])> = vec![(&a, b"x"), (&b, b"y"), (&a, b"z")];
    let (cfs, ks) = rocksdb::db::split_cf_keys(&keys);
    assert_eq!(cfs, vec![7, 9, 7]);
    assert_eq!(ks, vec![&b"x"[..], &b"y"[..], &b"z"[..]]);
}

#[test]
fn pinned_reply_keeps_values_and_errors() {
    let p = rocksdb::db::pinned_reply(Ok(Some(b"v".to_vec()))).unwrap().unwrap();
    assert_eq!(p.to_vec(), b"v".to_vec());
    assert!(rocksdb::db::pinned_reply(Ok(None)).unwrap().is_none());
    match rocksdb::db::pinned_reply(Err(rocksdb::Error::new("boom".to_string()))) {
        Err(e) => assert_eq!(e.as_str(), "boom"),
        Ok(_) => panic!("an error was expected"),
    }
}

#[test]
fn directory_creation_failure_is_named() {
    assert!(rocksdb::db::dir_creation_result(Ok(())).is_ok());
    let e = rocksdb::db::dir_creation_result(Err("denied".to_string())).unwrap_err();
    assert_eq!(e.as_str(), "Failed to create RocksDB directory: `denied`.");
}

#[test]
fn column_family_ttl_choice() {
    assert_eq!(column_family_ttl_secs(&ColumnFamilyTtl::SameAsDb, 60, 5), 60);
    assert_eq!(column_family_ttl_secs(&ColumnFamilyTtl::Duration(Duration::from_secs(5)), 60, 5), 5);
    assert_eq!(column_family_ttl_secs(&ColumnFamilyTtl::Disabled, 60, 5), -1);
    assert_eq!(column_family_ttl_secs(&ColumnFamilyTtl::SameAsDb, 1u64 << 32, 0), 0);
}

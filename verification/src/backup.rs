//! Backups of a database, and their restoration.
use vstd::prelude::*;

use crate::db::{DBCommon, DBInner, ThreadMode};
use crate::db_iterator::{converted, engine_result};
use crate::db_options::Env;
use crate::error::Error;
use crate::ffi_util::{cpath_error_text, first_nul, to_cpath};
use vstd::string::StringSliceAdditionalSpecFns;

verus! {

/// Represents information of a backup including timestamp of the backup
/// and the size (please note that sum of all backups' sizes is bigger than the actual
/// size of the backup directory because some data is shared by multiple backups).
/// Backups are identified by their always-increasing IDs.
#[derive(Debug, Clone, Copy)]
pub struct BackupEngineInfo {
    /// Timestamp of the backup
    pub timestamp: i64,
    /// ID of the backup
    pub backup_id: u32,
    /// Size of the backup
    pub size: u64,
    /// Number of files related to the backup
    pub num_files: u32,
}

/// The options a backup engine is opened with: the directory that holds the
/// backups (as the bytes of a C path), and how many operations it may run in
/// parallel (`None`: the engine's default).
#[derive(Clone)]
pub struct BackupEngineOptions {
    pub backup_dir: Vec<u8>,
    pub max_background_operations: Option<i32>,
}

/// The message given when the backup directory cannot become a C string.
pub open spec fn backup_dir_error_text() -> Seq<char> {
    "Failed to convert backup_dir to CString when constructing BackupEngineOptions"@
}

impl BackupEngineOptions {
    /// Initializes `BackupEngineOptions` with the directory to be used for storing/accessing the
    /// backup files.
    pub fn new(backup_dir: &str) -> (r: Result<Self, Error>)
        ensures
            match first_nul(backup_dir.spec_bytes()) {
                None => r matches Ok(o) && o.backup_dir@ == backup_dir.spec_bytes()
                    && o.max_background_operations is None,
                Some(_) => r matches Err(e) && e.view() == backup_dir_error_text(),
            },
    {
        match to_cpath(backup_dir) {
            Ok(bytes) => Ok(BackupEngineOptions { backup_dir: bytes, max_background_operations: None }),
            Err(_) => {
                proof {
                    reveal_strlit("Failed to convert backup_dir to CString when constructing BackupEngineOptions");
                }
                Err(Error::new(String::from_str("Failed to convert backup_dir to CString when constructing BackupEngineOptions")))
            },
        }
    }

    /// Sets the number of operations (such as file copies or file checksums) that `RocksDB` may
    /// perform in parallel when executing a backup or restore.
    ///
    /// Default: 1
    pub fn set_max_background_operations(&mut self, max_background_operations: i32)
        ensures
            final(self).max_background_operations == Some(max_background_operations),
            final(self).backup_dir@ == old(self).backup_dir@,
    {
        self.max_background_operations = Some(max_background_operations);
    }
}

/// The options of a restoration: whether the log files in the WAL directory
/// are kept (`None`: the engine's default, which is not to keep them).
#[derive(Clone, Copy)]
pub struct RestoreOptions {
    pub keep_log_files: Option<bool>,
}

impl RestoreOptions {
    /// The engine's default restoration options.
    pub fn default() -> (r: RestoreOptions)
        ensures
            r.keep_log_files is None,
    {
        RestoreOptions { keep_log_files: None }
    }

    /// Sets `keep_log_files`. If true, restore won't overwrite the existing log files in wal_dir.
    /// It will also move all log files from archive directory to wal_dir. Use this option in
    /// combination with BackupEngineOptions::backup_log_files = false for persisting in-memory
    /// databases.
    ///
    /// Default: false
    pub fn set_keep_log_files(&mut self, keep_log_files: bool)
        ensures
            final(self).keep_log_files == Some(keep_log_files),
    {
        self.keep_log_files = Some(keep_log_files);
    }
}

/// The engine's backup engine, as the engine gives it.  Nothing is assumed of
/// what its methods report: the [`BackupEngine`] decides on whatever comes back.
pub trait BackupEngineHandle: Sized {
    /// Performs `rocksdb_backup_engine_open_opts`; `None` stands for a null handle.
    fn open_raw(opts: &BackupEngineOptions, env: &Env) -> Result<Option<Self>, String>;

    /// Performs `rocksdb_backup_engine_create_new_backup_flush` on the
    /// database whose handle is `db`.
    fn create_new_backup_flush_raw(&mut self, db: u64, flush_before_backup: bool) -> (r: Result<(), String>)
        ensures
            old(self).backup_reply(db, flush_before_backup, r),
    ;

    /// What the engine may answer when asked for a new backup of the
    /// database whose handle is `db`, flushed first or not; a relation whose
    /// default admits every answer.
    closed spec fn backup_reply(&self, db: u64, flush_before_backup: bool, r: Result<(), String>) -> bool {
        true
    }

    /// Performs `rocksdb_backup_engine_purge_old_backups`.
    fn purge_old_backups_raw(&mut self, num_backups_to_keep: u32) -> (r: Result<(), String>)
        ensures
            old(self).request_reply(BackupRequest::Purge(num_backups_to_keep), r),
    ;

    /// What the engine may answer to the request `req`: a relation of the
    /// engine before the call, the request (with the database directory,
    /// the WAL directory and the options in their places) and the answer;
    /// the default admits every answer.
    closed spec fn request_reply(&self, req: BackupRequest, r: Result<(), String>) -> bool {
        true
    }

    /// Performs `rocksdb_backup_engine_restore_db_from_latest_backup`.
    fn restore_from_latest_backup_raw(&mut self, db_dir: &str, wal_dir: &str, opts: &RestoreOptions) -> (r: Result<
        (),
        String,
    >)
        ensures
            old(self).request_reply(
                BackupRequest::RestoreFromLatest { db_dir: db_dir@, wal_dir: wal_dir@, opts: *opts },
                r,
            ),
    ;

    /// Performs `rocksdb_backup_engine_restore_db_from_backup`.
    fn restore_from_backup_raw(
        &mut self,
        db_dir: &str,
        wal_dir: &str,
        opts: &RestoreOptions,
        backup_id: u32,
    ) -> (r: Result<(), String>)
        ensures
            old(self).request_reply(
                BackupRequest::RestoreFromBackup { db_dir: db_dir@, wal_dir: wal_dir@, opts: *opts, backup_id },
                r,
            ),
    ;

    /// What the engine may answer when asked to verify the backup `backup_id`.
    closed spec fn verify_reply(&self, backup_id: u32, r: Result<(), String>) -> bool {
        true
    }

    /// What the engine may list as its backups.
    closed spec fn backup_info_reply(&self, r: Vec<BackupEngineInfo>) -> bool {
        true
    }

    /// Performs `rocksdb_backup_engine_verify_backup`.
    fn verify_backup_raw(&self, backup_id: u32) -> (r: Result<(), String>)
        ensures
            self.verify_reply(backup_id, r),
    ;

    /// Performs `rocksdb_backup_engine_get_backup_info`, one record per backup.
    fn get_backup_info_raw(&self) -> (r: Vec<BackupEngineInfo>)
        ensures
            self.backup_info_reply(r),
    ;
}

/// A request handed to the engine's backup engine.
pub enum BackupRequest {
    /// A new backup of the database at the path, flushed first or not.
    CreateBackup { db_path: Seq<char>, flush_before_backup: bool },
    /// Keep the newest backups, as many as the number.
    Purge(u32),
    /// Restore the latest backup into the directories.
    RestoreFromLatest { db_dir: Seq<char>, wal_dir: Seq<char>, opts: RestoreOptions },
    /// Restore the backup with the id into the directories.
    RestoreFromBackup { db_dir: Seq<char>, wal_dir: Seq<char>, opts: RestoreOptions, backup_id: u32 },
}

/// A backup engine, with the environment it was opened in.
pub struct BackupEngine<B: BackupEngineHandle> {
    inner: B,
    env: Env,
    /// The requests handed to the engine, in order.
    requests: Ghost<Seq<BackupRequest>>,
}

/// The error when either of two paths cannot become a C string: that of the
/// first one that cannot.
pub open spec fn two_paths_error(a: Seq<u8>, b: Seq<u8>) -> Option<Seq<char>> {
    match first_nul(a) {
        Some(pos) => Some(cpath_error_text(pos as nat)),
        None => match first_nul(b) {
            Some(pos) => Some(cpath_error_text(pos as nat)),
            None => None,
        },
    }
}

impl<B: BackupEngineHandle> BackupEngine<B> {
    /// The environment the engine was opened in.
    pub closed spec fn spec_env(&self) -> Env {
        self.env
    }

    /// The engine's backup engine.
    pub closed spec fn spec_engine(&self) -> B {
        self.inner
    }

    /// The requests handed to the engine since it was opened, in order.
    pub closed spec fn spec_requests(&self) -> Seq<BackupRequest> {
        self.requests@
    }

    /// Open a backup engine with the specified options and RocksDB Env.
    pub fn open(opts: &BackupEngineOptions, env: &Env) -> (r: Result<Self, Error>)
        ensures
            r matches Ok(be) ==> be.spec_env() == *env && be.spec_requests() == Seq::<BackupRequest>::empty(),
    {
        Self::from_raw(B::open_raw(opts, env), env)
    }

    /// The backup engine for the engine's reply to an open: its error, an
    /// error of its own when the engine gave no handle, or the engine over the
    /// handle given, with the environment `env`.
    pub fn from_raw(raw: Result<Option<B>, String>, env: &Env) -> (r: Result<Self, Error>)
        ensures
            match raw {
                Err(m) => r matches Err(e) && e.view() == m@,
                Ok(None) => r matches Err(e) && e.view() == "Could not initialize backup engine."@,
                Ok(Some(_)) => r matches Ok(be) && be.spec_env() == *env && be.spec_requests()
                    == Seq::<BackupRequest>::empty(),
            },
    {
        match raw {
            Err(m) => Err(Error::new(m)),
            Ok(None) => {
                proof {
                    reveal_strlit("Could not initialize backup engine.");
                }
                Err(Error::new(String::from_str("Could not initialize backup engine.")))
            },
            Ok(Some(be)) => Ok(BackupEngine { inner: be, env: *env, requests: Ghost(Seq::empty()) }),
        }
    }

    /// The engine's handle.
    pub fn raw(&self) -> &B {
        &self.inner
    }

    /// Captures the state of the database in the latest backup.
    ///
    /// Note: no flush before backup is performed. User might want to
    /// use `create_new_backup_flush` instead.
    pub fn create_new_backup<T: ThreadMode, D: DBInner>(&mut self, db: &DBCommon<T, D>) -> (r: Result<(), Error>)
        ensures
            final(self).spec_env() == old(self).spec_env(),
            final(self).spec_requests() == old(self).spec_requests().push(
                BackupRequest::CreateBackup { db_path: db.spec_path(), flush_before_backup: false },
            ),
    {
        self.create_new_backup_flush(db, false)
    }

    /// Captures the state of the database in the latest backup.
    ///
    /// Set flush_before_backup=true to avoid losing unflushed key/value
    /// pairs from the memtable.
    pub fn create_new_backup_flush<T: ThreadMode, D: DBInner>(
        &mut self,
        db: &DBCommon<T, D>,
        flush_before_backup: bool,
    ) -> (r: Result<(), Error>)
        ensures
            final(self).spec_env() == old(self).spec_env(),
            final(self).spec_requests() == old(self).spec_requests().push(
                BackupRequest::CreateBackup { db_path: db.spec_path(), flush_before_backup },
            ),
            exists|h: u64, raw: Result<(), String>| #[trigger] db.spec_engine().handle_answer(h) && #[trigger] old(
                self,
            ).spec_engine().backup_reply(h, flush_before_backup, raw) && converted(raw, r),
    {
        let ghost before = self.inner;
        assert(old(self).spec_engine() == before);
        let h = db.inner().handle();
        assert(db.spec_engine().handle_answer(h));
        let r = engine_result(self.inner.create_new_backup_flush_raw(h, flush_before_backup));
        proof {
            self.requests@ = self.requests@.push(
                BackupRequest::CreateBackup { db_path: db.spec_path(), flush_before_backup },
            );
        }
        r
    }

    /// Deletes all backups but the newest `num_backups_to_keep`; the engine
    /// takes the number as a 32-bit one, truncating it.
    pub fn purge_old_backups(&mut self, num_backups_to_keep: usize) -> (r: Result<(), Error>)
        ensures
            final(self).spec_env() == old(self).spec_env(),
            final(self).spec_requests() == old(self).spec_requests().push(
                BackupRequest::Purge(num_backups_to_keep as u32),
            ),
            exists|raw: Result<(), String>| #[trigger] old(self).spec_engine().request_reply(
                BackupRequest::Purge(num_backups_to_keep as u32),
                raw,
            ) && converted(raw, r),
    {
        #[verifier::truncate]
        let n = num_backups_to_keep as u32;
        let ghost before = self.inner;
        assert(old(self).spec_engine() == before);
        let r = engine_result(self.inner.purge_old_backups_raw(n));
        proof {
            self.requests@ = self.requests@.push(BackupRequest::Purge(n));
        }
        r
    }

    /// Restore from the latest backup
    ///
    /// # Arguments
    ///
    /// * `db_dir` - A path to the database directory
    /// * `wal_dir` - A path to the wal directory
    /// * `opts` - Restore options
    pub fn restore_from_latest_backup(&mut self, db_dir: &str, wal_dir: &str, opts: &RestoreOptions) -> (r: Result<
        (),
        Error,
    >)
        ensures
            final(self).spec_env() == old(self).spec_env(),
            two_paths_error(db_dir.spec_bytes(), wal_dir.spec_bytes()) matches Some(m) ==> r matches Err(e)
                && e.view() == m,
            two_paths_error(db_dir.spec_bytes(), wal_dir.spec_bytes()) is Some ==> final(self).spec_requests()
                == old(self).spec_requests(),
            two_paths_error(db_dir.spec_bytes(), wal_dir.spec_bytes()) is None ==> final(self).spec_requests()
                == old(self).spec_requests().push(
                BackupRequest::RestoreFromLatest { db_dir: db_dir@, wal_dir: wal_dir@, opts: *opts },
            ),
            two_paths_error(db_dir.spec_bytes(), wal_dir.spec_bytes()) is None ==> exists|raw: Result<(), String>|
                #[trigger] old(self).spec_engine().request_reply(
                    BackupRequest::RestoreFromLatest { db_dir: db_dir@, wal_dir: wal_dir@, opts: *opts },
                    raw,
                ) && converted(raw, r),
    {
        let _c_db_dir = to_cpath(db_dir)?;
        let _c_wal_dir = to_cpath(wal_dir)?;
        let ghost before = self.inner;
        assert(old(self).spec_engine() == before);
        let r = engine_result(self.inner.restore_from_latest_backup_raw(db_dir, wal_dir, opts));
        proof {
            self.requests@ = self.requests@.push(
                BackupRequest::RestoreFromLatest { db_dir: db_dir@, wal_dir: wal_dir@, opts: *opts },
            );
        }
        r
    }

    /// Restore from a specified backup
    ///
    /// The specified backup id should be passed in as an additional parameter.
    pub fn restore_from_backup(
        &mut self,
        db_dir: &str,
        wal_dir: &str,
        opts: &RestoreOptions,
        backup_id: u32,
    ) -> (r: Result<(), Error>)
        ensures
            final(self).spec_env() == old(self).spec_env(),
            two_paths_error(db_dir.spec_bytes(), wal_dir.spec_bytes()) matches Some(m) ==> r matches Err(e)
                && e.view() == m,
            two_paths_error(db_dir.spec_bytes(), wal_dir.spec_bytes()) is Some ==> final(self).spec_requests()
                == old(self).spec_requests(),
            two_paths_error(db_dir.spec_bytes(), wal_dir.spec_bytes()) is None ==> final(self).spec_requests()
                == old(self).spec_requests().push(
                BackupRequest::RestoreFromBackup { db_dir: db_dir@, wal_dir: wal_dir@, opts: *opts, backup_id },
            ),
            two_paths_error(db_dir.spec_bytes(), wal_dir.spec_bytes()) is None ==> exists|raw: Result<(), String>|
                #[trigger] old(self).spec_engine().request_reply(
                    BackupRequest::RestoreFromBackup { db_dir: db_dir@, wal_dir: wal_dir@, opts: *opts, backup_id },
                    raw,
                ) && converted(raw, r),
    {
        let _c_db_dir = to_cpath(db_dir)?;
        let _c_wal_dir = to_cpath(wal_dir)?;
        let ghost before = self.inner;
        assert(old(self).spec_engine() == before);
        let r = engine_result(self.inner.restore_from_backup_raw(db_dir, wal_dir, opts, backup_id));
        proof {
            self.requests@ = self.requests@.push(
                BackupRequest::RestoreFromBackup { db_dir: db_dir@, wal_dir: wal_dir@, opts: *opts, backup_id },
            );
        }
        r
    }

    /// Checks that each file exists and that the size of the file matches our
    /// expectations. it does not check file checksum.
    ///
    /// If this BackupEngine created the backup, it compares the files' current
    /// sizes against the number of bytes written to them during creation.
    /// Otherwise, it compares the files' current sizes against their sizes when
    /// the BackupEngine was opened.
    pub fn verify_backup(&self, backup_id: u32) -> (r: Result<(), Error>)
        ensures
            exists|raw: Result<(), String>| #[trigger] self.spec_engine().verify_reply(backup_id, raw) && converted(raw, r),
    {
        let raw = self.inner.verify_backup_raw(backup_id);
        assert(self.spec_engine().verify_reply(backup_id, raw));
        engine_result(raw)
    }

    /// Get a list of all backups together with information on timestamp of the backup
    /// and the size (please note that sum of all backups' sizes is bigger than the actual
    /// size of the backup directory because some data is shared by multiple backups).
    /// Backups are identified by their always-increasing IDs.
    pub fn get_backup_info(&self) -> (r: Vec<BackupEngineInfo>)
        ensures
            self.spec_engine().backup_info_reply(r),
    {
        self.inner.get_backup_info_raw()
    }
}

} // verus!

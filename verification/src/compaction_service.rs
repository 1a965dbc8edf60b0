//! Remote compaction: the records a compaction service is handed and gives
//! back, and how its replies reach the engine.
use vstd::prelude::*;

use crate::error::Error;
use vstd::string::StringSliceAdditionalSpecFns;
use crate::ffi_util::{find_nul, first_nul, nul_error_text, push_decimal};

verus! {

/// How a compaction job handed to a service ended.
#[derive(Debug, Clone, Copy, PartialEq, Eq, Structural)]
pub enum CompactionServiceJobStatus {
    Success,
    Failure,
    Aborted,
    UseLocal,
}

/// The number by which the engine reports a job status.
pub open spec fn status_code(s: CompactionServiceJobStatus) -> int {
    match s {
        CompactionServiceJobStatus::Success => 0,
        CompactionServiceJobStatus::Failure => 1,
        CompactionServiceJobStatus::Aborted => 2,
        CompactionServiceJobStatus::UseLocal => 3,
    }
}

/// The status that the engine's number `code` stands for; a number that
/// names none is read as a failure.
pub open spec fn status_of_code(code: int) -> CompactionServiceJobStatus {
    if code == 0 {
        CompactionServiceJobStatus::Success
    } else if code == 2 {
        CompactionServiceJobStatus::Aborted
    } else if code == 3 {
        CompactionServiceJobStatus::UseLocal
    } else {
        CompactionServiceJobStatus::Failure
    }
}

impl CompactionServiceJobStatus {
    /// The number by which the engine reports this status.
    pub fn code(&self) -> (c: i32)
        ensures
            c == status_code(*self),
    {
        match self {
            CompactionServiceJobStatus::Success => 0,
            CompactionServiceJobStatus::Failure => 1,
            CompactionServiceJobStatus::Aborted => 2,
            CompactionServiceJobStatus::UseLocal => 3,
        }
    }

    /// The status the engine reports by `code`; a number that names none is
    /// read as a failure.
    pub fn from_code(code: i32) -> (s: CompactionServiceJobStatus)
        ensures
            s == status_of_code(code as int),
    {
        match code {
            0 => CompactionServiceJobStatus::Success,
            1 => CompactionServiceJobStatus::Failure,
            2 => CompactionServiceJobStatus::Aborted,
            3 => CompactionServiceJobStatus::UseLocal,
            _ => CompactionServiceJobStatus::Failure,
        }
    }
}

/// A status survives being reported to the engine by its number and read back.
pub proof fn law_status_code_round_trip(s: CompactionServiceJobStatus)
    ensures
        status_of_code(status_code(s)) == s,
{
}

/// A reason survives being reported to the engine by its number and read back.
pub proof fn law_reason_code_round_trip(r: CompactionReason, back: CompactionReason)
    requires
        reason_code(back) == reason_code(r),
    ensures
        back == r,
{
}

/// The priority of the thread pool a job runs in.
#[derive(Debug, Clone, Copy, PartialEq, Eq, Structural)]
pub enum Priority {
    Bottom,
    Low,
    High,
    User,
    Total,
}

/// Reason for a compaction to be triggered.
#[derive(Debug, Clone, Copy, PartialEq, Eq, Structural)]
pub enum CompactionReason {
    Unknown,
    /// [Level] number of L0 files > level0_file_num_compaction_trigger
    LevelL0FilesNum,
    /// [Level] total size of level > MaxBytesForLevel()
    LevelMaxLevelSize,
    /// [Universal] Compacting for size amplification
    UniversalSizeAmplification,
    /// [Universal] Compacting for size ratio
    UniversalSizeRatio,
    /// [Universal] number of sorted runs > level0_file_num_compaction_trigger
    UniversalSortedRunNum,
    /// [FIFO] total size > max_table_files_size
    FIFOMaxSize,
    /// [FIFO] reduce number of files
    FIFOReduceNumFiles,
    /// [FIFO] files with creation time < (current_time - interval)
    FIFOTtl,
    /// Manual compaction
    ManualCompaction,
    /// DB::SuggestCompactRange() marked files for compaction
    FilesMarkedForCompaction,
    /// [Level] Automatic compaction within bottommost level to cleanup duplicate
    /// versions of same user key, usually due to a released snapshot.
    BottommostFiles,
    /// Compaction based on TTL
    Ttl,
    /// According to the comments in flush_job.cc, RocksDB treats flush as
    /// a level 0 compaction in internal stats.
    Flush,
    /// [InternalOnly] External sst file ingestion treated as a compaction
    /// with placeholder input level L0 as file ingestion
    /// technically does not have an input level like other compactions.
    /// Used only for internal stats and conflict checking with other compactions.
    ExternalSstIngestion,
    /// Compaction due to SST file being too old
    PeriodicCompaction,
    /// Compaction in order to move files to temperature
    ChangeTemperature,
    /// Compaction scheduled to force garbage collection of blob files
    ForcedBlobGC,
    /// A special TTL compaction for RoundRobin policy, which basically the same as
    /// kLevelMaxLevelSize, but the goal is to compact TTLed files.
    RoundRobinTtl,
    /// [InternalOnly] DBImpl::ReFitLevel treated as a compaction,
    /// Used only for internal conflict checking with other compactions.
    RefitLevel,
    /// Total number of compaction reasons (not a valid reason).
    NumOfReasons,
}

/// The number by which the engine reports a compaction reason.
pub open spec fn reason_code(r: CompactionReason) -> int {
    match r {
        CompactionReason::Unknown => 0,
        CompactionReason::LevelL0FilesNum => 1,
        CompactionReason::LevelMaxLevelSize => 2,
        CompactionReason::UniversalSizeAmplification => 3,
        CompactionReason::UniversalSizeRatio => 4,
        CompactionReason::UniversalSortedRunNum => 5,
        CompactionReason::FIFOMaxSize => 6,
        CompactionReason::FIFOReduceNumFiles => 7,
        CompactionReason::FIFOTtl => 8,
        CompactionReason::ManualCompaction => 9,
        CompactionReason::FilesMarkedForCompaction => 10,
        CompactionReason::BottommostFiles => 11,
        CompactionReason::Ttl => 12,
        CompactionReason::Flush => 13,
        CompactionReason::ExternalSstIngestion => 14,
        CompactionReason::PeriodicCompaction => 15,
        CompactionReason::ChangeTemperature => 16,
        CompactionReason::ForcedBlobGC => 17,
        CompactionReason::RoundRobinTtl => 18,
        CompactionReason::RefitLevel => 19,
        CompactionReason::NumOfReasons => 20,
    }
}

impl CompactionReason {
    /// The number by which the engine reports this reason.
    pub fn code(&self) -> (c: i32)
        ensures
            c == reason_code(*self),
    {
        match self {
            CompactionReason::Unknown => 0,
            CompactionReason::LevelL0FilesNum => 1,
            CompactionReason::LevelMaxLevelSize => 2,
            CompactionReason::UniversalSizeAmplification => 3,
            CompactionReason::UniversalSizeRatio => 4,
            CompactionReason::UniversalSortedRunNum => 5,
            CompactionReason::FIFOMaxSize => 6,
            CompactionReason::FIFOReduceNumFiles => 7,
            CompactionReason::FIFOTtl => 8,
            CompactionReason::ManualCompaction => 9,
            CompactionReason::FilesMarkedForCompaction => 10,
            CompactionReason::BottommostFiles => 11,
            CompactionReason::Ttl => 12,
            CompactionReason::Flush => 13,
            CompactionReason::ExternalSstIngestion => 14,
            CompactionReason::PeriodicCompaction => 15,
            CompactionReason::ChangeTemperature => 16,
            CompactionReason::ForcedBlobGC => 17,
            CompactionReason::RoundRobinTtl => 18,
            CompactionReason::RefitLevel => 19,
            CompactionReason::NumOfReasons => 20,
        }
    }

    /// The reason the engine reports by `code`, if it names one.
    pub fn from_code(code: i32) -> (r: Option<CompactionReason>)
        ensures
            match r {
                Some(x) => reason_code(x) == code,
                None => !(0 <= code <= 20),
            },
    {
        match code {
            0 => Some(CompactionReason::Unknown),
            1 => Some(CompactionReason::LevelL0FilesNum),
            2 => Some(CompactionReason::LevelMaxLevelSize),
            3 => Some(CompactionReason::UniversalSizeAmplification),
            4 => Some(CompactionReason::UniversalSizeRatio),
            5 => Some(CompactionReason::UniversalSortedRunNum),
            6 => Some(CompactionReason::FIFOMaxSize),
            7 => Some(CompactionReason::FIFOReduceNumFiles),
            8 => Some(CompactionReason::FIFOTtl),
            9 => Some(CompactionReason::ManualCompaction),
            10 => Some(CompactionReason::FilesMarkedForCompaction),
            11 => Some(CompactionReason::BottommostFiles),
            12 => Some(CompactionReason::Ttl),
            13 => Some(CompactionReason::Flush),
            14 => Some(CompactionReason::ExternalSstIngestion),
            15 => Some(CompactionReason::PeriodicCompaction),
            16 => Some(CompactionReason::ChangeTemperature),
            17 => Some(CompactionReason::ForcedBlobGC),
            18 => Some(CompactionReason::RoundRobinTtl),
            19 => Some(CompactionReason::RefitLevel),
            20 => Some(CompactionReason::NumOfReasons),
            _ => None,
        }
    }
}

/// What the engine tells a compaction service about a job.  A name is `None`
/// where the engine gave none.
pub struct CompactionServiceJobInfo {
    pub db_name: Option<String>,
    pub db_id: Option<String>,
    pub db_session_id: Option<String>,
    pub cf_name: Option<String>,
    pub cf_id: u32,
    pub job_id: u64,
    pub priority: Priority,
    pub compaction_reason: CompactionReason,
    pub base_input_level: i32,
    pub output_level: i32,
    pub full_compaction: bool,
    pub manual_compaction: bool,
    pub bottommost_level: bool,
}

/// The text the engine gave, or the error `error_msg` where it gave none.
fn text_or_error(text: &Option<String>, error_msg: &str) -> (r: Result<String, Error>)
    ensures
        match text {
            Some(t) => r matches Ok(s) && s@ == t@,
            None => r matches Err(e) && e.view() == error_msg@,
        },
{
    match text {
        Some(t) => Ok(t.clone()),
        None => Err(Error::new(String::from_str(error_msg))),
    }
}

impl CompactionServiceJobInfo {
    /// The name of the database.
    pub fn db_name(&self) -> (r: Result<String, Error>)
        ensures
            match self.db_name {
                Some(t) => r matches Ok(s) && s@ == t@,
                None => r matches Err(e) && e.view() == "Failed to get db_name"@,
            },
    {
        text_or_error(&self.db_name, "Failed to get db_name")
    }

    /// The identity of the database.
    pub fn db_id(&self) -> (r: Result<String, Error>)
        ensures
            match self.db_id {
                Some(t) => r matches Ok(s) && s@ == t@,
                None => r matches Err(e) && e.view() == "Failed to get db_id"@,
            },
    {
        text_or_error(&self.db_id, "Failed to get db_id")
    }

    /// The identity of the database session.
    pub fn db_session_id(&self) -> (r: Result<String, Error>)
        ensures
            match self.db_session_id {
                Some(t) => r matches Ok(s) && s@ == t@,
                None => r matches Err(e) && e.view() == "Failed to get db_session_id"@,
            },
    {
        text_or_error(&self.db_session_id, "Failed to get db_session_id")
    }

    /// The name of the column family compacted.
    pub fn cf_name(&self) -> (r: Result<String, Error>)
        ensures
            match self.cf_name {
                Some(t) => r matches Ok(s) && s@ == t@,
                None => r matches Err(e) && e.view() == "Failed to get cf_name"@,
            },
    {
        text_or_error(&self.cf_name, "Failed to get cf_name")
    }

    /// The identity of the column family compacted.
    pub fn cf_id(&self) -> (r: u32)
        ensures
            r == self.cf_id,
    {
        self.cf_id
    }

    /// The identity of the job.
    pub fn job_id(&self) -> (r: u64)
        ensures
            r == self.job_id,
    {
        self.job_id
    }

    /// The priority of the job.
    pub fn priority(&self) -> (r: Priority)
        ensures
            r == self.priority,
    {
        self.priority
    }

    /// Why the compaction was triggered.
    pub fn compaction_reason(&self) -> (r: CompactionReason)
        ensures
            r == self.compaction_reason,
    {
        self.compaction_reason
    }

    /// The level the compaction reads.
    pub fn base_input_level(&self) -> (r: i32)
        ensures
            r == self.base_input_level,
    {
        self.base_input_level
    }

    /// The level the compaction writes.
    pub fn output_level(&self) -> (r: i32)
        ensures
            r == self.output_level,
    {
        self.output_level
    }

    /// Whether the compaction covers every file.
    pub fn is_full_compaction(&self) -> (r: bool)
        ensures
            r == self.full_compaction,
    {
        self.full_compaction
    }

    /// Whether the compaction was asked for by the application.
    pub fn is_manual_compaction(&self) -> (r: bool)
        ensures
            r == self.manual_compaction,
    {
        self.manual_compaction
    }

    /// Whether the compaction writes the bottommost level.
    pub fn is_bottommost_level(&self) -> (r: bool)
        ensures
            r == self.bottommost_level,
    {
        self.bottommost_level
    }
}

/// What a compaction service answers when asked to schedule a job.
pub struct CompactionServiceScheduleResponse {
    scheduled_job_id: Option<String>,
    status: CompactionServiceJobStatus,
}

/// The message given when a job id cannot be handed to the engine because of
/// a zero byte at `pos`.
pub open spec fn invalid_job_id_text(pos: nat) -> Seq<char> {
    "Invalid job_id: "@ + nul_error_text(pos)
}

impl CompactionServiceScheduleResponse {
    /// The job id the response carries, if any.
    pub closed spec fn spec_job_id(&self) -> Option<Seq<char>> {
        match self.scheduled_job_id {
            Some(s) => Some(s@),
            None => None,
        }
    }

    /// The status the response carries.
    pub closed spec fn spec_status(&self) -> CompactionServiceJobStatus {
        self.status
    }

    /// A response for a job scheduled under `scheduled_job_id`; refused when
    /// the id holds a zero byte, which the engine cannot take.
    pub fn new(scheduled_job_id: &str, status: CompactionServiceJobStatus) -> (r: Result<
        CompactionServiceScheduleResponse,
        Error,
    >)
        ensures
            match first_nul(scheduled_job_id.spec_bytes()) {
                None => r matches Ok(resp) && resp.spec_job_id() == Some(scheduled_job_id@)
                    && resp.spec_status() == status,
                Some(pos) => r matches Err(e) && e.view() == invalid_job_id_text(pos as nat),
            },
    {
        match find_nul(scheduled_job_id.as_bytes()) {
            Some(pos) => {
                let mut m = String::from_str("Invalid job_id: ");
                m.append("nul byte found in provided data at position: ");
                push_decimal(&mut m, pos);
                Err(Error::new(m))
            },
            None => Ok(
                CompactionServiceScheduleResponse {
                    scheduled_job_id: Some(String::from_str(scheduled_job_id)),
                    status,
                },
            ),
        }
    }

    /// A response that carries a status and no job id.
    pub fn with_status(status: CompactionServiceJobStatus) -> (r: Result<
        CompactionServiceScheduleResponse,
        Error,
    >)
        ensures
            r matches Ok(resp) && resp.spec_job_id() == None::<Seq<char>> && resp.spec_status()
                == status,
    {
        Ok(CompactionServiceScheduleResponse { scheduled_job_id: None, status })
    }

    /// The status the response carries.
    pub fn status(&self) -> (s: CompactionServiceJobStatus)
        ensures
            s == self.spec_status(),
    {
        self.status
    }

    /// The job id the response carries; an error when it carries none.
    pub fn scheduled_job_id(&self) -> (r: Result<String, Error>)
        ensures
            match self.spec_job_id() {
                Some(t) => r matches Ok(s) && s@ == t,
                None => r matches Err(e) && e.view() == "No scheduled job ID"@,
            },
    {
        text_or_error(&self.scheduled_job_id, "No scheduled job ID")
    }
}

/// A service that runs compactions away from the engine, for the engine.
pub trait CompactionService {
    /// Schedules the job described by `job_info` with the engine's serialized
    /// `compaction_service_input`.
    fn schedule(
        &self,
        job_info: &CompactionServiceJobInfo,
        compaction_service_input: &[u8],
    ) -> Result<CompactionServiceScheduleResponse, Error>;

    /// Waits for the job scheduled under `scheduled_job_id` to end.
    fn wait(&self, scheduled_job_id: &str) -> Result<CompactionServiceJobStatus, Error>;

    /// Cancels the jobs not yet waited for.
    fn cancel_awaiting_jobs(&self) {
    }

    /// Told when the result of a job has been installed.
    fn on_installation(&self, _scheduled_job_id: &str, _status: CompactionServiceJobStatus) {
    }

    /// The name of the service.
    fn name(&self) -> &str;
}

/// What the engine is handed for a scheduling request: the service's response,
/// or a response with status `Failure` and no job id when it reported an error.
pub fn schedule_reply(r: Result<CompactionServiceScheduleResponse, Error>) -> (resp:
    CompactionServiceScheduleResponse)
    ensures
        match r {
            Ok(x) => resp == x,
            Err(_) => resp.spec_status() == CompactionServiceJobStatus::Failure
                && resp.spec_job_id() == None::<Seq<char>>,
        },
{
    match r {
        Ok(x) => x,
        Err(_) => CompactionServiceScheduleResponse {
            scheduled_job_id: None,
            status: CompactionServiceJobStatus::Failure,
        },
    }
}

/// The status number the engine is handed for a wait: that of the status the
/// service reported, or that of `Failure` when it reported an error.
pub fn wait_reply(r: Result<CompactionServiceJobStatus, Error>) -> (c: i32)
    ensures
        match r {
            Ok(s) => c == status_code(s),
            Err(_) => c == status_code(CompactionServiceJobStatus::Failure),
        },
{
    match r {
        Ok(s) => s.code(),
        Err(_) => CompactionServiceJobStatus::Failure.code(),
    }
}

/// Asks `service` to schedule a job, and gives what the engine is handed.
pub fn schedule_callback<S: CompactionService>(
    service: &S,
    job_info: &CompactionServiceJobInfo,
    input: &[u8],
) -> (resp: CompactionServiceScheduleResponse) {
    schedule_reply(service.schedule(job_info, input))
}

/// Asks `service` to wait for a job, and gives the status number the engine
/// is handed.
pub fn wait_callback<S: CompactionService>(service: &S, scheduled_job_id: &str) -> (c: i32)
    ensures
        0 <= c <= 3,
{
    wait_reply(service.wait(scheduled_job_id))
}

/// Tells `service` that a job's result was installed with the engine's status
/// number `status`.
pub fn on_installation_callback<S: CompactionService>(
    service: &S,
    scheduled_job_id: &str,
    status: i32,
) {
    service.on_installation(scheduled_job_id, CompactionServiceJobStatus::from_code(status));
}

} // verus!

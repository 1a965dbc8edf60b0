//! Checkpoints: openable snapshots of a database in another directory.
use vstd::prelude::*;

use crate::db::{DBCommon, DBInner, ThreadMode};
use crate::ffi_util::{find_nul, first_nul};
use vstd::string::StringSliceAdditionalSpecFns;

verus! {

/// The engine's checkpoint object, as the engine gives it.  Nothing is
/// assumed of what its methods report.
pub trait CheckpointHandle: Sized {
    /// Performs `crocksdb_checkpoint_object_create` on the database whose
    /// handle is `db`, or `ctitandb_checkpoint_object_create` when it is a
    /// Titan database.
    fn create_raw(db: u64, is_titan: bool) -> Result<Self, String>;

    /// What the engine may answer to the checkpoint request `req`: a relation
    /// of the checkpoint object before the call, the request (its
    /// directories in their places) and the answer; the default admits every
    /// answer.
    closed spec fn checkpoint_reply(&self, req: CheckpointRequest, r: Result<(), String>) -> bool {
        true
    }

    /// Performs `crocksdb_checkpoint_create`.
    fn create_checkpoint_raw(&mut self, basedb_out_dir: &str, log_size_for_flush: u64) -> (r: Result<
        (),
        String,
    >)
        ensures
            old(self).checkpoint_reply(
                CheckpointRequest::Plain { dir: basedb_out_dir@, log_size_for_flush },
                r,
            ),
    ;

    /// Performs `ctitandb_checkpoint_create`.
    fn create_titan_checkpoint_raw(
        &mut self,
        basedb_out_dir: &str,
        titan_out_dir: &str,
        log_size_for_flush: u64,
    ) -> (r: Result<(), String>)
        ensures
            old(self).checkpoint_reply(
                CheckpointRequest::Titan { dir: basedb_out_dir@, titan_dir: titan_out_dir@, log_size_for_flush },
                r,
            ),
    ;
}

/// A checkpoint request handed to the engine.
pub enum CheckpointRequest {
    /// A checkpoint of a plain database into `dir`.
    Plain { dir: Seq<char>, log_size_for_flush: u64 },
    /// A checkpoint of a Titan database into `dir`, its Titan files into
    /// `titan_dir` (empty: the engine's default, `dir` and "titandb").
    Titan { dir: Seq<char>, titan_dir: Seq<char>, log_size_for_flush: u64 },
}

/// Makes checkpoints of one database.
pub struct Checkpointer<H: CheckpointHandle> {
    ptr: H,
    is_titan: bool,
    /// The requests handed to the engine, in order.
    requests: Ghost<Seq<CheckpointRequest>>,
}

/// The request that a checkpoint into `basedb_out_dir` (and `titan_out_dir`)
/// hands to the engine.
pub open spec fn checkpoint_request(
    is_titan: bool,
    basedb_out_dir: &str,
    titan_out_dir: Option<&str>,
    log_size_for_flush: u64,
) -> CheckpointRequest {
    if is_titan {
        CheckpointRequest::Titan {
            dir: basedb_out_dir@,
            titan_dir: match titan_out_dir {
                Some(t) => t@,
                None => Seq::empty(),
            },
            log_size_for_flush,
        }
    } else {
        CheckpointRequest::Plain { dir: basedb_out_dir@, log_size_for_flush }
    }
}

/// The message given when `dir` cannot be handed to the engine.
pub open spec fn invalid_dir_text(dir: Seq<char>) -> Seq<char> {
    dir + " is not a valid directory"@
}

/// The error of a checkpoint request whose directories cannot be handed to
/// the engine: that of the base directory first, then that of the Titan
/// directory when one is given.
pub open spec fn checkpoint_dir_error(basedb_out_dir: &str, titan_out_dir: Option<&str>) -> Option<
    Seq<char>,
> {
    if first_nul(basedb_out_dir.spec_bytes()) is Some {
        Some(invalid_dir_text(basedb_out_dir@))
    } else {
        match titan_out_dir {
            Some(t) => if first_nul(t.spec_bytes()) is Some {
                Some(invalid_dir_text(t@))
            } else {
                None
            },
            None => None,
        }
    }
}

/// Checks that `dir` can be handed to the engine.
fn check_dir(dir: &str) -> (r: Result<(), String>)
    ensures
        match first_nul(dir.spec_bytes()) {
            Some(_) => r matches Err(m) && m@ == invalid_dir_text(dir@),
            None => r is Ok,
        },
{
    match find_nul(dir.as_bytes()) {
        Some(_) => {
            let mut m = String::from_str(dir);
            m.append(" is not a valid directory");
            Err(m)
        },
        None => Ok(()),
    }
}

impl<H: CheckpointHandle> Checkpointer<H> {
    /// Whether the checkpoints are of a Titan database.
    pub closed spec fn spec_is_titan(&self) -> bool {
        self.is_titan
    }

    /// The engine's checkpoint object.
    pub closed spec fn spec_handle(&self) -> H {
        self.ptr
    }

    /// The requests handed to the engine since the checkpointer was made.
    pub closed spec fn spec_requests(&self) -> Seq<CheckpointRequest> {
        self.requests@
    }

    /// Creates new checkpoint object for specific DB.
    pub fn new<T: ThreadMode, D: DBInner>(db: &DBCommon<T, D>, is_titan: bool) -> (r: Result<
        Self,
        String,
    >)
        ensures
            r matches Ok(c) ==> c.spec_is_titan() == is_titan && c.spec_requests() == Seq::<
                CheckpointRequest,
            >::empty(),
    {
        let ptr = H::create_raw(db.inner().handle(), is_titan)?;
        Ok(Checkpointer { ptr, is_titan, requests: Ghost(Seq::empty()) })
    }

    /// Creates new physical DB checkpoint in directory specified by `path`.
    ///
    /// Builds an openable snapshot of RocksDB on the same disk, which
    /// accepts an output directory on the same disk, and under the directory
    /// (1) hard-linked SST files pointing to existing live SST files
    /// SST files will be copied if output directory is on a different filesystem
    /// (2) a copied manifest files and other files
    /// The directory should not already exist and will be created by this API.
    /// The directory will be an absolute path
    /// log_size_for_flush: if the total log file size is equal or larger than
    /// this value, then a flush is triggered for all the column families. The
    /// default value is 0, which means flush is always triggered. If you move
    /// away from the default, the checkpoint may not contain up-to-date data
    /// if WAL writing is not always enabled.
    /// Flush will always trigger if it is 2PC.
    ///
    /// basedb_out_dir: the checkpoint path about rocksdb
    /// titan_out_dir: the checkpoint path about titan's files. if titan_out_dir
    /// is None, the path will be "{basedb_out_dir}/titandb".
    pub fn create_at(&mut self, basedb_out_dir: &str, titan_out_dir: Option<&str>, log_size_for_flush: u64) -> (r:
        Result<(), String>)
        ensures
            final(self).spec_is_titan() == old(self).spec_is_titan(),
            checkpoint_dir_error(basedb_out_dir, titan_out_dir) matches Some(m) ==> r matches Err(e)
                && e@ == m,
            checkpoint_dir_error(basedb_out_dir, titan_out_dir) is Some ==> final(self).spec_requests()
                == old(self).spec_requests(),
            checkpoint_dir_error(basedb_out_dir, titan_out_dir) is None ==> final(self).spec_requests()
                == old(self).spec_requests().push(
                checkpoint_request(old(self).spec_is_titan(), basedb_out_dir, titan_out_dir, log_size_for_flush),
            ),
            checkpoint_dir_error(basedb_out_dir, titan_out_dir) is None ==> old(self).spec_handle().checkpoint_reply(
                checkpoint_request(old(self).spec_is_titan(), basedb_out_dir, titan_out_dir, log_size_for_flush),
                r,
            ),
    {
        let ghost before = self.ptr;
        check_dir(basedb_out_dir)?;
        // an empty Titan directory tells the engine to use its default one
        let titan_dir: &str = match titan_out_dir {
            Some(t) => {
                check_dir(t)?;
                t
            },
            None => "",
        };
        proof {
            reveal_strlit("");
            assert(titan_dir@ =~= match titan_out_dir {
                Some(t) => t@,
                None => Seq::<char>::empty(),
            });
        }
        if self.is_titan {
            let r = self.ptr.create_titan_checkpoint_raw(basedb_out_dir, titan_dir, log_size_for_flush);
            proof {
                self.requests@ = self.requests@.push(
                    CheckpointRequest::Titan { dir: basedb_out_dir@, titan_dir: titan_dir@, log_size_for_flush },
                );
            }
            r
        } else {
            let r = self.ptr.create_checkpoint_raw(basedb_out_dir, log_size_for_flush);
            proof {
                self.requests@ = self.requests@.push(
                    CheckpointRequest::Plain { dir: basedb_out_dir@, log_size_for_flush },
                );
            }
            r
        }
    }
}

} // verus!

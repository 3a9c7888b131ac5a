use vstd::prelude::*;

use crate::auth::Uuid;
use crate::digest::{sha256_of, HashRead, HashStream};
use crate::storage::{join_path, scratch_name, uuid_text, ObjectError, ObjectManager};

verus! {

/// Where a store stands.
#[derive(Clone, Copy, Debug, PartialEq, Eq, Structural)]
pub enum StorePhase {
    /// The scratch file is being created.
    Creating,
    /// The next chunk is being pulled from the source.
    Copying,
    /// A chunk is being written to the scratch file.
    Writing,
    /// The scratch file is being flushed and synced.
    Syncing,
    /// The scratch file is being renamed to the object's path.
    Committing,
    /// The scratch file is being removed after a failure.
    Cleaning,
    /// The store has reported its outcome.
    Done,
}

/// What the caller performs next on behalf of a store.
#[derive(Debug)]
pub enum StoreAction {
    /// Create the scratch file at this path.
    CreateScratch(String),
    /// Pull the next chunk from the source.
    Pull,
    /// Append these bytes to the scratch file.
    Write(Vec<u8>),
    /// Flush the scratch file and sync it to disk.
    Sync,
    /// Rename the scratch file (first path) to the object's path (second).
    Commit(String, String),
    /// Remove the scratch file at this path; a failure to do so is only
    /// logged.
    RemoveScratch(String),
    /// The store is over: the byte count and digest, or the error.
    Finish(Result<(u64, [u8; 32]), ObjectError>),
}

/// One run of the atomic store protocol: create a scratch file, copy the
/// source into it while hashing, sync it, and rename it into place; on any
/// failure remove the scratch file and report the first error.
pub struct StoreSession {
    scratch: String,
    target: String,
    hasher: HashStream,
    received: Ghost<Seq<u8>>,
    chunks: Ghost<Seq<Seq<u8>>>,
    stored: Ghost<Seq<u8>>,
    pending: Ghost<Seq<u8>>,
    written: u64,
    phase: StorePhase,
    failure: Option<std::io::Error>,
    committed: bool,
}

impl StoreSession {
    pub closed spec fn phase(&self) -> StorePhase {
        self.phase
    }

    /// The bytes of every chunk received, in order.
    pub closed spec fn received(&self) -> Seq<u8> {
        self.received@
    }

    /// The chunks received, in order.
    pub closed spec fn chunks(&self) -> Seq<Seq<u8>> {
        self.chunks@
    }

    /// The bytes that the caller reported written to the scratch file.
    pub closed spec fn stored(&self) -> Seq<u8> {
        self.stored@
    }

    pub closed spec fn scratch_path(&self) -> Seq<char> {
        self.scratch@
    }

    pub closed spec fn target_path(&self) -> Seq<char> {
        self.target@
    }

    /// The error that the store will report once the scratch file is gone.
    pub closed spec fn failure(&self) -> Option<std::io::Error> {
        self.failure
    }

    /// The rename onto the object's path has succeeded.
    pub closed spec fn committed(&self) -> bool {
        self.committed
    }

    pub closed spec fn wf(&self) -> bool {
        &&& self.phase != StorePhase::Done ==> self.hasher.seen() == self.received@
        &&& self.written as int == self.received@.len()
        &&& self.received@ == self.chunks@.flatten()
        &&& self.phase == StorePhase::Writing ==> self.stored@ + self.pending@ == self.received@
        &&& (self.phase == StorePhase::Creating || self.phase == StorePhase::Copying || self.phase == StorePhase::Syncing || self.phase
            == StorePhase::Committing || self.committed) ==> self.stored@ == self.received@
        &&& (self.phase == StorePhase::Cleaning <==> self.failure is Some)
        &&& self.committed ==> self.phase == StorePhase::Done
    }

    /// The fields that no step changes.
    pub open spec fn same_paths(&self, other: &StoreSession) -> bool {
        &&& self.scratch_path() == other.scratch_path()
        &&& self.target_path() == other.target_path()
    }

    /// A store reports success only once committed, with the count and
    /// digest of every byte received, all of them written to the scratch
    /// file; it reports failure only uncommitted.
    pub open spec fn reports(&self, a: StoreAction) -> bool {
        &&& self.received() == self.chunks().flatten()
        &&& (a matches StoreAction::Finish(Ok((n, d))) ==> self.committed() && n
            == self.received().len() && d@ == sha256_of(self.received()) && self.stored()
            == self.received())
        &&& (a matches StoreAction::Finish(Err(_)) ==> !self.committed())
        &&& (a is Finish <==> self.phase() == StorePhase::Done)
    }

    /// Start cleaning up after `error`.
    fn fail(&mut self, error: std::io::Error) -> (r: StoreAction)
        requires
            old(self).wf(),
            old(self).phase() != StorePhase::Done,
            old(self).phase() != StorePhase::Cleaning,
        ensures
            final(self).wf(),
            final(self).same_paths(old(self)),
            final(self).received() == old(self).received(),
            final(self).chunks() == old(self).chunks(),
            final(self).phase() == StorePhase::Cleaning,
            final(self).failure() == Some(error),
            final(self).committed() == old(self).committed(),
            r matches StoreAction::RemoveScratch(p) && p@ == final(self).scratch_path(),
    {
        self.phase = StorePhase::Cleaning;
        self.failure = Some(error);
        StoreAction::RemoveScratch(self.scratch.clone())
    }

    /// The scratch file was created, or could not be; nothing is left to
    /// remove in the second case.
    pub fn on_created(&mut self, res: Result<(), std::io::Error>) -> (r: StoreAction)
        requires
            old(self).wf(),
            old(self).phase() == StorePhase::Creating,
        ensures
            final(self).wf(),
            final(self).same_paths(old(self)),
            final(self).received() == old(self).received(),
            final(self).chunks() == old(self).chunks(),
            final(self).reports(r),
            res is Ok ==> r is Pull && final(self).phase() == StorePhase::Copying,
            res matches Err(e) ==> r == (StoreAction::Finish(Err(ObjectError::IoError(e)))),
    {
        match res {
            Ok(()) => {
                self.phase = StorePhase::Copying;
                StoreAction::Pull
            },
            Err(e) => {
                self.phase = StorePhase::Done;
                StoreAction::Finish(Err(ObjectError::IoError(e)))
            },
        }
    }

    /// The source yielded a chunk, an error, or its end.
    pub fn on_chunk(&mut self, chunk: Option<Result<Vec<u8>, std::io::Error>>) -> (r: StoreAction)
        requires
            old(self).wf(),
            old(self).phase() == StorePhase::Copying,
            chunk matches Some(Ok(b)) ==> old(self).received().len() + b@.len() <= u64::MAX,
        ensures
            final(self).wf(),
            final(self).same_paths(old(self)),
            final(self).reports(r),
            !final(self).committed(),
            chunk matches Some(Ok(b)) ==> r == (StoreAction::Write(b)) && final(self).phase()
                == StorePhase::Writing && final(self).received() == old(self).received() + b@
                && final(self).chunks() == old(self).chunks().push(b@),
            !(chunk matches Some(Ok(_))) ==> final(self).chunks() == old(self).chunks(),
            chunk matches Some(Err(e)) ==> final(self).phase() == StorePhase::Cleaning
                && final(self).failure() == Some(e) && final(self).received() == old(
                self,
            ).received(),
            chunk matches Some(Err(_)) ==> (r matches StoreAction::RemoveScratch(p) && p@
                == final(self).scratch_path()),
            chunk is None ==> r is Sync && final(self).phase() == StorePhase::Syncing
                && final(self).received() == old(self).received(),
    {
        let item = self.hasher.observe(chunk);
        match item {
            Some(Ok(bytes)) => {
                proof {
                    self.chunks@.lemma_flatten_push(bytes@);
                    self.received@ = self.received@ + bytes@;
                    self.chunks@ = self.chunks@.push(bytes@);
                    self.pending@ = bytes@;
                }
                self.written = self.written + bytes.len() as u64;
                self.phase = StorePhase::Writing;
                StoreAction::Write(bytes)
            },
            Some(Err(e)) => self.fail(e),
            None => {
                self.phase = StorePhase::Syncing;
                StoreAction::Sync
            },
        }
    }

    /// A chunk was written to the scratch file, or the write failed.
    pub fn on_written(&mut self, res: Result<(), std::io::Error>) -> (r: StoreAction)
        requires
            old(self).wf(),
            old(self).phase() == StorePhase::Writing,
        ensures
            final(self).wf(),
            final(self).same_paths(old(self)),
            final(self).received() == old(self).received(),
            final(self).chunks() == old(self).chunks(),
            final(self).reports(r),
            !final(self).committed(),
            res is Ok ==> r is Pull && final(self).phase() == StorePhase::Copying,
            res matches Err(e) ==> final(self).phase() == StorePhase::Cleaning
                && final(self).failure() == Some(e),
            res is Err ==> (r matches StoreAction::RemoveScratch(p) && p@
                == final(self).scratch_path()),
    {
        match res {
            Ok(()) => {
                proof {
                    self.stored@ = self.stored@ + self.pending@;
                }
                self.phase = StorePhase::Copying;
                StoreAction::Pull
            },
            Err(e) => self.fail(e),
        }
    }

    /// The scratch file was flushed and synced, or that failed; only
    /// synced data reaches the commit.
    pub fn on_synced(&mut self, res: Result<(), std::io::Error>) -> (r: StoreAction)
        requires
            old(self).wf(),
            old(self).phase() == StorePhase::Syncing,
        ensures
            final(self).wf(),
            final(self).same_paths(old(self)),
            final(self).received() == old(self).received(),
            final(self).chunks() == old(self).chunks(),
            final(self).reports(r),
            !final(self).committed(),
            res is Ok ==> final(self).phase() == StorePhase::Committing,
            res is Ok ==> (r matches StoreAction::Commit(from, to) && from@
                == final(self).scratch_path() && to@ == final(self).target_path()),
            res matches Err(e) ==> final(self).phase() == StorePhase::Cleaning
                && final(self).failure() == Some(e),
            res is Err ==> (r matches StoreAction::RemoveScratch(p) && p@
                == final(self).scratch_path()),
    {
        match res {
            Ok(()) => {
                self.phase = StorePhase::Committing;
                StoreAction::Commit(self.scratch.clone(), self.target.clone())
            },
            Err(e) => self.fail(e),
        }
    }

    /// The rename onto the object's path succeeded, which commits the
    /// object, or it failed.
    pub fn on_committed(&mut self, res: Result<(), std::io::Error>) -> (r: StoreAction)
        requires
            old(self).wf(),
            old(self).phase() == StorePhase::Committing,
        ensures
            final(self).wf(),
            final(self).same_paths(old(self)),
            final(self).received() == old(self).received(),
            final(self).chunks() == old(self).chunks(),
            final(self).reports(r),
            res is Ok ==> final(self).committed() && r is Finish,
            res matches Err(e) ==> !final(self).committed() && final(self).phase()
                == StorePhase::Cleaning && final(self).failure() == Some(e),
            res is Err ==> (r matches StoreAction::RemoveScratch(p) && p@
                == final(self).scratch_path()),
    {
        match res {
            Ok(()) => {
                let mut hasher = HashStream::new();
                std::mem::swap(&mut hasher, &mut self.hasher);
                let digest = hasher.hash_into();
                self.phase = StorePhase::Done;
                self.committed = true;
                StoreAction::Finish(Ok((self.written, digest)))
            },
            Err(e) => self.fail(e),
        }
    }

    /// The scratch file was removed, or removing it failed; either way the
    /// store reports the error that started the clean-up.
    pub fn on_removed(&mut self) -> (r: StoreAction)
        requires
            old(self).wf(),
            old(self).phase() == StorePhase::Cleaning,
        ensures
            final(self).wf(),
            final(self).same_paths(old(self)),
            final(self).received() == old(self).received(),
            final(self).chunks() == old(self).chunks(),
            final(self).reports(r),
            old(self).failure() matches Some(e) ==> r == (StoreAction::Finish(
                Err(ObjectError::IoError(e)),
            )),
    {
        let failure = self.failure.take();
        self.phase = StorePhase::Done;
        match failure {
            Some(e) => StoreAction::Finish(Err(ObjectError::IoError(e))),
            None => {
                proof {
                    assert(false);
                }
                StoreAction::Finish(Err(ObjectError::NotFound))
            },
        }
    }
}

impl ObjectManager {
    /// Begins storing object `id`: the session's first action creates the
    /// scratch file, and the object becomes visible only at the commit.
    pub fn store(&self, id: Uuid) -> (r: (StoreSession, StoreAction))
        ensures
            r.0.wf(),
            r.0.phase() == StorePhase::Creating,
            r.0.received() == Seq::<u8>::empty(),
            r.0.chunks() == Seq::<Seq<u8>>::empty(),
            !r.0.committed(),
            r.0.scratch_path() == join_path(self.temp_dir(), scratch_name(id)),
            r.0.target_path() == join_path(self.data_dir(), uuid_text(id.value)),
            r.1 matches StoreAction::CreateScratch(p) && p@ == r.0.scratch_path(),
    {
        let scratch = self.scratch_path(id);
        let target = self.object_path(id);
        let first = StoreAction::CreateScratch(scratch.clone());
        let session = StoreSession {
            scratch,
            target,
            hasher: HashStream::new(),
            received: Ghost(Seq::empty()),
            chunks: Ghost(Seq::empty()),
            stored: Ghost(Seq::empty()),
            pending: Ghost(Seq::empty()),
            written: 0,
            phase: StorePhase::Creating,
            failure: None,
            committed: false,
        };
        (session, first)
    }
}

/// A store that reports success has committed exactly the bytes it
/// received, and its digest is the one that a reader computes while
/// draining those bytes back, however either side split them into chunks.
pub proof fn lemma_store_round_trip(s: StoreSession, a: StoreAction, reader: HashRead)
    requires
        s.reports(a),
        a matches StoreAction::Finish(Ok(_)),
        reader.seen() == s.received(),
    ensures
        s.committed(),
        a matches StoreAction::Finish(Ok((n, d))) && n == reader.seen().len() && d@ == sha256_of(
            reader.seen(),
        ),
{
}

/// Two stores that succeed on chunks with the same concatenation report
/// the same count and digest and wrote the same bytes, whatever the chunk
/// boundaries and however many chunks there were.
pub proof fn lemma_store_independent_of_chunking(
    s1: StoreSession,
    a1: StoreAction,
    s2: StoreSession,
    a2: StoreAction,
)
    requires
        s1.reports(a1),
        s2.reports(a2),
        a1 matches StoreAction::Finish(Ok(_)),
        a2 matches StoreAction::Finish(Ok(_)),
        s1.chunks().flatten() == s2.chunks().flatten(),
    ensures
        a1 matches StoreAction::Finish(Ok((n1, d1))) && a2 matches StoreAction::Finish(
            Ok((n2, d2)),
        ) && n1 == n2 && d1@ == d2@ && n1 == s1.chunks().flatten().len() && d1@ == sha256_of(
            s1.chunks().flatten(),
        ),
        s1.stored() == s2.stored(),
        s1.stored() == s1.chunks().flatten(),
{
}

/// A store that reports an error never committed: nothing became visible
/// at the object's path.
pub proof fn lemma_failed_store_not_visible(s: StoreSession, a: StoreAction)
    requires
        s.reports(a),
        a matches StoreAction::Finish(Err(_)),
    ensures
        !s.committed(),
{
}

} // verus!

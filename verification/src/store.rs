//! Storing the snapshot without losing the previous one: the new snapshot is
//! written to a temporary file, the current file is kept as a backup while
//! the temporary file takes its place, and the backup is put back where that
//! fails. The file operations themselves are performed by the caller; this
//! module decides which comes next.
use vstd::prelude::*;
use crate::text::{copy_str, push_str};

verus! {

/// The files of the snapshot store.
#[derive(Debug, PartialEq, Eq, Clone, Copy, Hash, Structural)]
pub enum StoreFile {
    /// `state.json`
    Target,
    /// `state.json.tmp`
    Temporary,
    /// `state.json.backup`
    Backup,
}

/// The file name of a store file.
pub open spec fn store_file_name(f: StoreFile) -> Seq<char> {
    match f {
        StoreFile::Target => "state.json"@,
        StoreFile::Temporary => "state.json.tmp"@,
        StoreFile::Backup => "state.json.backup"@,
    }
}

impl StoreFile {
    /// The file name.
    pub fn file_name(&self) -> (r: &'static str)
        ensures
            r@ == store_file_name(*self),
    {
        match self {
            StoreFile::Target => "state.json",
            StoreFile::Temporary => "state.json.tmp",
            StoreFile::Backup => "state.json.backup",
        }
    }
}

/// The files a stored snapshot is read back from, in order of preference:
/// the current file, then the backup, then an unfinished temporary file.
pub fn resume_candidates() -> (r: Vec<StoreFile>)
    ensures
        r@ == seq![StoreFile::Target, StoreFile::Backup, StoreFile::Temporary],
{
    let r = vec![StoreFile::Target, StoreFile::Backup, StoreFile::Temporary];
    assert(r@ =~= seq![StoreFile::Target, StoreFile::Backup, StoreFile::Temporary]);
    r
}

/// Which candidate a resume reads: `reads` holds, in the order of
/// [`resume_candidates`], each file's content or `None` where it could not be
/// read; the first that could be read is taken, and `None` comes back where
/// none could.
pub fn first_readable(reads: &Vec<Option<Vec<u8>>>) -> (r: Option<usize>)
    ensures
        match r {
            Some(i) => i < reads@.len() && reads@[i as int] is Some && forall|k: int|
                0 <= k < i ==> reads@[k] is None,
            None => forall|k: int| 0 <= k < reads@.len() ==> reads@[k] is None,
        },
{
    let mut i: usize = 0;
    while i < reads.len()
        invariant
            i <= reads@.len(),
            forall|k: int| 0 <= k < i ==> reads@[k] is None,
        decreases reads.len() - i,
    {
        if reads[i].is_some() {
            return Some(i);
        }
        i = i + 1;
    }
    None
}

/// A file operation.
#[derive(Debug, PartialEq, Eq, Clone, Copy, Structural)]
pub enum StoreOp {
    /// Create the workspace directory.
    CreateDir,
    /// Serialize the snapshot and write it to the temporary file.
    WriteTemporary,
    /// Whether the file exists.
    Exists(StoreFile),
    /// Remove the file.
    Remove(StoreFile),
    /// Rename the first file to the second.
    Rename(StoreFile, StoreFile),
}

/// The outcome of a file operation.
#[derive(Debug)]
pub enum StoreAnswerOf<S> {
    /// The operation finished, or failed with this error.
    Done(Result<(), S>),
    /// Whether the file exists, or why that could not be told.
    Found(Result<bool, S>),
    /// The snapshot could not be serialized.
    SerializeFailed(S),
}

pub type StoreAnswer = StoreAnswerOf<String>;

pub type StoreAnswerView = StoreAnswerOf<Seq<char>>;

impl View for StoreAnswerOf<String> {
    type V = StoreAnswerView;

    open spec fn view(&self) -> StoreAnswerView {
        match self {
            StoreAnswerOf::Done(Ok(u)) => StoreAnswerOf::Done(Ok(*u)),
            StoreAnswerOf::Done(Err(m)) => StoreAnswerOf::Done(Err(m@)),
            StoreAnswerOf::Found(Ok(b)) => StoreAnswerOf::Found(Ok(*b)),
            StoreAnswerOf::Found(Err(m)) => StoreAnswerOf::Found(Err(m@)),
            StoreAnswerOf::SerializeFailed(m) => StoreAnswerOf::SerializeFailed(m@),
        }
    }
}

/// Where the storing stands.
#[derive(Debug)]
pub enum StorePhaseOf<S> {
    CreatingDir,
    WritingTemporary,
    CheckingTarget,
    CheckingOldBackup,
    RemovingOldBackup,
    BackingUp,
    Swapping,
    /// The swap failed with this error; is there a backup to put back?
    CheckingRestore(S),
    /// The swap failed with this error; the backup is being put back.
    Restoring(S),
    Cleaning,
    Finished,
}

pub type StorePhase = StorePhaseOf<String>;

pub type StorePhaseView = StorePhaseOf<Seq<char>>;

impl View for StorePhaseOf<String> {
    type V = StorePhaseView;

    open spec fn view(&self) -> StorePhaseView {
        match self {
            StorePhaseOf::CreatingDir => StorePhaseOf::CreatingDir,
            StorePhaseOf::WritingTemporary => StorePhaseOf::WritingTemporary,
            StorePhaseOf::CheckingTarget => StorePhaseOf::CheckingTarget,
            StorePhaseOf::CheckingOldBackup => StorePhaseOf::CheckingOldBackup,
            StorePhaseOf::RemovingOldBackup => StorePhaseOf::RemovingOldBackup,
            StorePhaseOf::BackingUp => StorePhaseOf::BackingUp,
            StorePhaseOf::Swapping => StorePhaseOf::Swapping,
            StorePhaseOf::CheckingRestore(m) => StorePhaseOf::CheckingRestore(m@),
            StorePhaseOf::Restoring(m) => StorePhaseOf::Restoring(m@),
            StorePhaseOf::Cleaning => StorePhaseOf::Cleaning,
            StorePhaseOf::Finished => StorePhaseOf::Finished,
        }
    }
}

/// What to do next: an operation, or the end with the overall outcome.
#[derive(Debug)]
pub enum StoreStepOf<S> {
    Do(StoreOp),
    Finish(Result<(), S>),
}

pub type StoreStep = StoreStepOf<String>;

pub type StoreStepView = StoreStepOf<Seq<char>>;

impl View for StoreStepOf<String> {
    type V = StoreStepView;

    open spec fn view(&self) -> StoreStepView {
        match self {
            StoreStepOf::Do(op) => StoreStepOf::Do(*op),
            StoreStepOf::Finish(Ok(u)) => StoreStepOf::Finish(Ok(*u)),
            StoreStepOf::Finish(Err(m)) => StoreStepOf::Finish(Err(m@)),
        }
    }
}

/// The error reported when the workspace directory cannot be created.
pub open spec fn dir_error(e: Seq<char>) -> Seq<char> {
    "상태 디렉터리 생성 실패: "@ + e
}

/// The error reported when the snapshot cannot be serialized.
pub open spec fn serialize_error(e: Seq<char>) -> Seq<char> {
    "상태 직렬화 실패: "@ + e
}

/// The error reported when the temporary file cannot be written.
pub open spec fn temporary_error(e: Seq<char>) -> Seq<char> {
    "임시 상태 저장 실패: "@ + e
}

/// The error reported when it cannot be told whether a snapshot exists.
pub open spec fn check_error(e: Seq<char>) -> Seq<char> {
    "기존 상태 확인 실패: "@ + e
}

/// The error reported when the current snapshot cannot be kept as a backup.
pub open spec fn backup_error(e: Seq<char>) -> Seq<char> {
    "기존 상태 백업 실패: "@ + e
}

/// The error reported when the new snapshot cannot take the current one's place.
pub open spec fn swap_error(e: Seq<char>) -> Seq<char> {
    "상태 파일 교체 실패: "@ + e
}

/// Go on to phase `p` with operation `op`.
pub open spec fn next(p: StorePhaseView, op: StoreOp) -> (StorePhaseView, StoreStepView) {
    (p, StoreStepOf::Do(op))
}

/// End storing with `r`.
pub open spec fn finish(r: Result<(), Seq<char>>) -> (StorePhaseView, StoreStepView) {
    (StorePhaseOf::Finished, StoreStepOf::Finish(r))
}

/// Where storing starts.
pub open spec fn store_start() -> (StorePhaseView, StoreStepView) {
    next(StorePhaseOf::CreatingDir, StoreOp::CreateDir)
}

/// The next phase and step after the answer to the current operation.
pub open spec fn store_transition(p: StorePhaseView, a: StoreAnswerView) -> (
    StorePhaseView,
    StoreStepView,
) {
    match (p, a) {
        (StorePhaseOf::CreatingDir, StoreAnswerOf::Done(Ok(_))) => next(
            StorePhaseOf::WritingTemporary,
            StoreOp::WriteTemporary,
        ),
        (StorePhaseOf::CreatingDir, StoreAnswerOf::Done(Err(e))) => finish(Err(dir_error(e))),
        (StorePhaseOf::WritingTemporary, StoreAnswerOf::Done(Ok(_))) => next(
            StorePhaseOf::CheckingTarget,
            StoreOp::Exists(StoreFile::Target),
        ),
        (StorePhaseOf::WritingTemporary, StoreAnswerOf::Done(Err(e))) => finish(
            Err(temporary_error(e)),
        ),
        (StorePhaseOf::WritingTemporary, StoreAnswerOf::SerializeFailed(e)) => finish(
            Err(serialize_error(e)),
        ),
        (StorePhaseOf::CheckingTarget, StoreAnswerOf::Found(Ok(true))) => next(
            StorePhaseOf::CheckingOldBackup,
            StoreOp::Exists(StoreFile::Backup),
        ),
        (StorePhaseOf::CheckingTarget, StoreAnswerOf::Found(Ok(false))) => next(
            StorePhaseOf::Swapping,
            StoreOp::Rename(StoreFile::Temporary, StoreFile::Target),
        ),
        (StorePhaseOf::CheckingTarget, StoreAnswerOf::Found(Err(e))) => finish(Err(check_error(e))),
        (StorePhaseOf::CheckingOldBackup, StoreAnswerOf::Found(Ok(true))) => next(
            StorePhaseOf::RemovingOldBackup,
            StoreOp::Remove(StoreFile::Backup),
        ),
        (StorePhaseOf::CheckingOldBackup, StoreAnswerOf::Found(_)) => next(
            StorePhaseOf::BackingUp,
            StoreOp::Rename(StoreFile::Target, StoreFile::Backup),
        ),
        (StorePhaseOf::RemovingOldBackup, StoreAnswerOf::Done(_)) => next(
            StorePhaseOf::BackingUp,
            StoreOp::Rename(StoreFile::Target, StoreFile::Backup),
        ),
        (StorePhaseOf::BackingUp, StoreAnswerOf::Done(Ok(_))) => next(
            StorePhaseOf::Swapping,
            StoreOp::Rename(StoreFile::Temporary, StoreFile::Target),
        ),
        (StorePhaseOf::BackingUp, StoreAnswerOf::Done(Err(e))) => finish(Err(backup_error(e))),
        (StorePhaseOf::Swapping, StoreAnswerOf::Done(Ok(_))) => next(
            StorePhaseOf::Cleaning,
            StoreOp::Remove(StoreFile::Backup),
        ),
        (StorePhaseOf::Swapping, StoreAnswerOf::Done(Err(e))) => next(
            StorePhaseOf::CheckingRestore(e),
            StoreOp::Exists(StoreFile::Backup),
        ),
        (StorePhaseOf::CheckingRestore(e), StoreAnswerOf::Found(Ok(true))) => next(
            StorePhaseOf::Restoring(e),
            StoreOp::Rename(StoreFile::Backup, StoreFile::Target),
        ),
        (StorePhaseOf::CheckingRestore(e), StoreAnswerOf::Found(_)) => finish(Err(swap_error(e))),
        (StorePhaseOf::Restoring(e), StoreAnswerOf::Done(_)) => finish(Err(swap_error(e))),
        (StorePhaseOf::Cleaning, StoreAnswerOf::Done(_)) => finish(Ok(())),
        _ => (p, StoreStepOf::Finish(Ok(()))),
    }
}

/// The answers each phase takes.
pub open spec fn store_accepts(p: StorePhaseView, a: StoreAnswerView) -> bool {
    match p {
        StorePhaseOf::CreatingDir => a is Done,
        StorePhaseOf::WritingTemporary => a is Done || a is SerializeFailed,
        StorePhaseOf::CheckingTarget => a is Found,
        StorePhaseOf::CheckingOldBackup => a is Found,
        StorePhaseOf::RemovingOldBackup => a is Done,
        StorePhaseOf::BackingUp => a is Done,
        StorePhaseOf::Swapping => a is Done,
        StorePhaseOf::CheckingRestore(_) => a is Found,
        StorePhaseOf::Restoring(_) => a is Done,
        StorePhaseOf::Cleaning => a is Done,
        StorePhaseOf::Finished => false,
    }
}

/// The first phase and operation of storing a snapshot.
pub fn store_begin() -> (r: (StorePhase, StoreStep))
    ensures
        (r.0@, r.1@) == store_start(),
{
    (StorePhaseOf::CreatingDir, StoreStepOf::Do(StoreOp::CreateDir))
}

fn prefixed(prefix: &str, e: String) -> (r: String)
    ensures
        r@ == prefix@ + e@,
{
    let mut r = copy_str(prefix);
    push_str(&mut r, e.as_str());
    r
}

/// Whether the phase takes the answer.
pub fn accepts_answer(p: &StorePhase, a: &StoreAnswer) -> (r: bool)
    ensures
        r == store_accepts(p@, a@),
{
    match (p, a) {
        (StorePhaseOf::CreatingDir, StoreAnswerOf::Done(_)) => true,
        (StorePhaseOf::WritingTemporary, StoreAnswerOf::Done(_)) => true,
        (StorePhaseOf::WritingTemporary, StoreAnswerOf::SerializeFailed(_)) => true,
        (StorePhaseOf::CheckingTarget, StoreAnswerOf::Found(_)) => true,
        (StorePhaseOf::CheckingOldBackup, StoreAnswerOf::Found(_)) => true,
        (StorePhaseOf::RemovingOldBackup, StoreAnswerOf::Done(_)) => true,
        (StorePhaseOf::BackingUp, StoreAnswerOf::Done(_)) => true,
        (StorePhaseOf::Swapping, StoreAnswerOf::Done(_)) => true,
        (StorePhaseOf::CheckingRestore(_), StoreAnswerOf::Found(_)) => true,
        (StorePhaseOf::Restoring(_), StoreAnswerOf::Done(_)) => true,
        (StorePhaseOf::Cleaning, StoreAnswerOf::Done(_)) => true,
        _ => false,
    }
}

/// The next phase and step of storing, after the answer to the current
/// operation.
pub fn store_next(p: StorePhase, a: StoreAnswer) -> (r: (StorePhase, StoreStep))
    requires
        store_accepts(p@, a@),
    ensures
        (r.0@, r.1@) == store_transition(p@, a@),
{
    match (p, a) {
        (StorePhaseOf::CreatingDir, StoreAnswerOf::Done(Ok(()))) => (
            StorePhaseOf::WritingTemporary,
            StoreStepOf::Do(StoreOp::WriteTemporary),
        ),
        (StorePhaseOf::CreatingDir, StoreAnswerOf::Done(Err(e))) => (
            StorePhaseOf::Finished,
            StoreStepOf::Finish(Err(prefixed("상태 디렉터리 생성 실패: ", e))),
        ),
        (StorePhaseOf::WritingTemporary, StoreAnswerOf::Done(Ok(()))) => (
            StorePhaseOf::CheckingTarget,
            StoreStepOf::Do(StoreOp::Exists(StoreFile::Target)),
        ),
        (StorePhaseOf::WritingTemporary, StoreAnswerOf::Done(Err(e))) => (
            StorePhaseOf::Finished,
            StoreStepOf::Finish(Err(prefixed("임시 상태 저장 실패: ", e))),
        ),
        (StorePhaseOf::WritingTemporary, StoreAnswerOf::SerializeFailed(e)) => (
            StorePhaseOf::Finished,
            StoreStepOf::Finish(Err(prefixed("상태 직렬화 실패: ", e))),
        ),
        (StorePhaseOf::CheckingTarget, StoreAnswerOf::Found(Ok(true))) => (
            StorePhaseOf::CheckingOldBackup,
            StoreStepOf::Do(StoreOp::Exists(StoreFile::Backup)),
        ),
        (StorePhaseOf::CheckingTarget, StoreAnswerOf::Found(Ok(false))) => (
            StorePhaseOf::Swapping,
            StoreStepOf::Do(StoreOp::Rename(StoreFile::Temporary, StoreFile::Target)),
        ),
        (StorePhaseOf::CheckingTarget, StoreAnswerOf::Found(Err(e))) => (
            StorePhaseOf::Finished,
            StoreStepOf::Finish(Err(prefixed("기존 상태 확인 실패: ", e))),
        ),
        (StorePhaseOf::CheckingOldBackup, StoreAnswerOf::Found(Ok(true))) => (
            StorePhaseOf::RemovingOldBackup,
            StoreStepOf::Do(StoreOp::Remove(StoreFile::Backup)),
        ),
        (StorePhaseOf::CheckingOldBackup, StoreAnswerOf::Found(_)) => (
            StorePhaseOf::BackingUp,
            StoreStepOf::Do(StoreOp::Rename(StoreFile::Target, StoreFile::Backup)),
        ),
        (StorePhaseOf::RemovingOldBackup, StoreAnswerOf::Done(_)) => (
            StorePhaseOf::BackingUp,
            StoreStepOf::Do(StoreOp::Rename(StoreFile::Target, StoreFile::Backup)),
        ),
        (StorePhaseOf::BackingUp, StoreAnswerOf::Done(Ok(()))) => (
            StorePhaseOf::Swapping,
            StoreStepOf::Do(StoreOp::Rename(StoreFile::Temporary, StoreFile::Target)),
        ),
        (StorePhaseOf::BackingUp, StoreAnswerOf::Done(Err(e))) => (
            StorePhaseOf::Finished,
            StoreStepOf::Finish(Err(prefixed("기존 상태 백업 실패: ", e))),
        ),
        (StorePhaseOf::Swapping, StoreAnswerOf::Done(Ok(()))) => (
            StorePhaseOf::Cleaning,
            StoreStepOf::Do(StoreOp::Remove(StoreFile::Backup)),
        ),
        (StorePhaseOf::Swapping, StoreAnswerOf::Done(Err(e))) => (
            StorePhaseOf::CheckingRestore(e),
            StoreStepOf::Do(StoreOp::Exists(StoreFile::Backup)),
        ),
        (StorePhaseOf::CheckingRestore(e), StoreAnswerOf::Found(Ok(true))) => (
            StorePhaseOf::Restoring(e),
            StoreStepOf::Do(StoreOp::Rename(StoreFile::Backup, StoreFile::Target)),
        ),
        (StorePhaseOf::CheckingRestore(e), StoreAnswerOf::Found(_)) => (
            StorePhaseOf::Finished,
            StoreStepOf::Finish(Err(prefixed("상태 파일 교체 실패: ", e))),
        ),
        (StorePhaseOf::Restoring(e), StoreAnswerOf::Done(_)) => (
            StorePhaseOf::Finished,
            StoreStepOf::Finish(Err(prefixed("상태 파일 교체 실패: ", e))),
        ),
        (StorePhaseOf::Cleaning, StoreAnswerOf::Done(_)) => (
            StorePhaseOf::Finished,
            StoreStepOf::Finish(Ok(())),
        ),
        (p, _) => {
            proof {
                assert(false);
            }
            (p, StoreStepOf::Finish(Ok(())))
        },
    }
}

} // verus!

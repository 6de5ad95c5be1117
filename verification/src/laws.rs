//! Properties of the engine that span its turns.
use vstd::prelude::*;
use crate::agent::{tail_after, STDERR_TAIL_LINES};
use crate::approval::approval_of;
use crate::content::{
    design_tokens_doc, fallback_fix_doc, fallback_revision, fix_prompt, interrupted_feedback,
    plan_doc,
};
use crate::machine::{
    accepts, begin, finish_plan, fix_planned, plan_scripted, resumed, snapshot_of, transition,
    EffectOf, EngineView, EventOf, IpcFile, NoteOf, PcOf, RequestOf, ResumeError, SnapshotView,
    WorkFile, SNAPSHOT_VERSION,
};
use crate::stage::VesperStage;
use crate::store::{
    store_accepts, store_start, store_transition, swap_error, StoreAnswerOf, StoreFile, StoreOp, StorePhaseOf,
    StoreStepOf,
};
use crate::text::{includes, lowercase, trimmed, uppercase};

verus! {

/// The event is a command that approves.
pub open spec fn approving_command(ev: crate::machine::EventView) -> bool {
    match ev {
        EventOf::Command(Some(c)) => approval_of(trimmed(c)) is Approve,
        _ => false,
    }
}

/// The event is a command that is neither approval nor denial.
pub open spec fn feedback_command(ev: crate::machine::EventView) -> bool {
    match ev {
        EventOf::Command(Some(c)) => approval_of(trimmed(c)) is Feedback,
        _ => false,
    }
}

/// Execution needs consent: a turn enters Execute only when an explicit
/// approval answers a plan that awaits it, or when a failed verification
/// sends the run back with fewer than three failures counted.
pub proof fn law_execute_needs_approval(e: EngineView, ev: crate::machine::EventView)
    requires
        accepts(e.pc, ev),
        e.stage != VesperStage::Execute,
        transition(e, ev).engine.stage == VesperStage::Execute,
    ensures
        (e.pc is AwaitCommand && e.stage == VesperStage::PendingApproval && approving_command(ev))
            || (e.pc is VerifyFixAi && e.retry < 3),
{
    assert(begin(e, Seq::empty()).engine.stage != VesperStage::Execute);
}

/// Every stage change is stored: a turn that changes the stage ends by
/// asking for the snapshot to be stored.
pub proof fn law_stage_changes_are_persisted(
    e: EngineView,
    ev: crate::machine::EventView,
)
    requires
        accepts(e.pc, ev),
        transition(e, ev).engine.stage != e.stage,
    ensures
        transition(e, ev).request is Persist,
{
}

/// The Plan stage always ends waiting for approval, with its plan written.
pub proof fn law_plan_awaits_approval(e: EngineView, fx: Seq<crate::machine::EffectView>, ok: bool)
    requires
        e.stage == VesperStage::Plan,
    ensures
        begin(e, fx).engine.stage == VesperStage::PendingApproval || begin(e, fx).engine.pc is PlanScript,
        plan_scripted(e, ok).engine.stage == VesperStage::PendingApproval,
        plan_scripted(e, ok).request is Persist,
{
}

/// While a plan awaits approval, a reply that is neither approval nor denial
/// leaves it awaiting approval; a revision under way never changes the
/// stage, and a revised plan records the feedback it was revised with.
pub proof fn law_feedback_keeps_waiting(e: EngineView, ev: crate::machine::EventView)
    requires
        accepts(e.pc, ev),
    ensures
        e.pc is AwaitCommand && e.stage == VesperStage::PendingApproval && feedback_command(ev)
            ==> transition(e, ev).engine.stage == VesperStage::PendingApproval,
        (e.pc is RevisePlanRead || e.pc is ReviseAi || e.pc is RevisePersist) ==> transition(e, ev).engine.stage
            == e.stage,
        e.pc matches PcOf::ReviseAi(f, _) ==> transition(e, ev).engine.feedback == Some(f),
{
}

/// An explicit answer to a plan awaiting approval: approval enters Execute,
/// denial returns to Idle; both clear the feedback and store the snapshot.
pub proof fn law_explicit_answers(e: EngineView, c: Seq<char>)
    requires
        e.pc is AwaitCommand,
        e.stage == VesperStage::PendingApproval,
    ensures
        approval_of(trimmed(c)) is Approve ==> {
            let o = transition(e, EventOf::Command(Some(c)));
            &&& o.engine.stage == VesperStage::Execute
            &&& o.engine.feedback is None
            &&& o.request is Persist
        },
        approval_of(trimmed(c)) is Deny ==> {
            let o = transition(e, EventOf::Command(Some(c)));
            &&& o.engine.stage == VesperStage::Idle
            &&& o.engine.feedback is None
            &&& o.request is Persist
        },
{
}

/// A failed verification is counted once and a fix plan is asked for; once
/// the fix plan is written the run goes back to Execute while fewer than
/// three failures are counted, and stops in Idle from the third on.
pub proof fn law_verification_retries(e: EngineView, m: Seq<char>, reply: Option<Seq<char>>)
    requires
        e.retry < u32::MAX,
    ensures
        ({
            let o = transition(
                EngineView { pc: PcOf::VerifyRun, ..e },
                EventOf::CommandDone(Err(m)),
            );
            &&& o.engine.retry == e.retry + 1
            &&& o.engine.stage == e.stage
            &&& o.request == RequestOf::<Seq<char>, crate::agent::CommandView>::FetchAi(fix_prompt(m))
        }),
        e.retry >= 3 ==> fix_planned(e, m, reply).engine.stage == VesperStage::Idle,
        e.retry < 3 ==> fix_planned(e, m, reply).engine.stage == VesperStage::Execute,
        fix_planned(e, m, reply).request is Persist,
{
}

/// Restoring a run never lands in Execute, and where it changes the stage it
/// stores the snapshot.
pub proof fn law_resume_is_safe(e: EngineView, s: SnapshotView)
    ensures
        resumed(e, s) matches Ok(o) ==> o.engine.stage != VesperStage::Execute,
        resumed(e, s) matches Ok(o) ==> (o.engine.stage != s.stage ==> o.request is Persist),
{
    if s.stage == VesperStage::Plan {
        let e1 = EngineView { stage: s.stage, task: s.task, retry: s.retry, feedback: s.feedback, ..e };
        assert(finish_plan(e1, seq![crate::machine::note(NoteOf::Resumed(s.stage, s.task))]).request is Persist);
    }
}

/// What a stored snapshot gives back: resuming the snapshot of an engine
/// restores its task and failure count. A plan that awaited approval awaits
/// it again with its feedback, and no stage is run again; a run interrupted
/// in Execute or Verify awaits approval again, with feedback saying so; a
/// run in Analyze or RiskScan continues in that stage with its feedback; an
/// idle engine has nothing to resume.
pub proof fn law_snapshot_round_trip(e: EngineView, other: EngineView)
    ensures
        e.stage == VesperStage::Idle ==> resumed(other, snapshot_of(e)) == Err::<
            crate::machine::Outcome,
            ResumeError,
        >(ResumeError::NothingToResume),
        e.stage != VesperStage::Idle ==> resumed(other, snapshot_of(e)) is Ok,
        e.stage != VesperStage::Idle ==> {
            let o = resumed(other, snapshot_of(e))->Ok_0;
            &&& o.engine.task == e.task
            &&& o.engine.retry == e.retry
            &&& e.stage == VesperStage::PendingApproval ==> {
                &&& o.engine.stage == VesperStage::PendingApproval
                &&& o.engine.feedback == e.feedback
                &&& o.request is NextCommand
                &&& o.effects == seq![
                    crate::machine::note(NoteOf::Resumed(e.stage, e.task)),
                    crate::machine::note(NoteOf::AwaitingApproval),
                ]
            }
            &&& (e.stage == VesperStage::Execute || e.stage == VesperStage::Verify) ==> {
                &&& o.engine.stage == VesperStage::PendingApproval
                &&& o.engine.feedback == Some(interrupted_feedback(e.stage))
                &&& o.request is Persist
            }
            &&& (e.stage == VesperStage::Analyze || e.stage == VesperStage::RiskScan) ==> {
                &&& o.engine.stage == e.stage
                &&& o.engine.feedback == e.feedback
            }
        },
{
}

/// A snapshot in another format is refused, whatever it holds.
pub proof fn law_foreign_snapshot_refused(e: EngineView, s: SnapshotView)
    requires
        s.version != SNAPSHOT_VERSION,
    ensures
        resumed(e, s) == Err::<crate::machine::Outcome, ResumeError>(
            ResumeError::UnsupportedVersion(s.version),
        ),
{
}

proof fn lemma_tail_after_small(lines: Seq<Seq<char>>)
    ensures
        tail_after(lines) == lines.skip(
            if lines.len() > STDERR_TAIL_LINES {
                lines.len() - STDERR_TAIL_LINES
            } else {
                0
            },
        ),
    decreases lines.len(),
{
    if lines.len() == 0 {
        assert(lines.skip(0) =~= lines);
    } else {
        let prev = lines.drop_last();
        lemma_tail_after_small(prev);
        let k = if prev.len() > STDERR_TAIL_LINES {
            prev.len() - STDERR_TAIL_LINES
        } else {
            0
        };
        let t = prev.skip(k);
        if t.len() == STDERR_TAIL_LINES {
            assert(t.drop_first().push(lines.last()) =~= lines.skip(lines.len() - STDERR_TAIL_LINES));
        } else {
            assert(t.push(lines.last()) =~= lines.skip(0));
        }
    }
}

/// The error report keeps exactly the last fifty stderr lines of a run (all
/// of them when there are fewer).
pub proof fn law_stderr_tail_keeps_last_lines(lines: Seq<Seq<char>>)
    ensures
        tail_after(lines).len() <= STDERR_TAIL_LINES,
        lines.len() <= STDERR_TAIL_LINES ==> tail_after(lines) == lines,
        lines.len() > STDERR_TAIL_LINES ==> tail_after(lines) == lines.subrange(
            lines.len() - STDERR_TAIL_LINES,
            lines.len() as int,
        ),
{
    lemma_tail_after_small(lines);
    assert(lines.skip(0) =~= lines);
    if lines.len() > STDERR_TAIL_LINES {
        assert(lines.skip(lines.len() - STDERR_TAIL_LINES) =~= lines.subrange(
            lines.len() - STDERR_TAIL_LINES,
            lines.len() as int,
        ));
    }
}

/// The operation succeeded.
pub open spec fn succeeded(a: crate::store::StoreAnswerView) -> bool {
    a matches StoreAnswerOf::Done(Ok(_))
}

/// The phases in which the new snapshot has been written to the temporary
/// file.
pub open spec fn snapshot_written(p: crate::store::StorePhaseView) -> bool {
    !(p is CreatingDir || p is WritingTemporary || p is Finished)
}

/// Storing keeps the previous snapshot safe: the new snapshot counts as
/// written only once its temporary file was written; the current file is
/// replaced only by that temporary file (or by its own backup, put back after
/// a failed swap); and storing succeeds only after the swap succeeded.
pub proof fn law_store_replaces_safely(
    p: crate::store::StorePhaseView,
    a: crate::store::StoreAnswerView,
)
    requires
        store_accepts(p, a),
    ensures
        snapshot_written(store_transition(p, a).0) ==> snapshot_written(p) || (p is WritingTemporary
            && succeeded(a)),
        store_transition(p, a).1 == StoreStepOf::<Seq<char>>::Do(
            StoreOp::Rename(StoreFile::Temporary, StoreFile::Target),
        ) ==> snapshot_written(p),
        store_transition(p, a).1 matches StoreStepOf::Do(StoreOp::Rename(x, StoreFile::Target))
            ==> x == StoreFile::Temporary || (x == StoreFile::Backup && p is CheckingRestore),
        store_transition(p, a).1 == StoreStepOf::<Seq<char>>::Finish(Ok(())) ==> p is Cleaning,
        store_transition(p, a).0 is Cleaning ==> p is Swapping && succeeded(a),
{
}

/// A failed swap puts the backup back where there is one, and reports the
/// failure.
pub proof fn law_failed_swap_restores_backup(e: Seq<char>)
    ensures
        store_transition(StorePhaseOf::Swapping, StoreAnswerOf::Done(Err(e))) == (
            StorePhaseOf::CheckingRestore(e),
            StoreStepOf::<Seq<char>>::Do(StoreOp::Exists(StoreFile::Backup)),
        ),
        store_transition(StorePhaseOf::CheckingRestore(e), StoreAnswerOf::Found(Ok(true))) == (
            StorePhaseOf::Restoring(e),
            StoreStepOf::<Seq<char>>::Do(StoreOp::Rename(StoreFile::Backup, StoreFile::Target)),
        ),
        forall|r: Result<(), Seq<char>>|
            #[trigger] store_transition(StorePhaseOf::Restoring(e), StoreAnswerOf::Done(r))
                == (
                StorePhaseOf::<Seq<char>>::Finished,
                StoreStepOf::Finish(Err(swap_error(e))),
            ),
{
}

// ---------------------------------------------------------------------------
// What the answers of the AI service and the task decide
// ---------------------------------------------------------------------------

/// The risk scan stops the run exactly when the AI's assessment, in upper
/// case, contains `DANGER` anywhere: the run then goes to Idle with the
/// danger reported last; otherwise the scan passes and the run goes on in
/// RiskScan, reading the library for the risk skill. Without an assessment
/// the scan passes.
pub proof fn law_danger_anywhere_stops_the_run(e: EngineView, res: Seq<char>)
    requires
        e.pc is RiskAi,
        e.stage == VesperStage::RiskScan,
    ensures
        ({
            let o = transition(e, EventOf::AiReply(Some(res)));
            let danger = includes(uppercase(res), "DANGER"@);
            &&& (o.engine.stage == VesperStage::Idle) == danger
            &&& danger ==> o.effects.last() == crate::machine::note(NoteOf::RiskDanger)
                && o.request is Persist
            &&& !danger ==> o.engine.stage == VesperStage::RiskScan && o.request is ReadLibrary
                && o.effects[2] == crate::machine::note(NoteOf::TauriPass)
        }),
        transition(e, EventOf::AiReply(None)).engine.stage == VesperStage::RiskScan,
        transition(e, EventOf::AiReply(None)).request is ReadLibrary,
{
}

/// A task whose text, in lower case, mentions `ui`, `frontend` or `svelte`
/// is user-interface work: when Plan begins, the design tokens are written
/// and the DotMatrix Svelte script is run before the plan; any other task
/// gets its plan at once and waits for approval.
pub proof fn law_ui_tasks_run_the_svelte_script(e: EngineView)
    requires
        e.pc is RiskPersist,
        e.stage == VesperStage::Plan,
    ensures
        ({
            let o = transition(e, EventOf::Persisted(Ok(())));
            let l = lowercase(e.task);
            let ui = includes(l, "ui"@) || includes(l, "frontend"@) || includes(l, "svelte"@);
            &&& (o.request is RunDotmatrix) == ui
            &&& ui ==> o.effects[5] == EffectOf::<Seq<char>, crate::machine::NoteView>::WriteFile(
                WorkFile::DesignTokens,
                design_tokens_doc(),
            )
            &&& !ui ==> o.engine.stage == VesperStage::PendingApproval && o.effects[3]
                == EffectOf::<Seq<char>, crate::machine::NoteView>::WriteIpc(IpcFile::Plan, plan_doc())
        }),
{
}

/// A revision of the plan writes what the AI service answered, exactly;
/// only without an answer is the plan revised offline.
pub proof fn law_revised_plan_is_the_answer(e: EngineView, f: Seq<char>, plan: Seq<char>, r: Seq<char>)
    requires
        e.pc == PcOf::<Seq<char>>::ReviseAi(f, plan),
    ensures
        transition(e, EventOf::AiReply(Some(r))).effects == seq![
            EffectOf::<Seq<char>, crate::machine::NoteView>::WriteIpc(IpcFile::Plan, r),
        ],
        transition(e, EventOf::AiReply(None)).effects == seq![
            EffectOf::<Seq<char>, crate::machine::NoteView>::WriteIpc(
                IpcFile::Plan,
                fallback_revision(plan, f),
            ),
        ],
{
}

/// After a failed verification the fix plan written is what the AI service
/// answered, exactly; only without an answer is the generic fix plan
/// written.
pub proof fn law_fix_plan_is_the_answer(e: EngineView, m: Seq<char>, r: Seq<char>)
    requires
        e.pc == PcOf::<Seq<char>>::VerifyFixAi(m),
    ensures
        transition(e, EventOf::AiReply(Some(r))).effects[0]
            == EffectOf::<Seq<char>, crate::machine::NoteView>::WriteIpc(IpcFile::FixPlan, r),
        transition(e, EventOf::AiReply(None)).effects[0]
            == EffectOf::<Seq<char>, crate::machine::NoteView>::WriteIpc(
            IpcFile::FixPlan,
            fallback_fix_doc(m),
        ),
{
}

// ---------------------------------------------------------------------------
// The snapshot files while storing
// ---------------------------------------------------------------------------

/// What a snapshot file holds: nothing, the snapshot stored before, the new
/// snapshot in full, or anything else (a partial write, a stale file).
#[derive(PartialEq, Eq, Structural)]
pub enum Content {
    Missing,
    Previous,
    Next,
    Other,
}

/// The three snapshot files.
pub struct Files {
    pub target: Content,
    pub backup: Content,
    pub temporary: Content,
}

/// The content of one of the files.
pub open spec fn content_of(f: Files, x: StoreFile) -> Content {
    match x {
        StoreFile::Target => f.target,
        StoreFile::Backup => f.backup,
        StoreFile::Temporary => f.temporary,
    }
}

/// The files with `x` holding `c`.
pub open spec fn with_content(f: Files, x: StoreFile, c: Content) -> Files {
    match x {
        StoreFile::Target => Files { target: c, ..f },
        StoreFile::Backup => Files { backup: c, ..f },
        StoreFile::Temporary => Files { temporary: c, ..f },
    }
}

/// The operation that each phase waits on.
pub open spec fn phase_op(p: crate::store::StorePhaseView) -> Option<StoreOp> {
    match p {
        StorePhaseOf::CreatingDir => Some(StoreOp::CreateDir),
        StorePhaseOf::WritingTemporary => Some(StoreOp::WriteTemporary),
        StorePhaseOf::CheckingTarget => Some(StoreOp::Exists(StoreFile::Target)),
        StorePhaseOf::CheckingOldBackup => Some(StoreOp::Exists(StoreFile::Backup)),
        StorePhaseOf::RemovingOldBackup => Some(StoreOp::Remove(StoreFile::Backup)),
        StorePhaseOf::BackingUp => Some(StoreOp::Rename(StoreFile::Target, StoreFile::Backup)),
        StorePhaseOf::Swapping => Some(StoreOp::Rename(StoreFile::Temporary, StoreFile::Target)),
        StorePhaseOf::CheckingRestore(_) => Some(StoreOp::Exists(StoreFile::Backup)),
        StorePhaseOf::Restoring(_) => Some(StoreOp::Rename(StoreFile::Backup, StoreFile::Target)),
        StorePhaseOf::Cleaning => Some(StoreOp::Remove(StoreFile::Backup)),
        StorePhaseOf::Finished => None,
    }
}

/// How an operation, answered with `a`, changes the files `f` into `g`, the
/// answers telling the truth: a write that succeeded leaves the new snapshot
/// in the temporary file, and one that failed or was cut short leaves
/// anything there; a check reports whether the file is there; a removal
/// that succeeded empties the file, one that failed may have or not; a
/// rename that succeeded moves the content, one that failed changes nothing.
pub open spec fn performed(f: Files, op: StoreOp, a: crate::store::StoreAnswerView, g: Files) -> bool {
    match op {
        StoreOp::CreateDir => g == f,
        StoreOp::WriteTemporary => {
            &&& g.target == f.target
            &&& g.backup == f.backup
            &&& succeeded(a) ==> g.temporary == Content::Next
        },
        StoreOp::Exists(x) => {
            &&& g == f
            &&& a matches StoreAnswerOf::Found(Ok(b)) ==> b == (content_of(f, x) != Content::Missing)
        },
        StoreOp::Remove(x) => g == with_content(f, x, Content::Missing) || (!succeeded(a) && g == f),
        StoreOp::Rename(x, y) => if succeeded(a) {
            g == with_content(with_content(f, y, content_of(f, x)), x, Content::Missing)
        } else {
            g == f
        },
    }
}

/// The first snapshot file that is there (the order in which a resume reads
/// them) holds the previous snapshot or the new one in full.
pub open spec fn whole_snapshot_first(f: Files) -> bool {
    if f.target != Content::Missing {
        f.target == Content::Previous || f.target == Content::Next
    } else if f.backup != Content::Missing {
        f.backup == Content::Previous || f.backup == Content::Next
    } else {
        f.temporary == Content::Previous || f.temporary == Content::Next
    }
}

/// What each phase of storing keeps of the files.
pub open spec fn store_keeps(p: crate::store::StorePhaseView, f: Files) -> bool {
    match p {
        StorePhaseOf::CreatingDir => f.target == Content::Previous,
        StorePhaseOf::WritingTemporary => f.target == Content::Previous,
        StorePhaseOf::CheckingTarget => f.target == Content::Previous && f.temporary == Content::Next,
        StorePhaseOf::CheckingOldBackup => f.target == Content::Previous && f.temporary == Content::Next,
        StorePhaseOf::RemovingOldBackup => f.target == Content::Previous && f.temporary == Content::Next,
        StorePhaseOf::BackingUp => f.target == Content::Previous && f.temporary == Content::Next,
        StorePhaseOf::Swapping => {
            &&& f.target == Content::Missing
            &&& f.backup == Content::Previous
            &&& f.temporary == Content::Next
        },
        StorePhaseOf::CheckingRestore(_) => f.target == Content::Missing && f.backup == Content::Previous,
        StorePhaseOf::Restoring(_) => f.target == Content::Missing && f.backup == Content::Previous,
        StorePhaseOf::Cleaning => f.target == Content::Next,
        StorePhaseOf::Finished => {
            ||| f.target == Content::Previous
            ||| f.target == Content::Next
            ||| (f.target == Content::Missing && f.backup == Content::Previous)
        },
    }
}

/// Storing a snapshot over a whole one starts in a phase that keeps it.
pub proof fn law_store_starts_safely(f: Files)
    requires
        f.target == Content::Previous,
    ensures
        store_start().0 is CreatingDir,
        store_keeps(store_start().0, f),
        store_start().1 == StoreStepOf::<Seq<char>>::Do(phase_op(store_start().0)->Some_0),
{
}

/// Storing never leaves a partial snapshot where a resume reads first: in
/// every phase, whatever the files went through (a write cut short
/// included), the first snapshot file that is there holds the previous
/// snapshot or the new one in full. Each answered operation keeps this; the
/// next operation is the one its phase waits on; a swap that failed and whose
/// backup was put back leaves the previous snapshot in place.
pub proof fn law_store_keeps_a_whole_snapshot(
    p: crate::store::StorePhaseView,
    a: crate::store::StoreAnswerView,
    f: Files,
    g: Files,
)
    requires
        store_keeps(p, f),
        store_accepts(p, a),
        performed(f, phase_op(p)->Some_0, a, g),
    ensures
        whole_snapshot_first(f),
        store_keeps(store_transition(p, a).0, g),
        store_transition(p, a).1 matches StoreStepOf::Do(op) ==> phase_op(store_transition(p, a).0)
            == Some(op),
        store_transition(p, a).1 is Finish ==> store_transition(p, a).0 is Finished,
        p is Restoring && succeeded(a) ==> g.target == Content::Previous,
{
}

/// In every phase that keeps the files, a resume finds a whole snapshot
/// first.
pub proof fn law_kept_files_resume_whole(p: crate::store::StorePhaseView, f: Files)
    requires
        store_keeps(p, f),
    ensures
        whole_snapshot_first(f),
{
}

/// The phase of a store after its first `n` answers.
pub open spec fn store_phase_at(answers: Seq<crate::store::StoreAnswerView>, n: int) -> crate::store::StorePhaseView
    decreases n,
{
    if n <= 0 {
        store_start().0
    } else {
        store_transition(store_phase_at(answers, n - 1), answers[n - 1]).0
    }
}

/// Answer `n` of a store is one its phase takes, and the files after it are
/// what its operation made of the files before.
pub open spec fn store_step_at(answers: Seq<crate::store::StoreAnswerView>, files: Seq<Files>, n: int) -> bool {
    let p = store_phase_at(answers, n);
    &&& store_accepts(p, answers[n])
    &&& performed(files[n], phase_op(p)->Some_0, answers[n], files[n + 1])
}

proof fn lemma_store_run_keeps(answers: Seq<crate::store::StoreAnswerView>, files: Seq<Files>, n: int)
    requires
        files.len() == answers.len() + 1,
        files[0].target == Content::Previous,
        forall|k: int| 0 <= k < answers.len() ==> #[trigger] store_step_at(answers, files, k),
        0 <= n <= answers.len(),
    ensures
        store_keeps(store_phase_at(answers, n), files[n]),
    decreases n,
{
    if n > 0 {
        lemma_store_run_keeps(answers, files, n - 1);
        assert(store_step_at(answers, files, n - 1));
        law_store_keeps_a_whole_snapshot(store_phase_at(answers, n - 1), answers[n - 1], files[n - 1], files[n]);
    }
}

/// Over a whole store of a new snapshot over a whole previous one, whatever
/// the answers and wherever it stops (a failure, or an interruption after any
/// operation), a resume finds the previous snapshot or the new one in full
/// first; while the temporary file is written this holds whatever it holds.
pub proof fn law_store_run_keeps_a_whole_snapshot(
    answers: Seq<crate::store::StoreAnswerView>,
    files: Seq<Files>,
)
    requires
        files.len() == answers.len() + 1,
        files[0].target == Content::Previous,
        forall|k: int| 0 <= k < answers.len() ==> #[trigger] store_step_at(answers, files, k),
    ensures
        forall|n: int| 0 <= n <= answers.len() ==> whole_snapshot_first(#[trigger] files[n]),
        forall|n: int, t: Content|
            0 <= n <= answers.len() && store_phase_at(answers, n) is WritingTemporary
                ==> whole_snapshot_first(#[trigger] with_content(files[n], StoreFile::Temporary, t)),
{
    assert forall|n: int| 0 <= n <= answers.len() implies whole_snapshot_first(#[trigger] files[n]) by {
        lemma_store_run_keeps(answers, files, n);
        law_kept_files_resume_whole(store_phase_at(answers, n), files[n]);
    }
    assert forall|n: int, t: Content|
        0 <= n <= answers.len() && store_phase_at(answers, n) is WritingTemporary
            implies whole_snapshot_first(#[trigger] with_content(files[n], StoreFile::Temporary, t)) by {
        lemma_store_run_keeps(answers, files, n);
    }
}

} // verus!

//! Properties of whole runs: a run is the engine stepped with a sequence of
//! answers, each one an answer to the request the engine waits on.
use vstd::prelude::*;
use crate::laws::approving_command;
use crate::machine::{
    accepts, begin, resumed, transition, EffectOf, EngineView, EventView, NoteOf, Outcome, PcOf,
    PcView, SnapshotView,
};
use crate::stage::VesperStage;

verus! {

// ---------------------------------------------------------------------------
// Runs
// ---------------------------------------------------------------------------

/// The engine after the first `n` answers of a run from `e`.
pub open spec fn state_at(e: EngineView, steps: Seq<EventView>, n: int) -> EngineView
    decreases n,
{
    if n <= 0 {
        e
    } else {
        transition(state_at(e, steps, n - 1), steps[n - 1]).engine
    }
}

/// Turn `n` of a run from `e`.
pub open spec fn turn_at(e: EngineView, steps: Seq<EventView>, n: int) -> Outcome {
    transition(state_at(e, steps, n), steps[n])
}

/// Turn `n` answers the request the engine waits on.
pub open spec fn answered_at(e: EngineView, steps: Seq<EventView>, n: int) -> bool {
    accepts(state_at(e, steps, n).pc, steps[n])
}

/// Every turn answers the request the engine waits on.
pub open spec fn is_run(e: EngineView, steps: Seq<EventView>) -> bool {
    forall|n: int| 0 <= n < steps.len() ==> #[trigger] answered_at(e, steps, n)
}

/// Turn `n` approves: a plan awaits approval and an approving reply arrives.
pub open spec fn approves_at(e: EngineView, steps: Seq<EventView>, n: int) -> bool {
    let s = state_at(e, steps, n);
    &&& s.pc is AwaitCommand
    &&& s.stage == VesperStage::PendingApproval
    &&& approving_command(steps[n])
}

/// Turn `n` starts a new task (`/task` or `/sprocket`).
pub open spec fn starts_task_at(e: EngineView, steps: Seq<EventView>, n: int) -> bool {
    turn_at(e, steps, n).engine.pc is PipelineStart
}

proof fn lemma_state_next(e: EngineView, steps: Seq<EventView>, n: int)
    requires
        0 <= n,
    ensures
        state_at(e, steps, n + 1) == turn_at(e, steps, n).engine,
{
}

// ---------------------------------------------------------------------------
// Before approval
// ---------------------------------------------------------------------------

/// The points at which the engine has been told to execute and goes on
/// executing: from the approval on, through the agent run and the
/// verification, up to the points that store a finished run.
pub open spec fn approved_pc(pc: PcView) -> bool {
    ||| pc is Approving
    ||| pc is ExecuteLibrary
    ||| pc is ExecuteConfig
    ||| pc is ExecuteRun
    ||| pc is ExecuteOkPersist
    ||| pc is VerifyConfig
    ||| pc is VerifyRun
    ||| pc is VerifyFixAi
    ||| pc is VerifyRetryPersist
}

/// The engine has not been told to execute its task: it is in none of the
/// execution stages, at none of the execution points, and each point that
/// goes on to a stage once the snapshot is stored stands in that stage.
pub open spec fn before_approval(e: EngineView) -> bool {
    &&& e.stage != VesperStage::Execute
    &&& e.stage != VesperStage::Verify
    &&& !approved_pc(e.pc)
    &&& e.pc is PipelineStart ==> e.stage == VesperStage::Analyze
    &&& e.pc is AnalyzePersist ==> e.stage == VesperStage::RiskScan
    &&& e.pc is RiskPersist ==> e.stage == VesperStage::Plan
}

proof fn lemma_begin_before_approval(e: EngineView, fx: Seq<crate::machine::EffectView>)
    requires
        e.stage != VesperStage::Execute,
        e.stage != VesperStage::Verify,
    ensures
        before_approval(begin(e, fx).engine),
        !(begin(e, fx).request is RunCommand),
{
}

/// Before approval, no turn runs a command; and every turn but one that
/// approves leaves the engine before approval.
proof fn lemma_before_approval_step(e: EngineView, ev: EventView)
    requires
        before_approval(e),
        accepts(e.pc, ev),
    ensures
        !(transition(e, ev).request is RunCommand),
        !(e.pc is AwaitCommand && e.stage == VesperStage::PendingApproval && approving_command(ev))
            ==> before_approval(transition(e, ev).engine),
{
    if e.pc is PipelineStart || e.pc is AnalyzePersist || e.pc is RiskPersist {
        lemma_begin_before_approval(e, Seq::empty());
    }
}

/// A turn that starts a new task leaves the engine before approval.
proof fn lemma_task_start(e: EngineView, ev: EventView)
    requires
        accepts(e.pc, ev),
        transition(e, ev).engine.pc is PipelineStart,
    ensures
        before_approval(transition(e, ev).engine),
{
    if e.pc is Approving || e.pc is PipelineStart || e.pc is AnalyzePersist || e.pc is RiskPersist
        || e.pc is ExecuteOkPersist || e.pc is VerifyRetryPersist {
        assert(!(begin(e, Seq::empty()).engine.pc is PipelineStart));
    }
}

proof fn lemma_since_last_approval(e: EngineView, steps: Seq<EventView>, k: int)
    requires
        before_approval(e),
        is_run(e, steps),
        0 <= k <= steps.len(),
    ensures
        before_approval(state_at(e, steps, k)) || exists|i: int|
            0 <= i < k && #[trigger] approves_at(e, steps, i) && forall|m: int|
                i < m <= k ==> !before_approval(#[trigger] state_at(e, steps, m)),
    decreases k,
{
    if k > 0 {
        lemma_since_last_approval(e, steps, k - 1);
        let s = state_at(e, steps, k - 1);
        assert(answered_at(e, steps, k - 1));
        lemma_state_next(e, steps, k - 1);
        if before_approval(s) {
            lemma_before_approval_step(s, steps[k - 1]);
            if approves_at(e, steps, k - 1) {
                assert(state_at(e, steps, k).pc is Approving);
                assert forall|m: int| k - 1 < m <= k implies !before_approval(#[trigger] state_at(e, steps, m)) by {
                    assert(m == k);
                }
            }
        } else if !before_approval(state_at(e, steps, k)) {
            let i = choose|i: int|
                0 <= i < k - 1 && #[trigger] approves_at(e, steps, i) && forall|m: int|
                    i < m <= k - 1 ==> !before_approval(#[trigger] state_at(e, steps, m));
            assert forall|m: int| i < m <= k implies !before_approval(#[trigger] state_at(e, steps, m)) by {
                if m < k {
                } else {
                }
            }
        }
    }
}

/// The agent runs only on approval: in a run that starts before approval
/// (a new engine, or one just resumed), every command run is preceded by a
/// turn that approved a plan awaiting approval, and no new task was started
/// between that approval and the run.
pub proof fn law_commands_run_only_after_approval(
    e: EngineView,
    steps: Seq<EventView>,
    j: int,
)
    requires
        before_approval(e),
        is_run(e, steps),
        0 <= j < steps.len(),
        turn_at(e, steps, j).request is RunCommand,
    ensures
        exists|i: int|
            0 <= i < j && #[trigger] approves_at(e, steps, i) && forall|m: int|
                i < m < j ==> !#[trigger] starts_task_at(e, steps, m),
{
    lemma_since_last_approval(e, steps, j);
    assert(answered_at(e, steps, j));
    if before_approval(state_at(e, steps, j)) {
        lemma_before_approval_step(state_at(e, steps, j), steps[j]);
    }
    let i = choose|i: int|
        0 <= i < j && #[trigger] approves_at(e, steps, i) && forall|m: int|
            i < m <= j ==> !before_approval(#[trigger] state_at(e, steps, m));
    assert forall|m: int| i < m < j implies !#[trigger] starts_task_at(e, steps, m) by {
        assert(answered_at(e, steps, m));
        lemma_state_next(e, steps, m);
        if starts_task_at(e, steps, m) {
            lemma_task_start(state_at(e, steps, m), steps[m]);
            assert(!before_approval(state_at(e, steps, m + 1)));
        }
    }
}

/// Without an approval nothing is executed: in a run that starts before
/// approval and in which no turn approves, the engine never enters Execute
/// or Verify and no command is run.
pub proof fn law_no_execution_without_approval(e: EngineView, steps: Seq<EventView>)
    requires
        before_approval(e),
        is_run(e, steps),
        forall|n: int| 0 <= n < steps.len() ==> !#[trigger] approves_at(e, steps, n),
    ensures
        forall|n: int|
            0 <= n <= steps.len() ==> {
                let s = #[trigger] state_at(e, steps, n);
                s.stage != VesperStage::Execute && s.stage != VesperStage::Verify
            },
        forall|n: int| 0 <= n < steps.len() ==> !((#[trigger] turn_at(e, steps, n)).request is RunCommand),
{
    assert forall|n: int| 0 <= n <= steps.len() implies before_approval(#[trigger] state_at(e, steps, n)) by {
        lemma_since_last_approval(e, steps, n);
    }
    assert forall|n: int| 0 <= n < steps.len() implies !((#[trigger] turn_at(e, steps, n)).request is RunCommand) by {
        assert(before_approval(state_at(e, steps, n)));
        assert(answered_at(e, steps, n));
        lemma_before_approval_step(state_at(e, steps, n), steps[n]);
    }
}

/// A new engine, and an engine just resumed from a snapshot, stand before
/// approval: resuming never puts back an approval that was given before. So
/// does any engine whose points stand in their stages, outside Execute and
/// Verify (such as one in Analyze, RiskScan or Plan).
pub proof fn law_runs_start_before_approval(e: EngineView, s: SnapshotView)
    ensures
        e.stage == VesperStage::Idle && e.pc is AwaitCommand ==> before_approval(e),
        consistent(e) && e.stage != VesperStage::Execute && e.stage != VesperStage::Verify
            ==> before_approval(e),
        resumed(e, s) matches Ok(o) ==> before_approval(o.engine),
{
    let e1 = EngineView { stage: s.stage, task: s.task, retry: s.retry, feedback: s.feedback, ..e };
    if s.stage != VesperStage::Execute && s.stage != VesperStage::Verify {
        lemma_begin_before_approval(e1, seq![crate::machine::note(NoteOf::Resumed(s.stage, s.task))]);
    }
}

// ---------------------------------------------------------------------------
// Where processing stops
// ---------------------------------------------------------------------------

/// The stage that each point of the engine stands in; waiting for a command
/// and having stopped go with any stage.
pub open spec fn consistent(e: EngineView) -> bool {
    match e.pc {
        PcOf::AwaitCommand => true,
        PcOf::Stopped => true,
        PcOf::PipelineStart => e.stage == VesperStage::Analyze,
        PcOf::AnalyzeMemory => e.stage == VesperStage::Analyze,
        PcOf::AnalyzeLibrary(_) => e.stage == VesperStage::Analyze,
        PcOf::AnalyzePersist => e.stage == VesperStage::RiskScan,
        PcOf::RiskAi => e.stage == VesperStage::RiskScan,
        PcOf::RiskLibrary => e.stage == VesperStage::RiskScan,
        PcOf::RiskUnsafePersist => e.stage == VesperStage::Idle,
        PcOf::RiskPersist => e.stage == VesperStage::Plan,
        PcOf::PlanScript => e.stage == VesperStage::Plan,
        PcOf::PlanPersist => e.stage == VesperStage::PendingApproval,
        PcOf::RevisePlanRead(_) => e.stage == VesperStage::PendingApproval,
        PcOf::ReviseAi(_, _) => e.stage == VesperStage::PendingApproval,
        PcOf::RevisePersist => e.stage == VesperStage::PendingApproval,
        PcOf::ResumePersist(_) => e.stage == VesperStage::PendingApproval,
        PcOf::ResumeFailure => e.stage == VesperStage::PendingApproval,
        PcOf::Denying => e.stage == VesperStage::Idle,
        PcOf::Approving => e.stage == VesperStage::Execute,
        PcOf::ExecuteLibrary => e.stage == VesperStage::Execute,
        PcOf::ExecuteConfig => e.stage == VesperStage::Execute,
        PcOf::ExecuteRun => e.stage == VesperStage::Execute,
        PcOf::ExecuteFailPersist => e.stage == VesperStage::Idle,
        PcOf::ExecuteOkPersist => e.stage == VesperStage::Verify,
        PcOf::VerifyConfig => e.stage == VesperStage::Verify,
        PcOf::VerifyRun => e.stage == VesperStage::Verify,
        PcOf::VerifyFixAi(_) => e.stage == VesperStage::Verify,
        PcOf::VerifyOkPersist => e.stage == VesperStage::Idle,
        PcOf::VerifyGiveUpPersist => e.stage == VesperStage::Idle,
        PcOf::VerifyRetryPersist => e.stage == VesperStage::Execute,
    }
}

proof fn lemma_begin_consistent(e: EngineView, fx: Seq<crate::machine::EffectView>)
    ensures
        consistent(begin(e, fx).engine),
        begin(e, fx).request is NextCommand ==> (e.stage == VesperStage::Idle || e.stage
            == VesperStage::PendingApproval) && begin(e, fx).engine.stage == e.stage,
{
}

/// Every answered turn keeps each point in its stage.
pub proof fn law_turns_keep_stages_consistent(e: EngineView, ev: EventView)
    requires
        consistent(e),
        accepts(e.pc, ev),
    ensures
        consistent(transition(e, ev).engine),
{
    lemma_begin_consistent(e, Seq::empty());
}

/// Processing stops only where it should: a turn that was processing (not
/// taking a command) and ends waiting for the next command leaves the engine
/// idle or waiting for approval, or reports a state error first.
pub proof fn law_processing_stops_idle_or_awaiting_approval(
    e: EngineView,
    ev: EventView,
)
    requires
        consistent(e),
        accepts(e.pc, ev),
        !(e.pc is AwaitCommand),
        transition(e, ev).request is NextCommand,
    ensures
        ({
            let o = transition(e, ev);
            ||| o.engine.stage == VesperStage::Idle
            ||| o.engine.stage == VesperStage::PendingApproval
            ||| (o.effects.len() > 0 && o.effects[0] matches EffectOf::Log(NoteOf::StateError(_)))
        }),
{
    lemma_begin_consistent(e, Seq::empty());
}

/// The same over a whole run from a new or resumed engine: every turn of it
/// that was processing and ends waiting for the next command leaves the
/// engine idle or waiting for approval, or reports a state error first.
pub proof fn law_runs_stop_idle_or_awaiting_approval(
    e: EngineView,
    steps: Seq<EventView>,
    j: int,
)
    requires
        consistent(e),
        is_run(e, steps),
        0 <= j < steps.len(),
        !(state_at(e, steps, j).pc is AwaitCommand),
        turn_at(e, steps, j).request is NextCommand,
    ensures
        ({
            let o = turn_at(e, steps, j);
            ||| o.engine.stage == VesperStage::Idle
            ||| o.engine.stage == VesperStage::PendingApproval
            ||| (o.effects.len() > 0 && o.effects[0] matches EffectOf::Log(NoteOf::StateError(_)))
        }),
{
    lemma_consistent_along(e, steps, j);
    assert(answered_at(e, steps, j));
    law_processing_stops_idle_or_awaiting_approval(state_at(e, steps, j), steps[j]);
}

proof fn lemma_consistent_along(e: EngineView, steps: Seq<EventView>, k: int)
    requires
        consistent(e),
        is_run(e, steps),
        0 <= k <= steps.len(),
    ensures
        consistent(state_at(e, steps, k)),
    decreases k,
{
    if k > 0 {
        lemma_consistent_along(e, steps, k - 1);
        assert(answered_at(e, steps, k - 1));
        law_turns_keep_stages_consistent(state_at(e, steps, k - 1), steps[k - 1]);
    }
}

/// A new engine and an engine just resumed from a snapshot keep each point
/// in its stage.
pub proof fn law_runs_start_consistent(e: EngineView, s: SnapshotView)
    ensures
        e.pc is AwaitCommand ==> consistent(e),
        resumed(e, s) matches Ok(o) ==> consistent(o.engine),
{
    let e1 = EngineView { stage: s.stage, task: s.task, retry: s.retry, feedback: s.feedback, ..e };
    lemma_begin_consistent(e1, seq![crate::machine::note(NoteOf::Resumed(s.stage, s.task))]);
}

} // verus!

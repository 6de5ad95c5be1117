//! The engine as a state machine. The engine never performs I/O itself: each
//! turn it hands back the effects to perform (log lines, workspace files,
//! pauses) and one request whose answer is the next event it is stepped with.
//! The driver performs them and answers; every decision is taken here.
use vstd::prelude::*;
use crate::agent::{agent_args, agent_args_error, verify_args_error, AgentCommand, CommandView};
use crate::approval::{approval_of, ApprovalView};
use crate::content::{
    agent_fix_doc, ai_audit_doc, command_verified_doc, context_doc, design_tokens_doc,
    fallback_audit_doc, fallback_fix_doc, fallback_revision, fix_prompt, instruction_doc,
    interrupted_feedback, memory_doc, plan_doc, revise_prompt, risk_doc, sprocket_task,
    tauri_prompt, verified_doc,
};
use crate::json::{json_refusal, json_string_array};
use crate::skills::{
    docs_view, rule_uses, skill_text_from, uses_text, DocView, LibraryDoc, RuleHit, RuleUseOf,
    RuleUseView,
};
use crate::stage::{SkillSource, VesperStage};
use crate::text::{has_prefix, includes, lowercase, opt_view, strings_view, trimmed, uppercase, without_prefixes};

verus! {

// ---------------------------------------------------------------------------
// What the engine reports, writes, asks and is told
// ---------------------------------------------------------------------------

/// A line for the engine's log, with the values it reports.
#[derive(Debug)]
pub enum NoteOf<S, L> {
    Separator,
    StageTitle(VesperStage),
    Goal(S),
    SkillSearch(S),
    RuleScan(L),
    RuleApplied(RuleHit),
    RuleDocApplied(S),
    TauriScanStart,
    TauriAiDone,
    TauriFallback,
    TauriPass,
    RiskDanger,
    DesignTokenStart,
    DesignTokenDone,
    DotmatrixStart,
    DotmatrixOk,
    DotmatrixFailed,
    PlanReady,
    AgentFailed(S),
    VerifyStart,
    VerifyPassed,
    MissionComplete,
    VerifyFailed(u32, S),
    AnalyzerStart,
    FixPlanReady,
    GiveUp,
    Approved,
    Denied,
    ApprovalOnly,
    PlanRevised,
    PlanRevisionError(S),
    ExportStart,
    ExportDone,
    SprocketAccepted(S),
    TaskAccepted(S),
    UnknownCommand(S),
    Resumed(VesperStage, S),
    ReattachImpossible(VesperStage),
    AwaitingApproval,
    StateError(S),
}

pub type Note = NoteOf<String, Vec<String>>;

pub type NoteView = NoteOf<Seq<char>, Seq<Seq<char>>>;

impl View for NoteOf<String, Vec<String>> {
    type V = NoteView;

    open spec fn view(&self) -> NoteView {
        match self {
            NoteOf::Separator => NoteOf::Separator,
            NoteOf::StageTitle(s) => NoteOf::StageTitle(*s),
            NoteOf::Goal(t) => NoteOf::Goal(t@),
            NoteOf::SkillSearch(t) => NoteOf::SkillSearch(t@),
            NoteOf::RuleScan(l) => NoteOf::RuleScan(strings_view(l@)),
            NoteOf::RuleApplied(h) => NoteOf::RuleApplied(*h),
            NoteOf::RuleDocApplied(n) => NoteOf::RuleDocApplied(n@),
            NoteOf::TauriScanStart => NoteOf::TauriScanStart,
            NoteOf::TauriAiDone => NoteOf::TauriAiDone,
            NoteOf::TauriFallback => NoteOf::TauriFallback,
            NoteOf::TauriPass => NoteOf::TauriPass,
            NoteOf::RiskDanger => NoteOf::RiskDanger,
            NoteOf::DesignTokenStart => NoteOf::DesignTokenStart,
            NoteOf::DesignTokenDone => NoteOf::DesignTokenDone,
            NoteOf::DotmatrixStart => NoteOf::DotmatrixStart,
            NoteOf::DotmatrixOk => NoteOf::DotmatrixOk,
            NoteOf::DotmatrixFailed => NoteOf::DotmatrixFailed,
            NoteOf::PlanReady => NoteOf::PlanReady,
            NoteOf::AgentFailed(t) => NoteOf::AgentFailed(t@),
            NoteOf::VerifyStart => NoteOf::VerifyStart,
            NoteOf::VerifyPassed => NoteOf::VerifyPassed,
            NoteOf::MissionComplete => NoteOf::MissionComplete,
            NoteOf::VerifyFailed(n, t) => NoteOf::VerifyFailed(*n, t@),
            NoteOf::AnalyzerStart => NoteOf::AnalyzerStart,
            NoteOf::FixPlanReady => NoteOf::FixPlanReady,
            NoteOf::GiveUp => NoteOf::GiveUp,
            NoteOf::Approved => NoteOf::Approved,
            NoteOf::Denied => NoteOf::Denied,
            NoteOf::ApprovalOnly => NoteOf::ApprovalOnly,
            NoteOf::PlanRevised => NoteOf::PlanRevised,
            NoteOf::PlanRevisionError(t) => NoteOf::PlanRevisionError(t@),
            NoteOf::ExportStart => NoteOf::ExportStart,
            NoteOf::ExportDone => NoteOf::ExportDone,
            NoteOf::SprocketAccepted(t) => NoteOf::SprocketAccepted(t@),
            NoteOf::TaskAccepted(t) => NoteOf::TaskAccepted(t@),
            NoteOf::UnknownCommand(t) => NoteOf::UnknownCommand(t@),
            NoteOf::Resumed(s, t) => NoteOf::Resumed(*s, t@),
            NoteOf::ReattachImpossible(s) => NoteOf::ReattachImpossible(*s),
            NoteOf::AwaitingApproval => NoteOf::AwaitingApproval,
            NoteOf::StateError(t) => NoteOf::StateError(t@),
        }
    }
}

/// A document of the engine's workspace that is announced when written.
#[derive(Debug, PartialEq, Eq, Clone, Copy, Structural)]
pub enum IpcFile {
    MemoryContext,
    Context,
    Risk,
    Plan,
    Instruction,
    FixPlan,
    VerifyLog,
}

/// The file name of a workspace document.
pub open spec fn ipc_file_name(f: IpcFile) -> Seq<char> {
    match f {
        IpcFile::MemoryContext => "memory_context.md"@,
        IpcFile::Context => "context.md"@,
        IpcFile::Risk => "risk.md"@,
        IpcFile::Plan => "plan.md"@,
        IpcFile::Instruction => "instruction.md"@,
        IpcFile::FixPlan => "fix_plan.md"@,
        IpcFile::VerifyLog => "verify_log.md"@,
    }
}

impl IpcFile {
    /// The file name of the document.
    pub fn file_name(&self) -> (r: &'static str)
        ensures
            r@ == ipc_file_name(*self),
    {
        match self {
            IpcFile::MemoryContext => "memory_context.md",
            IpcFile::Context => "context.md",
            IpcFile::Risk => "risk.md",
            IpcFile::Plan => "plan.md",
            IpcFile::Instruction => "instruction.md",
            IpcFile::FixPlan => "fix_plan.md",
            IpcFile::VerifyLog => "verify_log.md",
        }
    }
}

/// A workspace file that is written without announcement.
#[derive(Debug, PartialEq, Eq, Clone, Copy, Structural)]
pub enum WorkFile {
    SecurityAudit,
    DesignTokens,
}

/// The file name of a silent workspace file.
pub open spec fn work_file_name(f: WorkFile) -> Seq<char> {
    match f {
        WorkFile::SecurityAudit => "tauri_security_audit.md"@,
        WorkFile::DesignTokens => "design_tokens.css"@,
    }
}

impl WorkFile {
    /// The file name.
    pub fn file_name(&self) -> (r: &'static str)
        ensures
            r@ == work_file_name(*self),
    {
        match self {
            WorkFile::SecurityAudit => "tauri_security_audit.md",
            WorkFile::DesignTokens => "design_tokens.css",
        }
    }
}

/// Something the driver does without answering.
#[derive(Debug)]
pub enum EffectOf<S, N> {
    /// Report a log line.
    Log(N),
    /// Write and announce a workspace document.
    WriteIpc(IpcFile, S),
    /// Write a workspace file silently.
    WriteFile(WorkFile, S),
    /// Pause for this many milliseconds.
    Sleep(u64),
    /// Write the CI workflow that [`VesperEngine::export_github_workflow`] describes.
    ExportWorkflow,
}

pub type Effect = EffectOf<String, Note>;

pub type EffectView = EffectOf<Seq<char>, NoteView>;

impl View for EffectOf<String, Note> {
    type V = EffectView;

    open spec fn view(&self) -> EffectView {
        match self {
            EffectOf::Log(n) => EffectOf::Log(n@),
            EffectOf::WriteIpc(f, s) => EffectOf::WriteIpc(*f, s@),
            EffectOf::WriteFile(f, s) => EffectOf::WriteFile(*f, s@),
            EffectOf::Sleep(ms) => EffectOf::Sleep(*ms),
            EffectOf::ExportWorkflow => EffectOf::ExportWorkflow,
        }
    }
}

/// The views of a list of effects.
pub open spec fn effects_view(s: Seq<Effect>) -> Seq<EffectView> {
    s.map_values(|x: Effect| x@)
}

/// What the engine waits for; the answer is the next event.
#[derive(Debug)]
pub enum RequestOf<S, C> {
    /// The next command (answer: `Command`).
    NextCommand,
    /// Store the engine's snapshot (answer: `Persisted`).
    Persist,
    /// Ask the memory server for the user's context (answer: `Memory`).
    FetchMemory,
    /// Read the Markdown documents of the skill library under the first
    /// directory and of the rule library under the second (answer: `Library`).
    ReadLibrary(S, S),
    /// Ask the AI service with this prompt (answer: `AiReply`).
    FetchAi(S),
    /// Read `plan.md` (answer: `PlanText`).
    ReadPlan,
    /// Run the DotMatrix Svelte script (answer: `ScriptDone`).
    RunDotmatrix,
    /// Read the configured agent program and argument template (answer: `Config`).
    AgentConfig,
    /// Read the configured verification program and argument template (answer: `Config`).
    VerifyConfig,
    /// Run this command, streaming its output (answer: `CommandDone`).
    RunCommand(C),
    /// Restoring the saved run failed with this error (answer: `Ack`).
    ResumeFailed(S),
    /// The command channel is closed: the loop ends.
    Shutdown,
}

pub type Request = RequestOf<String, AgentCommand>;

pub type RequestView = RequestOf<Seq<char>, CommandView>;

impl View for RequestOf<String, AgentCommand> {
    type V = RequestView;

    open spec fn view(&self) -> RequestView {
        match self {
            RequestOf::NextCommand => RequestOf::NextCommand,
            RequestOf::Persist => RequestOf::Persist,
            RequestOf::FetchMemory => RequestOf::FetchMemory,
            RequestOf::ReadLibrary(s, r) => RequestOf::ReadLibrary(s@, r@),
            RequestOf::FetchAi(p) => RequestOf::FetchAi(p@),
            RequestOf::ReadPlan => RequestOf::ReadPlan,
            RequestOf::RunDotmatrix => RequestOf::RunDotmatrix,
            RequestOf::AgentConfig => RequestOf::AgentConfig,
            RequestOf::VerifyConfig => RequestOf::VerifyConfig,
            RequestOf::RunCommand(c) => RequestOf::RunCommand(c@),
            RequestOf::ResumeFailed(m) => RequestOf::ResumeFailed(m@),
            RequestOf::Shutdown => RequestOf::Shutdown,
        }
    }
}

/// An answer to a request.
#[derive(Debug)]
pub enum EventOf<S, D> {
    /// A command, or `None` when no more will come.
    Command(Option<S>),
    /// The outcome of storing the snapshot.
    Persisted(Result<(), S>),
    /// The user's context.
    Memory(S),
    /// The skill documents and the rule documents of the library.
    Library(D, D),
    /// The AI service's reply, if it gave one.
    AiReply(Option<S>),
    /// The current `plan.md` (empty where it cannot be read).
    PlanText(S),
    /// Whether the script succeeded.
    ScriptDone(bool),
    /// A configured program and its JSON argument template.
    Config(S, S),
    /// The outcome of a command run.
    CommandDone(Result<(), S>),
    /// The driver has reported a failure.
    Ack,
}

pub type Event = EventOf<String, Vec<LibraryDoc>>;

pub type EventView = EventOf<Seq<char>, Seq<DocView>>;

/// The view of a unit result carrying a message.
pub open spec fn result_view(r: Result<(), String>) -> Result<(), Seq<char>> {
    match r {
        Ok(u) => Ok(u),
        Err(m) => Err(m@),
    }
}

impl View for EventOf<String, Vec<LibraryDoc>> {
    type V = EventView;

    open spec fn view(&self) -> EventView {
        match self {
            EventOf::Command(c) => EventOf::Command(opt_view(*c)),
            EventOf::Persisted(r) => EventOf::Persisted(result_view(*r)),
            EventOf::Memory(m) => EventOf::Memory(m@),
            EventOf::Library(sk, ru) => EventOf::Library(docs_view(sk@), docs_view(ru@)),
            EventOf::AiReply(r) => EventOf::AiReply(opt_view(*r)),
            EventOf::PlanText(p) => EventOf::PlanText(p@),
            EventOf::ScriptDone(b) => EventOf::ScriptDone(*b),
            EventOf::Config(p, a) => EventOf::Config(p@, a@),
            EventOf::CommandDone(r) => EventOf::CommandDone(result_view(*r)),
            EventOf::Ack => EventOf::Ack,
        }
    }
}

/// Where the engine resumes when the answer to its request arrives.
#[derive(Debug)]
pub enum PcOf<S> {
    AwaitCommand,
    Approving,
    Denying,
    RevisePlanRead(S),
    ReviseAi(S, S),
    RevisePersist,
    PipelineStart,
    AnalyzeMemory,
    AnalyzeLibrary(S),
    AnalyzePersist,
    RiskAi,
    RiskLibrary,
    RiskUnsafePersist,
    RiskPersist,
    PlanScript,
    PlanPersist,
    ExecuteLibrary,
    ExecuteConfig,
    ExecuteRun,
    ExecuteFailPersist,
    ExecuteOkPersist,
    VerifyConfig,
    VerifyRun,
    VerifyFixAi(S),
    VerifyOkPersist,
    VerifyGiveUpPersist,
    VerifyRetryPersist,
    ResumePersist(VesperStage),
    ResumeFailure,
    Stopped,
}

pub type Pc = PcOf<String>;

pub type PcView = PcOf<Seq<char>>;

impl View for PcOf<String> {
    type V = PcView;

    open spec fn view(&self) -> PcView {
        match self {
            PcOf::AwaitCommand => PcOf::AwaitCommand,
            PcOf::Approving => PcOf::Approving,
            PcOf::Denying => PcOf::Denying,
            PcOf::RevisePlanRead(f) => PcOf::RevisePlanRead(f@),
            PcOf::ReviseAi(f, p) => PcOf::ReviseAi(f@, p@),
            PcOf::RevisePersist => PcOf::RevisePersist,
            PcOf::PipelineStart => PcOf::PipelineStart,
            PcOf::AnalyzeMemory => PcOf::AnalyzeMemory,
            PcOf::AnalyzeLibrary(m) => PcOf::AnalyzeLibrary(m@),
            PcOf::AnalyzePersist => PcOf::AnalyzePersist,
            PcOf::RiskAi => PcOf::RiskAi,
            PcOf::RiskLibrary => PcOf::RiskLibrary,
            PcOf::RiskUnsafePersist => PcOf::RiskUnsafePersist,
            PcOf::RiskPersist => PcOf::RiskPersist,
            PcOf::PlanScript => PcOf::PlanScript,
            PcOf::PlanPersist => PcOf::PlanPersist,
            PcOf::ExecuteLibrary => PcOf::ExecuteLibrary,
            PcOf::ExecuteConfig => PcOf::ExecuteConfig,
            PcOf::ExecuteRun => PcOf::ExecuteRun,
            PcOf::ExecuteFailPersist => PcOf::ExecuteFailPersist,
            PcOf::ExecuteOkPersist => PcOf::ExecuteOkPersist,
            PcOf::VerifyConfig => PcOf::VerifyConfig,
            PcOf::VerifyRun => PcOf::VerifyRun,
            PcOf::VerifyFixAi(m) => PcOf::VerifyFixAi(m@),
            PcOf::VerifyOkPersist => PcOf::VerifyOkPersist,
            PcOf::VerifyGiveUpPersist => PcOf::VerifyGiveUpPersist,
            PcOf::VerifyRetryPersist => PcOf::VerifyRetryPersist,
            PcOf::ResumePersist(s) => PcOf::ResumePersist(*s),
            PcOf::ResumeFailure => PcOf::ResumeFailure,
            PcOf::Stopped => PcOf::Stopped,
        }
    }
}

/// The effects of one turn and the request that ends it.
pub struct Turn {
    pub effects: Vec<Effect>,
    pub request: Request,
}

/// The model of a [`Turn`].
pub struct TurnView {
    pub effects: Seq<EffectView>,
    pub request: RequestView,
}

impl View for Turn {
    type V = TurnView;

    open spec fn view(&self) -> TurnView {
        TurnView { effects: effects_view(self.effects@), request: self.request@ }
    }
}

// ---------------------------------------------------------------------------
// The engine and its snapshot
// ---------------------------------------------------------------------------

/// The snapshot format this engine writes and reads.
pub const SNAPSHOT_VERSION: u32 = 1;

/// What is stored of the engine after each stage change.
#[derive(Debug)]
pub struct EngineSnapshot {
    pub version: u32,
    pub stage: VesperStage,
    pub task_description: String,
    pub retry_count: u32,
    pub feedback: Option<String>,
}

/// The model of an [`EngineSnapshot`].
pub struct SnapshotView {
    pub version: u32,
    pub stage: VesperStage,
    pub task: Seq<char>,
    pub retry: u32,
    pub feedback: Option<Seq<char>>,
}

impl View for EngineSnapshot {
    type V = SnapshotView;

    open spec fn view(&self) -> SnapshotView {
        SnapshotView {
            version: self.version,
            stage: self.stage,
            task: self.task_description@,
            retry: self.retry_count,
            feedback: opt_view(self.feedback),
        }
    }
}

/// Why a snapshot cannot be resumed.
#[derive(Debug, PartialEq, Eq, Clone, Copy, Structural)]
pub enum ResumeError {
    /// The snapshot was written in another format version.
    UnsupportedVersion(u32),
    /// The snapshot holds no task in progress.
    NothingToResume,
}

/// The five-stage engine.
pub struct VesperEngine {
    pub current_stage: VesperStage,
    pub task_description: String,
    pub retry_count: u32,
    pub pending_feedback: Option<String>,
    pub workspace_dir: String,
    pub skill_source: SkillSource,
    /// The directory of the skill library.
    pub skills_dir: String,
    /// The directory of the rule library.
    pub rules_dir: String,
    /// Where the engine resumes when its pending request is answered.
    pub pc: Pc,
}

/// The model of a [`VesperEngine`].
pub struct EngineView {
    pub stage: VesperStage,
    pub task: Seq<char>,
    pub retry: u32,
    pub feedback: Option<Seq<char>>,
    pub workspace: Seq<char>,
    pub source: SkillSource,
    pub skills_dir: Seq<char>,
    pub rules_dir: Seq<char>,
    pub pc: PcView,
}

impl View for VesperEngine {
    type V = EngineView;

    open spec fn view(&self) -> EngineView {
        EngineView {
            stage: self.current_stage,
            task: self.task_description@,
            retry: self.retry_count,
            feedback: opt_view(self.pending_feedback),
            workspace: self.workspace_dir@,
            source: self.skill_source,
            skills_dir: self.skills_dir@,
            rules_dir: self.rules_dir@,
            pc: self.pc@,
        }
    }
}

/// The snapshot of an engine.
pub open spec fn snapshot_of(e: EngineView) -> SnapshotView {
    SnapshotView {
        version: SNAPSHOT_VERSION,
        stage: e.stage,
        task: e.task,
        retry: e.retry,
        feedback: e.feedback,
    }
}

/// The workflow file that `/export-ci` writes: directories, file name and
/// content.
pub struct WorkflowFile {
    pub dirs: Vec<String>,
    pub file_name: String,
    pub content: String,
}

// ---------------------------------------------------------------------------
// The transition function
// ---------------------------------------------------------------------------

/// The result of a turn: the engine after it, its effects and its request.
pub struct Outcome {
    pub engine: EngineView,
    pub effects: Seq<EffectView>,
    pub request: RequestView,
}

/// An outcome from its parts.
pub open spec fn out(e: EngineView, fx: Seq<EffectView>, req: RequestView) -> Outcome {
    Outcome { engine: e, effects: fx, request: req }
}

/// The engine, resuming at `pc`.
pub open spec fn with_pc(e: EngineView, pc: PcView) -> EngineView {
    EngineView { pc, ..e }
}

/// A log line as an effect.
pub open spec fn note(n: NoteView) -> EffectView {
    EffectOf::Log(n)
}

/// Back to the command loop.
pub open spec fn idle_out(e: EngineView, fx: Seq<EffectView>) -> Outcome {
    out(with_pc(e, PcOf::AwaitCommand), fx, RequestOf::NextCommand)
}

/// Enter `stage` and store the snapshot, continuing at `pc`.
pub open spec fn persist_out(e: EngineView, fx: Seq<EffectView>, stage: VesperStage, pc: PcView) -> Outcome {
    out(EngineView { stage, pc, ..e }, fx, RequestOf::Persist)
}

/// A task whose text asks for user-interface work.
pub open spec fn is_ui_task(task: Seq<char>) -> bool {
    let l = lowercase(task);
    includes(l, "ui"@) || includes(l, "frontend"@) || includes(l, "svelte"@)
}

/// The files whose rules the Analyze stage applies.
pub open spec fn target_files() -> Seq<Seq<char>> {
    seq!["src/App.svelte"@, "src/main.rs"@]
}

/// The log line of an applied rule.
pub open spec fn rule_note(u: RuleUseView) -> EffectView {
    match u {
        RuleUseOf::Builtin(h) => note(NoteOf::RuleApplied(h)),
        RuleUseOf::Document(n, _) => note(NoteOf::RuleDocApplied(n)),
    }
}

/// The log lines of the rules that were applied.
pub open spec fn rule_notes(uses: Seq<RuleUseView>) -> Seq<EffectView> {
    uses.map_values(|u: RuleUseView| rule_note(u))
}

/// Read the library, continuing at `pc`.
pub open spec fn library_out(e: EngineView, fx: Seq<EffectView>, pc: PcView) -> Outcome {
    out(with_pc(e, pc), fx, RequestOf::ReadLibrary(e.skills_dir, e.rules_dir))
}

/// The Plan stage's end: write the plan, ask for approval, wait for it.
pub open spec fn finish_plan(e: EngineView, fx: Seq<EffectView>) -> Outcome {
    persist_out(
        e,
        fx + seq![EffectOf::WriteIpc(IpcFile::Plan, plan_doc()), note(NoteOf::PlanReady)],
        VesperStage::PendingApproval,
        PcOf::PlanPersist,
    )
}

/// The work of the current stage, up to its first request (the staged run).
pub open spec fn begin(e: EngineView, fx: Seq<EffectView>) -> Outcome {
    match e.stage {
        VesperStage::Idle => idle_out(e, fx),
        VesperStage::PendingApproval => idle_out(e, fx),
        VesperStage::Analyze => out(
            with_pc(e, PcOf::AnalyzeMemory),
            fx + seq![
                note(NoteOf::Separator),
                note(NoteOf::StageTitle(VesperStage::Analyze)),
                note(NoteOf::Goal(e.task)),
            ],
            RequestOf::FetchMemory,
        ),
        VesperStage::RiskScan => out(
            with_pc(e, PcOf::RiskAi),
            fx + seq![
                note(NoteOf::Separator),
                note(NoteOf::StageTitle(VesperStage::RiskScan)),
                note(NoteOf::TauriScanStart),
                EffectOf::Sleep(1200),
            ],
            RequestOf::FetchAi(tauri_prompt()),
        ),
        VesperStage::Plan => {
            let fx2 = fx + seq![
                note(NoteOf::Separator),
                note(NoteOf::StageTitle(VesperStage::Plan)),
                EffectOf::Sleep(1000),
            ];
            if is_ui_task(e.task) {
                out(
                    with_pc(e, PcOf::PlanScript),
                    fx2 + seq![
                        note(NoteOf::DesignTokenStart),
                        EffectOf::Sleep(1000),
                        EffectOf::WriteFile(WorkFile::DesignTokens, design_tokens_doc()),
                        note(NoteOf::DesignTokenDone),
                        note(NoteOf::DotmatrixStart),
                    ],
                    RequestOf::RunDotmatrix,
                )
            } else {
                finish_plan(e, fx2)
            }
        },
        VesperStage::Execute => library_out(
            e,
            fx + seq![
                note(NoteOf::Separator),
                note(NoteOf::StageTitle(VesperStage::Execute)),
                note(NoteOf::SkillSearch("coding loop"@)),
                EffectOf::Sleep(500),
            ],
            PcOf::ExecuteLibrary,
        ),
        VesperStage::Verify => out(
            with_pc(e, PcOf::VerifyConfig),
            fx + seq![
                note(NoteOf::Separator),
                note(NoteOf::StageTitle(VesperStage::Verify)),
                EffectOf::Sleep(1000),
                note(NoteOf::VerifyStart),
            ],
            RequestOf::VerifyConfig,
        ),
    }
}

/// After storing a snapshot where processing stops either way.
pub open spec fn settle(e: EngineView, r: Result<(), Seq<char>>) -> Outcome {
    match r {
        Ok(_) => idle_out(e, Seq::empty()),
        Err(m) => idle_out(e, seq![note(NoteOf::StateError(m))]),
    }
}

/// After storing a snapshot where processing goes on when it was stored.
pub open spec fn advance(e: EngineView, r: Result<(), Seq<char>>) -> Outcome {
    match r {
        Ok(_) => begin(e, Seq::empty()),
        Err(m) => idle_out(e, seq![note(NoteOf::StateError(m))]),
    }
}

/// Analyze, once the memory context has arrived: the library is read for
/// the skills.
pub open spec fn analyzed(e: EngineView, memory: Seq<char>) -> Outcome {
    library_out(
        e,
        seq![
            EffectOf::WriteIpc(IpcFile::MemoryContext, memory_doc(memory)),
            note(NoteOf::SkillSearch(e.task)),
            EffectOf::Sleep(500),
        ],
        PcOf::AnalyzeLibrary(memory),
    )
}

/// Analyze, once the library has been read: the rules of the target files
/// are applied and the context written with the frontend skill.
pub open spec fn library_analyzed(
    e: EngineView,
    memory: Seq<char>,
    skills: Seq<DocView>,
    rules: Seq<DocView>,
) -> Outcome {
    let uses = rule_uses(rules, target_files());
    persist_out(
        e,
        seq![note(NoteOf::RuleScan(target_files())), EffectOf::Sleep(1000)] + rule_notes(uses)
            + seq![
            EffectOf::WriteIpc(
                IpcFile::Context,
                context_doc(
                    e.task,
                    memory,
                    skill_text_from(e.source, skills, seq!["frontend"@]),
                    uses_text(uses),
                ),
            ),
        ],
        VesperStage::RiskScan,
        PcOf::AnalyzePersist,
    )
}

/// The risk scan found a danger: stop.
pub open spec fn risk_stop(e: EngineView, fx: Seq<EffectView>) -> Outcome {
    persist_out(e, fx.push(note(NoteOf::RiskDanger)), VesperStage::Idle, PcOf::RiskUnsafePersist)
}

/// The risk scan passed: the library is read for the risk skill.
pub open spec fn risk_pass(e: EngineView, fx: Seq<EffectView>) -> Outcome {
    library_out(
        e,
        fx + seq![note(NoteOf::SkillSearch("risk scan"@)), EffectOf::Sleep(500)],
        PcOf::RiskLibrary,
    )
}

/// RiskScan, once the library has been read: write the risk report and go
/// on to Plan.
pub open spec fn risk_documented(e: EngineView, skills: Seq<DocView>) -> Outcome {
    persist_out(
        e,
        seq![EffectOf::WriteIpc(IpcFile::Risk, risk_doc(skill_text_from(e.source, skills, seq!["risk"@])))],
        VesperStage::Plan,
        PcOf::RiskPersist,
    )
}

/// Execute, once the library has been read: write the instruction with the
/// execution skill and ask for the agent's configuration.
pub open spec fn execute_documented(e: EngineView, skills: Seq<DocView>) -> Outcome {
    out(
        with_pc(e, PcOf::ExecuteConfig),
        seq![
            EffectOf::WriteIpc(
                IpcFile::Instruction,
                instruction_doc(skill_text_from(e.source, skills, seq!["execute"@]), e.retry),
            ),
        ],
        RequestOf::AgentConfig,
    )
}

/// RiskScan, once the AI assessment has arrived: a reply that names a danger
/// stops the run.
pub open spec fn risk_checked(e: EngineView, reply: Option<Seq<char>>) -> Outcome {
    match reply {
        Some(res) => {
            let fx = seq![
                note(NoteOf::TauriAiDone),
                EffectOf::WriteFile(WorkFile::SecurityAudit, ai_audit_doc(res)),
            ];
            if includes(uppercase(res), "DANGER"@) {
                risk_stop(e, fx)
            } else {
                risk_pass(e, fx.push(note(NoteOf::TauriPass)))
            }
        },
        None => risk_pass(
            e,
            seq![
                note(NoteOf::TauriFallback),
                EffectOf::WriteFile(WorkFile::SecurityAudit, fallback_audit_doc()),
                note(NoteOf::TauriPass),
            ],
        ),
    }
}

/// Plan, once the DotMatrix script has run.
pub open spec fn plan_scripted(e: EngineView, ok: bool) -> Outcome {
    finish_plan(
        e,
        seq![
            note(
                if ok {
                    NoteOf::DotmatrixOk
                } else {
                    NoteOf::DotmatrixFailed
                },
            ),
        ],
    )
}

/// The agent could not run or failed: write the fix plan and stop.
pub open spec fn execute_failed(e: EngineView, m: Seq<char>) -> Outcome {
    persist_out(
        e,
        seq![
            note(NoteOf::AgentFailed(m)),
            EffectOf::WriteIpc(IpcFile::FixPlan, agent_fix_doc(m)),
        ],
        VesperStage::Idle,
        PcOf::ExecuteFailPersist,
    )
}

/// Execute, once the agent configuration has arrived; a template that is
/// not a JSON array of strings fails the run with serde_json's message.
pub open spec fn execute_configured(
    e: EngineView,
    program: Seq<char>,
    args_json: Seq<char>,
) -> Outcome {
    match json_string_array(args_json) {
        Some(t) => out(
            with_pc(e, PcOf::ExecuteRun),
            Seq::empty(),
            RequestOf::RunCommand(
                CommandView { program, args: agent_args(t, e.task, e.retry) },
            ),
        ),
        None => execute_failed(e, agent_args_error() + json_refusal(args_json)),
    }
}

/// Execute, once the agent has run.
pub open spec fn execute_ran(e: EngineView, r: Result<(), Seq<char>>) -> Outcome {
    match r {
        Ok(_) => persist_out(e, Seq::empty(), VesperStage::Verify, PcOf::ExecuteOkPersist),
        Err(m) => execute_failed(e, m),
    }
}

/// Verification failed with `m`: count the failure and ask for a fix plan.
pub open spec fn verify_failed(e: EngineView, m: Seq<char>) -> Outcome {
    let n = (e.retry + 1) as u32;
    out(
        EngineView { retry: n, pc: PcOf::VerifyFixAi(m), ..e },
        seq![
            note(NoteOf::VerifyFailed(n, m)),
            note(NoteOf::AnalyzerStart),
            EffectOf::Sleep(1000),
        ],
        RequestOf::FetchAi(fix_prompt(m)),
    )
}

/// Verification passed: the task is done.
pub open spec fn verify_passed(e: EngineView) -> Outcome {
    persist_out(
        e,
        seq![
            EffectOf::WriteIpc(IpcFile::VerifyLog, command_verified_doc()),
            note(NoteOf::VerifyPassed),
            EffectOf::WriteIpc(IpcFile::VerifyLog, verified_doc()),
            note(NoteOf::MissionComplete),
        ],
        VesperStage::Idle,
        PcOf::VerifyOkPersist,
    )
}

/// Verify, once the verification configuration has arrived.
pub open spec fn verify_configured(
    e: EngineView,
    program: Seq<char>,
    args_json: Seq<char>,
) -> Outcome {
    match json_string_array(args_json) {
        Some(a) => out(
            with_pc(e, PcOf::VerifyRun),
            Seq::empty(),
            RequestOf::RunCommand(CommandView { program, args: a }),
        ),
        None => verify_failed(e, verify_args_error() + json_refusal(args_json)),
    }
}

/// Verify, once the verification command has run.
pub open spec fn verify_ran(e: EngineView, r: Result<(), Seq<char>>) -> Outcome {
    match r {
        Ok(_) => verify_passed(e),
        Err(m) => verify_failed(e, m),
    }
}

/// Verify, once the fix plan has arrived: back to Execute, or stop after the
/// third failure.
pub open spec fn fix_planned(e: EngineView, m: Seq<char>, reply: Option<Seq<char>>) -> Outcome {
    let plan = match reply {
        Some(p) => p,
        None => fallback_fix_doc(m),
    };
    let fx = seq![EffectOf::WriteIpc(IpcFile::FixPlan, plan), note(NoteOf::FixPlanReady)];
    if e.retry >= 3 {
        persist_out(e, fx.push(note(NoteOf::GiveUp)), VesperStage::Idle, PcOf::VerifyGiveUpPersist)
    } else {
        persist_out(e, fx, VesperStage::Execute, PcOf::VerifyRetryPersist)
    }
}

/// Start a new task: its description replaces the old one, the failure count
/// and feedback are cleared, and the run begins at Analyze.
pub open spec fn pipeline(e: EngineView, fx: Seq<EffectView>, task: Seq<char>) -> Outcome {
    persist_out(
        EngineView { task, retry: 0, feedback: None, ..e },
        fx,
        VesperStage::Analyze,
        PcOf::PipelineStart,
    )
}

/// A (trimmed) command.
pub open spec fn handle_command(e: EngineView, cmd: Seq<char>) -> Outcome {
    if e.stage == VesperStage::PendingApproval {
        match approval_of(cmd) {
            ApprovalView::Approve => persist_out(
                EngineView { feedback: None, ..e },
                seq![note(NoteOf::Approved)],
                VesperStage::Execute,
                PcOf::Approving,
            ),
            ApprovalView::Deny => persist_out(
                EngineView { feedback: None, ..e },
                seq![note(NoteOf::Denied)],
                VesperStage::Idle,
                PcOf::Denying,
            ),
            ApprovalView::Feedback(f) => if f.len() == 0 || has_prefix(f, "/"@) {
                idle_out(e, seq![note(NoteOf::ApprovalOnly)])
            } else {
                out(with_pc(e, PcOf::RevisePlanRead(f)), Seq::empty(), RequestOf::ReadPlan)
            },
        }
    } else if cmd == "/export-ci"@ {
        idle_out(
            e,
            seq![note(NoteOf::ExportStart), EffectOf::ExportWorkflow, note(NoteOf::ExportDone)],
        )
    } else if has_prefix(cmd, "/sprocket "@) {
        let d = trimmed(without_prefixes(cmd, "/sprocket "@));
        pipeline(e, seq![note(NoteOf::SprocketAccepted(d))], sprocket_task(d))
    } else if has_prefix(cmd, "/task "@) {
        let d = trimmed(without_prefixes(cmd, "/task "@));
        pipeline(e, seq![note(NoteOf::TaskAccepted(d))], d)
    } else {
        idle_out(e, seq![note(NoteOf::UnknownCommand(cmd))])
    }
}

/// A received command, or the end of the commands.
pub open spec fn command_received(e: EngineView, c: Option<Seq<char>>) -> Outcome {
    match c {
        None => out(with_pc(e, PcOf::Stopped), Seq::empty(), RequestOf::Shutdown),
        Some(raw) => handle_command(e, trimmed(raw)),
    }
}

/// Revision, once the current plan has been read.
pub open spec fn plan_read(e: EngineView, f: Seq<char>, plan: Seq<char>) -> Outcome {
    out(with_pc(e, PcOf::ReviseAi(f, plan)), Seq::empty(), RequestOf::FetchAi(revise_prompt(plan, f)))
}

/// Revision, once the AI service has answered: the revised plan is written
/// and the feedback recorded; the engine keeps waiting for approval.
pub open spec fn plan_revised(
    e: EngineView,
    f: Seq<char>,
    plan: Seq<char>,
    reply: Option<Seq<char>>,
) -> Outcome {
    let revised = match reply {
        Some(p) => p,
        None => fallback_revision(plan, f),
    };
    out(
        EngineView { feedback: Some(f), pc: PcOf::RevisePersist, ..e },
        seq![EffectOf::WriteIpc(IpcFile::Plan, revised)],
        RequestOf::Persist,
    )
}

/// Revision, once the snapshot has been stored.
pub open spec fn revision_saved(e: EngineView, r: Result<(), Seq<char>>) -> Outcome {
    match r {
        Ok(_) => idle_out(e, seq![note(NoteOf::PlanRevised)]),
        Err(m) => idle_out(e, seq![note(NoteOf::PlanRevisionError(m))]),
    }
}

/// Resuming an interrupted run, once the snapshot has been stored.
pub open spec fn resume_saved(e: EngineView, s: VesperStage, r: Result<(), Seq<char>>) -> Outcome {
    match r {
        Ok(_) => idle_out(e, seq![note(NoteOf::ReattachImpossible(s))]),
        Err(m) => out(with_pc(e, PcOf::ResumeFailure), Seq::empty(), RequestOf::ResumeFailed(m)),
    }
}

/// The pcs that wait for a stored snapshot and go on processing after it.
pub open spec fn continues_after_persist(pc: PcView) -> bool {
    ||| pc is Approving
    ||| pc is PipelineStart
    ||| pc is AnalyzePersist
    ||| pc is RiskPersist
    ||| pc is ExecuteOkPersist
    ||| pc is VerifyRetryPersist
}

/// The pcs that wait for a stored snapshot and stop processing after it.
pub open spec fn stops_after_persist(pc: PcView) -> bool {
    ||| pc is Denying
    ||| pc is RiskUnsafePersist
    ||| pc is PlanPersist
    ||| pc is ExecuteFailPersist
    ||| pc is VerifyOkPersist
    ||| pc is VerifyGiveUpPersist
}

/// The events the engine accepts where it stands.
pub open spec fn accepts(pc: PcView, ev: EventView) -> bool {
    match pc {
        PcOf::AwaitCommand => ev is Command,
        PcOf::RevisePlanRead(_) => ev is PlanText,
        PcOf::ReviseAi(_, _) => ev is AiReply,
        PcOf::RevisePersist => ev is Persisted,
        PcOf::AnalyzeMemory => ev is Memory,
        PcOf::AnalyzeLibrary(_) => ev is Library,
        PcOf::RiskLibrary => ev is Library,
        PcOf::ExecuteLibrary => ev is Library,
        PcOf::RiskAi => ev is AiReply,
        PcOf::PlanScript => ev is ScriptDone,
        PcOf::ExecuteConfig => ev is Config,
        PcOf::ExecuteRun => ev is CommandDone,
        PcOf::VerifyConfig => ev is Config,
        PcOf::VerifyRun => ev is CommandDone,
        PcOf::VerifyFixAi(_) => ev is AiReply,
        PcOf::ResumePersist(_) => ev is Persisted,
        PcOf::ResumeFailure => ev is Ack,
        PcOf::Stopped => false,
        _ => ev is Persisted,
    }
}

/// Counting one more verification failure would overflow the counter.
pub open spec fn step_overflows(e: EngineView, ev: EventView) -> bool {
    &&& e.retry == u32::MAX
    &&& match (e.pc, ev) {
        (PcOf::VerifyRun, EventOf::CommandDone(Err(_))) => true,
        (PcOf::VerifyConfig, EventOf::Config(_, a)) => json_string_array(a) is None,
        _ => false,
    }
}

/// One turn: what the engine does with the answer `ev` to its request.
pub open spec fn transition(e: EngineView, ev: EventView) -> Outcome {
    match (e.pc, ev) {
        (PcOf::AwaitCommand, EventOf::Command(c)) => command_received(e, c),
        (PcOf::RevisePlanRead(f), EventOf::PlanText(p)) => plan_read(e, f, p),
        (PcOf::ReviseAi(f, p), EventOf::AiReply(r)) => plan_revised(e, f, p, r),
        (PcOf::RevisePersist, EventOf::Persisted(r)) => revision_saved(e, r),
        (PcOf::AnalyzeMemory, EventOf::Memory(m)) => analyzed(e, m),
        (PcOf::AnalyzeLibrary(m), EventOf::Library(sk, ru)) => library_analyzed(e, m, sk, ru),
        (PcOf::RiskLibrary, EventOf::Library(sk, _)) => risk_documented(e, sk),
        (PcOf::ExecuteLibrary, EventOf::Library(sk, _)) => execute_documented(e, sk),
        (PcOf::RiskAi, EventOf::AiReply(r)) => risk_checked(e, r),
        (PcOf::PlanScript, EventOf::ScriptDone(ok)) => plan_scripted(e, ok),
        (PcOf::ExecuteConfig, EventOf::Config(p, a)) => execute_configured(e, p, a),
        (PcOf::ExecuteRun, EventOf::CommandDone(r)) => execute_ran(e, r),
        (PcOf::VerifyConfig, EventOf::Config(p, a)) => verify_configured(e, p, a),
        (PcOf::VerifyRun, EventOf::CommandDone(r)) => verify_ran(e, r),
        (PcOf::VerifyFixAi(m), EventOf::AiReply(r)) => fix_planned(e, m, r),
        (PcOf::ResumePersist(s), EventOf::Persisted(r)) => resume_saved(e, s, r),
        (PcOf::ResumeFailure, EventOf::Ack) => idle_out(e, Seq::empty()),
        (pc, EventOf::Persisted(r)) => if continues_after_persist(pc) {
            advance(e, r)
        } else {
            settle(e, r)
        },
        _ => out(e, Seq::empty(), RequestOf::NextCommand),
    }
}

/// Restoring a snapshot: refused where it was written in another format or
/// holds no task in progress. A run interrupted in Execute or Verify, whose
/// outside process cannot be rejoined, waits for approval again; a plan that
/// waited for approval still waits; any earlier stage is run again from its
/// start.
pub open spec fn resumed(e: EngineView, s: SnapshotView) -> Result<Outcome, ResumeError> {
    if s.version != SNAPSHOT_VERSION {
        Err(ResumeError::UnsupportedVersion(s.version))
    } else if s.stage == VesperStage::Idle {
        Err(ResumeError::NothingToResume)
    } else {
        let e1 = EngineView {
            stage: s.stage,
            task: s.task,
            retry: s.retry,
            feedback: s.feedback,
            ..e
        };
        let fx = seq![note(NoteOf::Resumed(s.stage, s.task))];
        if s.stage == VesperStage::Execute || s.stage == VesperStage::Verify {
            Ok(
                persist_out(
                    EngineView { feedback: Some(interrupted_feedback(s.stage)), ..e1 },
                    fx,
                    VesperStage::PendingApproval,
                    PcOf::ResumePersist(s.stage),
                ),
            )
        } else if s.stage == VesperStage::PendingApproval {
            Ok(idle_out(e1, fx.push(note(NoteOf::AwaitingApproval))))
        } else {
            Ok(begin(e1, fx))
        }
    }
}

} // verus!

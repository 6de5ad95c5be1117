//! The engine's executable turns, each proved to do what the transition
//! function in `machine` says.
use vstd::prelude::*;
use crate::agent::{agent_command, verify_command};
use crate::approval::{parse_approval, ApprovalDecision};
use crate::content::{
    build_agent_fix_doc, build_ai_audit_doc, build_command_verified_doc, build_context_doc,
    build_design_tokens_doc, build_fallback_audit_doc, build_fallback_fix_doc,
    build_fallback_revision, build_fix_prompt, build_instruction_doc, build_interrupted_feedback,
    build_memory_doc, build_plan_doc, build_revise_prompt, build_risk_doc, build_sprocket_task,
    build_tauri_prompt, build_verified_doc, build_workflow_doc, workflow_doc,
};
use crate::machine::{
    accepts, advance, analyzed, begin, command_received, effects_view, execute_configured,
    execute_documented, library_analyzed, risk_documented, rule_note, rule_notes, with_pc,
    execute_failed, execute_ran, finish_plan, fix_planned, handle_command, is_ui_task, note,
    pipeline, plan_scripted, resumed, risk_checked, risk_pass, settle, snapshot_of,
    step_overflows, target_files, transition, verify_configured, verify_failed, verify_passed,
    verify_ran, Effect, EffectOf, EngineSnapshot, EngineView, Event, EventOf, IpcFile, Note,
    NoteOf, Outcome, PcOf, Request, RequestOf, ResumeError, Turn, VesperEngine, WorkFile,
    WorkflowFile, SNAPSHOT_VERSION,
};
use crate::skills::{fetch_auto_rules, fetch_skill, uses_view, LibraryDoc, RuleUseOf};
use crate::stage::{SkillSource, VesperStage};
use crate::text::{copy_str, opt_view, strings_view};

verus! {

/// The engine, its effects and its request are those of the outcome.
pub open spec fn realizes(
    e: EngineView,
    fx: Seq<crate::machine::EffectView>,
    req: crate::machine::RequestView,
    o: Outcome,
) -> bool {
    &&& e == o.engine
    &&& fx =~= o.effects
    &&& req == o.request
}

fn emit(fx: &mut Vec<Effect>, e: Effect)
    ensures
        effects_view(final(fx)@) == effects_view(old(fx)@).push(e@),
{
    let ghost before = effects_view(fx@);
    fx.push(e);
    assert(effects_view(fx@) =~= before.push(e@));
}

fn log(fx: &mut Vec<Effect>, n: Note)
    ensures
        effects_view(final(fx)@) == effects_view(old(fx)@).push(note(n@)),
{
    emit(fx, EffectOf::Log(n));
}

fn is_ui(task: &str) -> (r: bool)
    ensures
        r == is_ui_task(task@),
{
    let l = crate::text::to_lowercase(task);
    crate::text::contains(l.as_str(), "ui") || crate::text::contains(l.as_str(), "frontend")
        || crate::text::contains(l.as_str(), "svelte")
}

fn tag_list(tag: &str) -> (r: Vec<String>)
    ensures
        strings_view(r@) == seq![tag@],
{
    let v = vec![copy_str(tag)];
    assert(strings_view(v@) =~= seq![tag@]);
    v
}

impl VesperEngine {
    /// A new engine: idle, with no task, in the `.vesper` workspace, with the
    /// rule and skill libraries under the given directories and both fixed
    /// skill sources, waiting for a command.
    pub fn new(rules_dir: String, skills_dir: String) -> (e: VesperEngine)
        ensures
            e@ == (EngineView {
                stage: VesperStage::Idle,
                task: Seq::empty(),
                retry: 0,
                feedback: None,
                workspace: ".vesper"@,
                source: SkillSource::Hybrid,
                skills_dir: skills_dir@,
                rules_dir: rules_dir@,
                pc: PcOf::AwaitCommand,
            }),
    {
        VesperEngine {
            current_stage: VesperStage::Idle,
            task_description: String::new(),
            retry_count: 0,
            pending_feedback: None,
            workspace_dir: copy_str(".vesper"),
            skill_source: SkillSource::Hybrid,
            skills_dir,
            rules_dir,
            pc: PcOf::AwaitCommand,
        }
    }

    /// What is stored of the engine.
    pub fn snapshot(&self) -> (s: EngineSnapshot)
        ensures
            s@ == snapshot_of(self@),
    {
        EngineSnapshot {
            version: SNAPSHOT_VERSION,
            stage: self.current_stage,
            task_description: self.task_description.clone(),
            retry_count: self.retry_count,
            feedback: match &self.pending_feedback {
                Some(f) => Some(f.clone()),
                None => None,
            },
        }
    }

    /// The CI workflow that `/export-ci` writes: `.github/workflows/vesper-agent.yml`.
    pub fn export_github_workflow(&self) -> (w: WorkflowFile)
        ensures
            strings_view(w.dirs@) == seq![".github"@, "workflows"@],
            w.file_name@ == "vesper-agent.yml"@,
            w.content@ == workflow_doc(),
    {
        let dirs = vec![copy_str(".github"), copy_str("workflows")];
        assert(strings_view(dirs@) =~= seq![".github"@, "workflows"@]);
        WorkflowFile {
            dirs,
            file_name: copy_str("vesper-agent.yml"),
            content: build_workflow_doc(),
        }
    }

    fn to_idle(&mut self) -> (req: Request)
        ensures
            final(self)@ == (EngineView { pc: PcOf::AwaitCommand, ..old(self)@ }),
            req@ == RequestOf::<Seq<char>, crate::agent::CommandView>::NextCommand,
    {
        self.pc = PcOf::AwaitCommand;
        RequestOf::NextCommand
    }

    fn persist_to(&mut self, stage: VesperStage, pc: crate::machine::Pc) -> (req: Request)
        ensures
            final(self)@ == (EngineView { stage, pc: pc@, ..old(self)@ }),
            req@ == RequestOf::<Seq<char>, crate::agent::CommandView>::Persist,
    {
        self.current_stage = stage;
        self.pc = pc;
        RequestOf::Persist
    }

    fn read_library(&mut self, pc: crate::machine::Pc) -> (req: Request)
        ensures
            final(self)@ == with_pc(old(self)@, pc@),
            req@ == RequestOf::<Seq<char>, crate::agent::CommandView>::ReadLibrary(
                old(self)@.skills_dir,
                old(self)@.rules_dir,
            ),
    {
        self.pc = pc;
        RequestOf::ReadLibrary(self.skills_dir.clone(), self.rules_dir.clone())
    }

    fn finish_plan(&mut self, fx: &mut Vec<Effect>) -> (req: Request)
        ensures
            realizes(
                final(self)@,
                effects_view(final(fx)@),
                req@,
                finish_plan(old(self)@, effects_view(old(fx)@)),
            ),
    {
        emit(fx, EffectOf::WriteIpc(IpcFile::Plan, build_plan_doc()));
        log(fx, NoteOf::PlanReady);
        self.persist_to(VesperStage::PendingApproval, PcOf::PlanPersist)
    }

    fn begin(&mut self, fx: &mut Vec<Effect>) -> (req: Request)
        ensures
            realizes(
                final(self)@,
                effects_view(final(fx)@),
                req@,
                begin(old(self)@, effects_view(old(fx)@)),
            ),
    {
        match self.current_stage {
            VesperStage::Idle => self.to_idle(),
            VesperStage::PendingApproval => self.to_idle(),
            VesperStage::Analyze => {
                log(fx, NoteOf::Separator);
                log(fx, NoteOf::StageTitle(VesperStage::Analyze));
                log(fx, NoteOf::Goal(self.task_description.clone()));
                self.pc = PcOf::AnalyzeMemory;
                RequestOf::FetchMemory
            },
            VesperStage::RiskScan => {
                log(fx, NoteOf::Separator);
                log(fx, NoteOf::StageTitle(VesperStage::RiskScan));
                log(fx, NoteOf::TauriScanStart);
                emit(fx, EffectOf::Sleep(1200));
                self.pc = PcOf::RiskAi;
                RequestOf::FetchAi(build_tauri_prompt())
            },
            VesperStage::Plan => {
                log(fx, NoteOf::Separator);
                log(fx, NoteOf::StageTitle(VesperStage::Plan));
                emit(fx, EffectOf::Sleep(1000));
                if is_ui(self.task_description.as_str()) {
                    log(fx, NoteOf::DesignTokenStart);
                    emit(fx, EffectOf::Sleep(1000));
                    emit(fx, EffectOf::WriteFile(WorkFile::DesignTokens, build_design_tokens_doc()));
                    log(fx, NoteOf::DesignTokenDone);
                    log(fx, NoteOf::DotmatrixStart);
                    self.pc = PcOf::PlanScript;
                    RequestOf::RunDotmatrix
                } else {
                    self.finish_plan(fx)
                }
            },
            VesperStage::Execute => {
                log(fx, NoteOf::Separator);
                log(fx, NoteOf::StageTitle(VesperStage::Execute));
                log(fx, NoteOf::SkillSearch(copy_str("coding loop")));
                emit(fx, EffectOf::Sleep(500));
                self.read_library(PcOf::ExecuteLibrary)
            },
            VesperStage::Verify => {
                log(fx, NoteOf::Separator);
                log(fx, NoteOf::StageTitle(VesperStage::Verify));
                emit(fx, EffectOf::Sleep(1000));
                log(fx, NoteOf::VerifyStart);
                self.pc = PcOf::VerifyConfig;
                RequestOf::VerifyConfig
            },
        }
    }

    fn settle(&mut self, r: Result<(), String>, fx: &mut Vec<Effect>) -> (req: Request)
        requires
            old(fx)@.len() == 0,
        ensures
            realizes(
                final(self)@,
                effects_view(final(fx)@),
                req@,
                settle(old(self)@, crate::machine::result_view(r)),
            ),
    {
        if let Err(m) = r {
            log(fx, NoteOf::StateError(m));
        }
        self.to_idle()
    }

    fn advance(&mut self, r: Result<(), String>, fx: &mut Vec<Effect>) -> (req: Request)
        requires
            old(fx)@.len() == 0,
        ensures
            realizes(
                final(self)@,
                effects_view(final(fx)@),
                req@,
                advance(old(self)@, crate::machine::result_view(r)),
            ),
    {
        match r {
            Err(m) => {
                log(fx, NoteOf::StateError(m));
                self.to_idle()
            },
            Ok(()) => {
                assert(effects_view(fx@) =~= Seq::<crate::machine::EffectView>::empty());
                self.begin(fx)
            },
        }
    }

    fn analyzed(&mut self, memory: String, fx: &mut Vec<Effect>) -> (req: Request)
        requires
            old(fx)@.len() == 0,
        ensures
            realizes(
                final(self)@,
                effects_view(final(fx)@),
                req@,
                analyzed(old(self)@, memory@),
            ),
    {
        emit(fx, EffectOf::WriteIpc(IpcFile::MemoryContext, build_memory_doc(memory.as_str())));
        log(fx, NoteOf::SkillSearch(self.task_description.clone()));
        emit(fx, EffectOf::Sleep(500));
        self.read_library(PcOf::AnalyzeLibrary(memory))
    }

    fn library_analyzed(
        &mut self,
        memory: String,
        skills: &Vec<LibraryDoc>,
        rule_docs: &Vec<LibraryDoc>,
        fx: &mut Vec<Effect>,
    ) -> (req: Request)
        requires
            old(fx)@.len() == 0,
        ensures
            realizes(
                final(self)@,
                effects_view(final(fx)@),
                req@,
                library_analyzed(
                    old(self)@,
                    memory@,
                    crate::skills::docs_view(skills@),
                    crate::skills::docs_view(rule_docs@),
                ),
            ),
    {
        let tags = tag_list("frontend");
        let skill = fetch_skill(self.skill_source, skills, &tags);
        let files = vec![copy_str("src/App.svelte"), copy_str("src/main.rs")];
        assert(strings_view(files@) =~= target_files());
        let shown = vec![copy_str("src/App.svelte"), copy_str("src/main.rs")];
        assert(strings_view(shown@) =~= target_files());
        log(fx, NoteOf::RuleScan(shown));
        emit(fx, EffectOf::Sleep(1000));
        let rules = fetch_auto_rules(rule_docs, &files);
        let ghost uv = uses_view(rules.uses@);
        let ghost head = effects_view(fx@);
        let mut i: usize = 0;
        while i < rules.uses.len()
            invariant
                i <= rules.uses@.len(),
                uv == uses_view(rules.uses@),
                effects_view(fx@) =~= head + rule_notes(uv.take(i as int)),
            decreases rules.uses.len() - i,
        {
            let n = match &rules.uses[i] {
                RuleUseOf::Builtin(h) => NoteOf::RuleApplied(*h),
                RuleUseOf::Document(name, _) => NoteOf::RuleDocApplied(name.clone()),
            };
            assert(note(n@) == rule_note(uv[i as int]));
            log(fx, n);
            assert(uv.take(i + 1) =~= uv.take(i as int).push(uv[i as int]));
            i = i + 1;
        }
        assert(uv.take(uv.len() as int) =~= uv);
        emit(
            fx,
            EffectOf::WriteIpc(
                IpcFile::Context,
                build_context_doc(
                    self.task_description.as_str(),
                    memory.as_str(),
                    skill.as_str(),
                    rules.text.as_str(),
                ),
            ),
        );
        self.persist_to(VesperStage::RiskScan, PcOf::AnalyzePersist)
    }

    fn risk_pass(&mut self, fx: &mut Vec<Effect>) -> (req: Request)
        ensures
            realizes(
                final(self)@,
                effects_view(final(fx)@),
                req@,
                risk_pass(old(self)@, effects_view(old(fx)@)),
            ),
    {
        log(fx, NoteOf::SkillSearch(copy_str("risk scan")));
        emit(fx, EffectOf::Sleep(500));
        self.read_library(PcOf::RiskLibrary)
    }

    fn risk_documented(&mut self, skills: &Vec<LibraryDoc>, fx: &mut Vec<Effect>) -> (req: Request)
        requires
            old(fx)@.len() == 0,
        ensures
            realizes(
                final(self)@,
                effects_view(final(fx)@),
                req@,
                risk_documented(old(self)@, crate::skills::docs_view(skills@)),
            ),
    {
        let tags = tag_list("risk");
        let skill = fetch_skill(self.skill_source, skills, &tags);
        emit(fx, EffectOf::WriteIpc(IpcFile::Risk, build_risk_doc(skill.as_str())));
        self.persist_to(VesperStage::Plan, PcOf::RiskPersist)
    }

    fn execute_documented(&mut self, skills: &Vec<LibraryDoc>, fx: &mut Vec<Effect>) -> (req: Request)
        requires
            old(fx)@.len() == 0,
        ensures
            realizes(
                final(self)@,
                effects_view(final(fx)@),
                req@,
                execute_documented(old(self)@, crate::skills::docs_view(skills@)),
            ),
    {
        let tags = tag_list("execute");
        let skill = fetch_skill(self.skill_source, skills, &tags);
        emit(
            fx,
            EffectOf::WriteIpc(
                IpcFile::Instruction,
                build_instruction_doc(skill.as_str(), self.retry_count),
            ),
        );
        self.pc = PcOf::ExecuteConfig;
        RequestOf::AgentConfig
    }

    fn risk_checked(&mut self, reply: Option<String>, fx: &mut Vec<Effect>) -> (req: Request)
        requires
            old(fx)@.len() == 0,
        ensures
            realizes(
                final(self)@,
                effects_view(final(fx)@),
                req@,
                risk_checked(old(self)@, opt_view(reply)),
            ),
    {
        match reply {
            Some(res) => {
                log(fx, NoteOf::TauriAiDone);
                emit(fx, EffectOf::WriteFile(WorkFile::SecurityAudit, build_ai_audit_doc(res.as_str())));
                let upper = crate::text::to_uppercase(res.as_str());
                if crate::text::contains(upper.as_str(), "DANGER") {
                    log(fx, NoteOf::RiskDanger);
                    self.persist_to(VesperStage::Idle, PcOf::RiskUnsafePersist)
                } else {
                    log(fx, NoteOf::TauriPass);
                    self.risk_pass(fx)
                }
            },
            None => {
                log(fx, NoteOf::TauriFallback);
                emit(fx, EffectOf::WriteFile(WorkFile::SecurityAudit, build_fallback_audit_doc()));
                log(fx, NoteOf::TauriPass);
                self.risk_pass(fx)
            },
        }
    }

    fn plan_scripted(&mut self, ok: bool, fx: &mut Vec<Effect>) -> (req: Request)
        requires
            old(fx)@.len() == 0,
        ensures
            realizes(final(self)@, effects_view(final(fx)@), req@, plan_scripted(old(self)@, ok)),
    {
        if ok {
            log(fx, NoteOf::DotmatrixOk);
        } else {
            log(fx, NoteOf::DotmatrixFailed);
        }
        self.finish_plan(fx)
    }

    fn execute_failed(&mut self, m: String, fx: &mut Vec<Effect>) -> (req: Request)
        requires
            old(fx)@.len() == 0,
        ensures
            realizes(final(self)@, effects_view(final(fx)@), req@, execute_failed(old(self)@, m@)),
    {
        let doc = build_agent_fix_doc(m.as_str());
        log(fx, NoteOf::AgentFailed(m));
        emit(fx, EffectOf::WriteIpc(IpcFile::FixPlan, doc));
        self.persist_to(VesperStage::Idle, PcOf::ExecuteFailPersist)
    }

    fn execute_configured(&mut self, program: String, args_json: String, fx: &mut Vec<Effect>) -> (req: Request)
        requires
            old(fx)@.len() == 0,
        ensures
            realizes(
                final(self)@,
                effects_view(final(fx)@),
                req@,
                execute_configured(old(self)@, program@, args_json@),
            ),
    {
        match agent_command(program, args_json.as_str(), self.task_description.as_str(), self.retry_count) {
            Ok(c) => {
                self.pc = PcOf::ExecuteRun;
                let req = RequestOf::RunCommand(c);
                req
            },
            Err(m) => {
                self.execute_failed(m, fx)
            },
        }
    }

    fn execute_ran(&mut self, r: Result<(), String>, fx: &mut Vec<Effect>) -> (req: Request)
        requires
            old(fx)@.len() == 0,
        ensures
            realizes(
                final(self)@,
                effects_view(final(fx)@),
                req@,
                execute_ran(old(self)@, crate::machine::result_view(r)),
            ),
    {
        match r {
            Ok(()) => {
                assert(effects_view(fx@) =~= Seq::<crate::machine::EffectView>::empty());
                self.persist_to(VesperStage::Verify, PcOf::ExecuteOkPersist)
            },
            Err(m) => self.execute_failed(m, fx),
        }
    }

    fn verify_failed(&mut self, m: String, fx: &mut Vec<Effect>) -> (req: Request)
        requires
            old(fx)@.len() == 0,
            old(self).retry_count < u32::MAX,
        ensures
            realizes(final(self)@, effects_view(final(fx)@), req@, verify_failed(old(self)@, m@)),
    {
        self.retry_count = self.retry_count + 1;
        let prompt = build_fix_prompt(m.as_str());
        log(fx, NoteOf::VerifyFailed(self.retry_count, m.clone()));
        log(fx, NoteOf::AnalyzerStart);
        emit(fx, EffectOf::Sleep(1000));
        self.pc = PcOf::VerifyFixAi(m);
        RequestOf::FetchAi(prompt)
    }

    fn verify_passed(&mut self, fx: &mut Vec<Effect>) -> (req: Request)
        requires
            old(fx)@.len() == 0,
        ensures
            realizes(final(self)@, effects_view(final(fx)@), req@, verify_passed(old(self)@)),
    {
        emit(fx, EffectOf::WriteIpc(IpcFile::VerifyLog, build_command_verified_doc()));
        log(fx, NoteOf::VerifyPassed);
        emit(fx, EffectOf::WriteIpc(IpcFile::VerifyLog, build_verified_doc()));
        log(fx, NoteOf::MissionComplete);
        self.persist_to(VesperStage::Idle, PcOf::VerifyOkPersist)
    }

    fn verify_configured(&mut self, program: String, args_json: String, fx: &mut Vec<Effect>) -> (req: Request)
        requires
            old(fx)@.len() == 0,
            crate::json::json_string_array(args_json@) is None ==> old(self).retry_count < u32::MAX,
        ensures
            realizes(
                final(self)@,
                effects_view(final(fx)@),
                req@,
                verify_configured(old(self)@, program@, args_json@),
            ),
    {
        match verify_command(program, args_json.as_str()) {
            Ok(c) => {
                self.pc = PcOf::VerifyRun;
                let req = RequestOf::RunCommand(c);
                req
            },
            Err(m) => {
                self.verify_failed(m, fx)
            },
        }
    }

    fn verify_ran(&mut self, r: Result<(), String>, fx: &mut Vec<Effect>) -> (req: Request)
        requires
            old(fx)@.len() == 0,
            r is Err ==> old(self).retry_count < u32::MAX,
        ensures
            realizes(
                final(self)@,
                effects_view(final(fx)@),
                req@,
                verify_ran(old(self)@, crate::machine::result_view(r)),
            ),
    {
        match r {
            Ok(()) => self.verify_passed(fx),
            Err(m) => self.verify_failed(m, fx),
        }
    }

    fn fix_planned(&mut self, m: String, reply: Option<String>, fx: &mut Vec<Effect>) -> (req: Request)
        requires
            old(fx)@.len() == 0,
        ensures
            realizes(
                final(self)@,
                effects_view(final(fx)@),
                req@,
                fix_planned(old(self)@, m@, opt_view(reply)),
            ),
    {
        let plan = match reply {
            Some(p) => p,
            None => build_fallback_fix_doc(m.as_str()),
        };
        emit(fx, EffectOf::WriteIpc(IpcFile::FixPlan, plan));
        log(fx, NoteOf::FixPlanReady);
        if self.retry_count >= 3 {
            log(fx, NoteOf::GiveUp);
            self.persist_to(VesperStage::Idle, PcOf::VerifyGiveUpPersist)
        } else {
            self.persist_to(VesperStage::Execute, PcOf::VerifyRetryPersist)
        }
    }

    fn start_pipeline(&mut self, task: String, fx: &mut Vec<Effect>) -> (req: Request)
        ensures
            realizes(
                final(self)@,
                effects_view(final(fx)@),
                req@,
                pipeline(old(self)@, effects_view(old(fx)@), task@),
            ),
    {
        self.task_description = task;
        self.retry_count = 0;
        self.pending_feedback = None;
        self.persist_to(VesperStage::Analyze, PcOf::PipelineStart)
    }

    /// Starts a new task from Analyze: the description replaces the old one,
    /// the failure count and the feedback are cleared, and the snapshot is to
    /// be stored.
    pub fn run_pipeline(&mut self, task: &str) -> (t: Turn)
        ensures
            realizes(final(self)@, t@.effects, t@.request, pipeline(old(self)@, Seq::empty(), task@)),
    {
        let mut fx: Vec<Effect> = Vec::new();
        let request = self.start_pipeline(copy_str(task), &mut fx);
        Turn { effects: fx, request }
    }

    fn handle_command(&mut self, cmd: String, fx: &mut Vec<Effect>) -> (req: Request)
        requires
            old(fx)@.len() == 0,
        ensures
            realizes(final(self)@, effects_view(final(fx)@), req@, handle_command(old(self)@, cmd@)),
    {
        if self.current_stage == VesperStage::PendingApproval {
            match parse_approval(cmd.as_str()) {
                ApprovalDecision::Approve => {
                    log(fx, NoteOf::Approved);
                    self.pending_feedback = None;
                    self.persist_to(VesperStage::Execute, PcOf::Approving)
                },
                ApprovalDecision::Deny => {
                    log(fx, NoteOf::Denied);
                    self.pending_feedback = None;
                    self.persist_to(VesperStage::Idle, PcOf::Denying)
                },
                ApprovalDecision::Feedback(f) => {
                    if f.as_str().is_empty() || crate::text::starts_with(f.as_str(), "/") {
                        log(fx, NoteOf::ApprovalOnly);
                        self.to_idle()
                    } else {
                        self.pc = PcOf::RevisePlanRead(f);
                        RequestOf::ReadPlan
                    }
                },
            }
        } else if crate::text::str_eq(cmd.as_str(), "/export-ci") {
            log(fx, NoteOf::ExportStart);
            emit(fx, EffectOf::ExportWorkflow);
            log(fx, NoteOf::ExportDone);
            self.to_idle()
        } else if crate::text::starts_with(cmd.as_str(), "/sprocket ") {
            let rest = crate::text::trim_start_matches(cmd.as_str(), "/sprocket ");
            let d = crate::text::trim(rest.as_str());
            let task = build_sprocket_task(d.as_str());
            log(fx, NoteOf::SprocketAccepted(d));
            self.start_pipeline(task, fx)
        } else if crate::text::starts_with(cmd.as_str(), "/task ") {
            let rest = crate::text::trim_start_matches(cmd.as_str(), "/task ");
            let d = crate::text::trim(rest.as_str());
            log(fx, NoteOf::TaskAccepted(d.clone()));
            self.start_pipeline(d, fx)
        } else {
            log(fx, NoteOf::UnknownCommand(cmd));
            self.to_idle()
        }
    }

    /// One turn of the command loop: a received command, or `None` when no
    /// more commands will come.
    pub fn run_loop(&mut self, command: Option<String>) -> (t: Turn)
        requires
            old(self).pc is AwaitCommand,
        ensures
            realizes(final(self)@, t@.effects, t@.request, command_received(old(self)@, opt_view(command))),
    {
        let mut fx: Vec<Effect> = Vec::new();
        let request = match command {
            None => {
                self.pc = PcOf::Stopped;
                RequestOf::Shutdown
            },
            Some(raw) => {
                let cmd = crate::text::trim(raw.as_str());
                self.handle_command(cmd, &mut fx)
            },
        };
        Turn { effects: fx, request }
    }

    /// Restores a stored snapshot: refused where it was written in another
    /// format or holds no task in progress; otherwise the engine takes its
    /// stage, task, failure count and feedback and goes on as `resumed` says.
    pub fn resume(&mut self, snapshot: EngineSnapshot) -> (r: Result<Turn, ResumeError>)
        ensures
            match resumed(old(self)@, snapshot@) {
                Ok(o) => r matches Ok(t) && realizes(final(self)@, t@.effects, t@.request, o),
                Err(err) => r == Err::<Turn, ResumeError>(err) && final(self)@ == old(self)@,
            },
    {
        if snapshot.version != SNAPSHOT_VERSION {
            return Err(ResumeError::UnsupportedVersion(snapshot.version));
        }
        if snapshot.stage == VesperStage::Idle {
            return Err(ResumeError::NothingToResume);
        }
        let stage = snapshot.stage;
        let mut fx: Vec<Effect> = Vec::new();
        log(&mut fx, NoteOf::Resumed(stage, snapshot.task_description.clone()));
        self.current_stage = stage;
        self.task_description = snapshot.task_description;
        self.retry_count = snapshot.retry_count;
        self.pending_feedback = snapshot.feedback;
        let request = if stage == VesperStage::Execute || stage == VesperStage::Verify {
            self.pending_feedback = Some(build_interrupted_feedback(stage));
            self.persist_to(VesperStage::PendingApproval, PcOf::ResumePersist(stage))
        } else if stage == VesperStage::PendingApproval {
            log(&mut fx, NoteOf::AwaitingApproval);
            self.to_idle()
        } else {
            self.begin(&mut fx)
        };
        Ok(Turn { effects: fx, request })
    }

    /// Whether the engine accepts `event` as the answer to its request.
    pub fn accepts(&self, event: &Event) -> (r: bool)
        ensures
            r == accepts(self@.pc, event@),
    {
        match (&self.pc, event) {
            (PcOf::AwaitCommand, EventOf::Command(_)) => true,
            (PcOf::RevisePlanRead(_), EventOf::PlanText(_)) => true,
            (PcOf::ReviseAi(_, _), EventOf::AiReply(_)) => true,
            (PcOf::AnalyzeMemory, EventOf::Memory(_)) => true,
            (PcOf::AnalyzeLibrary(_), EventOf::Library(_, _)) => true,
            (PcOf::RiskLibrary, EventOf::Library(_, _)) => true,
            (PcOf::ExecuteLibrary, EventOf::Library(_, _)) => true,
            (PcOf::RiskAi, EventOf::AiReply(_)) => true,
            (PcOf::PlanScript, EventOf::ScriptDone(_)) => true,
            (PcOf::ExecuteConfig, EventOf::Config(_, _)) => true,
            (PcOf::ExecuteRun, EventOf::CommandDone(_)) => true,
            (PcOf::VerifyConfig, EventOf::Config(_, _)) => true,
            (PcOf::VerifyRun, EventOf::CommandDone(_)) => true,
            (PcOf::VerifyFixAi(_), EventOf::AiReply(_)) => true,
            (PcOf::ResumeFailure, EventOf::Ack) => true,
            (PcOf::AwaitCommand, _) => false,
            (PcOf::RevisePlanRead(_), _) => false,
            (PcOf::ReviseAi(_, _), _) => false,
            (PcOf::AnalyzeMemory, _) => false,
            (PcOf::AnalyzeLibrary(_), _) => false,
            (PcOf::RiskLibrary, _) => false,
            (PcOf::ExecuteLibrary, _) => false,
            (PcOf::RiskAi, _) => false,
            (PcOf::PlanScript, _) => false,
            (PcOf::ExecuteConfig, _) => false,
            (PcOf::ExecuteRun, _) => false,
            (PcOf::VerifyConfig, _) => false,
            (PcOf::VerifyRun, _) => false,
            (PcOf::VerifyFixAi(_), _) => false,
            (PcOf::ResumeFailure, _) => false,
            (PcOf::Stopped, _) => false,
            (_, EventOf::Persisted(_)) => true,
            _ => false,
        }
    }

    /// Whether answering with `event` would count a verification failure
    /// past the largest count.
    pub fn step_overflows(&self, event: &Event) -> (r: bool)
        ensures
            r == step_overflows(self@, event@),
    {
        if self.retry_count != u32::MAX {
            return false;
        }
        match (&self.pc, event) {
            (PcOf::VerifyRun, EventOf::CommandDone(Err(_))) => true,
            (PcOf::VerifyConfig, EventOf::Config(_, a)) => crate::json::parse_string_array(a.as_str()).is_err(),
            _ => false,
        }
    }

    /// One turn: the engine takes the answer to its request and hands back
    /// the effects to perform and its next request, as `transition` says.
    pub fn step(&mut self, event: Event) -> (t: Turn)
        requires
            accepts(old(self)@.pc, event@),
            !step_overflows(old(self)@, event@),
        ensures
            realizes(final(self)@, t@.effects, t@.request, transition(old(self)@, event@)),
    {
        let mut fx: Vec<Effect> = Vec::new();
        let ghost e = self@;
        let ghost ev = event@;
        let request = match event {
            EventOf::Command(c) => {
                let t = self.run_loop(c);
                fx = t.effects;
                t.request
            },
            EventOf::PlanText(p) => {
                let f = match &self.pc {
                    PcOf::RevisePlanRead(f) => f.clone(),
                    _ => {
                        proof {
                            assert(false);
                        }
                        String::new()
                    },
                };
                let prompt = build_revise_prompt(p.as_str(), f.as_str());
                self.pc = PcOf::ReviseAi(f, p);
                RequestOf::FetchAi(prompt)
            },
            EventOf::AiReply(r) => {
                match &self.pc {
                    PcOf::ReviseAi(f, p) => {
                        let f = f.clone();
                        let p = p.clone();
                        let revised = match r {
                            Some(x) => x,
                            None => build_fallback_revision(p.as_str(), f.as_str()),
                        };
                        self.pending_feedback = Some(f);
                        emit(&mut fx, EffectOf::WriteIpc(IpcFile::Plan, revised));
                        self.pc = PcOf::RevisePersist;
                        RequestOf::Persist
                    },
                    PcOf::RiskAi => self.risk_checked(r, &mut fx),
                    PcOf::VerifyFixAi(m) => {
                        let m = m.clone();
                        self.fix_planned(m, r, &mut fx)
                    },
                    _ => {
                        proof {
                            assert(false);
                        }
                        RequestOf::NextCommand
                    },
                }
            },
            EventOf::Memory(m) => self.analyzed(m, &mut fx),
            EventOf::Library(sk, ru) => {
                match &self.pc {
                    PcOf::AnalyzeLibrary(m) => {
                        let m = m.clone();
                        self.library_analyzed(m, &sk, &ru, &mut fx)
                    },
                    PcOf::RiskLibrary => self.risk_documented(&sk, &mut fx),
                    PcOf::ExecuteLibrary => self.execute_documented(&sk, &mut fx),
                    _ => {
                        proof {
                            assert(false);
                        }
                        RequestOf::NextCommand
                    },
                }
            },
            EventOf::ScriptDone(ok) => self.plan_scripted(ok, &mut fx),
            EventOf::Config(p, a) => {
                if matches!(self.pc, PcOf::ExecuteConfig) {
                    self.execute_configured(p, a, &mut fx)
                } else {
                    self.verify_configured(p, a, &mut fx)
                }
            },
            EventOf::CommandDone(r) => {
                if matches!(self.pc, PcOf::ExecuteRun) {
                    self.execute_ran(r, &mut fx)
                } else {
                    self.verify_ran(r, &mut fx)
                }
            },
            EventOf::Ack => self.to_idle(),
            EventOf::Persisted(r) => {
                match &self.pc {
                    PcOf::RevisePersist => {
                        match r {
                            Ok(()) => log(&mut fx, NoteOf::PlanRevised),
                            Err(m) => log(&mut fx, NoteOf::PlanRevisionError(m)),
                        }
                        self.to_idle()
                    },
                    PcOf::ResumePersist(s) => {
                        let s = *s;
                        match r {
                            Ok(()) => {
                                log(&mut fx, NoteOf::ReattachImpossible(s));
                                self.to_idle()
                            },
                            Err(m) => {
                                self.pc = PcOf::ResumeFailure;
                                RequestOf::ResumeFailed(m)
                            },
                        }
                    },
                    PcOf::Approving => self.advance(r, &mut fx),
                    PcOf::PipelineStart => self.advance(r, &mut fx),
                    PcOf::AnalyzePersist => self.advance(r, &mut fx),
                    PcOf::RiskPersist => self.advance(r, &mut fx),
                    PcOf::ExecuteOkPersist => self.advance(r, &mut fx),
                    PcOf::VerifyRetryPersist => self.advance(r, &mut fx),
                    _ => self.settle(r, &mut fx),
                }
            },
        };
        assert(realizes(self@, effects_view(fx@), request@, transition(e, ev)));
        Turn { effects: fx, request }
    }

    /// One turn on an answer that is checked first: where the engine does
    /// not accept `event`, or counting one more verification failure would
    /// overflow, nothing happens and `None` comes back; otherwise the turn of
    /// [`VesperEngine::step`].
    pub fn try_step(&mut self, event: Event) -> (t: Option<Turn>)
        ensures
            (accepts(old(self)@.pc, event@) && !step_overflows(old(self)@, event@)) ==> (t matches Some(turn)
                && realizes(final(self)@, turn@.effects, turn@.request, transition(old(self)@, event@))),
            !(accepts(old(self)@.pc, event@) && !step_overflows(old(self)@, event@)) ==> (t is None && final(self)@ == old(self)@),
    {
        if self.accepts(&event) && !self.step_overflows(&event) {
            Some(self.step(event))
        } else {
            None
        }
    }
}

} // verus!

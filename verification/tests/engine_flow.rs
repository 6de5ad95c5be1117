use vesper_harness::machine::{
    EffectOf, EngineSnapshot, Event, EventOf, IpcFile, NoteOf, PcOf, RequestOf, ResumeError, Turn,
    VesperEngine, WorkFile, SNAPSHOT_VERSION,
};
use vesper_harness::skills::LibraryDoc;
use vesper_harness::stage::VesperStage;

/// Steps the engine and checks that every stage change asks for the
/// snapshot to be stored.
fn step(e: &mut VesperEngine, ev: Event) -> Turn {
    assert!(e.accepts(&ev));
    assert!(!e.step_overflows(&ev));
    let before = e.current_stage;
    let t = e.step(ev);
    if e.current_stage != before {
        assert!(matches!(t.request, RequestOf::Persist));
    }
    t
}

fn command(e: &mut VesperEngine, c: &str) -> Turn {
    step(e, EventOf::Command(Some(c.to_string())))
}

fn saved() -> Event {
    EventOf::Persisted(Ok(()))
}

fn no_library() -> Event {
    EventOf::Library(Vec::new(), Vec::new())
}

fn doc(name: &str, text: &str) -> LibraryDoc {
    LibraryDoc { name: name.to_string(), text: text.to_string() }
}

fn ipc(t: &Turn, file: IpcFile) -> Option<String> {
    t.effects.iter().rev().find_map(|fx| match fx {
        EffectOf::WriteIpc(f, c) if *f == file => Some(c.clone()),
        _ => None,
    })
}

/// Drives a fresh engine with `/task <task>` up to the approval prompt.
fn plan_task(task: &str) -> VesperEngine {
    let mut e = VesperEngine::new("./rules".to_string(), "./skills".to_string());
    let t = command(&mut e, &format!("/task {task}"));
    assert!(matches!(t.request, RequestOf::Persist));
    assert_eq!(e.current_stage, VesperStage::Analyze);
    let t = step(&mut e, saved());
    assert!(matches!(t.request, RequestOf::FetchMemory));
    let t = step(&mut e, EventOf::Memory("prefs".to_string()));
    assert!(matches!(&t.request, RequestOf::ReadLibrary(sk, ru) if sk == "./skills" && ru == "./rules"));
    let t = step(&mut e, no_library());
    assert_eq!(e.current_stage, VesperStage::RiskScan);
    let context = ipc(&t, IpcFile::Context).expect("context.md is written");
    assert!(context.starts_with(&format!("# Project Context\n\nTask: {task}\n\n## Memory Injection\nprefs")));
    assert!(context.contains("<< AUTO-RULE: SVELTE STATE MANAGEMENT PATTERN >>"));
    let t = step(&mut e, saved());
    assert!(matches!(t.request, RequestOf::FetchAi(_)));
    let t = step(&mut e, EventOf::AiReply(Some("All good: SAFE".to_string())));
    assert!(matches!(t.request, RequestOf::ReadLibrary(_, _)));
    let t = step(&mut e, no_library());
    assert_eq!(e.current_stage, VesperStage::Plan);
    assert!(ipc(&t, IpcFile::Risk).unwrap().contains("<<CAVEMAN SKILL INJECTED FROM NOTION>>"));
    let t = step(&mut e, saved());
    if matches!(t.request, RequestOf::RunDotmatrix) {
        step(&mut e, EventOf::ScriptDone(false));
    }
    assert_eq!(e.current_stage, VesperStage::PendingApproval);
    let t = step(&mut e, saved());
    assert!(matches!(t.request, RequestOf::NextCommand));
    e
}

#[test]
fn a_task_stops_for_approval_after_planning() {
    let e = plan_task("refactor parser");
    assert_eq!(e.current_stage, VesperStage::PendingApproval);
    assert_eq!(e.task_description, "refactor parser");
    assert_eq!(e.retry_count, 0);
}

#[test]
fn ui_tasks_write_design_tokens_and_run_the_svelte_script() {
    let mut e = VesperEngine::new(String::new(), String::new());
    e.current_stage = VesperStage::Plan;
    e.task_description = "Build a Svelte login".to_string();
    e.pc = PcOf::RiskPersist;
    let t = step(&mut e, saved());
    assert!(matches!(t.request, RequestOf::RunDotmatrix));
    assert!(t.effects.iter().any(|fx| matches!(fx, EffectOf::WriteFile(WorkFile::DesignTokens, _))));
    let t = step(&mut e, EventOf::ScriptDone(true));
    assert!(matches!(t.effects[0], EffectOf::Log(NoteOf::DotmatrixOk)));
    assert!(ipc(&t, IpcFile::Plan).unwrap().starts_with("# Execution Plan"));
    assert_eq!(e.current_stage, VesperStage::PendingApproval);
}

#[test]
fn feedback_revises_the_plan_and_keeps_waiting() {
    let mut e = plan_task("refactor parser");
    let t = command(&mut e, "  add clippy  ");
    assert!(matches!(t.request, RequestOf::ReadPlan));
    let t = step(&mut e, EventOf::PlanText("# Plan".to_string()));
    match &t.request {
        RequestOf::FetchAi(p) => assert!(p.ends_with("Plan:\n# Plan\n\nFeedback:\nadd clippy")),
        _ => panic!("expected a prompt"),
    }
    let t = step(&mut e, EventOf::AiReply(None));
    assert_eq!(
        ipc(&t, IpcFile::Plan).unwrap(),
        "# Plan\n\n## User-requested revision\n\n- add clippy\n\n> Explicit approval is still required before execution.\n"
    );
    assert_eq!(e.pending_feedback.as_deref(), Some("add clippy"));
    let t = step(&mut e, saved());
    assert!(matches!(t.effects[0], EffectOf::Log(NoteOf::PlanRevised)));
    assert_eq!(e.current_stage, VesperStage::PendingApproval);
    let t = command(&mut e, "/task other");
    assert!(matches!(t.effects[0], EffectOf::Log(NoteOf::ApprovalOnly)));
    assert_eq!(e.current_stage, VesperStage::PendingApproval);
}

#[test]
fn denial_returns_to_idle() {
    let mut e = plan_task("x");
    let t = command(&mut e, "거절");
    assert_eq!(e.current_stage, VesperStage::Idle);
    assert!(e.pending_feedback.is_none());
    assert!(matches!(t.request, RequestOf::Persist));
    let t = step(&mut e, EventOf::Persisted(Err("disk full".to_string())));
    assert!(matches!(&t.effects[0], EffectOf::Log(NoteOf::StateError(m)) if m == "disk full"));
    assert!(matches!(t.request, RequestOf::NextCommand));
}

#[test]
fn approval_runs_the_agent_then_verification() {
    let mut e = plan_task("refactor parser");
    command(&mut e, " Y ");
    assert_eq!(e.current_stage, VesperStage::Execute);
    let t = step(&mut e, saved());
    assert!(matches!(t.request, RequestOf::ReadLibrary(_, _)));
    let t = step(&mut e, no_library());
    assert!(matches!(t.request, RequestOf::AgentConfig));
    assert!(ipc(&t, IpcFile::Instruction).unwrap().contains("<<PONYTAIL SKILL INJECTED FROM OBSIDIAN>>"));
    let t = step(
        &mut e,
        EventOf::Config("aider".to_string(), r#"["--message","{instruction}"]"#.to_string()),
    );
    match &t.request {
        RequestOf::RunCommand(c) => {
            assert_eq!(c.program, "aider");
            assert!(c.args[1].starts_with("Task: refactor parser\n"));
        }
        _ => panic!("expected the agent run"),
    }
    step(&mut e, EventOf::CommandDone(Ok(())));
    assert_eq!(e.current_stage, VesperStage::Verify);
    let t = step(&mut e, saved());
    assert!(matches!(t.request, RequestOf::VerifyConfig));
    step(&mut e, EventOf::Config("cargo".to_string(), r#"["test"]"#.to_string()));
    let t = step(&mut e, EventOf::CommandDone(Ok(())));
    assert_eq!(e.current_stage, VesperStage::Idle);
    assert_eq!(
        ipc(&t, IpcFile::VerifyLog).unwrap(),
        "# Verification\nPlaywright UI/UX tests passed successfully."
    );
}

#[test]
fn failed_verification_retries_three_times_then_stops() {
    let mut e = plan_task("t");
    command(&mut e, "yes");
    step(&mut e, saved());
    step(&mut e, no_library());
    for round in 1..=3u32 {
        step(&mut e, EventOf::Config("aider".to_string(), "[]".to_string()));
        step(&mut e, EventOf::CommandDone(Ok(())));
        step(&mut e, saved());
        step(&mut e, EventOf::Config("cargo".to_string(), "[]".to_string()));
        let t = step(&mut e, EventOf::CommandDone(Err("boom".to_string())));
        assert_eq!(e.retry_count, round);
        assert!(matches!(&t.request, RequestOf::FetchAi(p) if p.ends_with("Error:\nboom")));
        let t = step(&mut e, EventOf::AiReply(None));
        assert!(ipc(&t, IpcFile::FixPlan).unwrap().contains("```text\nboom\n```"));
        if round < 3 {
            assert_eq!(e.current_stage, VesperStage::Execute);
            step(&mut e, saved());
            let t = step(&mut e, no_library());
            assert!(ipc(&t, IpcFile::Instruction)
                .unwrap()
                .ends_with(" Apply `fix_plan.md` before rerunning verification."));
        } else {
            assert_eq!(e.current_stage, VesperStage::Idle);
            assert!(t.effects.iter().any(|fx| matches!(fx, EffectOf::Log(NoteOf::GiveUp))));
        }
    }
}

#[test]
fn a_failing_agent_writes_a_fix_plan_and_stops() {
    let mut e = plan_task("t");
    command(&mut e, "y");
    step(&mut e, saved());
    step(&mut e, no_library());
    let t = step(&mut e, EventOf::Config("aider".to_string(), "oops".to_string()));
    assert_eq!(e.current_stage, VesperStage::Idle);
    let fix = ipc(&t, IpcFile::FixPlan).unwrap();
    assert!(fix.starts_with("# Fix Plan\n\nAgent execution failed:\n\n```text\nVESPER_AGENT_ARGS_JSON"));
}

#[test]
fn a_dangerous_assessment_stops_the_run() {
    let mut e = VesperEngine::new(String::new(), String::new());
    command(&mut e, "/task t");
    step(&mut e, saved());
    step(&mut e, EventOf::Memory(String::new()));
    step(&mut e, no_library());
    step(&mut e, saved());
    let t = step(&mut e, EventOf::AiReply(Some("result: danger".to_string())));
    assert_eq!(e.current_stage, VesperStage::Idle);
    assert!(t.effects.iter().any(|fx| matches!(fx, EffectOf::Log(NoteOf::RiskDanger))));
    let t = step(&mut e, saved());
    assert!(matches!(t.request, RequestOf::NextCommand));
}

#[test]
fn sprocket_and_other_commands() {
    let mut e = VesperEngine::new(String::new(), String::new());
    command(&mut e, "  /sprocket /sprocket PCB  ");
    assert_eq!(e.task_description, "sprocket 하드웨어 PCB");
    let mut e = VesperEngine::new(String::new(), String::new());
    let t = command(&mut e, "/export-ci");
    assert!(matches!(t.effects[1], EffectOf::ExportWorkflow));
    let w = e.export_github_workflow();
    assert_eq!(w.dirs, vec![".github".to_string(), "workflows".to_string()]);
    assert_eq!(w.file_name, "vesper-agent.yml");
    assert!(w.content.starts_with("name: Vesper Agent CI\n"));
    let t = command(&mut e, "y");
    assert!(matches!(&t.effects[0], EffectOf::Log(NoteOf::UnknownCommand(c)) if c == "y"));
    let t = step(&mut e, EventOf::Command(None));
    assert!(matches!(t.request, RequestOf::Shutdown));
}

fn snapshot(stage: VesperStage) -> EngineSnapshot {
    EngineSnapshot {
        version: SNAPSHOT_VERSION,
        stage,
        task_description: "resume task".to_string(),
        retry_count: 2,
        feedback: Some("keep tests".to_string()),
    }
}

#[test]
fn resume_restores_pending_approval_without_replaying_stages() {
    let mut e = VesperEngine::new(String::new(), String::new());
    let t = e.resume(snapshot(VesperStage::PendingApproval)).expect("resume succeeds");
    assert_eq!(e.current_stage, VesperStage::PendingApproval);
    assert_eq!(e.task_description, "resume task");
    assert_eq!(e.retry_count, 2);
    assert_eq!(e.pending_feedback.as_deref(), Some("keep tests"));
    assert!(matches!(t.request, RequestOf::NextCommand));
    assert_eq!(t.effects.len(), 2);
}

#[test]
fn resume_of_an_interrupted_execution_asks_again() {
    let mut e = VesperEngine::new(String::new(), String::new());
    let t = e.resume(snapshot(VesperStage::Execute)).unwrap();
    assert_eq!(e.current_stage, VesperStage::PendingApproval);
    assert_eq!(
        e.pending_feedback.as_deref(),
        Some("이전 실행이 Execute 단계에서 중단됨; 재실행 승인 필요")
    );
    assert!(matches!(t.request, RequestOf::Persist));
    let t = step(&mut e, EventOf::Persisted(Err("read-only".to_string())));
    assert!(matches!(&t.request, RequestOf::ResumeFailed(m) if m == "read-only"));
    let t = step(&mut e, EventOf::Ack);
    assert!(matches!(t.request, RequestOf::NextCommand));
}

#[test]
fn resume_refuses_foreign_or_idle_snapshots() {
    let mut e = VesperEngine::new(String::new(), String::new());
    let mut s = snapshot(VesperStage::Plan);
    s.version = 2;
    assert!(matches!(e.resume(s), Err(ResumeError::UnsupportedVersion(2))));
    assert!(matches!(e.resume(snapshot(VesperStage::Idle)), Err(ResumeError::NothingToResume)));
    assert_eq!(e.current_stage, VesperStage::Idle);
}

#[test]
fn a_snapshot_resumes_to_the_same_task() {
    let mut e = plan_task("keep me");
    e.pending_feedback = Some("fb".to_string());
    let s = e.snapshot();
    let mut other = VesperEngine::new(String::new(), String::new());
    other.resume(s).unwrap();
    assert_eq!(other.current_stage, VesperStage::PendingApproval);
    assert_eq!(other.task_description, "keep me");
    assert_eq!(other.pending_feedback.as_deref(), Some("fb"));
}

#[test]
fn resume_in_analyze_runs_the_stage_again() {
    let mut e = VesperEngine::new(String::new(), String::new());
    let t = e.resume(snapshot(VesperStage::Analyze)).unwrap();
    assert!(matches!(t.request, RequestOf::FetchMemory));
    assert_eq!(e.current_stage, VesperStage::Analyze);
}

#[test]
fn answers_are_checked_against_the_pending_request() {
    let mut e = VesperEngine::new(String::new(), String::new());
    assert!(!e.accepts(&EventOf::Ack));
    assert!(!e.accepts(&EventOf::Persisted(Ok(()))));
    assert!(e.accepts(&EventOf::Command(None)));
    e.pc = PcOf::VerifyRun;
    e.retry_count = u32::MAX;
    assert!(e.step_overflows(&EventOf::CommandDone(Err("x".to_string()))));
    assert!(!e.step_overflows(&EventOf::CommandDone(Ok(()))));
    e.pc = PcOf::VerifyConfig;
    assert!(e.step_overflows(&EventOf::Config("c".to_string(), "bad".to_string())));
    assert!(!e.step_overflows(&EventOf::Config("c".to_string(), "[]".to_string())));
    assert_eq!(IpcFile::FixPlan.file_name(), "fix_plan.md");
    assert_eq!(WorkFile::SecurityAudit.file_name(), "tauri_security_audit.md");
    assert_eq!(VesperStage::PendingApproval.name(), "PendingApproval");
}

#[test]
fn library_documents_are_injected_into_the_stages() {
    let mut e = VesperEngine::new("rules".to_string(), "skills".to_string());
    command(&mut e, "/task build api");
    step(&mut e, saved());
    step(&mut e, EventOf::Memory("m".to_string()));
    let t = step(
        &mut e,
        EventOf::Library(vec![doc("frontend", "FRONT SKILL")], vec![doc("rs", "RUST RULE")]),
    );
    let context = ipc(&t, IpcFile::Context).unwrap();
    assert!(context.contains("FRONT SKILL\n"));
    assert!(!context.contains("<<LIQUID GLASS FRONTEND SKILL FROM NOTION>>"));
    assert!(context.contains("RUST RULE\n"));
    assert!(context.contains("<< AUTO-RULE: SVELTE STATE MANAGEMENT PATTERN >>"));
    assert!(!context.contains("CORE SECURITY POLICIES"));
    assert!(t.effects.iter().any(|fx| matches!(fx, EffectOf::Log(NoteOf::RuleDocApplied(n)) if n == "rs")));
    step(&mut e, saved());
    step(&mut e, EventOf::AiReply(None));
    let t = step(&mut e, EventOf::Library(vec![doc("risk", "RISK SKILL")], Vec::new()));
    assert!(ipc(&t, IpcFile::Risk).unwrap().contains("RISK SKILL\n"));
}

#[test]
fn a_checked_step_refuses_an_unexpected_answer() {
    let mut e = VesperEngine::new(String::new(), String::new());
    assert!(e.try_step(EventOf::Ack).is_none());
    assert!(matches!(e.pc, PcOf::AwaitCommand));
    let t = e.try_step(EventOf::Command(Some("/task t".to_string()))).expect("a command is taken");
    assert!(matches!(t.request, RequestOf::Persist));
    assert_eq!(e.current_stage, VesperStage::Analyze);
    e.pc = PcOf::VerifyRun;
    e.retry_count = u32::MAX;
    assert!(e.try_step(EventOf::CommandDone(Err("x".to_string()))).is_none());
    assert_eq!(e.retry_count, u32::MAX);
}

#[test]
fn without_approval_no_command_is_run() {
    let mut e = plan_task("t");
    let mut turns = Vec::new();
    turns.push(command(&mut e, "/export-ci"));
    turns.push(command(&mut e, "maybe later"));
    turns.push(step(&mut e, EventOf::PlanText("# Plan".to_string())));
    turns.push(step(&mut e, EventOf::AiReply(Some("# Plan v2".to_string()))));
    turns.push(step(&mut e, saved()));
    turns.push(command(&mut e, "/sprocket board"));
    assert!(matches!(turns[5].effects[0], EffectOf::Log(NoteOf::ApprovalOnly)));
    assert_eq!(e.current_stage, VesperStage::PendingApproval);
    for t in &turns {
        assert!(!matches!(t.request, RequestOf::RunCommand(_)));
    }
    assert_ne!(e.current_stage, VesperStage::Execute);
}

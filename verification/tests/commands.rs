use vesper_harness::agent::{agent_command, build_failed_run_report, push_tail, verify_command};
use vesper_harness::ai::{ai_provider, ai_request, AiProvider};
use vesper_harness::cli::{parse_cli, CliError, LaunchOf};
use vesper_harness::config::{
    default_agent_args_json, default_agent_program, default_rules_dir, default_skills_dir,
    default_verify_args_json, default_verify_program, setting_or,
};
use vesper_harness::content::{build_fallback_revision, build_interrupted_feedback, memory_context};
use vesper_harness::skills::{fetch_auto_rules, fetch_skill, LibraryDoc, RuleHit, RuleUseOf, SkillTally};
use vesper_harness::reply::{reply_text, JsonTree};
use vesper_harness::stage::{SkillSource, VesperStage};

fn strings(v: &[&str]) -> Vec<String> {
    v.iter().map(|s| s.to_string()).collect()
}

#[test]
fn agent_arguments_get_task_and_instruction() {
    let cmd = agent_command(
        "aider".to_string(),
        r#"["--message","{instruction}","--task={task}"]"#,
        "Build UI",
        0,
    )
    .expect("template is an array of strings");
    assert_eq!(cmd.program, "aider");
    assert_eq!(cmd.args.len(), 3);
    assert_eq!(cmd.args[0], "--message");
    assert_eq!(
        cmd.args[1],
        "Task: Build UI\nRead .vesper/plan.md, .vesper/risk.md, and .vesper/instruction.md. Execute the approved plan in this working directory."
    );
    assert_eq!(cmd.args[2], "--task=Build UI");
}

#[test]
fn agent_instruction_mentions_fix_plan_after_failures() {
    let cmd = agent_command("a".to_string(), r#"["{instruction}"]"#, "t", 2).unwrap();
    assert!(cmd.args[0].contains(" Read .vesper/fix_plan.md and apply it before verification."));
}

#[test]
fn agent_template_must_be_json_string_array() {
    let err = agent_command("a".to_string(), "not json", "t", 0).unwrap_err();
    assert!(err.starts_with("VESPER_AGENT_ARGS_JSON은 JSON 문자열 배열이어야 합니다: "));
    assert!(agent_command("a".to_string(), "[1, 2]", "t", 0).is_err());
    let err = verify_command("cargo".to_string(), "{}").unwrap_err();
    assert!(err.starts_with("VESPER_VERIFY_ARGS_JSON 형식 오류: "));
    let ok = verify_command("cargo".to_string(), r#"["test","--all-targets"]"#).unwrap();
    assert_eq!(ok.args, strings(&["test", "--all-targets"]));
}

#[test]
fn stderr_tail_keeps_the_last_fifty_lines() {
    let mut tail = Vec::new();
    for i in 0..60 {
        push_tail(&mut tail, format!("line {i}"));
    }
    assert_eq!(tail.len(), 50);
    assert_eq!(tail[0], "line 10");
    assert_eq!(tail[49], "line 59");
    let report = build_failed_run_report("exit status: 7", &strings(&["a", "root-cause-detail"]));
    assert_eq!(report, "에이전트가 실패 상태로 종료했습니다: exit status: 7\na\nroot-cause-detail");
}

fn doc(name: &str, text: &str) -> LibraryDoc {
    LibraryDoc { name: name.to_string(), text: text.to_string() }
}

#[test]
fn skills_follow_tags_and_source() {
    let none: Vec<LibraryDoc> = Vec::new();
    let exec = strings(&["execute"]);
    let risk = strings(&["risk"]);
    let front = strings(&["frontend"]);
    assert_eq!(fetch_skill(SkillSource::Hybrid, &none, &exec), "<<PONYTAIL SKILL INJECTED FROM OBSIDIAN>>\n");
    assert_eq!(fetch_skill(SkillSource::Hybrid, &none, &risk), "<<CAVEMAN SKILL INJECTED FROM NOTION>>\n");
    assert_eq!(fetch_skill(SkillSource::Hybrid, &none, &front), "<<LIQUID GLASS FRONTEND SKILL FROM NOTION>>\n");
    assert_eq!(fetch_skill(SkillSource::Obsidian, &none, &risk), "<<NO SPECIFIC SKILL INJECTED>>");
    assert_eq!(fetch_skill(SkillSource::Notion, &none, &front), "<<LIQUID GLASS FRONTEND SKILL FROM NOTION>>");
    assert_eq!(
        fetch_skill(SkillSource::Hybrid, &none, &strings(&["execute", "risk"])),
        "<<PONYTAIL SKILL INJECTED FROM OBSIDIAN>>\n<<CAVEMAN SKILL INJECTED FROM NOTION>>\n"
    );
}

#[test]
fn skills_come_from_the_library_documents_named_by_a_tag() {
    let docs = vec![doc("execute", "Keep the loop tight."), doc("frontend", "Use glass."), doc("risk", "Audit IPC.")];
    assert_eq!(fetch_skill(SkillSource::Hybrid, &docs, &strings(&["execute"])), "Keep the loop tight.\n");
    assert_eq!(
        fetch_skill(SkillSource::Hybrid, &docs, &strings(&["risk", "execute"])),
        "Keep the loop tight.\nAudit IPC.\n"
    );
    let changed = vec![doc("execute", "Another text.")];
    assert_eq!(fetch_skill(SkillSource::Hybrid, &changed, &strings(&["execute"])), "Another text.\n");
    // A library without a document for the tag leaves the fixed skill.
    assert_eq!(
        fetch_skill(SkillSource::Obsidian, &changed, &strings(&["risk"])),
        "<<NO SPECIFIC SKILL INJECTED>>"
    );
}

#[test]
fn auto_rules_follow_file_names() {
    let none: Vec<LibraryDoc> = Vec::new();
    let rules = fetch_auto_rules(&none, &strings(&["src/App.svelte", "src/main.rs", "x.ts", "README.md"]));
    assert_eq!(
        rules.uses,
        vec![
            RuleUseOf::Builtin(RuleHit::Svelte),
            RuleUseOf::Builtin(RuleHit::Security),
            RuleUseOf::Builtin(RuleHit::Security)
        ]
    );
    assert_eq!(
        rules.text,
        "<< AUTO-RULE: SVELTE STATE MANAGEMENT PATTERN >>\n<< AUTO-RULE: CORE SECURITY POLICIES (No SQLi, No Plaintext passwords) >>\n<< AUTO-RULE: CORE SECURITY POLICIES (No SQLi, No Plaintext passwords) >>\n"
    );
}

#[test]
fn auto_rules_come_from_the_rule_documents_of_the_extension() {
    let docs = vec![doc("svelte", "Runes only."), doc("md", "Wrap at 80."), doc("svelte", "No stores.")];
    let rules = fetch_auto_rules(&docs, &strings(&["src/App.svelte", "src/main.rs", "README.md"]));
    assert_eq!(
        rules.uses,
        vec![
            RuleUseOf::Document("svelte".to_string(), "Runes only.".to_string()),
            RuleUseOf::Document("svelte".to_string(), "No stores.".to_string()),
            RuleUseOf::Builtin(RuleHit::Security),
            RuleUseOf::Document("md".to_string(), "Wrap at 80.".to_string()),
        ]
    );
    assert_eq!(
        rules.text,
        "Runes only.\nNo stores.\n<< AUTO-RULE: CORE SECURITY POLICIES (No SQLi, No Plaintext passwords) >>\nWrap at 80.\n"
    );
}

#[test]
fn skill_tally_counts_large_and_unreadable_files_as_errors() {
    let mut t = SkillTally::new();
    t.record(Some(10));
    t.record(Some(5 * 1024 * 1024));
    t.record(Some(5 * 1024 * 1024 + 1));
    t.record(None);
    assert_eq!((t.total, t.valid, t.errors), (4, 2, 2));
    assert!(t.can_record());
    let full = SkillTally { total: usize::MAX, valid: 0, errors: 0 };
    assert!(!full.can_record());
}

#[test]
fn command_line_is_read_like_the_cli() {
    assert!(matches!(parse_cli(&strings(&["x", "--help"])), Ok(LaunchOf::Help)));
    match parse_cli(&strings(&["--test-skills"])) {
        Ok(LaunchOf::Interactive { resume, command }) => {
            assert!(!resume);
            assert_eq!(command.as_deref(), Some("/task --test-skills"));
        }
        _ => panic!("an unknown option is a word of the task"),
    }
    assert!(matches!(parse_cli(&strings(&["--resume", "task"])), Err(CliError::ResumeWithTask)));
    assert!(matches!(parse_cli(&strings(&["--yes"])), Err(CliError::YesWithoutTask)));
    match parse_cli(&strings(&["--yes", "Refactor", "the", "parser"])) {
        Ok(LaunchOf::Headless { resume, command }) => {
            assert!(!resume);
            assert_eq!(command.as_deref(), Some("/task Refactor the parser"));
        }
        _ => panic!("expected a headless run"),
    }
    match parse_cli(&strings(&["/sprocket", "board"])) {
        Ok(LaunchOf::Interactive { resume, command }) => {
            assert!(!resume);
            assert_eq!(command.as_deref(), Some("/sprocket board"));
        }
        _ => panic!("expected an interactive run"),
    }
    match parse_cli(&strings(&["-y", "--resume"])) {
        Ok(LaunchOf::Headless { resume, command }) => {
            assert!(resume);
            assert!(command.is_none());
        }
        _ => panic!("expected a headless resume"),
    }
    assert!(matches!(parse_cli(&vec![]), Ok(LaunchOf::Interactive { resume: false, command: None })));
}

#[test]
fn ai_provider_prefers_gemini() {
    assert_eq!(ai_provider("g", "q"), AiProvider::Gemini);
    assert_eq!(ai_provider("", "q"), AiProvider::Groq);
    assert_eq!(ai_provider("", ""), AiProvider::Offline);
    let req = ai_request(AiProvider::Gemini, "KEY", "", "say \"hi\"\n").unwrap();
    assert!(req.url.ends_with("gemini-1.5-flash:generateContent?key=KEY"));
    assert_eq!(req.body, r#"{"contents":[{"parts":[{"text":"say \"hi\"\n"}]}]}"#);
    let req = ai_request(AiProvider::Groq, "", "QK", "p").unwrap();
    assert_eq!(req.header, Some(("Authorization".to_string(), "Bearer QK".to_string())));
    assert_eq!(
        req.body,
        r#"{"messages":[{"content":"p","role":"user"}],"model":"llama-3.1-70b-versatile","stream":false}"#
    );
    assert!(ai_request(AiProvider::Offline, "", "", "p").is_none());
}

#[test]
fn documents_have_their_exact_text() {
    assert_eq!(
        build_fallback_revision("# Plan", "add tests"),
        "# Plan\n\n## User-requested revision\n\n- add tests\n\n> Explicit approval is still required before execution.\n"
    );
    assert_eq!(
        build_interrupted_feedback(VesperStage::Verify),
        "이전 실행이 Verify 단계에서 중단됨; 재실행 승인 필요"
    );
    assert_eq!(memory_context(Some("ctx".to_string())), "ctx");
    assert!(memory_context(None).starts_with("USER_PREF: Svelte + Tauri (V2)"));
}

#[test]
fn reply_text_is_read_where_each_provider_puts_it() {
    reply_cases();
}

fn obj(entries: Vec<(&str, JsonTree)>) -> JsonTree {
    JsonTree::Object(entries.into_iter().map(|(k, v)| (k.to_string(), v)).collect())
}

fn reply_cases() {
    let text = |s: &str| JsonTree::Text(s.to_string());
    let arr = JsonTree::Array;
    let gemini = obj(vec![(
        "candidates",
        arr(vec![obj(vec![("content", obj(vec![("parts", arr(vec![obj(vec![("text", text("plan"))])]))]))])]),
    )]);
    assert_eq!(reply_text(AiProvider::Gemini, &gemini), Some("plan".to_string()));
    assert_eq!(reply_text(AiProvider::Groq, &gemini), None);
    let groq = obj(vec![(
        "choices",
        arr(vec![obj(vec![("message", obj(vec![("role", text("assistant")), ("content", text("SAFE"))]))])]),
    )]);
    assert_eq!(reply_text(AiProvider::Groq, &groq), Some("SAFE".to_string()));
    let not_text = obj(vec![(
        "choices",
        arr(vec![obj(vec![("message", obj(vec![("content", JsonTree::Number("1".to_string()))]))])]),
    )]);
    assert_eq!(reply_text(AiProvider::Groq, &not_text), None);
    assert_eq!(reply_text(AiProvider::Offline, &groq), None);
}

#[test]
fn prompts_are_quoted_as_json_strings() {
    let req = ai_request(AiProvider::Gemini, "K", "", "a\\b\u{1}\u{1f}\u{8}\u{c}\r\t/é").unwrap();
    assert_eq!(
        req.body,
        "{\"contents\":[{\"parts\":[{\"text\":\"a\\\\b\\u0001\\u001f\\b\\f\\r\\t/é\"}]}]}"
    );
}

#[test]
fn defaults_are_those_of_the_documentation() {
    assert_eq!(default_rules_dir(), "./rules");
    assert_eq!(default_skills_dir(), "./skills");
    assert_eq!(default_agent_program(), "aider");
    assert_eq!(default_agent_args_json(), r#"["--message","{instruction}"]"#);
    assert_eq!(default_verify_program(), "cargo");
    assert_eq!(default_verify_args_json(), r#"["test","--all-targets"]"#);
    assert_eq!(setting_or(None, "./rules"), "./rules");
    assert_eq!(setting_or(Some("/tmp/r".to_string()), "./rules"), "/tmp/r");
}

#[test]
fn a_refused_template_reports_serde_json_message() {
    let reason = serde_json::from_str::<Vec<String>>("not json").unwrap_err().to_string();
    assert_eq!(
        agent_command("a".to_string(), "not json", "t", 0).unwrap_err(),
        format!("VESPER_AGENT_ARGS_JSON은 JSON 문자열 배열이어야 합니다: {reason}")
    );
    let reason = serde_json::from_str::<Vec<String>>("[1]").unwrap_err().to_string();
    assert_eq!(
        verify_command("cargo".to_string(), "[1]").unwrap_err(),
        format!("VESPER_VERIFY_ARGS_JSON 형식 오류: {reason}")
    );
}

#[test]
fn rules_of_joined_file_lists_are_joined() {
    let none: Vec<LibraryDoc> = Vec::new();
    let a = strings(&["src/App.svelte", "README.md"]);
    let b = strings(&["lib.ts", "x.svelte.rs"]);
    let mut ab = a.clone();
    ab.extend(b.clone());
    let joined = fetch_auto_rules(&none, &ab).text;
    assert_eq!(joined, fetch_auto_rules(&none, &a).text + &fetch_auto_rules(&none, &b).text);
    assert_eq!(fetch_auto_rules(&none, &Vec::new()).text, "");
}

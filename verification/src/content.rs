//! The documents the engine writes to its workspace and the prompts it sends
//! to the AI service.
use vstd::prelude::*;
use crate::stage::{stage_name, VesperStage};
use crate::text::{copy_str, push_str};

verus! {

// ---------------------------------------------------------------------------
// Specifications
// ---------------------------------------------------------------------------

/// `memory_context.md`.
pub open spec fn memory_doc(memory: Seq<char>) -> Seq<char> {
    "# User Memory Context\n\n"@ + memory
}

/// `context.md`: the task with its memory, skills and rules.
pub open spec fn context_doc(
    task: Seq<char>,
    memory: Seq<char>,
    skill: Seq<char>,
    rules: Seq<char>,
) -> Seq<char> {
    "# Project Context\n\nTask: "@ + task + "\n\n## Memory Injection\n"@ + memory
        + "\n\n## Auto-Injected Skills\n"@ + skill + "\n\n## Auto-Triggered Rules\n"@ + rules
        + "\n\n## File Map\n- src/main.rs\n- src/App.svelte"@
}

/// `risk.md`.
pub open spec fn risk_doc(skill: Seq<char>) -> Seq<char> {
    "# Risk Assessment\n\n"@ + skill + "\n\n⚠️ **WARNING**: `src/engine.rs` is highly coupled."@
}

/// `plan.md` as the Plan stage writes it.
pub open spec fn plan_doc() -> Seq<char> {
    "# Execution Plan\n\n- [ ] 1. Apply design tokens (if any)\n- [ ] 2. Apply skills\n- [ ] 3. Apply auto-rules\n- [ ] 4. Verify"@
}

/// `instruction.md`: the execution skills, with the fix-plan hint after a
/// failed verification.
pub open spec fn instruction_doc(skills: Seq<char>, retry: u32) -> Seq<char> {
    "# ACTIVE INSTRUCTION\n\n"@ + skills + "\n\nRead `plan.md` and execute step by step."@ + (if retry
        > 0 {
        " Apply `fix_plan.md` before rerunning verification."@
    } else {
        Seq::empty()
    })
}

/// `fix_plan.md` after the agent failed.
pub open spec fn agent_fix_doc(error: Seq<char>) -> Seq<char> {
    "# Fix Plan\n\nAgent execution failed:\n\n```text\n"@ + error + "\n```"@
}

/// `verify_log.md` as the configured verification command leaves it.
pub open spec fn command_verified_doc() -> Seq<char> {
    "# Verification\n\nConfigured verification command passed successfully.\n"@
}

/// `verify_log.md` after the Verify stage passed.
pub open spec fn verified_doc() -> Seq<char> {
    "# Verification\nPlaywright UI/UX tests passed successfully."@
}

/// The prompt that asks for a fix plan after a failed verification.
pub open spec fn fix_prompt(error: Seq<char>) -> Seq<char> {
    "Create a concise Markdown fix plan for this failed verification. Include probable root cause, exact corrective steps, and the verification to rerun.\n\nError:\n"@
        + error
}

/// The fix plan written when the AI service gave none.
pub open spec fn fallback_fix_doc(error: Seq<char>) -> Seq<char> {
    "# Fix Plan\n\n## Verification error\n\n```text\n"@ + error
        + "\n```\n\n## Required action\n\nInspect the failing command output, correct its root cause, then rerun the configured verification command."@
}

/// The prompt that asks for a revised plan.
pub open spec fn revise_prompt(plan: Seq<char>, feedback: Seq<char>) -> Seq<char> {
    "Revise this coding plan using the user's feedback. Return only the revised Markdown plan.\n\nPlan:\n"@
        + plan + "\n\nFeedback:\n"@ + feedback
}

/// The revised plan written when the AI service gave none: the old plan with
/// the feedback appended.
pub open spec fn fallback_revision(plan: Seq<char>, feedback: Seq<char>) -> Seq<char> {
    plan + "\n\n## User-requested revision\n\n- "@ + feedback
        + "\n\n> Explicit approval is still required before execution.\n"@
}

/// The prompt that asks for a security assessment of the Tauri configuration.
pub open spec fn tauri_prompt() -> Seq<char> {
    "Evaluate this Tauri configuration for vulnerabilities. Respond with a short summary and end with either 'SAFE' or 'DANGER'.\n\n```json\n{\n  \"build\": {\n    \"beforeDevCommand\": \"npm run dev\",\n    \"beforeBuildCommand\": \"npm run build\",\n    \"devPath\": \"http://localhost:1420\",\n    \"distDir\": \"../dist\"\n  }\n}\n```"@
}

/// The audit report made from the AI service's reply.
pub open spec fn ai_audit_doc(reply: Seq<char>) -> Seq<char> {
    "# Tauri Security Audit (AI)\n\nResult:\n"@ + reply
}

/// The audit report written when the AI service gave no reply.
pub open spec fn fallback_audit_doc() -> Seq<char> {
    "# Tauri Security Audit\n\nNo dangerous `shell:execute` scopes detected. Proceeding."@
}

/// `design_tokens.css`.
pub open spec fn design_tokens_doc() -> Seq<char> {
    ":root {\n  --glass-bg: rgba(20, 20, 20, 0.45);\n  --glass-border: rgba(255, 255, 255, 0.1);\n  --glass-blur: blur(16px);\n}\n"@
}

/// The feedback recorded when a run interrupted in `stage` is restored.
pub open spec fn interrupted_feedback(stage: VesperStage) -> Seq<char> {
    "이전 실행이 "@ + stage_name(stage) + " 단계에서 중단됨; 재실행 승인 필요"@
}

/// The context used when the memory server cannot be reached.
pub open spec fn fallback_memory() -> Seq<char> {
    "USER_PREF: Svelte + Tauri (V2), STYLING: Tailwind CSS (Liquid Glass, Dark Mode), SECURITY: High"@
}

/// The task that a `/sprocket` request runs.
pub open spec fn sprocket_task(design: Seq<char>) -> Seq<char> {
    "sprocket 하드웨어 "@ + design
}

/// The GitHub Actions workflow that `/export-ci` writes.
pub open spec fn workflow_doc() -> Seq<char> {
    "name: Vesper Agent CI\non: [push, pull_request]\njobs:\n  vesper-run:\n    runs-on: ubuntu-latest\n    steps:\n      - uses: actions/checkout@v3\n      - name: Run Vesper Pipeline\n        run: |\n          echo \"Executing Vesper 5-Stage Engine via GitHub Actions...\"\n          # Mock: SWE-agent integration\n          echo \"SWE-agent completed successfully.\"\n"@
}

// ---------------------------------------------------------------------------
// Builders
// ---------------------------------------------------------------------------

/// Builds the text that `memory_doc` describes.
pub fn build_memory_doc(memory: &str) -> (r: String)
    ensures
        r@ == memory_doc(memory@),
{
    let mut r = copy_str("# User Memory Context\n\n");
    push_str(&mut r, memory);
    r
}

/// Builds the text that `context_doc` describes.
pub fn build_context_doc(task: &str, memory: &str, skill: &str, rules: &str) -> (r: String)
    ensures
        r@ == context_doc(task@, memory@, skill@, rules@),
{
    let mut r = copy_str("# Project Context\n\nTask: ");
    push_str(&mut r, task);
    push_str(&mut r, "\n\n## Memory Injection\n");
    push_str(&mut r, memory);
    push_str(&mut r, "\n\n## Auto-Injected Skills\n");
    push_str(&mut r, skill);
    push_str(&mut r, "\n\n## Auto-Triggered Rules\n");
    push_str(&mut r, rules);
    push_str(&mut r, "\n\n## File Map\n- src/main.rs\n- src/App.svelte");
    r
}

/// Builds the text that `risk_doc` describes.
pub fn build_risk_doc(skill: &str) -> (r: String)
    ensures
        r@ == risk_doc(skill@),
{
    let mut r = copy_str("# Risk Assessment\n\n");
    push_str(&mut r, skill);
    push_str(&mut r, "\n\n⚠️ **WARNING**: `src/engine.rs` is highly coupled.");
    r
}

/// Builds the text that `plan_doc` describes.
pub fn build_plan_doc() -> (r: String)
    ensures
        r@ == plan_doc(),
{
    copy_str(
        "# Execution Plan\n\n- [ ] 1. Apply design tokens (if any)\n- [ ] 2. Apply skills\n- [ ] 3. Apply auto-rules\n- [ ] 4. Verify",
    )
}

/// Builds the text that `instruction_doc` describes.
pub fn build_instruction_doc(skills: &str, retry: u32) -> (r: String)
    ensures
        r@ == instruction_doc(skills@, retry),
{
    let mut r = copy_str("# ACTIVE INSTRUCTION\n\n");
    push_str(&mut r, skills);
    push_str(&mut r, "\n\nRead `plan.md` and execute step by step.");
    if retry > 0 {
        push_str(&mut r, " Apply `fix_plan.md` before rerunning verification.");
    } else {
        assert(r@ + Seq::<char>::empty() =~= r@);
    }
    r
}

/// Builds the text that `agent_fix_doc` describes.
pub fn build_agent_fix_doc(error: &str) -> (r: String)
    ensures
        r@ == agent_fix_doc(error@),
{
    let mut r = copy_str("# Fix Plan\n\nAgent execution failed:\n\n```text\n");
    push_str(&mut r, error);
    push_str(&mut r, "\n```");
    r
}

/// Builds the text that `command_verified_doc` describes.
pub fn build_command_verified_doc() -> (r: String)
    ensures
        r@ == command_verified_doc(),
{
    copy_str("# Verification\n\nConfigured verification command passed successfully.\n")
}

/// Builds the text that `verified_doc` describes.
pub fn build_verified_doc() -> (r: String)
    ensures
        r@ == verified_doc(),
{
    copy_str("# Verification\nPlaywright UI/UX tests passed successfully.")
}

/// Builds the text that `fix_prompt` describes.
pub fn build_fix_prompt(error: &str) -> (r: String)
    ensures
        r@ == fix_prompt(error@),
{
    let mut r = copy_str(
        "Create a concise Markdown fix plan for this failed verification. Include probable root cause, exact corrective steps, and the verification to rerun.\n\nError:\n",
    );
    push_str(&mut r, error);
    r
}

/// Builds the text that `fallback_fix_doc` describes.
pub fn build_fallback_fix_doc(error: &str) -> (r: String)
    ensures
        r@ == fallback_fix_doc(error@),
{
    let mut r = copy_str("# Fix Plan\n\n## Verification error\n\n```text\n");
    push_str(&mut r, error);
    push_str(
        &mut r,
        "\n```\n\n## Required action\n\nInspect the failing command output, correct its root cause, then rerun the configured verification command.",
    );
    r
}

/// Builds the text that `revise_prompt` describes.
pub fn build_revise_prompt(plan: &str, feedback: &str) -> (r: String)
    ensures
        r@ == revise_prompt(plan@, feedback@),
{
    let mut r = copy_str(
        "Revise this coding plan using the user's feedback. Return only the revised Markdown plan.\n\nPlan:\n",
    );
    push_str(&mut r, plan);
    push_str(&mut r, "\n\nFeedback:\n");
    push_str(&mut r, feedback);
    r
}

/// Builds the text that `fallback_revision` describes.
pub fn build_fallback_revision(plan: &str, feedback: &str) -> (r: String)
    ensures
        r@ == fallback_revision(plan@, feedback@),
{
    let mut r = copy_str(plan);
    push_str(&mut r, "\n\n## User-requested revision\n\n- ");
    push_str(&mut r, feedback);
    push_str(&mut r, "\n\n> Explicit approval is still required before execution.\n");
    r
}

/// Builds the text that `tauri_prompt` describes.
pub fn build_tauri_prompt() -> (r: String)
    ensures
        r@ == tauri_prompt(),
{
    copy_str(
        "Evaluate this Tauri configuration for vulnerabilities. Respond with a short summary and end with either 'SAFE' or 'DANGER'.\n\n```json\n{\n  \"build\": {\n    \"beforeDevCommand\": \"npm run dev\",\n    \"beforeBuildCommand\": \"npm run build\",\n    \"devPath\": \"http://localhost:1420\",\n    \"distDir\": \"../dist\"\n  }\n}\n```",
    )
}

/// Builds the text that `ai_audit_doc` describes.
pub fn build_ai_audit_doc(reply: &str) -> (r: String)
    ensures
        r@ == ai_audit_doc(reply@),
{
    let mut r = copy_str("# Tauri Security Audit (AI)\n\nResult:\n");
    push_str(&mut r, reply);
    r
}

/// Builds the text that `fallback_audit_doc` describes.
pub fn build_fallback_audit_doc() -> (r: String)
    ensures
        r@ == fallback_audit_doc(),
{
    copy_str(
        "# Tauri Security Audit\n\nNo dangerous `shell:execute` scopes detected. Proceeding.",
    )
}

/// Builds the text that `design_tokens_doc` describes.
pub fn build_design_tokens_doc() -> (r: String)
    ensures
        r@ == design_tokens_doc(),
{
    copy_str(
        ":root {\n  --glass-bg: rgba(20, 20, 20, 0.45);\n  --glass-border: rgba(255, 255, 255, 0.1);\n  --glass-blur: blur(16px);\n}\n",
    )
}

/// Builds the text that `interrupted_feedback` describes.
pub fn build_interrupted_feedback(stage: VesperStage) -> (r: String)
    ensures
        r@ == interrupted_feedback(stage),
{
    let mut r = copy_str("이전 실행이 ");
    push_str(&mut r, stage.name());
    push_str(&mut r, " 단계에서 중단됨; 재실행 승인 필요");
    r
}

/// The memory context: the memory server's output where it answered,
/// otherwise the built-in profile.
pub fn memory_context(server_output: Option<String>) -> (r: String)
    ensures
        r@ == match server_output {
            Some(s) => s@,
            None => fallback_memory(),
        },
{
    match server_output {
        Some(s) => s,
        None => copy_str(
            "USER_PREF: Svelte + Tauri (V2), STYLING: Tailwind CSS (Liquid Glass, Dark Mode), SECURITY: High",
        ),
    }
}

/// Builds the text that `sprocket_task` describes.
pub fn build_sprocket_task(design: &str) -> (r: String)
    ensures
        r@ == sprocket_task(design@),
{
    let mut r = copy_str("sprocket 하드웨어 ");
    push_str(&mut r, design);
    r
}

/// Builds the text that `workflow_doc` describes.
pub fn build_workflow_doc() -> (r: String)
    ensures
        r@ == workflow_doc(),
{
    copy_str(
        "name: Vesper Agent CI\non: [push, pull_request]\njobs:\n  vesper-run:\n    runs-on: ubuntu-latest\n    steps:\n      - uses: actions/checkout@v3\n      - name: Run Vesper Pipeline\n        run: |\n          echo \"Executing Vesper 5-Stage Engine via GitHub Actions...\"\n          # Mock: SWE-agent integration\n          echo \"SWE-agent completed successfully.\"\n",
    )
}

} // verus!

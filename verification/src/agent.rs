//! The external commands the engine runs: the coding agent and the
//! verification command, built from their configured argument templates, and
//! the error report kept from a failed run.
use vstd::prelude::*;
use crate::json::{json_refusal, json_string_array, parse_string_array};
use crate::text::{copy_str, joined, push_str, replace, replace_all, strings_view};

verus! {

/// A program and its arguments.
#[derive(Debug)]
pub struct AgentCommand {
    pub program: String,
    pub args: Vec<String>,
}

/// The model of an [`AgentCommand`].
pub struct CommandView {
    pub program: Seq<char>,
    pub args: Seq<Seq<char>>,
}

impl View for AgentCommand {
    type V = CommandView;

    open spec fn view(&self) -> CommandView {
        CommandView { program: self.program@, args: strings_view(self.args@) }
    }
}

/// The prefix of the error reported when the agent's argument template is
/// not a JSON array of strings.
pub open spec fn agent_args_error() -> Seq<char> {
    "VESPER_AGENT_ARGS_JSON은 JSON 문자열 배열이어야 합니다: "@
}

/// The prefix of the error reported when the verification argument template
/// is not a JSON array of strings.
pub open spec fn verify_args_error() -> Seq<char> {
    "VESPER_VERIFY_ARGS_JSON 형식 오류: "@
}

/// The instruction handed to the agent.
pub open spec fn agent_instruction(task: Seq<char>, retry: u32) -> Seq<char> {
    "Task: "@ + task + "\nRead .vesper/plan.md, .vesper/risk.md, and .vesper/instruction.md."@
        + (if retry > 0 {
        " Read .vesper/fix_plan.md and apply it before verification."@
    } else {
        Seq::empty()
    }) + " Execute the approved plan in this working directory."@
}

/// One argument with `{task}` and then `{instruction}` filled in.
pub open spec fn fill_argument(arg: Seq<char>, task: Seq<char>, instruction: Seq<char>) -> Seq<
    char,
> {
    replace_all(replace_all(arg, "{task}"@, task), "{instruction}"@, instruction)
}

/// The agent's arguments: every template argument filled in.
pub open spec fn agent_args(template: Seq<Seq<char>>, task: Seq<char>, retry: u32) -> Seq<
    Seq<char>,
> {
    template.map_values(|a: Seq<char>| fill_argument(a, task, agent_instruction(task, retry)))
}

/// Builds the instruction handed to the agent.
pub fn build_agent_instruction(task: &str, retry: u32) -> (r: String)
    ensures
        r@ == agent_instruction(task@, retry),
{
    let mut r = copy_str("Task: ");
    push_str(&mut r, task);
    push_str(&mut r, "\nRead .vesper/plan.md, .vesper/risk.md, and .vesper/instruction.md.");
    if retry > 0 {
        push_str(&mut r, " Read .vesper/fix_plan.md and apply it before verification.");
    } else {
        assert(r@ + Seq::<char>::empty() =~= r@);
    }
    push_str(&mut r, " Execute the approved plan in this working directory.");
    r
}

/// The agent command: the configured program, with the argument template
/// read as a JSON array of strings and `{task}` and `{instruction}` filled
/// into each argument. Fails, with serde_json's message, where the template is
/// not such an array.
pub fn agent_command(program: String, args_json: &str, task: &str, retry: u32) -> (r: Result<
    AgentCommand,
    String,
>)
    ensures
        json_string_array(args_json@) is Some <==> r is Ok,
        r matches Ok(c) ==> c@.program == program@ && c@.args == agent_args(
            json_string_array(args_json@)->0,
            task@,
            retry,
        ),
        r matches Err(m) ==> m@ == agent_args_error() + json_refusal(args_json@),
{
    match parse_string_array(args_json) {
        Err(e) => {
            let mut m = copy_str("VESPER_AGENT_ARGS_JSON은 JSON 문자열 배열이어야 합니다: ");
            push_str(&mut m, e.as_str());
            Err(m)
        },
        Ok(template) => {
            let instruction = build_agent_instruction(task, retry);
            let ghost t = strings_view(template@);
            let ghost ins = agent_instruction(task@, retry);
            proof {
                reveal_strlit("{task}");
                reveal_strlit("{instruction}");
            }
            let mut args: Vec<String> = Vec::new();
            let mut i: usize = 0;
            while i < template.len()
                invariant
                    i <= template@.len(),
                    t == strings_view(template@),
                    instruction@ == ins,
                    "{task}"@.len() > 0,
                    "{instruction}"@.len() > 0,
                    strings_view(args@) == t.take(i as int).map_values(
                        |a: Seq<char>| fill_argument(a, task@, ins),
                    ),
                decreases template.len() - i,
            {
                let step = replace(template[i].as_str(), "{task}", task);
                let filled = replace(step.as_str(), "{instruction}", instruction.as_str());
                let ghost before = strings_view(args@);
                args.push(filled);
                proof {
                    assert(strings_view(args@) =~= before.push(filled@));
                    assert(t.take(i + 1) =~= t.take(i as int).push(t[i as int]));
                    assert(t.take(i + 1).map_values(|a: Seq<char>| fill_argument(a, task@, ins))
                        =~= t.take(i as int).map_values(
                        |a: Seq<char>| fill_argument(a, task@, ins),
                    ).push(fill_argument(t[i as int], task@, ins)));
                }
                i = i + 1;
            }
            assert(t.take(t.len() as int) =~= t);
            Ok(AgentCommand { program, args })
        },
    }
}

/// The verification command: the configured program with the argument
/// template read as a JSON array of strings, or serde_json's message where it
/// is not one.
pub fn verify_command(program: String, args_json: &str) -> (r: Result<AgentCommand, String>)
    ensures
        json_string_array(args_json@) is Some <==> r is Ok,
        r matches Ok(c) ==> c@.program == program@ && c@.args == json_string_array(
            args_json@,
        )->0,
        r matches Err(m) ==> m@ == verify_args_error() + json_refusal(args_json@),
{
    match parse_string_array(args_json) {
        Err(e) => {
            let mut m = copy_str("VESPER_VERIFY_ARGS_JSON 형식 오류: ");
            push_str(&mut m, e.as_str());
            Err(m)
        },
        Ok(args) => Ok(AgentCommand { program, args }),
    }
}

// ---------------------------------------------------------------------------
// The stderr tail of a run
// ---------------------------------------------------------------------------

/// How many stderr lines of a run are kept for the error report.
pub const STDERR_TAIL_LINES: usize = 50;

/// The tail after one more line: the oldest line leaves once the tail is
/// full.
pub open spec fn tail_push(tail: Seq<Seq<char>>, line: Seq<char>) -> Seq<Seq<char>> {
    if tail.len() == STDERR_TAIL_LINES {
        tail.drop_first().push(line)
    } else {
        tail.push(line)
    }
}

/// The tail after the lines, one by one, starting from an empty tail.
pub open spec fn tail_after(lines: Seq<Seq<char>>) -> Seq<Seq<char>>
    decreases lines.len(),
{
    if lines.len() == 0 {
        Seq::empty()
    } else {
        tail_push(tail_after(lines.drop_last()), lines.last())
    }
}

/// Keeps one more stderr line.
pub fn push_tail(tail: &mut Vec<String>, line: String)
    ensures
        strings_view(final(tail)@) == tail_push(strings_view(old(tail)@), line@),
{
    let ghost before = strings_view(tail@);
    if tail.len() == STDERR_TAIL_LINES {
        tail.remove(0);
        assert(strings_view(tail@) =~= before.drop_first());
    }
    let ghost mid = strings_view(tail@);
    tail.push(line);
    assert(strings_view(tail@) =~= mid.push(line@));
}

/// The prefix of the report of a run that ended in failure.
pub open spec fn failed_run_prefix() -> Seq<char> {
    "에이전트가 실패 상태로 종료했습니다: "@
}

/// The report of a run that ended with `status`: the status, then the kept
/// stderr lines.
pub open spec fn failed_run_report(status: Seq<char>, tail: Seq<Seq<char>>) -> Seq<char> {
    failed_run_prefix() + status + "\n"@ + joined(tail, "\n"@)
}

/// Builds the report of a run that ended in failure.
pub fn build_failed_run_report(status: &str, tail: &Vec<String>) -> (r: String)
    ensures
        r@ == failed_run_report(status@, strings_view(tail@)),
{
    let mut r = copy_str("에이전트가 실패 상태로 종료했습니다: ");
    push_str(&mut r, status);
    push_str(&mut r, "\n");
    let j = crate::text::join(tail, "\n");
    push_str(&mut r, j.as_str());
    r
}

} // verus!

# Vesper Harness

An approval-gated five-stage engine for autonomous AI coding:
Idle → Analyze → Risk Scan → Plan → Pending Approval → Execute → Verify.

The engine itself (`src/`) is written in Verus. It performs no I/O: every
turn it returns the log lines, workspace files and pauses to carry out and a
single request (store the snapshot, ask the AI service, run the agent, wait
for the next command, ...). The answer to that request is the event of the
next turn. The transition function `machine::transition` states exactly what
each turn does, and `laws` proves properties that span turns, among them:

- Execute is entered only on an explicit approval of a plan awaiting it, or
  as a retry after a failed verification (at most three failures); over a
  whole run, every command run is preceded by such an approval with no new
  task started since, and a run without approval never reaches Execute;
- processing stops only idle, waiting for approval, or with a state error;
- feedback at the approval prompt revises `plan.md` and keeps waiting;
- every stage change is followed by storing the snapshot;
- resuming a stored snapshot restores the task, never lands in Execute, and
  asks again for approval after an interrupted Execute or Verify;
- storing a snapshot replaces `state.json` only with a fully written
  temporary file, and puts the backup back when the swap fails; wherever a
  store stops, the first snapshot file a resume reads is whole;
- the error report of a failed run keeps the last fifty stderr lines.

`app/` is the program around it: the terminal interface and the headless
`--yes` mode, the snapshot file in JSON, the agent and verification
processes, the memory server and the HTTP calls to Gemini or Groq.

Skills and rules come from two libraries of Markdown files, read whenever a
stage needs them: `VESPER_SKILLS_DIR` (default `./skills`) and
`VESPER_RULES_DIR` (default `./rules`). A skill file is injected for the tag
it is named after (`execute.md`, `risk.md`, `frontend.md`); a rule file
applies to the target files with the extension it is named after
(`svelte.md` to `*.svelte`). Where a library has no file for a tag or a
target file, the engine's fixed skill or rule is injected instead.
The same program, installed or linked under the name `test_skills`,
checks that every skill file can be injected.

Further configuration is read from the environment:
`VESPER_AGENT_PROGRAM`, `VESPER_AGENT_ARGS_JSON` (with `{task}` and
`{instruction}` placeholders), `VESPER_VERIFY_PROGRAM`,
`VESPER_VERIFY_ARGS_JSON`, `GEMINI_API_KEY` and `GROQ_API_KEY`.

//! The settings the engine runs with where the environment sets none.
use vstd::prelude::*;

verus! {

/// The rule library's directory where `VESPER_RULES_DIR` is not set.
pub fn default_rules_dir() -> (r: &'static str)
    ensures
        r@ == "./rules"@,
{
    "./rules"
}

/// The skill library's directory where `VESPER_SKILLS_DIR` is not set.
pub fn default_skills_dir() -> (r: &'static str)
    ensures
        r@ == "./skills"@,
{
    "./skills"
}

/// The coding agent where `VESPER_AGENT_PROGRAM` is not set.
pub fn default_agent_program() -> (r: &'static str)
    ensures
        r@ == "aider"@,
{
    "aider"
}

/// The agent's argument template where `VESPER_AGENT_ARGS_JSON` is not set.
pub fn default_agent_args_json() -> (r: &'static str)
    ensures
        r@ == "[\"--message\",\"{instruction}\"]"@,
{
    "[\"--message\",\"{instruction}\"]"
}

/// The verification program where `VESPER_VERIFY_PROGRAM` is not set.
pub fn default_verify_program() -> (r: &'static str)
    ensures
        r@ == "cargo"@,
{
    "cargo"
}

/// The verification arguments where `VESPER_VERIFY_ARGS_JSON` is not set.
pub fn default_verify_args_json() -> (r: &'static str)
    ensures
        r@ == "[\"test\",\"--all-targets\"]"@,
{
    "[\"test\",\"--all-targets\"]"
}

/// A setting: the value that is set, or else the default.
pub fn setting_or(value: Option<String>, default: &str) -> (r: String)
    ensures
        r@ == match value {
            Some(v) => v@,
            None => default@,
        },
{
    match value {
        Some(v) => v,
        None => crate::text::copy_str(default),
    }
}

} // verus!

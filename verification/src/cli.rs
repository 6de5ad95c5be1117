//! Reading the command line: help, resume, automatic approval, and the task
//! to start with.
use vstd::prelude::*;
use crate::text::{has_prefix, joined, strings_view, copy_str, push_str};

verus! {

/// The arguments that are options rather than words of the task.
pub open spec fn is_option(a: Seq<char>) -> bool {
    a == "--resume"@ || a == "--yes"@ || a == "-y"@
}

/// The arguments that ask for help.
pub open spec fn is_help(a: Seq<char>) -> bool {
    a == "--help"@ || a == "-h"@
}

/// The words of the task: the arguments other than options, in order.
pub open spec fn task_words(args: Seq<Seq<char>>) -> Seq<Seq<char>>
    decreases args.len(),
{
    if args.len() == 0 {
        Seq::empty()
    } else if is_option(args.last()) {
        task_words(args.drop_last())
    } else {
        task_words(args.drop_last()).push(args.last())
    }
}

/// The first command: the task words joined by spaces, as a `/task` command
/// unless they already form a command.
pub open spec fn first_command(words: Seq<Seq<char>>) -> Option<Seq<char>> {
    if words.len() == 0 {
        None
    } else {
        let input = joined(words, " "@);
        if has_prefix(input, "/"@) {
            Some(input)
        } else {
            Some("/task "@ + input)
        }
    }
}

/// How the program is to run.
pub enum LaunchOf<S> {
    /// Print the usage and stop.
    Help,
    /// Run without the terminal interface, approving the plan once.
    Headless { resume: bool, command: Option<S> },
    /// Run the terminal interface.
    Interactive { resume: bool, command: Option<S> },
}

pub type Launch = LaunchOf<String>;

pub type LaunchView = LaunchOf<Seq<char>>;

impl View for LaunchOf<String> {
    type V = LaunchView;

    open spec fn view(&self) -> LaunchView {
        match self {
            LaunchOf::Help => LaunchOf::Help,
            LaunchOf::Headless { resume, command } => LaunchOf::Headless {
                resume: *resume,
                command: crate::text::opt_view(*command),
            },
            LaunchOf::Interactive { resume, command } => LaunchOf::Interactive {
                resume: *resume,
                command: crate::text::opt_view(*command),
            },
        }
    }
}

/// Why the command line is refused.
#[derive(Debug, PartialEq, Eq, Clone, Copy, Structural)]
pub enum CliError {
    /// `--resume` was given together with a task.
    ResumeWithTask,
    /// `--yes` was given with neither a task nor `--resume`.
    YesWithoutTask,
}

/// The reading of a command line: help wins over everything; `--resume`
/// cannot come with a task; `--yes` needs a task or `--resume` and runs
/// without the terminal interface.
pub open spec fn launch_of(args: Seq<Seq<char>>) -> Result<LaunchView, CliError> {
    let resume = args.contains("--resume"@);
    let yes = args.contains("--yes"@) || args.contains("-y"@);
    let words = task_words(args);
    let command = first_command(words);
    if exists|i: int| 0 <= i < args.len() && is_help(#[trigger] args[i]) {
        Ok(LaunchOf::Help)
    } else if resume && words.len() > 0 {
        Err(CliError::ResumeWithTask)
    } else if yes {
        if command is None && !resume {
            Err(CliError::YesWithoutTask)
        } else {
            Ok(LaunchOf::Headless { resume, command })
        }
    } else {
        Ok(LaunchOf::Interactive { resume, command })
    }
}

/// Only `--yes` (or `-y`) runs without the terminal interface: a command
/// line with neither never runs headless (`--resume` alone opens the
/// interface, where the restored plan waits for the user's approval), and
/// one with either never opens the interface.
pub proof fn law_only_yes_runs_headless(args: Seq<Seq<char>>)
    ensures
        !(args.contains("--yes"@) || args.contains("-y"@)) ==> !(launch_of(args) matches Ok(
            LaunchOf::Headless { .. },
        )),
        (args.contains("--yes"@) || args.contains("-y"@)) ==> !(launch_of(args) matches Ok(
            LaunchOf::Interactive { .. },
        )),
{
}

fn any_is(args: &Vec<String>, a: &str, b: &str) -> (r: bool)
    ensures
        r == (strings_view(args@).contains(a@) || strings_view(args@).contains(b@)),
{
    let mut i: usize = 0;
    while i < args.len()
        invariant
            i <= args@.len(),
            forall|k: int| 0 <= k < i ==> args@[k]@ != a@ && args@[k]@ != b@,
        decreases args.len() - i,
    {
        if crate::text::str_eq(args[i].as_str(), a) || crate::text::str_eq(args[i].as_str(), b) {
            assert(strings_view(args@)[i as int] == args@[i as int]@);
            return true;
        }
        i = i + 1;
    }
    proof {
        if strings_view(args@).contains(a@) {
            let k = choose|k: int| 0 <= k < strings_view(args@).len() && strings_view(args@)[k] == a@;
            assert(args@[k]@ == a@);
        }
        if strings_view(args@).contains(b@) {
            let k = choose|k: int| 0 <= k < strings_view(args@).len() && strings_view(args@)[k] == b@;
            assert(args@[k]@ == b@);
        }
    }
    false
}

fn is_option_arg(a: &str) -> (r: bool)
    ensures
        r == is_option(a@),
{
    crate::text::str_eq(a, "--resume") || crate::text::str_eq(a, "--yes") || crate::text::str_eq(a, "-y")
}

/// Reads the command line (the arguments after the program name).
pub fn parse_cli(args: &Vec<String>) -> (r: Result<Launch, CliError>)
    ensures
        match launch_of(strings_view(args@)) {
            Ok(l) => r matches Ok(x) && x@ == l,
            Err(e) => r == Err::<Launch, CliError>(e),
        },
{
    let ghost sv = strings_view(args@);
    let help = any_is(args, "--help", "-h");
    proof {
        if help {
            if sv.contains("--help"@) {
                let k = choose|k: int| 0 <= k < sv.len() && sv[k] == "--help"@;
                assert(is_help(sv[k]));
            } else {
                let k = choose|k: int| 0 <= k < sv.len() && sv[k] == "-h"@;
                assert(is_help(sv[k]));
            }
        } else {
            assert forall|i: int| 0 <= i < sv.len() implies !is_help(#[trigger] sv[i]) by {
                if is_help(sv[i]) {
                    assert(sv.contains(sv[i]));
                }
            }
        }
    }
    if help {
        return Ok(LaunchOf::Help);
    }
    let resume = any_is(args, "--resume", "--resume");
    let yes = any_is(args, "--yes", "-y");
    let mut words: Vec<String> = Vec::new();
    let mut i: usize = 0;
    assert(sv.take(0) =~= Seq::<Seq<char>>::empty());
    while i < args.len()
        invariant
            i <= args@.len(),
            sv == strings_view(args@),
            strings_view(words@) == task_words(sv.take(i as int)),
        decreases args.len() - i,
    {
        let ghost before = strings_view(words@);
        let ghost t = sv.take(i + 1);
        assert(t.drop_last() =~= sv.take(i as int));
        assert(t.last() == args@[i as int]@);
        if !is_option_arg(args[i].as_str()) {
            words.push(copy_str(args[i].as_str()));
            assert(strings_view(words@) =~= before.push(args@[i as int]@));
        }
        i = i + 1;
    }
    assert(sv.take(args@.len() as int) =~= sv);
    if resume && words.len() > 0 {
        return Err(CliError::ResumeWithTask);
    }
    let command = if words.len() == 0 {
        None
    } else {
        let input = crate::text::join(&words, " ");
        if crate::text::starts_with(input.as_str(), "/") {
            Some(input)
        } else {
            let mut c = copy_str("/task ");
            push_str(&mut c, input.as_str());
            Some(c)
        }
    };
    if yes {
        if command.is_none() && !resume {
            return Err(CliError::YesWithoutTask);
        }
        Ok(LaunchOf::Headless { resume, command })
    } else {
        Ok(LaunchOf::Interactive { resume, command })
    }
}

} // verus!

use vstd::prelude::*;

use crate::options::{LaunchConfig, Outcome, OutcomeView};

verus! {

/// The editor executable, looked up on the search path.
pub const EDITOR: &'static str = "code";

/// The version-control client, looked up on the search path.
pub const GIT: &'static str = "git";

/// The exit status when the editor cannot be started: the rest of the
/// session depends on it, so this is a failure.
pub const EDITOR_FAILURE_EXIT: i32 = 1;

/// The arguments that open the editor in a new window, with the
/// configuration's profile, on its directory.
pub fn editor_args(config: &LaunchConfig) -> (r: Vec<String>)
    ensures
        r@.len() == 4,
        r@[0]@ == "--new-window"@,
        r@[1]@ == "--profile"@,
        r@[2]@ == config.profile.spec_name(),
        r@[3]@ == config.cwd@,
{
    let mut r: Vec<String> = Vec::new();
    r.push("--new-window".to_owned());
    r.push("--profile".to_owned());
    r.push(config.profile.name());
    r.push(config.cwd.clone());
    r
}

/// The exit status with which the program stops right after parsing, or
/// `None` where it goes on to launch the editor.
pub open spec fn spec_early_exit(o: OutcomeView) -> Option<i32> {
    match o {
        OutcomeView::Launch(_) => None,
        OutcomeView::Help => Some(0),
        OutcomeView::Extensions(_) => Some(1),
        OutcomeView::NoDirectory => Some(1),
    }
}

/// The exit status with which the program stops right after parsing: `0`
/// after usage text, a failure for the unfinished extensions feature or an
/// unresolved directory; `None` where it goes on to launch the editor.
pub fn early_exit(outcome: &Outcome) -> (r: Option<i32>)
    ensures
        r == spec_early_exit(outcome.view()),
{
    match outcome {
        Outcome::Launch(_) => None,
        Outcome::Help => Some(0),
        Outcome::Extensions(_) => Some(1),
        Outcome::NoDirectory => Some(1),
    }
}

/// The usage text, line by line.
pub fn usage_lines() -> (r: Vec<String>)
    ensures
        r@.len() == 7,
        r@[0]@ == "dev_startup - opens the editor in a directory with a chosen profile, and sets up version control."@,
        r@[1]@ == "Usage:"@,
        r@[2]@ == "  --profile, -p <name>          Editor profile to use: Blank or Rust, in any case (default Blank)"@,
        r@[3]@ == "  --cwd, -c <path>              Directory to work in (default: the current directory)"@,
        r@[4]@ == "  --git, -g                     Initialise the repository, or pull the latest changes"@,
        r@[5]@ == "  --vs-extensions, -e <a,b>     Editor extensions to install (not implemented yet)"@,
        r@[6]@ == "  --help, -h                    Show this help message"@,
{
    let mut r: Vec<String> = Vec::new();
    r.push("dev_startup - opens the editor in a directory with a chosen profile, and sets up version control.".to_owned());
    r.push("Usage:".to_owned());
    r.push("  --profile, -p <name>          Editor profile to use: Blank or Rust, in any case (default Blank)".to_owned());
    r.push("  --cwd, -c <path>              Directory to work in (default: the current directory)".to_owned());
    r.push("  --git, -g                     Initialise the repository, or pull the latest changes".to_owned());
    r.push("  --vs-extensions, -e <a,b>     Editor extensions to install (not implemented yet)".to_owned());
    r.push("  --help, -h                    Show this help message".to_owned());
    r
}

} // verus!

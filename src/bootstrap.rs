use vstd::prelude::*;

verus! {

/// A version-control subcommand run in the target directory.
#[derive(Clone, Copy, Debug, PartialEq, Eq, Structural)]
pub enum GitCommand {
    /// Query the repository's status.
    Status,
    /// Pull the latest changes from the configured remote.
    Pull,
    /// Create a new repository.
    Init,
}

/// How the bootstrap ends.
#[derive(Clone, Copy, Debug, PartialEq, Eq, Structural)]
pub enum BootstrapResult {
    /// A new repository was created.
    Initialized,
    /// The existing repository was brought up to date.
    Pulled,
    /// This command failed; no further command is run.
    Failed(GitCommand),
}

/// What the bootstrap does next.
#[derive(Clone, Copy, Debug, PartialEq, Eq, Structural)]
pub enum Next {
    /// Run this command and report whether it succeeded.
    Run(GitCommand),
    /// Stop with this result.
    Done(BootstrapResult),
}

/// The first step: sync an existing repository, or create one.
pub open spec fn spec_start(repo_present: bool) -> Next {
    if repo_present {
        Next::Run(GitCommand::Status)
    } else {
        Next::Run(GitCommand::Init)
    }
}

/// The step after `cmd` has run, having succeeded or not.
pub open spec fn spec_after(cmd: GitCommand, succeeded: bool) -> Next {
    if !succeeded {
        Next::Done(BootstrapResult::Failed(cmd))
    } else {
        match cmd {
            GitCommand::Status => Next::Run(GitCommand::Pull),
            GitCommand::Pull => Next::Done(BootstrapResult::Pulled),
            GitCommand::Init => Next::Done(BootstrapResult::Initialized),
        }
    }
}

/// The first step of the bootstrap, given whether the target directory
/// already holds repository metadata.
pub fn start(repo_present: bool) -> (r: Next)
    ensures
        r == spec_start(repo_present),
{
    if repo_present {
        Next::Run(GitCommand::Status)
    } else {
        Next::Run(GitCommand::Init)
    }
}

/// The step after `cmd` has run; `succeeded` is whether it exited with success.
pub fn after(cmd: GitCommand, succeeded: bool) -> (r: Next)
    ensures
        r == spec_after(cmd, succeeded),
{
    if !succeeded {
        Next::Done(BootstrapResult::Failed(cmd))
    } else {
        match cmd {
            GitCommand::Status => Next::Run(GitCommand::Pull),
            GitCommand::Pull => Next::Done(BootstrapResult::Pulled),
            GitCommand::Init => Next::Done(BootstrapResult::Initialized),
        }
    }
}

/// The subcommand word of `cmd`.
pub open spec fn command_word(cmd: GitCommand) -> Seq<char> {
    match cmd {
        GitCommand::Status => "status"@,
        GitCommand::Pull => "pull"@,
        GitCommand::Init => "init"@,
    }
}

/// The arguments for the version-control client that run `cmd` in `dir`.
pub fn git_args(cmd: GitCommand, dir: &str) -> (r: Vec<String>)
    ensures
        r@.len() == 3,
        r@[0]@ == "-C"@,
        r@[1]@ == dir@,
        r@[2]@ == command_word(cmd),
{
    let word = match cmd {
        GitCommand::Status => "status".to_owned(),
        GitCommand::Pull => "pull".to_owned(),
        GitCommand::Init => "init".to_owned(),
    };
    let mut r: Vec<String> = Vec::new();
    r.push("-C".to_owned());
    r.push(dir.to_owned());
    r.push(word);
    r
}

/// The commands run from step `n` on, and the result where one is reached,
/// when the commands' exit statuses come from `exits` in order.
pub open spec fn drive(n: Next, exits: Seq<bool>) -> (Seq<GitCommand>, Option<BootstrapResult>)
    decreases exits.len(),
{
    match n {
        Next::Done(r) => (Seq::empty(), Some(r)),
        Next::Run(c) => if exits.len() == 0 {
            (seq![c], None)
        } else {
            let rest = drive(spec_after(c, exits[0]), exits.drop_first());
            (seq![c] + rest.0, rest.1)
        },
    }
}

/// Without repository metadata the bootstrap runs the initialising command
/// alone, and succeeds exactly when that command does; it never pulls.
pub proof fn law_absent_repository_initializes(exits: Seq<bool>)
    requires
        exits.len() >= 1,
    ensures
        drive(spec_start(false), exits).0 == seq![GitCommand::Init],
        drive(spec_start(false), exits).1 == Some(
            if exits[0] {
                BootstrapResult::Initialized
            } else {
                BootstrapResult::Failed(GitCommand::Init)
            },
        ),
{
    reveal_with_fuel(drive, 2);
    assert(seq![GitCommand::Init] + Seq::<GitCommand>::empty() =~= seq![GitCommand::Init]);
}

/// With repository metadata the bootstrap queries the status, then pulls
/// only where that succeeded; it succeeds exactly when both succeed, and it
/// never initialises.
pub proof fn law_present_repository_syncs(exits: Seq<bool>)
    requires
        exits.len() >= 2,
    ensures
        drive(spec_start(true), exits).0 == if exits[0] {
            seq![GitCommand::Status, GitCommand::Pull]
        } else {
            seq![GitCommand::Status]
        },
        drive(spec_start(true), exits).1 == Some(
            if !exits[0] {
                BootstrapResult::Failed(GitCommand::Status)
            } else if !exits[1] {
                BootstrapResult::Failed(GitCommand::Pull)
            } else {
                BootstrapResult::Pulled
            },
        ),
        !drive(spec_start(true), exits).0.contains(GitCommand::Init),
{
    reveal_with_fuel(drive, 3);
    let e1 = exits.drop_first();
    assert(seq![GitCommand::Status] + Seq::<GitCommand>::empty() =~= seq![GitCommand::Status]);
    assert(seq![GitCommand::Pull] + Seq::<GitCommand>::empty() =~= seq![GitCommand::Pull]);
    assert(seq![GitCommand::Status] + seq![GitCommand::Pull] =~= seq![
        GitCommand::Status,
        GitCommand::Pull,
    ]);
    let cs = drive(spec_start(true), exits).0;
    assert(!cs.contains(GitCommand::Init)) by {
        if cs.contains(GitCommand::Init) {
            let k = choose|k: int| 0 <= k < cs.len() && cs[k] == GitCommand::Init;
        }
    }
}

} // verus!

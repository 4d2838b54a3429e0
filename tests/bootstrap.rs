use dev_startup::bootstrap::{after, git_args, start, BootstrapResult, GitCommand, Next};

/// Runs the bootstrap with the given exit statuses and returns the commands
/// run and the result.
fn simulate(repo_present: bool, exits: &[bool]) -> (Vec<GitCommand>, Option<BootstrapResult>) {
    let mut ran = Vec::new();
    let mut next = start(repo_present);
    let mut exits = exits.iter();
    loop {
        match next {
            Next::Done(r) => return (ran, Some(r)),
            Next::Run(c) => {
                ran.push(c);
                match exits.next() {
                    Some(ok) => next = after(c, *ok),
                    None => return (ran, None),
                }
            }
        }
    }
}

#[test]
fn absent_repository_is_initialised_without_pull() {
    assert_eq!(
        simulate(false, &[true, true]),
        (vec![GitCommand::Init], Some(BootstrapResult::Initialized))
    );
    assert_eq!(
        simulate(false, &[false]),
        (vec![GitCommand::Init], Some(BootstrapResult::Failed(GitCommand::Init)))
    );
}

#[test]
fn present_repository_queries_status_then_pulls() {
    assert_eq!(
        simulate(true, &[true, true]),
        (vec![GitCommand::Status, GitCommand::Pull], Some(BootstrapResult::Pulled))
    );
}

#[test]
fn failed_status_stops_without_initialising() {
    assert_eq!(
        simulate(true, &[false, true]),
        (vec![GitCommand::Status], Some(BootstrapResult::Failed(GitCommand::Status)))
    );
}

#[test]
fn failed_pull_is_reported() {
    assert_eq!(
        simulate(true, &[true, false]),
        (
            vec![GitCommand::Status, GitCommand::Pull],
            Some(BootstrapResult::Failed(GitCommand::Pull))
        )
    );
}

#[test]
fn git_arguments_are_scoped_to_the_directory() {
    assert_eq!(git_args(GitCommand::Status, "/p"), vec!["-C", "/p", "status"]);
    assert_eq!(git_args(GitCommand::Pull, "/p"), vec!["-C", "/p", "pull"]);
    assert_eq!(git_args(GitCommand::Init, "/q r"), vec!["-C", "/q r", "init"]);
    assert_eq!(start(true), Next::Run(GitCommand::Status));
    assert_eq!(start(false), Next::Run(GitCommand::Init));
}

use dev_startup::launch::{early_exit, editor_args, usage_lines, EDITOR_FAILURE_EXIT};
use dev_startup::options::{classify, parse_commands, Flag, LaunchConfig, Outcome, Parsed, Warning};
use dev_startup::profile::Profile;

fn strings(v: &[&str]) -> Vec<String> {
    v.iter().map(|s| s.to_string()).collect()
}

fn run(args: &[&str], is_dir: &[bool], fallback: Option<&str>) -> Parsed {
    parse_commands(&strings(args), &is_dir.to_vec(), fallback.map(|s| s.to_string()))
}

fn config(p: &Parsed) -> &LaunchConfig {
    match &p.outcome {
        Outcome::Launch(c) => c,
        _ => panic!("expected a configuration"),
    }
}

#[test]
fn empty_arguments_give_defaults() {
    let p = run(&[], &[], Some("/home/me/project"));
    let c = config(&p);
    assert_eq!(c.cwd, "/home/me/project");
    assert_eq!(c.profile, Profile::Blank);
    assert!(!c.git);
    assert!(p.warnings.is_empty());
    assert_eq!(early_exit(&p.outcome), None);
}

#[test]
fn profile_in_any_case_is_canonical() {
    for (word, want) in [
        ("Rust", Profile::Rust),
        ("rust", Profile::Rust),
        ("RUST", Profile::Rust),
        ("rUsT", Profile::Rust),
        ("blank", Profile::Blank),
        ("BLANK", Profile::Blank),
    ] {
        let p = run(&["--profile", word], &[false, false], Some("/w"));
        let c = config(&p);
        assert_eq!(c.profile, want);
        assert!(p.warnings.is_empty());
    }
    let p = run(&["-p", "RUST"], &[false, false], Some("/w"));
    assert_eq!(config(&p).profile.name(), "Rust");
    assert_eq!(Profile::Blank.name(), "Blank");
}

#[test]
fn unknown_profile_falls_back_to_blank() {
    let p = run(&["-p", "rust", "--profile", "python"], &[false; 4], Some("/w"));
    assert_eq!(config(&p).profile, Profile::Blank);
    assert_eq!(p.warnings, vec![Warning::UnknownProfile(3)]);
    assert_eq!(Profile::from_name("rusty"), None);
    assert_eq!(Profile::from_name(""), None);
}

#[test]
fn later_profile_flag_wins() {
    let p = run(&["-p", "rust", "-p", "blank"], &[false; 4], Some("/w"));
    assert_eq!(config(&p).profile, Profile::Blank);
}

#[test]
fn profile_flag_without_value_changes_nothing() {
    let p = run(&["-p", "rust", "--profile"], &[false; 3], Some("/w"));
    assert_eq!(config(&p).profile, Profile::Rust);
    assert!(p.warnings.is_empty());
}

#[test]
fn invalid_cwd_keeps_previous_directory() {
    let p = run(&["--cwd", "/missing"], &[false, false], Some("/w"));
    assert_eq!(config(&p).cwd, "/w");
    assert_eq!(p.warnings, vec![Warning::InvalidDirectory(1)]);

    let p = run(&["-c", "/a", "--cwd", "/missing"], &[false, true, false, false], Some("/w"));
    assert_eq!(config(&p).cwd, "/a");
    assert_eq!(p.warnings, vec![Warning::InvalidDirectory(3)]);
}

#[test]
fn valid_cwd_replaces_directory() {
    let p = run(&["--cwd", "/a", "-c", "/b"], &[false, true, false, true], Some("/w"));
    assert_eq!(config(&p).cwd, "/b");
}

#[test]
fn git_flag_enables_version_control() {
    let p = run(&["--git"], &[false], Some("/w"));
    assert!(config(&p).git);
    let p = run(&["-p", "rust", "-g"], &[false; 3], Some("/w"));
    assert!(config(&p).git);
    let p = run(&["-p", "rust"], &[false; 2], Some("/w"));
    assert!(!config(&p).git);
}

#[test]
fn git_as_a_flag_value_is_no_flag() {
    let p = run(&["--cwd", "--git"], &[false, false], Some("/w"));
    assert!(!config(&p).git);
    assert_eq!(p.warnings, vec![Warning::InvalidDirectory(1)]);
}

#[test]
fn extensions_flag_stops_with_failure() {
    let p = run(&["--vs-extensions", "rust-analyzer"], &[false, false], Some("/w"));
    assert!(matches!(p.outcome, Outcome::Extensions(Some(1))));
    let code = early_exit(&p.outcome);
    assert!(matches!(code, Some(c) if c != 0));
}

#[test]
fn extensions_flag_without_value_still_stops() {
    let p = run(&["-g", "-e"], &[false, false], Some("/w"));
    assert!(matches!(p.outcome, Outcome::Extensions(None)));
    assert_eq!(early_exit(&p.outcome), Some(1));
}

#[test]
fn help_stops_with_success() {
    let p = run(&["--help"], &[false], Some("/w"));
    assert!(matches!(p.outcome, Outcome::Help));
    assert_eq!(early_exit(&p.outcome), Some(0));
    let text = usage_lines().join("\n");
    for flag in ["--profile", "--cwd", "--git", "--vs-extensions", "--help"] {
        assert!(text.contains(flag), "usage lacks {}", flag);
    }
}

#[test]
fn first_halting_flag_decides() {
    let p = run(&["-h", "-e", "x"], &[false; 3], Some("/w"));
    assert!(matches!(p.outcome, Outcome::Help));
    let p = run(&["-e", "x", "-h"], &[false; 3], Some("/w"));
    assert!(matches!(p.outcome, Outcome::Extensions(Some(1))));
}

#[test]
fn unknown_arguments_warn_and_continue() {
    let p = run(&["--verbose", "-g", "stray"], &[false; 3], Some("/w"));
    assert!(config(&p).git);
    assert_eq!(p.warnings, vec![Warning::UnknownArgument(0), Warning::UnknownArgument(2)]);
}

#[test]
fn warnings_before_a_halt_are_kept() {
    let p = run(&["--nope", "--help"], &[false; 2], Some("/w"));
    assert!(matches!(p.outcome, Outcome::Help));
    assert_eq!(p.warnings, vec![Warning::UnknownArgument(0)]);
}

#[test]
fn unresolved_directory_is_fatal() {
    let p = run(&["-g"], &[false], None);
    assert!(matches!(p.outcome, Outcome::NoDirectory));
    assert_eq!(early_exit(&p.outcome), Some(1));
    let p = run(&["-c", "/x"], &[false, true], None);
    assert_eq!(config(&p).cwd, "/x");
}

#[test]
fn flags_are_classified_exactly() {
    assert_eq!(classify("--profile"), Flag::Profile);
    assert_eq!(classify("-p"), Flag::Profile);
    assert_eq!(classify("-c"), Flag::Cwd);
    assert_eq!(classify("--git"), Flag::Git);
    assert_eq!(classify("-e"), Flag::Extensions);
    assert_eq!(classify("-h"), Flag::Help);
    assert_eq!(classify("--Git"), Flag::Other);
    assert_eq!(classify("--gi"), Flag::Other);
    assert_eq!(classify(""), Flag::Other);
}

#[test]
fn editor_arguments_name_profile_and_directory() {
    let c = LaunchConfig { cwd: "/src/app".to_string(), profile: Profile::Rust, git: false };
    assert_eq!(editor_args(&c), strings(&["--new-window", "--profile", "Rust", "/src/app"]));
    assert_ne!(EDITOR_FAILURE_EXIT, 0);
}

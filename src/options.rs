use vstd::prelude::*;

use crate::profile::{profile_named, Profile};
use crate::text::eq_exact;

verus! {

/// What a command-line token asks for when it is read as a flag.
#[derive(Clone, Copy, Debug, PartialEq, Eq, Structural)]
pub enum Flag {
    /// `--profile` / `-p`, followed by a profile name.
    Profile,
    /// `--cwd` / `-c`, followed by a directory.
    Cwd,
    /// `--git` / `-g`.
    Git,
    /// `--vs-extensions` / `-e`, followed by a list of extensions.
    Extensions,
    /// `--help` / `-h`.
    Help,
    /// Any other token.
    Other,
}

/// A problem in the arguments that parsing recovers from. Each holds the
/// position in the argument list of the token at fault.
#[derive(Clone, Copy, Debug, PartialEq, Eq, Structural)]
pub enum Warning {
    /// The profile name there is not recognised; `Blank` is used.
    UnknownProfile(usize),
    /// The path there is not an existing directory; the directory is kept.
    InvalidDirectory(usize),
    /// The token there is no flag; it is ignored.
    UnknownArgument(usize),
}

/// A flag that ends parsing at once.
#[derive(Clone, Copy, Debug, PartialEq, Eq, Structural)]
pub enum Halt {
    /// Usage text was asked for.
    Help,
    /// The unfinished extensions feature was asked for; the position of its
    /// value, where one follows.
    Extensions(Option<usize>),
}

/// The flag that token `t` stands for.
pub open spec fn flag_of(t: Seq<char>) -> Flag {
    if t == "--profile"@ || t == "-p"@ {
        Flag::Profile
    } else if t == "--cwd"@ || t == "-c"@ {
        Flag::Cwd
    } else if t == "--git"@ || t == "-g"@ {
        Flag::Git
    } else if t == "--vs-extensions"@ || t == "-e"@ {
        Flag::Extensions
    } else if t == "--help"@ || t == "-h"@ {
        Flag::Help
    } else {
        Flag::Other
    }
}

/// Flags that take the next token as their value.
pub open spec fn takes_value(f: Flag) -> bool {
    f == Flag::Profile || f == Flag::Cwd
}

/// Flags that end parsing.
pub open spec fn halts(f: Flag) -> bool {
    f == Flag::Extensions || f == Flag::Help
}

/// The views of a list of strings.
pub open spec fn views(args: Seq<String>) -> Seq<Seq<char>> {
    args.map_values(|s: String| s@)
}

/// What parsing has gathered so far.
pub struct Scan {
    /// Position of the argument chosen as directory; `None` keeps the
    /// fallback directory.
    pub dir: Option<usize>,
    pub profile: Profile,
    pub git: bool,
    pub warnings: Seq<Warning>,
}

/// The state before any argument is read.
pub open spec fn initial_scan() -> Scan {
    Scan { dir: None, profile: Profile::Blank, git: false, warnings: Seq::empty() }
}

/// The result of reading arguments.
pub enum Scanned {
    /// All arguments were read.
    Finished(Scan),
    /// A halting flag was read, after the warnings gathered until then.
    Stopped(Halt, Seq<Warning>),
}

/// Position of the token read after the flag at `i`: a flag that takes a
/// value consumes the next token, where there is one.
pub open spec fn next_pos(args: Seq<Seq<char>>, i: int) -> int {
    if takes_value(flag_of(args[i])) && i + 1 < args.len() {
        i + 2
    } else {
        i + 1
    }
}

/// The state after reading the flag at `i`, for a flag that does not halt.
pub open spec fn step(args: Seq<Seq<char>>, is_dir: Seq<bool>, i: int, s: Scan) -> Scan {
    let has_value = i + 1 < args.len();
    match flag_of(args[i]) {
        Flag::Profile => if has_value {
            match profile_named(args[i + 1]) {
                Some(p) => Scan { profile: p, ..s },
                None => Scan {
                    profile: Profile::Blank,
                    warnings: s.warnings.push(Warning::UnknownProfile((i + 1) as usize)),
                    ..s
                },
            }
        } else {
            s
        },
        Flag::Cwd => if has_value {
            if is_dir[i + 1] {
                Scan { dir: Some((i + 1) as usize), ..s }
            } else {
                Scan {
                    warnings: s.warnings.push(Warning::InvalidDirectory((i + 1) as usize)),
                    ..s
                }
            }
        } else {
            s
        },
        Flag::Git => Scan { git: true, ..s },
        Flag::Other => Scan { warnings: s.warnings.push(Warning::UnknownArgument(i as usize)), ..s },
        _ => s,
    }
}

/// The halt that the flag at `i` makes, for a flag that halts.
pub open spec fn halt_at(args: Seq<Seq<char>>, i: int) -> Halt {
    if flag_of(args[i]) == Flag::Help {
        Halt::Help
    } else if i + 1 < args.len() {
        Halt::Extensions(Some((i + 1) as usize))
    } else {
        Halt::Extensions(None)
    }
}

/// Reads the arguments from position `i` on, left to right, starting in state `s`.
pub open spec fn scan_from(args: Seq<Seq<char>>, is_dir: Seq<bool>, i: int, s: Scan) -> Scanned
    decreases args.len() - i,
{
    if i < 0 || i >= args.len() {
        Scanned::Finished(s)
    } else if halts(flag_of(args[i])) {
        Scanned::Stopped(halt_at(args, i), s.warnings)
    } else {
        scan_from(args, is_dir, next_pos(args, i), step(args, is_dir, i, s))
    }
}

/// Reads all the arguments.
pub open spec fn scan(args: Seq<Seq<char>>, is_dir: Seq<bool>) -> Scanned {
    scan_from(args, is_dir, 0, initial_scan())
}

/// A resolved launch configuration.
pub struct LaunchConfig {
    /// The directory the session works in.
    pub cwd: String,
    /// The editor profile.
    pub profile: Profile,
    /// Whether version control is to be set up.
    pub git: bool,
}

/// The mathematical value of a [`LaunchConfig`].
pub struct ConfigView {
    pub cwd: Seq<char>,
    pub profile: Profile,
    pub git: bool,
}

impl LaunchConfig {
    pub open spec fn view(&self) -> ConfigView {
        ConfigView { cwd: self.cwd@, profile: self.profile, git: self.git }
    }
}

/// How parsing ends.
pub enum Outcome {
    /// Launch with this configuration.
    Launch(LaunchConfig),
    /// Print usage text and stop.
    Help,
    /// Report the extensions feature as unfinished and stop with a failure;
    /// the position of the value given with the flag, where there is one.
    Extensions(Option<usize>),
    /// No directory could be resolved: stop with a failure.
    NoDirectory,
}

/// The mathematical value of an [`Outcome`].
pub enum OutcomeView {
    Launch(ConfigView),
    Help,
    Extensions(Option<usize>),
    NoDirectory,
}

impl Outcome {
    pub open spec fn view(&self) -> OutcomeView {
        match self {
            Outcome::Launch(c) => OutcomeView::Launch(c.view()),
            Outcome::Help => OutcomeView::Help,
            Outcome::Extensions(v) => OutcomeView::Extensions(*v),
            Outcome::NoDirectory => OutcomeView::NoDirectory,
        }
    }
}

/// The result of parsing: how it ends, and the warnings to report.
pub struct Parsed {
    pub outcome: Outcome,
    pub warnings: Vec<Warning>,
}

/// The outcome of parsing `args`, where `is_dir[k]` tells whether `args[k]`
/// names an existing directory and `fallback` is the current directory,
/// where it could be found.
pub open spec fn parse_model(
    args: Seq<Seq<char>>,
    is_dir: Seq<bool>,
    fallback: Option<Seq<char>>,
) -> OutcomeView {
    match scan(args, is_dir) {
        Scanned::Stopped(Halt::Help, _) => OutcomeView::Help,
        Scanned::Stopped(Halt::Extensions(v), _) => OutcomeView::Extensions(v),
        Scanned::Finished(s) => match s.dir {
            Some(k) => OutcomeView::Launch(
                ConfigView { cwd: args[k as int], profile: s.profile, git: s.git },
            ),
            None => match fallback {
                Some(d) => OutcomeView::Launch(ConfigView { cwd: d, profile: s.profile, git: s.git }),
                None => OutcomeView::NoDirectory,
            },
        },
    }
}

/// The warnings that parsing `args` reports, in order.
pub open spec fn warnings_model(args: Seq<Seq<char>>, is_dir: Seq<bool>) -> Seq<Warning> {
    match scan(args, is_dir) {
        Scanned::Stopped(_, w) => w,
        Scanned::Finished(s) => s.warnings,
    }
}

pub open spec fn option_view(o: Option<String>) -> Option<Seq<char>> {
    match o {
        Some(s) => Some(s@),
        None => None,
    }
}

/// The flag that token `t` stands for.
pub fn classify(t: &str) -> (r: Flag)
    ensures
        r == flag_of(t@),
{
    if eq_exact(t, "--profile") || eq_exact(t, "-p") {
        Flag::Profile
    } else if eq_exact(t, "--cwd") || eq_exact(t, "-c") {
        Flag::Cwd
    } else if eq_exact(t, "--git") || eq_exact(t, "-g") {
        Flag::Git
    } else if eq_exact(t, "--vs-extensions") || eq_exact(t, "-e") {
        Flag::Extensions
    } else if eq_exact(t, "--help") || eq_exact(t, "-h") {
        Flag::Help
    } else {
        Flag::Other
    }
}

/// Parses the command-line arguments (without the program name), left to
/// right. `is_dir[k]` tells whether `args[k]` names an existing directory;
/// `fallback` is the current directory, or `None` where it could not be found.
pub fn parse_commands(args: &Vec<String>, is_dir: &Vec<bool>, fallback: Option<String>) -> (r: Parsed)
    requires
        is_dir@.len() == args@.len(),
    ensures
        r.outcome.view() == parse_model(views(args@), is_dir@, option_view(fallback)),
        r.warnings@ == warnings_model(views(args@), is_dir@),
{
    let ghost av = views(args@);
    let mut i: usize = 0;
    let mut dir: Option<usize> = None;
    let mut profile = Profile::Blank;
    let mut git = false;
    let mut warnings: Vec<Warning> = Vec::new();
    while i < args.len()
        invariant
            av == views(args@),
            is_dir@.len() == args@.len(),
            i <= args@.len(),
            dir matches Some(k) ==> k < args@.len(),
            scan(av, is_dir@) == scan_from(
                av,
                is_dir@,
                i as int,
                Scan { dir, profile, git, warnings: warnings@ },
            ),
        decreases args@.len() - i,
    {
        let ghost s0 = Scan { dir, profile, git, warnings: warnings@ };
        let ghost i0 = i as int;
        let has_value = i + 1 < args.len();
        match classify(args[i].as_str()) {
            Flag::Profile => {
                if has_value {
                    match Profile::from_name(args[i + 1].as_str()) {
                        Some(p) => {
                            profile = p;
                        },
                        None => {
                            profile = Profile::Blank;
                            warnings.push(Warning::UnknownProfile(i + 1));
                        },
                    }
                    i = i + 2;
                } else {
                    i = i + 1;
                }
            },
            Flag::Cwd => {
                if has_value {
                    if is_dir[i + 1] {
                        dir = Some(i + 1);
                    } else {
                        warnings.push(Warning::InvalidDirectory(i + 1));
                    }
                    i = i + 2;
                } else {
                    i = i + 1;
                }
            },
            Flag::Git => {
                git = true;
                i = i + 1;
            },
            Flag::Extensions => {
                let value = if has_value {
                    Some(i + 1)
                } else {
                    None
                };
                return Parsed { outcome: Outcome::Extensions(value), warnings };
            },
            Flag::Help => {
                return Parsed { outcome: Outcome::Help, warnings };
            },
            Flag::Other => {
                warnings.push(Warning::UnknownArgument(i));
                i = i + 1;
            },
        }
        assert(i == next_pos(av, i0));
        assert(Scan { dir, profile, git, warnings: warnings@ } == step(av, is_dir@, i0, s0));
    }
    let cwd = match dir {
        Some(k) => args[k].clone(),
        None => match fallback {
            Some(d) => d,
            None => {
                return Parsed { outcome: Outcome::NoDirectory, warnings };
            },
        },
    };
    Parsed { outcome: Outcome::Launch(LaunchConfig { cwd, profile, git }), warnings }
}

} // verus!

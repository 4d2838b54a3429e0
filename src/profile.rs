use vstd::prelude::*;

use crate::text::{eq_ignoring_case, same_ignoring_case};

verus! {

/// A named bundle of editor settings.
#[derive(Clone, Copy, Debug, PartialEq, Eq, Structural)]
pub enum Profile {
    /// No special settings.
    Blank,
    /// Settings for Rust work.
    Rust,
}

/// The profile that `name` selects, whatever its letter case; `None` for
/// any other word.
pub open spec fn profile_named(name: Seq<char>) -> Option<Profile> {
    if same_ignoring_case(name, "blank"@) {
        Some(Profile::Blank)
    } else if same_ignoring_case(name, "rust"@) {
        Some(Profile::Rust)
    } else {
        None
    }
}

/// The profile that `name` selects, with `Blank` for a word that names none.
pub open spec fn profile_or_blank(name: Seq<char>) -> Profile {
    match profile_named(name) {
        Some(p) => p,
        None => Profile::Blank,
    }
}

impl Profile {
    /// The canonical spelling of the profile's name.
    pub open spec fn spec_name(self) -> Seq<char> {
        match self {
            Profile::Blank => "Blank"@,
            Profile::Rust => "Rust"@,
        }
    }

    /// Reads a profile name in any letter case.
    pub fn from_name(name: &str) -> (r: Option<Profile>)
        ensures
            r == profile_named(name@),
    {
        if eq_ignoring_case(name, "blank") {
            Some(Profile::Blank)
        } else if eq_ignoring_case(name, "rust") {
            Some(Profile::Rust)
        } else {
            None
        }
    }

    /// The canonical spelling of the profile's name.
    pub fn name(&self) -> (r: String)
        ensures
            r@ == self.spec_name(),
    {
        match self {
            Profile::Blank => "Blank".to_owned(),
            Profile::Rust => "Rust".to_owned(),
        }
    }
}

} // verus!

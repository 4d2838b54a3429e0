use vstd::prelude::*;

use crate::options::{
    flag_of, halts, initial_scan, next_pos, parse_model, scan_from, step, ConfigView, Flag, OutcomeView, Scan,
    Scanned,
};
use crate::profile::{profile_named, Profile};
use crate::text::{folded_code, same_ignoring_case};

verus! {

/// The scan that starts at position `j` reads the token at `k` as a flag,
/// rather than as the value of a flag or after a flag that halts.
pub open spec fn reads_flag_at(args: Seq<Seq<char>>, j: int, k: int) -> bool
    decreases args.len() - j,
{
    if j < 0 || j >= args.len() || k < j {
        false
    } else if j == k {
        true
    } else if halts(flag_of(args[j])) {
        false
    } else {
        reads_flag_at(args, next_pos(args, j), k)
    }
}

proof fn lemma_reads_step(args: Seq<Seq<char>>, j: int, k: int)
    requires
        0 <= j < args.len(),
        !halts(flag_of(args[j])),
        reads_flag_at(args, next_pos(args, j), k),
    ensures
        reads_flag_at(args, j, k),
        k > j,
{
    reveal_with_fuel(reads_flag_at, 2);
}

/// What a scan from position `j` keeps of its starting state `s`.
proof fn lemma_scan_keeps(args: Seq<Seq<char>>, is_dir: Seq<bool>, j: int, s: Scan)
    requires
        0 <= j,
    ensures
        scan_from(args, is_dir, j, s) matches Scanned::Finished(f) ==> {
            &&& (forall|k: int| #[trigger] reads_flag_at(args, j, k) ==> flag_of(args[k]) != Flag::Profile)
                ==> f.profile == s.profile
            &&& (forall|k: int| #[trigger] reads_flag_at(args, j, k) && flag_of(args[k]) == Flag::Cwd
                && k + 1 < args.len() ==> !is_dir[k + 1]) ==> f.dir == s.dir
            &&& s.git ==> f.git
            &&& (exists|k: int| #[trigger] reads_flag_at(args, j, k) && flag_of(args[k]) == Flag::Git)
                ==> f.git
            &&& (forall|k: int| #[trigger] reads_flag_at(args, j, k) ==> flag_of(args[k]) != Flag::Git)
                ==> f.git == s.git
        },
    decreases args.len() - j,
{
    if j >= args.len() {
        assert forall|k: int| !reads_flag_at(args, j, k) by {}
    } else if !halts(flag_of(args[j])) {
        let n = next_pos(args, j);
        let s2 = step(args, is_dir, j, s);
        lemma_scan_keeps(args, is_dir, n, s2);
        assert(reads_flag_at(args, j, j));
        assert forall|k: int| reads_flag_at(args, n, k) implies reads_flag_at(args, j, k) by {
            lemma_reads_step(args, j, k);
        }
        if exists|k: int| #[trigger] reads_flag_at(args, j, k) && flag_of(args[k]) == Flag::Git {
            let k = choose|k: int| #[trigger] reads_flag_at(args, j, k) && flag_of(args[k]) == Flag::Git;
            if k != j {
                assert(reads_flag_at(args, n, k));
            }
        }
    }
}

/// The scan from position `j` gives the profile that the last flag
/// `--profile` it reads asks for, where that flag is at `i`.
proof fn lemma_last_profile(args: Seq<Seq<char>>, is_dir: Seq<bool>, j: int, s: Scan, i: int)
    requires
        0 <= j,
        reads_flag_at(args, j, i),
        flag_of(args[i]) == Flag::Profile,
        i + 1 < args.len(),
        forall|k: int| #[trigger] reads_flag_at(args, j, k) && k > i ==> flag_of(args[k]) != Flag::Profile,
    ensures
        scan_from(args, is_dir, j, s) matches Scanned::Finished(f) ==> f.profile == match profile_named(args[i + 1]) {
            Some(p) => p,
            None => Profile::Blank,
        },
    decreases i - j,
{
    let n = next_pos(args, j);
    let s2 = step(args, is_dir, j, s);
    if j == i {
        lemma_scan_keeps(args, is_dir, n, s2);
        assert forall|k: int| reads_flag_at(args, n, k) implies reads_flag_at(args, j, k) && k > i by {
            lemma_reads_step(args, j, k);
        }
    } else {
        assert(reads_flag_at(args, n, i));
        assert forall|k: int| reads_flag_at(args, n, k) && k > i implies reads_flag_at(args, j, k) by {
            lemma_reads_step(args, j, k);
        }
        lemma_last_profile(args, is_dir, n, s2, i);
    }
}

proof fn lemma_canonical_name(x: Seq<char>)
    requires
        profile_named(x) is Some,
    ensures
        same_ignoring_case(profile_named(x)->0.spec_name(), x),
{
    reveal_strlit("Blank");
    reveal_strlit("blank");
    reveal_strlit("Rust");
    reveal_strlit("rust");
    let n = profile_named(x)->0.spec_name();
    let w = if profile_named(x) == Some(Profile::Blank) {
        "blank"@
    } else {
        "rust"@
    };
    assert(same_ignoring_case(x, w));
    assert forall|i: int| 0 <= i < n.len() implies folded_code(#[trigger] n[i]) == folded_code(x[i]) by {
        assert(folded_code(x[i]) == folded_code(w[i]));
    }
}

/// Where the last `--profile` flag that is read names a recognised profile,
/// in any letter case, the configuration has that profile, and its name is
/// the given word in canonical case.
pub proof fn law_profile_flag_selects(
    args: Seq<Seq<char>>,
    is_dir: Seq<bool>,
    fallback: Option<Seq<char>>,
    i: int,
)
    requires
        reads_flag_at(args, 0, i),
        flag_of(args[i]) == Flag::Profile,
        i + 1 < args.len(),
        profile_named(args[i + 1]) is Some,
        forall|k: int| #[trigger] reads_flag_at(args, 0, k) && k > i ==> flag_of(args[k]) != Flag::Profile,
    ensures
        parse_model(args, is_dir, fallback) matches OutcomeView::Launch(c) ==> {
            &&& c.profile == profile_named(args[i + 1])->0
            &&& same_ignoring_case(c.profile.spec_name(), args[i + 1])
        },
{
    lemma_last_profile(args, is_dir, 0, initial_scan(), i);
    lemma_canonical_name(args[i + 1]);
}

/// Where the last `--profile` flag that is read names no recognised profile,
/// the configuration has the profile `Blank`.
pub proof fn law_unknown_profile_is_blank(
    args: Seq<Seq<char>>,
    is_dir: Seq<bool>,
    fallback: Option<Seq<char>>,
    i: int,
)
    requires
        reads_flag_at(args, 0, i),
        flag_of(args[i]) == Flag::Profile,
        i + 1 < args.len(),
        profile_named(args[i + 1]) is None,
        forall|k: int| #[trigger] reads_flag_at(args, 0, k) && k > i ==> flag_of(args[k]) != Flag::Profile,
    ensures
        parse_model(args, is_dir, fallback) matches OutcomeView::Launch(c) ==> c.profile
            == Profile::Blank,
{
    lemma_last_profile(args, is_dir, 0, initial_scan(), i);
}

/// A `--cwd` flag whose value is not an existing directory leaves the
/// directory as it was before the flag.
pub proof fn law_invalid_cwd_keeps_directory(
    args: Seq<Seq<char>>,
    is_dir: Seq<bool>,
    i: int,
    s: Scan,
)
    requires
        0 <= i,
        flag_of(args[i]) == Flag::Cwd,
        i + 1 < args.len(),
        !is_dir[i + 1],
    ensures
        step(args, is_dir, i, s).dir == s.dir,
        next_pos(args, i) == i + 2,
{
}

/// Where no `--cwd` flag that is read names an existing directory, the
/// configuration keeps the fallback directory.
pub proof fn law_invalid_directories_keep_fallback(
    args: Seq<Seq<char>>,
    is_dir: Seq<bool>,
    fallback: Option<Seq<char>>,
)
    requires
        forall|k: int| #[trigger] reads_flag_at(args, 0, k) && flag_of(args[k]) == Flag::Cwd && k + 1
            < args.len() ==> !is_dir[k + 1],
    ensures
        parse_model(args, is_dir, fallback) matches OutcomeView::Launch(c) ==> fallback == Some(
            c.cwd,
        ),
{
    lemma_scan_keeps(args, is_dir, 0, initial_scan());
}

/// Version control is enabled exactly when a `--git` flag is read.
pub proof fn law_git_flag(args: Seq<Seq<char>>, is_dir: Seq<bool>, fallback: Option<Seq<char>>)
    ensures
        parse_model(args, is_dir, fallback) matches OutcomeView::Launch(c) ==> (c.git <==> exists|k: int|
            #[trigger] reads_flag_at(args, 0, k) && flag_of(args[k]) == Flag::Git),
{
    lemma_scan_keeps(args, is_dir, 0, initial_scan());
}

} // verus!

//! The compatibility resolver: given the probed runtime version and the
//! scanned build variants, picks the highest variant not newer than the
//! runtime and derives the environment overrides the launcher needs when
//! runtime and server build diverge.

use vstd::prelude::*;
use vstd::string::StringExecFns;

use crate::error::FsacError;
use crate::scanner::Variant;
use crate::version::{spec_version_string, version_string, SemVer};

verus! {

/// Override flags the caller already supplied explicitly in its own launch
/// arguments; each suppresses the corresponding automatic derivation.
pub struct UserFlags {
    /// The caller passed an explicit roll-forward policy.
    pub roll_forward: bool,
    /// The caller pinned an explicit runtime version.
    pub fx_version: bool,
}

/// The override flags a list of launch arguments carries: one for an
/// explicit roll-forward policy, one for an explicit version pin.
pub open spec fn spec_detect_user_flags(args: Seq<Seq<char>>) -> UserFlags {
    UserFlags {
        roll_forward: exists|i: int| 0 <= i < args.len() && #[trigger] args[i] == "--roll-forward"@,
        fx_version: exists|i: int| 0 <= i < args.len() && #[trigger] args[i] == "--fx-version"@,
    }
}

/// Reads the recognized override flags out of the caller's extra launch
/// arguments.
pub fn detect_user_flags(args: &Vec<String>) -> (r: UserFlags)
    ensures
        r == spec_detect_user_flags(args.deep_view()),
{
    let roll_forward_flag = String::from_str("--roll-forward");
    let fx_version_flag = String::from_str("--fx-version");
    let mut has_roll_forward: bool = false;
    let mut has_fx_version: bool = false;
    let mut i: usize = 0;
    while i < args.len()
        invariant
            0 <= i <= args@.len(),
            roll_forward_flag@ == "--roll-forward"@,
            fx_version_flag@ == "--fx-version"@,
            has_roll_forward == (exists|j: int|
                0 <= j < i && #[trigger] args@[j]@ == "--roll-forward"@),
            has_fx_version == (exists|j: int|
                0 <= j < i && #[trigger] args@[j]@ == "--fx-version"@),
        decreases args@.len() - i,
    {
        if args[i].eq(&roll_forward_flag) {
            has_roll_forward = true;
        }
        if args[i].eq(&fx_version_flag) {
            has_fx_version = true;
        }
        i = i + 1;
    }
    proof {
        assert(forall|j: int|
            0 <= j < args@.len() ==> args.deep_view()[j] == #[trigger] args@[j]@);
    }
    UserFlags { roll_forward: has_roll_forward, fx_version: has_fx_version }
}

/// The outcome of one resolution: the selected variant, its directory name,
/// and the two independent environment overrides. Computed fresh on every
/// resolution.
#[derive(Debug)]
pub struct CompatibilityDecision {
    /// The selected variant's major version.
    pub variant: u64,
    /// The directory name the selected variant was found under.
    pub variant_dir: String,
    /// Whether to permit the runtime to load a build made for an older major.
    pub roll_forward: bool,
    /// Whether a prerelease runtime must be permitted to roll forward at all.
    pub prerelease: bool,
}

/// Whether any variant is usable under a runtime of major version `m`.
pub open spec fn spec_has_compatible(vs: Seq<(int, Seq<char>)>, m: int) -> bool {
    exists|i: int| 0 <= i < vs.len() && #[trigger] vs[i].0 <= m
}

/// Whether `sel` is the maximum variant major that is at most `m`.
pub open spec fn spec_is_selected_major(vs: Seq<(int, Seq<char>)>, m: int, sel: int) -> bool {
    &&& exists|i: int| 0 <= i < vs.len() && #[trigger] vs[i].0 == sel
    &&& sel <= m
    &&& forall|i: int| 0 <= i < vs.len() && #[trigger] vs[i].0 <= m ==> vs[i].0 <= sel
}

/// The directory name of the first listed variant with major `m`.
pub open spec fn spec_first_dir(vs: Seq<(int, Seq<char>)>, m: int) -> Option<Seq<char>>
    decreases vs.len(),
{
    if vs.len() == 0 {
        None
    } else if vs[0].0 == m {
        Some(vs[0].1)
    } else {
        spec_first_dir(vs.drop_first(), m)
    }
}

proof fn lemma_first_dir_at(vs: Seq<(int, Seq<char>)>, m: int, k: int)
    requires
        0 <= k < vs.len(),
        vs[k].0 == m,
        forall|j: int| 0 <= j < k ==> #[trigger] vs[j].0 != m,
    ensures
        spec_first_dir(vs, m) == Some(vs[k].1),
    decreases vs.len(),
{
    if k == 0 {
    } else {
        lemma_first_dir_at(vs.drop_first(), m, k - 1);
    }
}

/// Selection cannot tie: variants are keyed by their majors, so at most one
/// major is the maximum compatible one.
pub proof fn lemma_selected_major_unique(vs: Seq<(int, Seq<char>)>, m: int, a: int, b: int)
    requires
        spec_is_selected_major(vs, m, a),
        spec_is_selected_major(vs, m, b),
    ensures
        a == b,
{
}

/// Whether the automatic roll-forward override is derived: only when the
/// caller supplied neither override flag, and the selected variant was built
/// for a different major than the runtime's.
pub open spec fn spec_roll_forward(flags: UserFlags, selected_major: int, runtime_major: int) -> bool {
    !flags.roll_forward && !flags.fx_version && selected_major != runtime_major
}

/// With no user-supplied override flags, the roll-forward override is derived
/// exactly when the selected variant's major differs from the runtime's.
pub proof fn lemma_roll_forward_iff_majors_differ(
    flags: UserFlags,
    selected_major: int,
    runtime_major: int,
)
    requires
        !flags.roll_forward,
        !flags.fx_version,
    ensures
        spec_roll_forward(flags, selected_major, runtime_major) <==> selected_major
            != runtime_major,
{
}

/// A user-supplied roll-forward policy or version pin suppresses the
/// automatic roll-forward override, even when the majors differ.
pub proof fn lemma_user_flags_suppress_roll_forward(
    flags: UserFlags,
    selected_major: int,
    runtime_major: int,
)
    requires
        flags.roll_forward || flags.fx_version,
    ensures
        !spec_roll_forward(flags, selected_major, runtime_major),
{
}

/// Picks the highest variant not newer than the runtime and derives the
/// overrides: roll-forward when the majors diverge and no user flag already
/// settles the policy, and the prerelease override exactly when the runtime
/// carries a prerelease tag, independent of which variant was selected.
/// Fails with `NoCompatibleVariant` exactly when every variant is newer than
/// the runtime.
pub fn resolve(runtime: &SemVer, variants: &Vec<Variant>, flags: UserFlags) -> (r: Result<
    CompatibilityDecision,
    FsacError,
>)
    ensures
        r is Ok <==> spec_has_compatible(variants.deep_view(), runtime.major as int),
        match r {
            Ok(d) => {
                &&& spec_is_selected_major(
                    variants.deep_view(),
                    runtime.major as int,
                    d.variant as int,
                )
                &&& Some(d.variant_dir@) == spec_first_dir(variants.deep_view(), d.variant as int)
                &&& d.roll_forward == spec_roll_forward(
                    flags,
                    d.variant as int,
                    runtime.major as int,
                )
                &&& d.prerelease == runtime.spec_has_prerelease()
            },
            Err(e) => match e {
                FsacError::NoCompatibleVariant(msg) => msg@ == spec_version_string(*runtime),
                _ => false,
            },
        },
{
    let ghost vs = variants.deep_view();
    let mut best: Option<(u64, usize)> = None;
    let mut i: usize = 0;
    while i < variants.len()
        invariant
            0 <= i <= variants@.len(),
            vs == variants.deep_view(),
            vs.len() == variants@.len(),
            forall|j: int| 0 <= j < vs.len() ==> #[trigger] vs[j] == variants@[j].deep_view(),
            match best {
                None => forall|j: int| 0 <= j < i ==> !(#[trigger] vs[j].0 <= runtime.major as int),
                Some((bm, bi)) => {
                    &&& 0 <= bi < i
                    &&& vs[bi as int].0 == bm as int
                    &&& bm <= runtime.major
                    &&& forall|j: int|
                        0 <= j < i && #[trigger] vs[j].0 <= runtime.major as int ==> vs[j].0
                            <= bm as int
                    &&& forall|j: int| 0 <= j < bi ==> #[trigger] vs[j].0 != bm as int
                },
            },
        decreases variants@.len() - i,
    {
        let major = variants[i].major;
        if major <= runtime.major {
            match best {
                None => {
                    best = Some((major, i));
                },
                Some((bm, _)) => {
                    if major > bm {
                        best = Some((major, i));
                    }
                },
            }
        }
        i = i + 1;
    }
    match best {
        Some((bm, bi)) => {
            proof {
                lemma_first_dir_at(vs, bm as int, bi as int);
            }
            let dir = variants[bi].dir_name.clone();
            Ok(
                CompatibilityDecision {
                    variant: bm,
                    variant_dir: dir,
                    roll_forward: !flags.roll_forward && !flags.fx_version && bm != runtime.major,
                    prerelease: !runtime.pre.as_str().is_empty(),
                },
            )
        },
        None => Err(FsacError::NoCompatibleVariant(version_string(runtime))),
    }
}

/// The environment overrides a decision carries: the roll-forward policy and
/// the prerelease permission, in that order, each present exactly when its
/// flag is set.
pub open spec fn spec_env_overrides(d: CompatibilityDecision) -> Seq<(Seq<char>, Seq<char>)> {
    (if d.roll_forward {
        seq![("DOTNET_ROLL_FORWARD"@, "LatestMajor"@)]
    } else {
        Seq::empty()
    }) + (if d.prerelease {
        seq![("DOTNET_ROLL_FORWARD_TO_PRERELEASE"@, "1"@)]
    } else {
        Seq::empty()
    })
}

/// Extends the caller's base environment with the decision's overrides.
pub fn merge_env(base: Vec<(String, String)>, d: &CompatibilityDecision) -> (r: Vec<
    (String, String),
>)
    ensures
        r.deep_view() == base.deep_view() + spec_env_overrides(*d),
{
    let mut env = base;
    if d.roll_forward {
        env.push(
            (String::from_str("DOTNET_ROLL_FORWARD"), String::from_str("LatestMajor")),
        );
    }
    if d.prerelease {
        env.push(
            (String::from_str("DOTNET_ROLL_FORWARD_TO_PRERELEASE"), String::from_str("1")),
        );
    }
    proof {
        assert(env.deep_view() =~~= base.deep_view() + spec_env_overrides(*d));
    }
    env
}

} // verus!

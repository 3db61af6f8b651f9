//! The arguments that select what one run of `cargo build` produces: the
//! target triple, the build mode and the features.

use vstd::prelude::*;
use vstd::string::*;
use crate::common::command::Invocation;
use crate::common::models::{FeatureOptions, FeatureOptionsView, Mode};
use crate::common::text::{join, joined};

verus! {

/// `--release` in release mode, nothing in debug mode.
pub open spec fn mode_flags(mode: Mode) -> Seq<Seq<char>> {
    match mode {
        Mode::Debug => Seq::empty(),
        Mode::Release => seq!["--release"@],
    }
}

/// The flags of a feature selection: the explicit list joined by commas,
/// then `--all-features`, then `--no-default-features`, each only where it
/// was asked for.
pub open spec fn feature_flags(features: FeatureOptionsView) -> Seq<Seq<char>> {
    (match features.features {
        Some(list) => seq!["--features"@, joined(list, ","@)],
        None => Seq::empty(),
    }) + (if features.all_features {
        seq!["--all-features"@]
    } else {
        Seq::empty()
    }) + (if features.no_default_features {
        seq!["--no-default-features"@]
    } else {
        Seq::empty()
    })
}

/// All arguments that a build of one triple adds to the base command.
pub open spec fn build_flags(triple: Seq<char>, mode: Mode, features: FeatureOptionsView) -> Seq<
    Seq<char>,
> {
    seq!["--target"@, triple] + mode_flags(mode) + feature_flags(features)
}

/// Whether the release flag stands where a release build puts it: directly
/// behind the target triple.
pub open spec fn has_release_flag(flags: Seq<Seq<char>>) -> bool {
    flags.len() > 2 && flags[2] == "--release"@
}

/// Appends to a base command the arguments for building one triple.
pub fn with_build_flags(
    base: Invocation,
    triple: &str,
    mode: Mode,
    features: &FeatureOptions,
) -> (r: Invocation)
    ensures
        r@ == base@.args(build_flags(triple@, mode, features@)),
{
    let mut cmd = base;
    let ghost start = cmd@;
    cmd.arg("--target");
    cmd.arg(triple);
    match mode {
        Mode::Debug => {},
        Mode::Release => {
            cmd.arg("--release");
        },
    }
    assert(cmd@.args =~= start.args + (seq!["--target"@, triple@] + mode_flags(mode)));
    let ghost middle = cmd@;
    if let Some(list) = &features.features {
        cmd.arg("--features");
        let all = join(list, ",");
        cmd.arg(all.as_str());
    }
    if features.all_features {
        cmd.arg("--all-features");
    }
    if features.no_default_features {
        cmd.arg("--no-default-features");
    }
    assert(cmd@.args =~= middle.args + feature_flags(features@));
    assert(cmd@.args =~= start.args + build_flags(triple@, mode, features@));
    cmd
}

/// The target triple is always the second flag, and the release flag stands
/// behind it exactly in release mode.
pub proof fn lemma_release_flag_iff_release(
    triple: Seq<char>,
    mode: Mode,
    features: FeatureOptionsView,
)
    ensures
        build_flags(triple, mode, features).len() >= 2,
        build_flags(triple, mode, features)[0] == "--target"@,
        build_flags(triple, mode, features)[1] == triple,
        has_release_flag(build_flags(triple, mode, features)) <==> mode == Mode::Release,
{
    reveal_strlit("--release");
    reveal_strlit("--features");
    reveal_strlit("--all-features");
    reveal_strlit("--no-default-features");
    let flags = build_flags(triple, mode, features);
    let head = seq!["--target"@, triple] + mode_flags(mode);
    assert(flags =~= head + feature_flags(features));
    match mode {
        Mode::Release => {
            assert(head[2] == "--release"@);
            assert(flags[2] == head[2]);
        },
        Mode::Debug => {
            assert(head.len() == 2);
            let rest = feature_flags(features);
            if rest.len() > 0 {
                assert(flags[2] == rest[0]);
                assert("--features"@.len() == 10);
                assert("--all-features"@.len() == 14);
                assert("--no-default-features"@.len() == 21);
                assert("--release"@.len() == 9);
                assert(rest[0] == "--features"@ || rest[0] == "--all-features"@ || rest[0]
                    == "--no-default-features"@);
            }
        },
    }
}

} // verus!

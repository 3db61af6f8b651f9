//! Why a package could not be planned or built.

use vstd::prelude::*;
use vstd::string::*;
use crate::android::android_target::{ToolchainError, ToolchainErrorView};

verus! {

/// A failure of packaging. Configuration errors are found while planning;
/// `Failed` stands for anything that went wrong while a plan was carried
/// out; `Chained` holds the failures of several crates.
#[derive(Debug, PartialEq, Eq)]
pub enum PackageError {
    /// The working directory belongs to no crate.
    NotInCrate,
    /// A package name was given although several crates are built.
    PackageNameForSeveralCrates,
    /// The crate has no library target.
    NoLibraryTarget,
    /// No platform was selected.
    NoPlatformSelected,
    /// No architecture was selected.
    NoArchitectureSelected,
    /// No selected target is built for the requested triple.
    NoMatchingBuildTarget { build_target: String },
    /// The variable that locates the Android NDK is not set.
    NdkHomeNotSet,
    /// The toolchain of a target could not be prepared.
    SetupFailed { target: String, cause: ToolchainError },
    /// A step failed while it ran; the message says how.
    Failed { message: String },
    /// A later failure, with the failures before it as its cause.
    Chained { context: Box<PackageError>, cause: Box<PackageError> },
}

pub ghost enum PackageErrorView {
    NotInCrate,
    PackageNameForSeveralCrates,
    NoLibraryTarget,
    NoPlatformSelected,
    NoArchitectureSelected,
    NoMatchingBuildTarget { build_target: Seq<char> },
    NdkHomeNotSet,
    SetupFailed { target: Seq<char>, cause: ToolchainErrorView },
    Failed { message: Seq<char> },
    Chained { context: Box<PackageErrorView>, cause: Box<PackageErrorView> },
}

/// The view of a failure: the same failure with its texts as sequences
/// of characters.
pub open spec fn error_view(e: PackageError) -> PackageErrorView
    decreases e,
{
    match e {
        PackageError::NotInCrate => PackageErrorView::NotInCrate,
        PackageError::PackageNameForSeveralCrates => PackageErrorView::PackageNameForSeveralCrates,
        PackageError::NoLibraryTarget => PackageErrorView::NoLibraryTarget,
        PackageError::NoPlatformSelected => PackageErrorView::NoPlatformSelected,
        PackageError::NoArchitectureSelected => PackageErrorView::NoArchitectureSelected,
        PackageError::NoMatchingBuildTarget { build_target } => PackageErrorView::NoMatchingBuildTarget {
            build_target: build_target@,
        },
        PackageError::NdkHomeNotSet => PackageErrorView::NdkHomeNotSet,
        PackageError::SetupFailed { target, cause } => PackageErrorView::SetupFailed {
            target: target@,
            cause: cause@,
        },
        PackageError::Failed { message } => PackageErrorView::Failed { message: message@ },
        PackageError::Chained { context, cause } => PackageErrorView::Chained {
            context: Box::new(error_view(*context)),
            cause: Box::new(error_view(*cause)),
        },
    }
}

impl View for PackageError {
    type V = PackageErrorView;

    open spec fn view(&self) -> PackageErrorView {
        error_view(*self)
    }
}

/// The views of a list of failures, in order.
pub open spec fn failures_view(failures: Seq<PackageError>) -> Seq<PackageErrorView> {
    failures.map_values(|e: PackageError| e@)
}

impl PackageErrorView {
    /// The text shown for a failure. A chain shows its latest failure.
    pub open spec fn message(self) -> Seq<char>
        decreases self,
    {
        match self {
            PackageErrorView::NotInCrate => "Current directory is not part of a crate!"@,
            PackageErrorView::PackageNameForSeveralCrates =>
                "Package name can only be specified when building a single crate!"@,
            PackageErrorView::NoLibraryTarget => "No library tag defined in Cargo.toml!"@,
            PackageErrorView::NoPlatformSelected => "At least 1 platform needs to be selected!"@,
            PackageErrorView::NoArchitectureSelected =>
                "At least 1 architecture needs to be selected!"@,
            PackageErrorView::NoMatchingBuildTarget { build_target } =>
                "No matching build target for "@ + build_target,
            PackageErrorView::NdkHomeNotSet =>
                "ANDROID_NDK_HOME environment variable is not set. Please install Android NDK and set this variable: environment variable not found"@,
            PackageErrorView::SetupFailed { target, cause } =>
                "Failed to set up build environment for "@ + target,
            PackageErrorView::Failed { message } => message,
            PackageErrorView::Chained { context, cause } => context.message(),
        }
    }

    /// The messages along a chain of failures, the latest first. A failure
    /// that is no chain has its own message only.
    pub open spec fn messages(self) -> Seq<Seq<char>>
        decreases self,
    {
        match self {
            PackageErrorView::Chained { context, cause } => context.messages() + cause.messages(),
            _ => seq![self.message()],
        }
    }
}

/// The one failure that stands for the failures of several crates: none
/// for no failure, the failure itself for one, and for more the last
/// failure with the chain of the earlier ones as its cause.
pub open spec fn chained(failures: Seq<PackageErrorView>) -> Option<PackageErrorView>
    decreases failures.len(),
{
    if failures.len() == 0 {
        None
    } else {
        match chained(failures.drop_last()) {
            None => Some(failures.last()),
            Some(cause) => Some(
                PackageErrorView::Chained {
                    context: Box::new(failures.last()),
                    cause: Box::new(cause),
                },
            ),
        }
    }
}

impl PackageError {
    /// The text shown to the user for this failure.
    pub fn message(&self) -> (r: String)
        ensures
            r@ == self@.message(),
        decreases self,
    {
        match self {
            PackageError::NotInCrate => String::from_str(
                "Current directory is not part of a crate!",
            ),
            PackageError::PackageNameForSeveralCrates => String::from_str(
                "Package name can only be specified when building a single crate!",
            ),
            PackageError::NoLibraryTarget => String::from_str(
                "No library tag defined in Cargo.toml!",
            ),
            PackageError::NoPlatformSelected => String::from_str(
                "At least 1 platform needs to be selected!",
            ),
            PackageError::NoArchitectureSelected => String::from_str(
                "At least 1 architecture needs to be selected!",
            ),
            PackageError::NoMatchingBuildTarget { build_target } => String::from_str(
                "No matching build target for ",
            ).concat(build_target.as_str()),
            PackageError::NdkHomeNotSet => String::from_str(
                "ANDROID_NDK_HOME environment variable is not set. Please install Android NDK and set this variable: environment variable not found",
            ),
            PackageError::SetupFailed { target, cause } => String::from_str(
                "Failed to set up build environment for ",
            ).concat(target.as_str()),
            PackageError::Failed { message } => message.clone(),
            PackageError::Chained { context, cause } => context.message(),
        }
    }
}

/// What is printed before the process ends in failure.
pub open spec fn failure_report_spec(message: Seq<char>) -> Seq<char> {
    "Failed due to the following error: \n"@ + message
}

/// The one text that is printed for a failed run: the message of the
/// failure behind a fixed introduction.
pub fn failure_report(message: &str) -> (r: String)
    ensures
        r@ == failure_report_spec(message@),
{
    String::from_str("Failed due to the following error: \n").concat(message)
}

/// Folds the failures of several crates into one result: success where
/// nothing failed, else the chain of all failures in which each later
/// failure has the earlier ones as its cause.
pub fn chain_failures(failures: Vec<PackageError>) -> (r: Result<(), PackageError>)
    ensures
        match r {
            Ok(_) => chained(failures_view(failures@)) is None,
            Err(e) => chained(failures_view(failures@)) == Some(e@),
        },
    decreases failures@.len(),
{
    let mut rest = failures;
    let ghost all = failures_view(failures@);
    match rest.pop() {
        None => Ok(()),
        Some(last) => {
            proof {
                assert(failures_view(rest@) =~= all.drop_last());
                assert(all.last() == last@);
            }
            match chain_failures(rest) {
                Ok(_) => Err(last),
                Err(cause) => Err(
                    PackageError::Chained { context: Box::new(last), cause: Box::new(cause) },
                ),
            }
        },
    }
}

/// Nothing is lost in a chain: it holds the message of every failure, the
/// latest first, provided no failure was itself a chain.
pub proof fn lemma_chain_keeps_every_failure(failures: Seq<PackageErrorView>)
    requires
        forall|i: int| 0 <= i < failures.len() ==> !(failures[i] is Chained),
    ensures
        failures.len() == 0 <==> chained(failures) is None,
        failures.len() > 0 ==> {
            let messages = chained(failures).unwrap().messages();
            &&& messages.len() == failures.len()
            &&& forall|i: int|
                0 <= i < failures.len() ==> #[trigger] messages[i] == failures[failures.len() - 1
                    - i].message()
        },
    decreases failures.len(),
{
    if failures.len() > 0 {
        let earlier = failures.drop_last();
        lemma_chain_keeps_every_failure(earlier);
        if earlier.len() > 0 {
            let cause = chained(earlier).unwrap();
            let whole = chained(failures).unwrap();
            assert(whole.messages() == failures.last().messages() + cause.messages());
            assert(failures.last().messages() == seq![failures.last().message()]);
            assert forall|i: int| 0 <= i < failures.len() implies #[trigger] whole.messages()[i]
                == failures[failures.len() - 1 - i].message() by {
                if i > 0 {
                    assert(whole.messages()[i] == cause.messages()[i - 1]);
                    assert(earlier[earlier.len() - 1 - (i - 1)] == failures[failures.len() - 1
                        - i]);
                }
            }
        }
    }
}

} // verus!

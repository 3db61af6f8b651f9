//! What the planners need to know of a crate: its name and its targets.

use vstd::prelude::*;
use vstd::string::*;
use crate::common::error::{PackageError, PackageErrorView};
use crate::common::text::{contains_str, replace_char, replaced};

verus! {

/// One target of a crate, with the kinds it is built as.
#[derive(Debug, Clone, PartialEq, Eq)]
pub struct CrateTarget {
    pub name: String,
    pub kind: Vec<String>,
}

/// A crate of the workspace.
#[derive(Debug, Clone, PartialEq, Eq)]
pub struct CrateInfo {
    pub name: String,
    pub targets: Vec<CrateTarget>,
}

pub ghost struct CrateTargetView {
    pub name: Seq<char>,
    pub kind: Seq<Seq<char>>,
}

pub ghost struct CrateInfoView {
    pub name: Seq<char>,
    pub targets: Seq<CrateTargetView>,
}

impl View for CrateTarget {
    type V = CrateTargetView;

    open spec fn view(&self) -> CrateTargetView {
        CrateTargetView { name: self.name@, kind: self.kind.deep_view() }
    }
}

impl View for CrateInfo {
    type V = CrateInfoView;

    open spec fn view(&self) -> CrateInfoView {
        CrateInfoView {
            name: self.name@,
            targets: self.targets@.map_values(|t: CrateTarget| t@),
        }
    }
}

/// The views of a list of crates, in order.
pub open spec fn crates_view(crates: Seq<CrateInfo>) -> Seq<CrateInfoView> {
    crates.map_values(|c: CrateInfo| c@)
}

/// The position of the first target that is built as a library.
pub open spec fn library_target_index(targets: Seq<CrateTargetView>) -> Option<int>
    decreases targets.len(),
{
    if targets.len() == 0 {
        None
    } else {
        match library_target_index(targets.drop_last()) {
            Some(i) => Some(i),
            None => if targets.last().kind.contains("lib"@) {
                Some(targets.len() - 1)
            } else {
                None
            },
        }
    }
}

impl CrateInfoView {
    /// The name under which the library of the crate is linked: the name of
    /// its first library target with every `-` turned into `_`.
    pub open spec fn library_name(self) -> Option<Seq<char>> {
        match library_target_index(self.targets) {
            Some(i) => Some(replaced(self.targets[i].name, '-', "_"@)),
            None => None,
        }
    }
}

proof fn lemma_library_target_prefix(targets: Seq<CrateTargetView>, k: int)
    requires
        0 <= k <= targets.len(),
        library_target_index(targets.take(k)) is Some,
    ensures
        library_target_index(targets) == library_target_index(targets.take(k)),
    decreases targets.len() - k,
{
    if k < targets.len() {
        assert(targets.drop_last().take(k) =~= targets.take(k));
        lemma_library_target_prefix(targets.drop_last(), k);
    } else {
        assert(targets.take(k) =~= targets);
    }
}

impl CrateInfo {
    /// The name under which the library of the crate is linked. A crate
    /// without a library target has none.
    pub fn library_name(&self) -> (r: Result<String, PackageError>)
        ensures
            match r {
                Ok(name) => self@.library_name() == Some(name@),
                Err(e) => self@.library_name() is None && e@ == PackageErrorView::NoLibraryTarget,
            },
    {
        let ghost all = self@.targets;
        for i in 0..self.targets.len()
            invariant
                all == self@.targets,
                library_target_index(all.take(i as int)) is None,
        {
            proof {
                assert(all.take(i + 1).drop_last() =~= all.take(i as int));
                assert(all.take(i + 1).last() == self.targets@[i as int]@);
            }
            if contains_str(&self.targets[i].kind, "lib") {
                proof {
                    lemma_library_target_prefix(all, i + 1);
                }
                return Ok(replace_char(self.targets[i].name.as_str(), '-', "_"));
            }
        }
        proof {
            assert(all.take(self.targets.len() as int) =~= all);
        }
        Err(PackageError::NoLibraryTarget)
    }
}

} // verus!

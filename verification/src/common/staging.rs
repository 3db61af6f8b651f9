//! Changes to the file system as values: the steps that lay out a package
//! before it is bundled, to be carried out in the order given.

use vstd::prelude::*;
use vstd::string::*;
use crate::common::text::opt_string_view;

verus! {

/// One change to the file system. Where a step fails and names a context,
/// the failure is reported under that context.
#[derive(Debug, Clone, PartialEq, Eq)]
pub enum StageStep {
    /// Remove the directory with all it holds, if it exists, and create it
    /// anew and empty. Its parent must exist.
    RecreateDir { path: String },
    /// Create the directory inside an existing parent.
    CreateDir { path: String },
    /// Create the directory and its missing parents; nothing happens where
    /// it exists.
    CreateDirAll { path: String, context: Option<String> },
    /// Write a file with the given content, replacing what was there.
    WriteFile { path: String, content: String, context: Option<String> },
    /// Create an empty file, emptying what was there.
    CreateEmptyFile { path: String },
    /// Create an empty file where none exists, and leave an existing one
    /// as it is.
    TouchFile { path: String },
    /// Copy a file, replacing what was there.
    CopyFile { from: String, to: String, context: Option<String> },
    /// Append the content of one file to another, creating the other where
    /// it is missing.
    AppendFile { from: String, to: String },
}

pub ghost enum StageStepView {
    RecreateDir { path: Seq<char> },
    CreateDir { path: Seq<char> },
    CreateDirAll { path: Seq<char>, context: Option<Seq<char>> },
    WriteFile { path: Seq<char>, content: Seq<char>, context: Option<Seq<char>> },
    CreateEmptyFile { path: Seq<char> },
    TouchFile { path: Seq<char> },
    CopyFile { from: Seq<char>, to: Seq<char>, context: Option<Seq<char>> },
    AppendFile { from: Seq<char>, to: Seq<char> },
}

impl View for StageStep {
    type V = StageStepView;

    open spec fn view(&self) -> StageStepView {
        match self {
            StageStep::RecreateDir { path } => StageStepView::RecreateDir { path: path@ },
            StageStep::CreateDir { path } => StageStepView::CreateDir { path: path@ },
            StageStep::CreateDirAll { path, context } => StageStepView::CreateDirAll {
                path: path@,
                context: opt_string_view(*context),
            },
            StageStep::WriteFile { path, content, context } => StageStepView::WriteFile {
                path: path@,
                content: content@,
                context: opt_string_view(*context),
            },
            StageStep::CreateEmptyFile { path } => StageStepView::CreateEmptyFile { path: path@ },
            StageStep::TouchFile { path } => StageStepView::TouchFile { path: path@ },
            StageStep::CopyFile { from, to, context } => StageStepView::CopyFile {
                from: from@,
                to: to@,
                context: opt_string_view(*context),
            },
            StageStep::AppendFile { from, to } => StageStepView::AppendFile {
                from: from@,
                to: to@,
            },
        }
    }
}

/// The views of a list of steps, in order.
pub open spec fn stage_view(steps: Seq<StageStep>) -> Seq<StageStepView> {
    steps.map_values(|s: StageStep| s@)
}

/// Appends one step to a list of steps.
pub fn push_stage(steps: &mut Vec<StageStep>, step: StageStep)
    ensures
        stage_view(final(steps)@) == stage_view(old(steps)@).push(step@),
{
    assert(stage_view(steps@.push(step)) =~= stage_view(steps@).push(step@));
    steps.push(step);
}

/// A file that a search found: its path, and the last component of the
/// path.
#[derive(Debug, Clone, PartialEq, Eq)]
pub struct FoundFile {
    pub path: String,
    pub file_name: String,
}

pub ghost struct FoundFileView {
    pub path: Seq<char>,
    pub file_name: Seq<char>,
}

impl View for FoundFile {
    type V = FoundFileView;

    open spec fn view(&self) -> FoundFileView {
        FoundFileView { path: self.path@, file_name: self.file_name@ }
    }
}

/// The views of a list of found files, in the order in which they were
/// found.
pub open spec fn found_view(found: Seq<FoundFile>) -> Seq<FoundFileView> {
    found.map_values(|f: FoundFile| f@)
}

/// An entry of a directory as it was read: its name, and whether it is a
/// regular file.
#[derive(Debug, Clone, PartialEq, Eq)]
pub struct ListedEntry {
    pub name: String,
    pub is_file: bool,
}

pub ghost struct ListedEntryView {
    pub name: Seq<char>,
    pub is_file: bool,
}

impl View for ListedEntry {
    type V = ListedEntryView;

    open spec fn view(&self) -> ListedEntryView {
        ListedEntryView { name: self.name@, is_file: self.is_file }
    }
}

/// The views of a directory listing, in the order in which it was read.
pub open spec fn listing_view(listing: Seq<ListedEntry>) -> Seq<ListedEntryView> {
    listing.map_values(|e: ListedEntry| e@)
}

} // verus!

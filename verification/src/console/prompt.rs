//! Questions to the user, as values: either the answer is already decided,
//! or the question has to be asked.

use vstd::prelude::*;
use vstd::string::*;

verus! {

/// A name that is either decided or has to be asked for.
#[derive(Debug, PartialEq, Eq)]
pub enum NamePrompt {
    /// No question is needed.
    Decided(String),
    /// Ask for the name and offer `default`.
    Ask { default: String },
}

pub ghost enum NamePromptView {
    Decided(Seq<char>),
    Ask { default: Seq<char> },
}

impl View for NamePrompt {
    type V = NamePromptView;

    open spec fn view(&self) -> NamePromptView {
        match self {
            NamePrompt::Decided(name) => NamePromptView::Decided(name@),
            NamePrompt::Ask { default } => NamePromptView::Ask { default: default@ },
        }
    }
}

/// The prompt for a name with a default: decided at once where all
/// defaults are accepted.
pub open spec fn name_prompt(default: Seq<char>, accept_all: bool) -> NamePromptView {
    if accept_all {
        NamePromptView::Decided(default)
    } else {
        NamePromptView::Ask { default }
    }
}

/// A selection among items that is either decided or has to be asked for.
#[derive(Debug, PartialEq, Eq)]
pub enum SelectionPrompt<T> {
    /// No question is needed.
    Decided(Vec<T>),
    /// Show `items` and preselect those that `defaults` marks.
    Ask { items: Vec<String>, defaults: Vec<bool> },
}

pub ghost enum SelectionPromptView<T> {
    Decided(Seq<T>),
    Ask { items: Seq<Seq<char>>, defaults: Seq<bool> },
}

impl<T> View for SelectionPrompt<T> {
    type V = SelectionPromptView<T>;

    open spec fn view(&self) -> SelectionPromptView<T> {
        match self {
            SelectionPrompt::Decided(chosen) => SelectionPromptView::Decided(chosen@),
            SelectionPrompt::Ask { items, defaults } => SelectionPromptView::Ask {
                items: items.deep_view(),
                defaults: defaults@,
            },
        }
    }
}

/// The prompt for a selection: everything on offer is taken where all
/// defaults are accepted.
pub open spec fn selection_prompt<T>(
    all: Seq<T>,
    items: Seq<Seq<char>>,
    defaults: Seq<bool>,
    accept_all: bool,
) -> SelectionPromptView<T> {
    if accept_all {
        SelectionPromptView::Decided(all)
    } else {
        SelectionPromptView::Ask { items, defaults }
    }
}

} // verus!

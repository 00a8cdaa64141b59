//! The election manifest: the contests of an election and their options.

use vstd::prelude::*;

verus! {

/// An option in a contest.
#[derive(Debug, PartialEq, Eq)]
pub struct ContestOption {
    /// The label of the option.
    pub label: String,
}

/// A contest.
#[derive(Debug, PartialEq, Eq)]
pub struct Contest {
    /// The label of the contest.
    pub label: String,
    /// The maximum number of options that a voter may select.
    pub selection_limit: usize,
    /// The options that a voter may select, in the order of the ballot.
    pub options: Vec<ContestOption>,
}

/// The election manifest.
#[derive(Debug, PartialEq, Eq)]
pub struct ElectionManifest {
    /// The contests, in the order of the ballot.
    pub contests: Vec<Contest>,
}

/// What a contest holds.
#[verifier::ext_equal]
pub struct ContestView {
    /// The label of the contest.
    pub label: Seq<char>,
    /// The maximum number of options that a voter may select.
    pub selection_limit: nat,
    /// The labels of the options.
    pub options: Seq<Seq<char>>,
}

impl View for ContestOption {
    type V = Seq<char>;

    /// The label of the option.
    open spec fn view(&self) -> Seq<char> {
        self.label@
    }
}

impl DeepView for ContestOption {
    type V = Seq<char>;

    open spec fn deep_view(&self) -> Seq<char> {
        self.label@
    }
}

impl View for Contest {
    type V = ContestView;

    open spec fn view(&self) -> ContestView {
        ContestView {
            label: self.label@,
            selection_limit: self.selection_limit as nat,
            options: self.options.deep_view(),
        }
    }
}

impl DeepView for Contest {
    type V = ContestView;

    open spec fn deep_view(&self) -> ContestView {
        self@
    }
}

impl View for ElectionManifest {
    type V = Seq<ContestView>;

    /// The contests, in order.
    open spec fn view(&self) -> Seq<ContestView> {
        self.contests.deep_view()
    }
}

} // verus!

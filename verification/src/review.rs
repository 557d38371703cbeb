//! Standing user restrictions: what they match and how strong they are.
use vstd::prelude::*;

verus! {

/// Revision of the restriction set that a decision was evaluated against.
#[derive(Debug, Clone, Copy, PartialEq, Eq, Structural, Default)]
pub struct PolicyRevision(pub u64);

/// Classes of host actions recognized from a command's argv.
#[derive(Debug, Clone, Copy, PartialEq, Eq, Structural)]
pub enum ActionClass {
    HostActivation,
    ExternalPublish,
    PersistentInstall,
    DestructiveDelete,
}

/// What a restriction applies to.
#[derive(Debug, Clone, PartialEq, Eq)]
pub enum RestrictionMatcher {
    /// Commands whose normalized argv begins with the prefix's argv.
    CommandPrefix { prefix: String },
    /// Resources whose path lies under the prefix path.
    PathPrefix { prefix: String },
    /// Commands whose argv falls in the action class.
    ActionClass { class: ActionClass },
}

/// A standing restriction; `HumanPerforms` is the stronger of the two.
#[derive(Debug, Clone, PartialEq, Eq)]
pub enum ReviewRestriction {
    AskFirst { matcher: RestrictionMatcher, note: String },
    HumanPerforms { matcher: RestrictionMatcher, note: String },
}

/// Global and project restriction sets with their revision.
#[derive(Debug, Clone, PartialEq, Eq)]
pub struct ReviewPolicy {
    pub revision: PolicyRevision,
    pub global: Vec<ReviewRestriction>,
    pub project: Vec<ReviewRestriction>,
}

impl ReviewPolicy {
    /// No restrictions, at revision 0.
    pub fn empty() -> (p: Self)
        ensures
            p.revision.0 == 0,
            p.global@.len() == 0,
            p.project@.len() == 0,
    {
        ReviewPolicy { revision: PolicyRevision(0), global: Vec::new(), project: Vec::new() }
    }
}

impl ReviewRestriction {
    pub open spec fn is_human(self) -> bool {
        self is HumanPerforms
    }

    pub open spec fn matcher(self) -> RestrictionMatcher {
        match self {
            ReviewRestriction::AskFirst { matcher, .. } => matcher,
            ReviewRestriction::HumanPerforms { matcher, .. } => matcher,
        }
    }

    pub open spec fn note_view(self) -> Seq<char> {
        match self {
            ReviewRestriction::AskFirst { note, .. } => note@,
            ReviewRestriction::HumanPerforms { note, .. } => note@,
        }
    }
}

} // verus!

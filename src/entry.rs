use vstd::prelude::*;

verus! {

/// State of a branch that matters for rendering and for which actions apply.
#[derive(Clone, Copy, Debug, PartialEq, Eq, Structural)]
pub enum Details {
    Local { is_head: bool, has_upstream: bool },
    Remote { has_tracking: bool },
}

/// One branch as the backend reported it.
#[derive(Clone, Debug)]
pub struct Entry {
    /// Display name, matched against the query.
    pub name: String,
    /// Reference used when asking the backend to act on the branch.
    pub reference: String,
    /// Message of the branch's top commit.
    pub top_commit_message: String,
    /// Full hexadecimal id of the branch's top commit.
    pub top_commit: String,
    pub details: Details,
}

impl Entry {
    pub open spec fn is_head_spec(&self) -> bool {
        match self.details {
            Details::Local { is_head, .. } => is_head,
            Details::Remote { .. } => false,
        }
    }

    /// Whether this is the branch checked out in the repository.
    pub fn is_head(&self) -> (r: bool)
        ensures
            r == self.is_head_spec(),
    {
        match self.details {
            Details::Local { is_head, .. } => is_head,
            Details::Remote { .. } => false,
        }
    }
}

/// The display names of a list of entries.
pub open spec fn names_of(entries: Seq<Entry>) -> Seq<Seq<char>> {
    entries.map_values(|e: Entry| e.name@)
}

} // verus!

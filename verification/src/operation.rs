//! The four operations of the plugin.

use vstd::prelude::*;

verus! {

/// One of the operations that the plugin offers.
#[derive(Clone, Copy, Debug, PartialEq, Eq, Structural)]
pub enum Operation {
    Init,
    Validate,
    Plan,
    Apply,
}

impl Operation {
    /// The word that selects the operation on the tool's command line. The
    /// pipeline stage that the operation runs in carries the same word as its
    /// name.
    pub open spec fn verb(self) -> Seq<char> {
        match self {
            Operation::Init => "init"@,
            Operation::Validate => "validate"@,
            Operation::Plan => "plan"@,
            Operation::Apply => "apply"@,
        }
    }

    /// Gives the operation's verb.
    pub fn name(self) -> (word: &'static str)
        ensures
            word@ == self.verb(),
    {
        match self {
            Operation::Init => "init",
            Operation::Validate => "validate",
            Operation::Plan => "plan",
            Operation::Apply => "apply",
        }
    }
}

} // verus!

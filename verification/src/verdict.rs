//! The outcome of a validation stage: success, or every violation found.

use crate::text::{join_lines, joined, trim, trimmed, views};
use vstd::prelude::*;

verus! {

/// The violations that one validation stage found, in the order of the rules.
/// There is always at least one.
#[derive(Debug, PartialEq, Eq)]
pub struct ValidationError {
    descriptions: Vec<String>,
}

impl View for ValidationError {
    type V = Seq<Seq<char>>;

    closed spec fn view(&self) -> Seq<Seq<char>> {
        views(self.descriptions@)
    }
}

impl ValidationError {
    #[verifier::type_invariant]
    spec fn holds_a_violation(&self) -> bool {
        self.descriptions@.len() > 0
    }

    /// The text that shows all violations at once: one per line, without
    /// white space at either end.
    pub open spec fn spec_message(&self) -> Seq<char> {
        trimmed(joined(self@))
    }

    /// The descriptions of the violations, one for each.
    pub fn descriptions(&self) -> (lines: &Vec<String>)
        ensures
            views(lines@) == self@,
            lines@.len() > 0,
    {
        proof {
            use_type_invariant(self);
        }
        &self.descriptions
    }

    /// The text that shows all violations at once.
    pub fn message(&self) -> (text: String)
        ensures
            text@ == self.spec_message(),
    {
        let all = join_lines(&self.descriptions);
        trim(all.as_str())
    }
}

/// Closes a validation stage: success where no rule was violated, else the
/// violations as they were collected.
pub fn conclude(violations: Vec<String>) -> (verdict: Result<(), ValidationError>)
    ensures
        verdict.is_ok() <==> violations@.len() == 0,
        verdict matches Err(e) ==> e@ == views(violations@),
{
    if violations.len() == 0 {
        Ok(())
    } else {
        Err(ValidationError { descriptions: violations })
    }
}

} // verus!

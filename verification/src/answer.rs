//! The answer to the question whether the current weather is wanted.

use crate::text::{eq_ignore_ascii_case, eq_ignoring_ascii_case, trim, trimmed};
use vstd::prelude::*;

verus! {

/// What a typed answer to a yes-or-no question was taken for.
#[derive(Clone, Copy, Debug, PartialEq, Eq, Structural)]
pub enum Answer {
    /// The answer was `yes`.
    Yes,
    /// The answer was `no`.
    No,
    /// The answer was neither.
    Unrecognized,
}

impl Answer {
    /// What `line` is taken for: white space at either end is left out,
    /// and upper and lower case count as the same.
    pub open spec fn of(line: Seq<char>) -> Answer {
        if eq_ignoring_ascii_case(trimmed(line), "yes"@) {
            Answer::Yes
        } else if eq_ignoring_ascii_case(trimmed(line), "no"@) {
            Answer::No
        } else {
            Answer::Unrecognized
        }
    }

    /// Whether the answer asks for the current weather. Only `yes` does.
    pub open spec fn wants(self) -> bool {
        self is Yes
    }

    /// Reads the answer out of a typed line.
    pub fn read(line: &str) -> (a: Answer)
        ensures
            a == Answer::of(line@),
    {
        let word = trim(line);
        if eq_ignore_ascii_case(word, "yes") {
            Answer::Yes
        } else if eq_ignore_ascii_case(word, "no") {
            Answer::No
        } else {
            Answer::Unrecognized
        }
    }

    /// Tells whether the answer asks for the current weather. An answer
    /// that was not recognized does not.
    pub fn wants_current_weather(self) -> (r: bool)
        ensures
            r == self.wants(),
    {
        match self {
            Answer::Yes => true,
            Answer::No => false,
            Answer::Unrecognized => false,
        }
    }

    /// Tells whether the answer was neither `yes` nor `no`, so that the
    /// caller owes a warning.
    pub fn is_unrecognized(self) -> (r: bool)
        ensures
            r == (self is Unrecognized),
    {
        match self {
            Answer::Unrecognized => true,
            _ => false,
        }
    }
}

} // verus!

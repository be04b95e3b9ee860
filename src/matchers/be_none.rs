//! Absence of a value in an `Option`.
use vstd::prelude::*;

use crate::message::{debug_text, expectation_spec, expectation_text};
use crate::{Match, Matcher};

verus! {

/// Matches when the optional subject carries no value.
pub fn be_none() -> (r: NoneMatcher) {
    NoneMatcher {  }
}

pub struct NoneMatcher {}

impl NoneMatcher {
    /// Whether `actual` is `None`.
    pub fn match_value<T>(&self, actual: &Option<T>) -> (r: bool)
        ensures
            r == actual is None,
    {
        actual.is_none()
    }

    /// `"\tExpected:\n\t\t<actual>\n\tto be None"`, in the subject's `Debug` form.
    pub fn failure_message<T: std::fmt::Debug>(&self, actual: &Option<T>) -> (r: String)
        ensures
            exists|a: Seq<char>| r@ == expectation_spec(a, "to be None"@),
    {
        let a = debug_text(actual);
        expectation_text(a.as_str(), "to be None")
    }

    /// `"\tExpected:\n\t\t<actual>\n\tnot to be None"`, in the subject's `Debug` form.
    pub fn negated_failure_message<T: std::fmt::Debug>(&self, actual: &Option<T>) -> (r: String)
        ensures
            exists|a: Seq<char>| r@ == expectation_spec(a, "not to be None"@),
    {
        let a = debug_text(actual);
        expectation_text(a.as_str(), "not to be None")
    }
}

impl<T: std::fmt::Debug> Matcher<Option<T>> for NoneMatcher {
    open spec fn obeys_match_spec() -> bool {
        true
    }

    open spec fn match_spec(&self, actual: &Option<T>) -> bool {
        actual is None
    }

    fn outcome(&self, actual: &Option<T>) -> (r: Match) {
        if self.match_value(actual) {
            Match::Matched(self.negated_failure_message(actual))
        } else {
            Match::NotMatched(self.failure_message(actual))
        }
    }
}

} // verus!

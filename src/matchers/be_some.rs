//! Presence of a value in an `Option`.
use vstd::prelude::*;
use vstd::string::*;

use crate::matchers::be_none::NoneMatcher;
use crate::message::debug_text;
use crate::{Match, Matcher};

verus! {

/// Matches when the optional subject carries a value.
pub fn be_some() -> (r: SomeMatcher) {
    SomeMatcher {  }
}

pub struct SomeMatcher {}

/// `"expected <actual> not to be a Some"`: the message of a present value.
pub open spec fn present_spec(actual: Seq<char>) -> Seq<char> {
    "expected "@ + actual + " not to be a Some"@
}

/// `"expected None to be a Some"`: the message of an absent value.
pub open spec fn absent_spec() -> Seq<char> {
    "expected None to be a Some"@
}

impl SomeMatcher {
    /// `Matched` with the message of a present value when `actual` is `Some`,
    /// else `NotMatched` with the message of an absent value.
    pub fn match_value<T: std::fmt::Debug>(&self, actual: &Option<T>) -> (r: Match)
        ensures
            r.is_matched() == actual is Some,
            r.is_matched() ==> exists|a: Seq<char>| r.text() == present_spec(a),
            !r.is_matched() ==> r.text() == absent_spec(),
    {
        if actual.is_some() {
            let mut m = String::from_str("expected ");
            let a = debug_text(actual);
            m.append(a.as_str());
            m.append(" not to be a Some");
            assert(m@ == present_spec(a@));
            Match::Matched(m)
        } else {
            Match::NotMatched(String::from_str("expected None to be a Some"))
        }
    }
}

impl<T: std::fmt::Debug> Matcher<Option<T>> for SomeMatcher {
    open spec fn obeys_match_spec() -> bool {
        true
    }

    open spec fn match_spec(&self, actual: &Option<T>) -> bool {
        actual is Some
    }

    fn outcome(&self, actual: &Option<T>) -> (r: Match) {
        self.match_value(actual)
    }
}

/// On an optional value, `be_some()` holds exactly when it carries a value,
/// `be_none()` exactly when it does not, and exactly one of the two holds.
pub proof fn lemma_some_none_exclusive<T: std::fmt::Debug>(
    some: SomeMatcher,
    none: NoneMatcher,
    actual: Option<T>,
)
    ensures
        <SomeMatcher as Matcher<Option<T>>>::obeys_match_spec(),
        <NoneMatcher as Matcher<Option<T>>>::obeys_match_spec(),
        some.match_spec(&actual) <==> actual is Some,
        none.match_spec(&actual) <==> actual is None,
        some.match_spec(&actual) != none.match_spec(&actual),
{
}

} // verus!

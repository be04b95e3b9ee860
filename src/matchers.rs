//! The matchers: equality here, the others in submodules.
use vstd::prelude::*;
use vstd::laws_eq::obeys_concrete_eq;
use vstd::std_specs::cmp::PartialEqSpec;

use crate::message::{debug_text, relation_spec, relation_text};
use crate::{Match, Matcher};

pub mod be_none;
pub mod be_some;
pub mod collection;

verus! {

/// Matches when the subject equals `expected`, by the subject's own `==`.
pub fn equal<T>(expected: T) -> (r: EqualMatcher<T>)
    ensures
        r == equal_spec(expected),
        r.expected() == expected,
{
    EqualMatcher { expected }
}

pub struct EqualMatcher<T> {
    expected: T,
}

impl<E> EqualMatcher<E> {
    pub closed spec fn expected(&self) -> E {
        self.expected
    }

    /// Whether `actual == expected`.
    pub fn match_value<A: PartialEq<E>>(&self, actual: &A) -> (r: bool)
        ensures
            A::obeys_eq_spec() ==> r == actual.eq_spec(&self.expected()),
    {
        actual.eq(&self.expected)
    }

    /// `"\tExpected:\n\t\t<actual>\n\tto equal:\n\t\t<expected>"`, each value in its
    /// `Debug` form.
    pub fn failure_message<A: std::fmt::Debug>(&self, actual: &A) -> (r: String) where
        E: std::fmt::Debug,
        ensures
            exists|a: Seq<char>, e: Seq<char>| r@ == relation_spec(a, "to equal"@, e),
    {
        let a = debug_text(actual);
        let e = debug_text(&self.expected);
        relation_text(a.as_str(), "to equal", e.as_str())
    }

    /// `"\tExpected:\n\t\t<actual>\n\tnot to equal:\n\t\t<expected>"`, each value in
    /// its `Debug` form.
    pub fn negated_failure_message<A: std::fmt::Debug>(&self, actual: &A) -> (r: String) where
        E: std::fmt::Debug,
        ensures
            exists|a: Seq<char>, e: Seq<char>| r@ == relation_spec(a, "not to equal"@, e),
    {
        let a = debug_text(actual);
        let e = debug_text(&self.expected);
        relation_text(a.as_str(), "not to equal", e.as_str())
    }
}

impl<E: std::fmt::Debug, A: PartialEq<E> + std::fmt::Debug> Matcher<A> for EqualMatcher<E> {
    open spec fn obeys_match_spec() -> bool {
        A::obeys_eq_spec()
    }

    open spec fn match_spec(&self, actual: &A) -> bool {
        actual.eq_spec(&self.expected())
    }

    fn outcome(&self, actual: &A) -> (r: Match) {
        if self.match_value(actual) {
            Match::Matched(self.negated_failure_message(actual))
        } else {
            Match::NotMatched(self.failure_message(actual))
        }
    }
}

/// The matcher that `equal(expected)` returns.
pub closed spec fn equal_spec<T>(expected: T) -> EqualMatcher<T> {
    EqualMatcher { expected }
}

/// `equal(e)` holds for a subject `a` exactly when `a == e` by the subject's own
/// `==`, wherever that `==` follows its specification.
pub proof fn lemma_equal_is_eq<E: std::fmt::Debug, A: PartialEq<E> + std::fmt::Debug>(a: A, e: E)
    requires
        A::obeys_eq_spec(),
    ensures
        <EqualMatcher<E> as Matcher<A>>::obeys_match_spec(),
        equal_spec(e).match_spec(&a) == a.eq_spec(&e),
{
}

/// `equal(a)` holds for the subject `a` itself, for a type whose `==` is
/// equality of values.
pub proof fn lemma_equal_reflexive<T: PartialEq + std::fmt::Debug>(a: T)
    requires
        obeys_concrete_eq::<T>(),
    ensures
        <EqualMatcher<T> as Matcher<T>>::obeys_match_spec(),
        equal_spec(a).match_spec(&a),
{
    reveal(obeys_concrete_eq);
}

} // verus!

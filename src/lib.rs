//! Readable test assertions: `expect(&subject).to(matcher)`.
//!
//! A matcher captures what it expects and, evaluated against a subject, yields a
//! self-describing [`Match`]. The evaluator turns that outcome into a verdict for
//! the positive (`to`) or the negated (`not_to`) form of the assertion.
use vstd::prelude::*;

pub mod matchers;
pub mod message;

pub use matchers::be_none::{be_none, NoneMatcher};
pub use matchers::be_some::{be_some, SomeMatcher};
pub use matchers::collection::{be_empty, contain, BeEmptyMatcher, Collection, ContainMatcher};
pub use matchers::{equal, EqualMatcher};

verus! {

/// The self-describing result of evaluating a matcher: the tag says whether the
/// matcher holds, and the message is the one to report should that outcome be
/// the unwanted one.
#[derive(PartialEq, Eq, Debug)]
pub enum Match {
    /// The matcher holds; the message explains the failure of a negated expectation.
    Matched(String),
    /// The matcher does not hold; the message explains the failure of a positive expectation.
    NotMatched(String),
}

impl Match {
    pub open spec fn is_matched(&self) -> bool {
        self is Matched
    }

    /// The message carried by either tag.
    pub open spec fn text(&self) -> Seq<char> {
        match self {
            Match::Matched(m) => m@,
            Match::NotMatched(m) => m@,
        }
    }

    pub fn matched(&self) -> (r: bool)
        ensures
            r == self.is_matched(),
    {
        match self {
            Match::Matched(_) => true,
            Match::NotMatched(_) => false,
        }
    }
}

/// The matcher protocol. A matcher is evaluated against a subject of type `A`
/// and reports a [`Match`] whose tag is the truth of `match_spec`, whenever
/// `obeys_match_spec` says that the matcher's model applies (for instance, that
/// the subject's `==` follows its specification).
pub trait Matcher<A> {
    spec fn obeys_match_spec() -> bool;

    spec fn match_spec(&self, actual: &A) -> bool;

    fn outcome(&self, actual: &A) -> (r: Match)
        ensures
            Self::obeys_match_spec() ==> r.is_matched() == self.match_spec(actual),
    ;
}

/// What `to` reports for an outcome: success when the matcher holds, else the
/// outcome's message.
pub open spec fn to_verdict(o: Match) -> Result<(), Seq<char>> {
    match o {
        Match::Matched(_) => Ok(()),
        Match::NotMatched(m) => Err(m@),
    }
}

/// What `not_to` reports for an outcome: success when the matcher does not
/// hold, else the outcome's message.
pub open spec fn not_to_verdict(o: Match) -> Result<(), Seq<char>> {
    match o {
        Match::Matched(m) => Err(m@),
        Match::NotMatched(_) => Ok(()),
    }
}

pub open spec fn verdict_view(r: Result<(), String>) -> Result<(), Seq<char>> {
    match r {
        Ok(()) => Ok(()),
        Err(m) => Err(m@),
    }
}

/// The verdict of a positive assertion on an outcome.
pub fn verdict_to(o: Match) -> (r: Result<(), String>)
    ensures
        verdict_view(r) == to_verdict(o),
        r is Ok <==> o.is_matched(),
{
    match o {
        Match::Matched(_) => Ok(()),
        Match::NotMatched(m) => Err(m),
    }
}

/// The verdict of a negated assertion on an outcome.
pub fn verdict_not_to(o: Match) -> (r: Result<(), String>)
    ensures
        verdict_view(r) == not_to_verdict(o),
        r is Ok <==> !o.is_matched(),
{
    match o {
        Match::Matched(m) => Err(m),
        Match::NotMatched(_) => Ok(()),
    }
}

/// Complement law: on one outcome, the negated assertion fails exactly when
/// the positive one succeeds, and the other way round.
pub proof fn lemma_complement(o: Match)
    ensures
        to_verdict(o) is Ok <==> not_to_verdict(o) is Err,
        to_verdict(o) is Err <==> not_to_verdict(o) is Ok,
{
}

/// Complement law for a matcher and a subject: wherever the matcher's model
/// applies, `not_to` fails exactly when `to` would have succeeded.
pub proof fn lemma_matcher_complement<A, M: Matcher<A>>(m: M, actual: A, o: Match)
    requires
        M::obeys_match_spec(),
        o.is_matched() == m.match_spec(&actual),
    ensures
        to_verdict(o) is Ok <==> m.match_spec(&actual),
        not_to_verdict(o) is Err <==> m.match_spec(&actual),
        to_verdict(o) is Ok <==> not_to_verdict(o) is Err,
{
}

/// A subject awaiting exactly one assertion. It borrows the subject and never
/// changes it.
pub struct Expectation<'a, A> {
    actual: &'a A,
}

impl<'a, A> Expectation<'a, A> {
    pub closed spec fn subject(&self) -> &'a A {
        self.actual
    }

    /// Asserts that `matcher` holds for the subject: `Ok` when it does, else the
    /// failure message of the positive form.
    #[must_use]
    pub fn to<M: Matcher<A>>(self, matcher: M) -> (r: Result<(), String>)
        ensures
            M::obeys_match_spec() ==> (r is Ok <==> matcher.match_spec(self.subject())),
            exists|o: Match|
                (M::obeys_match_spec() ==> o.is_matched() == matcher.match_spec(self.subject()))
                    && verdict_view(r) == to_verdict(o),
    {
        let o = matcher.outcome(self.actual);
        let ghost g = o;
        let r = verdict_to(o);
        assert(verdict_view(r) == to_verdict(g));
        r
    }

    /// Asserts that `matcher` does not hold for the subject: `Ok` when it does
    /// not, else the failure message of the negated form.
    #[must_use]
    pub fn not_to<M: Matcher<A>>(self, matcher: M) -> (r: Result<(), String>)
        ensures
            M::obeys_match_spec() ==> (r is Ok <==> !matcher.match_spec(self.subject())),
            exists|o: Match|
                (M::obeys_match_spec() ==> o.is_matched() == matcher.match_spec(self.subject()))
                    && verdict_view(r) == not_to_verdict(o),
    {
        let o = matcher.outcome(self.actual);
        let ghost g = o;
        let r = verdict_not_to(o);
        assert(verdict_view(r) == not_to_verdict(g));
        r
    }
}

/// Binds a subject for one assertion.
pub fn expect<'a, A>(actual: &'a A) -> (r: Expectation<'a, A>)
    ensures
        r.subject() == actual,
{
    Expectation { actual }
}

} // verus!

//! The texts of failure messages.
use vstd::prelude::*;
use vstd::string::*;

verus! {

/// `"\tExpected:\n\t\t<actual>\n\t<phrase>"`: a subject and what it was expected to do.
pub open spec fn expectation_spec(actual: Seq<char>, phrase: Seq<char>) -> Seq<char> {
    "\tExpected:\n\t\t"@ + actual + "\n\t"@ + phrase
}

/// `"\tExpected:\n\t\t<actual>\n\t<phrase>:\n\t\t<expected>"`: a subject, a relation
/// and the value it was expected to stand in that relation to.
pub open spec fn relation_spec(actual: Seq<char>, phrase: Seq<char>, expected: Seq<char>) -> Seq<
    char,
> {
    expectation_spec(actual, phrase) + ":\n\t\t"@ + expected
}

/// Builds the message `"\tExpected:\n\t\t<actual>\n\t<phrase>"`.
pub fn expectation_text(actual: &str, phrase: &str) -> (r: String)
    ensures
        r@ == expectation_spec(actual@, phrase@),
{
    let mut s = String::from_str("\tExpected:\n\t\t");
    s.append(actual);
    s.append("\n\t");
    s.append(phrase);
    s
}

/// Builds the message `"\tExpected:\n\t\t<actual>\n\t<phrase>:\n\t\t<expected>"`.
pub fn relation_text(actual: &str, phrase: &str, expected: &str) -> (r: String)
    ensures
        r@ == relation_spec(actual@, phrase@, expected@),
{
    let mut s = expectation_text(actual, phrase);
    s.append(":\n\t\t");
    s.append(expected);
    s
}

/// Relies on std's `Debug` formatting (`{:?}`) for the human-readable form of a
/// value; what it looks like is up to the value's `Debug` impl.
#[verifier::external_body]
pub(crate) fn debug_text<T: std::fmt::Debug>(value: &T) -> String {
    format!("{:?}", value)
}

} // verus!

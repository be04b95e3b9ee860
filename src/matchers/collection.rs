//! Membership and emptiness over many kinds of containers: one matcher body each,
//! and one [`Collection`] adapter per container kind.
use vstd::prelude::*;
use vstd::laws_cmp::obeys_cmp;
use vstd::std_specs::btree::group_btree_axioms;
use vstd::std_specs::cmp::PartialEqSpec;
use vstd::std_specs::hash::{builds_valid_hashers, group_hash_axioms, obeys_key_model};

use std::collections::hash_map::RandomState;
use std::collections::{BTreeSet, HashSet, VecDeque};
use std::marker::PhantomData;

use crate::message::{debug_text, expectation_spec, expectation_text, relation_spec, relation_text};
use crate::{Match, Matcher};

verus! {

broadcast use {group_hash_axioms, group_btree_axioms};

/// A container kind that can say whether an element occurs among its elements
/// and whether it has none.
pub trait Collection<T> {
    /// Whether the container's model applies (for instance, whether the
    /// elements' `==` follows its specification).
    spec fn obeys_collection_spec() -> bool;

    /// `element` occurs among the elements.
    spec fn has_element(&self, element: &T) -> bool;

    /// There are no elements.
    spec fn has_no_elements(&self) -> bool;

    fn contains_element(&self, element: &T) -> (r: bool)
        ensures
            Self::obeys_collection_spec() ==> r == self.has_element(element),
    ;

    fn empty(&self) -> (r: bool)
        ensures
            r == self.has_no_elements(),
    ;

    /// A container with no elements has no element.
    proof fn lemma_empty_has_no_element(&self, element: &T)
        requires
            self.has_no_elements(),
        ensures
            !self.has_element(element),
    ;
}

/// `element` equals, by `==`, one of the items of `s`.
pub open spec fn seq_has<T: PartialEq>(s: Seq<T>, element: &T) -> bool {
    exists|i: int| 0 <= i < s.len() && (#[trigger] s[i]).eq_spec(element)
}

/// Linear scan of a slice for an element equal to `element`.
pub fn slice_contains<T: PartialEq>(items: &[T], element: &T) -> (r: bool)
    ensures
        T::obeys_eq_spec() ==> r == seq_has(items@, element),
{
    let mut i: usize = 0;
    while i < items.len()
        invariant
            0 <= i <= items@.len(),
            T::obeys_eq_spec() ==> forall|j: int| 0 <= j < i ==> !(#[trigger] items@[j]).eq_spec(element),
        decreases items@.len() - i,
    {
        if items[i].eq(element) {
            assert(T::obeys_eq_spec() ==> items@[i as int].eq_spec(element));
            return true;
        }
        i += 1;
    }
    false
}

impl<T: PartialEq> Collection<T> for [T] {
    open spec fn obeys_collection_spec() -> bool {
        T::obeys_eq_spec()
    }

    open spec fn has_element(&self, element: &T) -> bool {
        seq_has(self@, element)
    }

    open spec fn has_no_elements(&self) -> bool {
        self@.len() == 0
    }

    fn contains_element(&self, element: &T) -> (r: bool) {
        slice_contains(self, element)
    }

    fn empty(&self) -> (r: bool) {
        self.len() == 0
    }

    proof fn lemma_empty_has_no_element(&self, element: &T) {
    }
}

impl<T: PartialEq, const N: usize> Collection<T> for [T; N] {
    open spec fn obeys_collection_spec() -> bool {
        T::obeys_eq_spec()
    }

    open spec fn has_element(&self, element: &T) -> bool {
        seq_has(self@, element)
    }

    open spec fn has_no_elements(&self) -> bool {
        self@.len() == 0
    }

    fn contains_element(&self, element: &T) -> (r: bool) {
        let mut i: usize = 0;
        while i < N
            invariant
                0 <= i <= N,
                self@.len() == N,
                T::obeys_eq_spec() ==> forall|j: int| 0 <= j < i ==> !(#[trigger] self@[j]).eq_spec(element),
            decreases N - i,
        {
            if self[i].eq(element) {
                assert(T::obeys_eq_spec() ==> self@[i as int].eq_spec(element));
                return true;
            }
            i += 1;
        }
        false
    }

    fn empty(&self) -> (r: bool) {
        N == 0
    }

    proof fn lemma_empty_has_no_element(&self, element: &T) {
    }
}

impl<T: PartialEq> Collection<T> for Vec<T> {
    open spec fn obeys_collection_spec() -> bool {
        T::obeys_eq_spec()
    }

    open spec fn has_element(&self, element: &T) -> bool {
        seq_has(self@, element)
    }

    open spec fn has_no_elements(&self) -> bool {
        self@.len() == 0
    }

    fn contains_element(&self, element: &T) -> (r: bool) {
        slice_contains(self.as_slice(), element)
    }

    fn empty(&self) -> (r: bool) {
        self.is_empty()
    }

    proof fn lemma_empty_has_no_element(&self, element: &T) {
    }
}

impl<T: PartialEq> Collection<T> for VecDeque<T> {
    open spec fn obeys_collection_spec() -> bool {
        T::obeys_eq_spec()
    }

    open spec fn has_element(&self, element: &T) -> bool {
        seq_has(self@, element)
    }

    open spec fn has_no_elements(&self) -> bool {
        self@.len() == 0
    }

    fn contains_element(&self, element: &T) -> (r: bool) {
        let mut i: usize = 0;
        while i < self.len()
            invariant
                0 <= i <= self@.len(),
                T::obeys_eq_spec() ==> forall|j: int| 0 <= j < i ==> !(#[trigger] self@[j]).eq_spec(element),
            decreases self@.len() - i,
        {
            if self[i].eq(element) {
                assert(T::obeys_eq_spec() ==> self@[i as int].eq_spec(element));
                return true;
            }
            i += 1;
        }
        false
    }

    fn empty(&self) -> (r: bool) {
        self.len() == 0
    }

    proof fn lemma_empty_has_no_element(&self, element: &T) {
    }
}

impl<T: Eq + std::hash::Hash> Collection<T> for HashSet<T> {
    open spec fn obeys_collection_spec() -> bool {
        obeys_key_model::<T>() && builds_valid_hashers::<RandomState>()
    }

    open spec fn has_element(&self, element: &T) -> bool {
        self@.contains(*element)
    }

    open spec fn has_no_elements(&self) -> bool {
        self@.is_empty()
    }

    fn contains_element(&self, element: &T) -> (r: bool) {
        self.contains(element)
    }

    fn empty(&self) -> (r: bool) {
        self.is_empty()
    }

    proof fn lemma_empty_has_no_element(&self, element: &T) {
    }
}

impl<T: Ord> Collection<T> for BTreeSet<T> {
    open spec fn obeys_collection_spec() -> bool {
        obeys_cmp::<T>()
    }

    open spec fn has_element(&self, element: &T) -> bool {
        self@.contains(*element)
    }

    open spec fn has_no_elements(&self) -> bool {
        self@.is_empty()
    }

    fn contains_element(&self, element: &T) -> (r: bool) {
        self.contains(element)
    }

    fn empty(&self) -> (r: bool) {
        self.is_empty()
    }

    proof fn lemma_empty_has_no_element(&self, element: &T) {
    }
}

/// Matches when the subject container holds `element`.
pub fn contain<T>(element: T) -> (r: ContainMatcher<T>)
    ensures
        r == contain_spec(element),
        r.element() == element,
{
    ContainMatcher { element }
}

pub struct ContainMatcher<T> {
    element: T,
}

impl<T> ContainMatcher<T> {
    pub closed spec fn element(&self) -> T {
        self.element
    }

    /// Whether `element` occurs among the elements of `collection`.
    pub fn match_value<V: Collection<T>>(&self, collection: &V) -> (r: bool)
        ensures
            V::obeys_collection_spec() ==> r == collection.has_element(&self.element()),
    {
        collection.contains_element(&self.element)
    }

    /// `"\tExpected:\n\t\t<collection>\n\tto contain:\n\t\t<element>"`, each value in
    /// its `Debug` form.
    pub fn failure_message<V: std::fmt::Debug>(&self, collection: &V) -> (r: String) where
        T: std::fmt::Debug,
        ensures
            exists|a: Seq<char>, e: Seq<char>| r@ == relation_spec(a, "to contain"@, e),
    {
        let a = debug_text(collection);
        let e = debug_text(&self.element);
        relation_text(a.as_str(), "to contain", e.as_str())
    }

    /// `"\tExpected:\n\t\t<collection>\n\tnot to contain:\n\t\t<element>"`, each value
    /// in its `Debug` form.
    pub fn negated_failure_message<V: std::fmt::Debug>(&self, collection: &V) -> (r: String) where
        T: std::fmt::Debug,
        ensures
            exists|a: Seq<char>, e: Seq<char>| r@ == relation_spec(a, "not to contain"@, e),
    {
        let a = debug_text(collection);
        let e = debug_text(&self.element);
        relation_text(a.as_str(), "not to contain", e.as_str())
    }
}

impl<T: PartialEq + std::fmt::Debug, V: Collection<T> + std::fmt::Debug> Matcher<V> for ContainMatcher<
    T,
> {
    open spec fn obeys_match_spec() -> bool {
        V::obeys_collection_spec()
    }

    open spec fn match_spec(&self, collection: &V) -> bool {
        collection.has_element(&self.element())
    }

    fn outcome(&self, collection: &V) -> (r: Match) {
        if self.match_value(collection) {
            Match::Matched(self.negated_failure_message(collection))
        } else {
            Match::NotMatched(self.failure_message(collection))
        }
    }
}

/// Matches when the subject container has no elements.
pub fn be_empty<T>() -> (r: BeEmptyMatcher<T>)
    ensures
        r == be_empty_spec::<T>(),
{
    BeEmptyMatcher::<T> { phantom: PhantomData }
}

pub struct BeEmptyMatcher<T> {
    phantom: PhantomData<T>,
}

impl<T> BeEmptyMatcher<T> {
    /// Whether `collection` has no elements.
    pub fn match_value<V: Collection<T>>(&self, collection: &V) -> (r: bool)
        ensures
            r == collection.has_no_elements(),
    {
        collection.empty()
    }

    /// `"\tExpected:\n\t\t<collection>\n\tto be empty"`, in the collection's `Debug` form.
    pub fn failure_message<V: Collection<T> + std::fmt::Debug>(&self, collection: &V) -> (r: String)
        ensures
            exists|a: Seq<char>| r@ == expectation_spec(a, "to be empty"@),
    {
        let a = debug_text(collection);
        expectation_text(a.as_str(), "to be empty")
    }

    /// `"\tExpected:\n\t\t<collection>\n\tnot to be empty"`, in the collection's `Debug`
    /// form.
    pub fn negated_failure_message<V: Collection<T> + std::fmt::Debug>(&self, collection: &V) -> (r:
        String)
        ensures
            exists|a: Seq<char>| r@ == expectation_spec(a, "not to be empty"@),
    {
        let a = debug_text(collection);
        expectation_text(a.as_str(), "not to be empty")
    }
}

impl<T, V: Collection<T> + std::fmt::Debug> Matcher<V> for BeEmptyMatcher<T> {
    open spec fn obeys_match_spec() -> bool {
        true
    }

    open spec fn match_spec(&self, collection: &V) -> bool {
        collection.has_no_elements()
    }

    fn outcome(&self, collection: &V) -> (r: Match) {
        if self.match_value(collection) {
            Match::Matched(self.negated_failure_message(collection))
        } else {
            Match::NotMatched(self.failure_message(collection))
        }
    }
}

/// For every container kind, `contain(e)` holds exactly when `e` occurs among
/// the container's elements, wherever the container's model applies.
pub proof fn lemma_contain_is_membership<T: PartialEq + std::fmt::Debug, V: Collection<T> + std::fmt::Debug>(
    collection: V,
    element: T,
)
    requires
        V::obeys_collection_spec(),
    ensures
        <ContainMatcher<T> as Matcher<V>>::obeys_match_spec(),
        contain_spec(element).match_spec(&collection) == collection.has_element(&element),
{
}

/// For every container kind, `be_empty()` holds exactly when the container has
/// no elements, and then `contain(e)` holds for no `e`.
pub proof fn lemma_be_empty_excludes_contain<T: PartialEq + std::fmt::Debug, V: Collection<T> + std::fmt::Debug>(
    collection: V,
    element: T,
)
    ensures
        <BeEmptyMatcher<T> as Matcher<V>>::obeys_match_spec(),
        be_empty_spec::<T>().match_spec(&collection) == collection.has_no_elements(),
        be_empty_spec::<T>().match_spec(&collection) ==> !contain_spec(element).match_spec(
            &collection,
        ),
{
    if collection.has_no_elements() {
        collection.lemma_empty_has_no_element(&element);
    }
}

/// The matcher that `contain(element)` returns.
pub closed spec fn contain_spec<T>(element: T) -> ContainMatcher<T> {
    ContainMatcher { element }
}

/// The matcher that `be_empty()` returns.
pub closed spec fn be_empty_spec<T>() -> BeEmptyMatcher<T> {
    BeEmptyMatcher { phantom: PhantomData }
}

} // verus!

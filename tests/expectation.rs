use std::collections::{BTreeSet, HashSet, VecDeque};

use expect::message::{expectation_text, relation_text};
use expect::{
    be_empty, be_none, be_some, contain, equal, expect, verdict_not_to, verdict_to, Collection,
    Match, Matcher,
};

#[test]
fn equal_strings_pass_both_forms() {
    assert_eq!(expect(&"foo").to(equal("foo")), Ok(()));
    assert_eq!(expect(&"foo").not_to(equal("bar")), Ok(()));
}

#[test]
fn unequal_strings_fail_with_templated_message() {
    assert_eq!(
        expect(&"foo").to(equal("bar")),
        Err(String::from("\tExpected:\n\t\t\"foo\"\n\tto equal:\n\t\t\"bar\""))
    );
}

#[test]
fn equal_subject_fails_negated_form() {
    assert_eq!(
        expect(&7u8).not_to(equal(7u8)),
        Err(String::from("\tExpected:\n\t\t7\n\tnot to equal:\n\t\t7"))
    );
}

#[test]
fn equal_is_reflexive_on_integers() {
    for a in [0i64, -1, i64::MAX, i64::MIN] {
        assert!(equal(a).match_value(&a));
        assert_eq!(expect(&a).to(equal(a)), Ok(()));
    }
}

#[test]
fn array_and_vec_containment() {
    assert_eq!(expect(&[1, 2, 3]).to(contain(2)), Ok(()));
    assert_eq!(expect(&vec![1, 2, 3]).not_to(contain(4)), Ok(()));
}

#[test]
fn containment_failure_messages_through_expect() {
    assert_eq!(
        expect(&vec![1, 2, 3]).to(contain(4)),
        Err(String::from("\tExpected:\n\t\t[1, 2, 3]\n\tto contain:\n\t\t4"))
    );
    assert_eq!(
        expect(&[1, 2, 3]).not_to(contain(1)),
        Err(String::from("\tExpected:\n\t\t[1, 2, 3]\n\tnot to contain:\n\t\t1"))
    );
}

#[test]
fn empty_vec_is_empty_and_nonempty_is_not() {
    assert_eq!(expect(&Vec::<i32>::new()).to(be_empty()), Ok(()));
    let r = expect(&vec![42]).to(be_empty());
    assert_eq!(r, Err(String::from("\tExpected:\n\t\t[42]\n\tto be empty")));
    assert!(r.unwrap_err().contains("[42]"));
}

#[test]
fn empty_containers_contain_nothing() {
    let empty: [i32; 0] = [];
    assert!(empty.empty());
    assert!(!empty.contains_element(&0));
    assert!(!Vec::<i32>::new().contains_element(&0));
    assert!(!VecDeque::<i32>::new().contains_element(&0));
    assert!(!HashSet::<i32>::new().contains_element(&0));
    assert!(!BTreeSet::<i32>::new().contains_element(&0));
    assert!(VecDeque::<i32>::new().empty());
    assert!(HashSet::<i32>::new().empty());
    assert!(BTreeSet::<i32>::new().empty());
}

#[test]
fn membership_agrees_across_container_kinds() {
    let items = [5u32, 9, 5, 1];
    let v: Vec<u32> = items.to_vec();
    let d: VecDeque<u32> = items.iter().copied().collect();
    let h: HashSet<u32> = items.iter().copied().collect();
    let b: BTreeSet<u32> = items.iter().copied().collect();
    let s: &[u32] = &items;
    for e in 0..12u32 {
        let want = items.contains(&e);
        assert_eq!(items.contains_element(&e), want);
        assert_eq!(s.contains_element(&e), want);
        assert_eq!(v.contains_element(&e), want);
        assert_eq!(d.contains_element(&e), want);
        assert_eq!(h.contains_element(&e), want);
        assert_eq!(b.contains_element(&e), want);
        assert_eq!(contain(e).match_value(&h), want);
    }
    assert!(!items.empty() && !v.empty() && !d.empty() && !h.empty() && !b.empty());
}

#[test]
fn some_and_none_on_present_value() {
    assert_eq!(expect(&Some("thing")).to(be_some()), Ok(()));
    assert_eq!(
        expect(&Some("x")).not_to(be_some()),
        Err(String::from("expected Some(\"x\") not to be a Some"))
    );
}

#[test]
fn none_matcher_on_absent_and_present_values() {
    assert_eq!(expect(&None::<&str>).to(be_none()), Ok(()));
    assert_eq!(
        expect(&Some("foo")).to(be_none()),
        Err(String::from("\tExpected:\n\t\tSome(\"foo\")\n\tto be None"))
    );
}

#[test]
fn some_and_none_are_exclusive_and_exhaustive() {
    for v in [Some(3u8), None] {
        let some = be_some().outcome(&v).matched();
        let none = be_none().outcome(&v).matched();
        assert_ne!(some, none);
        assert_eq!(some, v.is_some());
    }
}

#[test]
fn absent_value_fails_be_some_with_fixed_message() {
    assert_eq!(
        expect(&None::<u8>).to(be_some()),
        Err(String::from("expected None to be a Some"))
    );
}

#[test]
fn complement_of_verdicts() {
    let held = Match::Matched(String::from("held"));
    let missed = Match::NotMatched(String::from("missed"));
    assert_eq!(verdict_to(Match::Matched(String::from("held"))), Ok(()));
    assert_eq!(verdict_not_to(held), Err(String::from("held")));
    assert_eq!(verdict_to(Match::NotMatched(String::from("missed"))), Err(String::from("missed")));
    assert_eq!(verdict_not_to(missed), Ok(()));
}

#[test]
fn complement_through_expect() {
    let cases: Vec<(Vec<i32>, i32)> = vec![(vec![], 1), (vec![1], 1), (vec![2, 3], 1)];
    for (c, e) in cases {
        let to = expect(&c).to(contain(e)).is_ok();
        let not_to = expect(&c).not_to(contain(e)).is_ok();
        assert_ne!(to, not_to);
        let to = expect(&c).to(be_empty()).is_ok();
        let not_to = expect(&c).not_to(be_empty()).is_ok();
        assert_ne!(to, not_to);
    }
}

#[test]
fn message_builders_fill_the_template() {
    assert_eq!(expectation_text("[]", "to be empty"), "\tExpected:\n\t\t[]\n\tto be empty");
    assert_eq!(
        relation_text("1", "to equal", "2"),
        "\tExpected:\n\t\t1\n\tto equal:\n\t\t2"
    );
    assert_eq!(expectation_text("", ""), "\tExpected:\n\t\t\n\t");
}

#[test]
fn match_reports_its_tag() {
    assert!(Match::Matched(String::new()).matched());
    assert!(!Match::NotMatched(String::new()).matched());
}

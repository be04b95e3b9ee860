use expect::{be_some, expect, Match, SomeMatcher};

#[test]
fn should_match_if_actual_is_some() {
    let actual = Some("foo");
    assert_eq!(
        SomeMatcher {}.match_value(&actual),
        Match::Matched(String::from("expected Some(\"foo\") not to be a Some"))
    )
}

#[test]
fn should_not_match_if_actual_is_none() {
    let actual: Option<String> = None;
    assert_eq!(
        SomeMatcher {}.match_value(&actual),
        Match::NotMatched(String::from("expected None to be a Some"))
    )
}

#[test]
fn be_some_should_contruct_a_some_matcher() {
    assert_eq!(expect(&Some("thing")).to(be_some()), Ok(()))
}

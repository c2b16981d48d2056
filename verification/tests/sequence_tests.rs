use parseq::cursor::Cursor;
use parseq::error::Needed;
use parseq::error::ParseErr;
use parseq::leaf::Context;
use parseq::leaf::Probe;
use parseq::leaf::ProbeMode;
use parseq::leaf::Tag;
use parseq::parser::Parser;
use parseq::sequence::delimited;
use parseq::sequence::pair;
use parseq::sequence::preceded;
use parseq::sequence::separated_pair;
use parseq::sequence::terminated;

fn tag(s: &str) -> Tag {
    Tag::new(s.as_bytes().to_vec())
}

fn cur(s: &str) -> Cursor {
    Cursor::new(s.as_bytes().to_vec())
}

fn rest(c: &Cursor) -> &[u8] {
    &c.data[c.pos..]
}

#[test]
fn pair_consumes_both_exactly() {
    let mut p = pair(tag("abc"), tag("efg"));
    let (rem, out) = p.parse(cur("abcefg")).unwrap();
    assert_eq!(rest(&rem), b"");
    assert_eq!(out.0, b"abc".to_vec());
    assert_eq!(out.1, b"efg".to_vec());
}

#[test]
fn pair_leaves_the_tail() {
    let mut p = pair(tag("abc"), tag("efg"));
    let (rem, out) = p.parse(cur("abcefghij")).unwrap();
    assert_eq!(rest(&rem), b"hij");
    assert_eq!((out.0, out.1), (b"abc".to_vec(), b"efg".to_vec()));
}

#[test]
fn pair_on_empty_input_fails_at_first_component() {
    let mut p = pair(tag("abc"), tag("efg"));
    let r = p.parse(cur(""));
    assert_eq!(r, Err(ParseErr::Error(Context { at: 0 })));
}

#[test]
fn pair_on_wrong_input_fails_at_first_component() {
    let mut p = pair(tag("abc"), tag("efg"));
    let r = p.parse(cur("123"));
    assert_eq!(r, Err(ParseErr::Error(Context { at: 0 })));
}

#[test]
fn pair_failure_of_second_reports_its_position() {
    let mut p = pair(tag("abc"), tag("efg"));
    let r = p.parse(cur("abcxyz"));
    assert_eq!(r, Err(ParseErr::Error(Context { at: 3 })));
}

#[test]
fn pair_consumption_is_additive() {
    let mut p = pair(tag("abc"), tag("efg"));
    let input = cur("abcefghij");
    let whole_len = rest(&input).len();
    let (rem, _) = p.parse(input).unwrap();
    assert_eq!(whole_len - rest(&rem).len(), 3 + 3);
}

#[test]
fn preceded_discards_the_prefix() {
    let mut p = preceded(tag("abc"), tag("efg"));
    let (rem, out) = p.parse(cur("abcefg")).unwrap();
    assert_eq!(rest(&rem), b"");
    assert_eq!(out, b"efg".to_vec());
}

#[test]
fn preceded_still_consumes_the_discarded_prefix() {
    let mut p = preceded(tag("abc"), tag("efg"));
    let (rem, out) = p.parse(cur("abcefghij")).unwrap();
    assert_eq!(rest(&rem), b"hij");
    assert_eq!(out, b"efg".to_vec());
}

#[test]
fn terminated_discards_the_suffix() {
    let mut p = terminated(tag("abc"), tag("efg"));
    let (rem, out) = p.parse(cur("abcefghij")).unwrap();
    assert_eq!(rest(&rem), b"hij");
    assert_eq!(out, b"abc".to_vec());
}

#[test]
fn terminated_fails_when_the_discarded_part_fails() {
    let mut p = terminated(tag("abc"), tag("efg"));
    let r = p.parse(cur("abcxyz"));
    assert_eq!(r, Err(ParseErr::Error(Context { at: 3 })));
}

#[test]
fn separated_pair_keeps_the_outer_two() {
    let mut p = separated_pair(tag("abc"), tag("|"), tag("efg"));
    let (rem, out) = p.parse(cur("abc|efg")).unwrap();
    assert_eq!(rest(&rem), b"");
    assert_eq!((out.0, out.1), (b"abc".to_vec(), b"efg".to_vec()));
}

#[test]
fn separated_pair_fails_on_a_missing_separator() {
    let mut p = separated_pair(tag("abc"), tag("|"), tag("efg"));
    let r = p.parse(cur("abcefg"));
    assert_eq!(r, Err(ParseErr::Error(Context { at: 3 })));
}

#[test]
fn delimited_keeps_only_the_middle() {
    let mut p = delimited(tag("("), tag("abc"), tag(")"));
    let (rem, out) = p.parse(cur("(abc)def")).unwrap();
    assert_eq!(rest(&rem), b"def");
    assert_eq!(out, b"abc".to_vec());
}

#[test]
fn delimited_fails_on_a_missing_closer() {
    let mut p = delimited(tag("("), tag("abc"), tag(")"));
    let r = p.parse(cur("(abcdef"));
    assert_eq!(r, Err(ParseErr::Error(Context { at: 4 })));
}

#[test]
fn pair_fail_fast_skips_the_second_component() {
    let mut p = pair(tag("abc"), Probe::new(ProbeMode::Succeed));
    let r = p.parse(cur("xyz"));
    assert_eq!(r, Err(ParseErr::Error(Context { at: 0 })));
    assert_eq!(p.second.calls, 0);
}

#[test]
fn pair_runs_the_second_component_after_a_success() {
    let mut p = pair(tag("abc"), Probe::new(ProbeMode::Succeed));
    let (rem, _) = p.parse(cur("abc")).unwrap();
    assert_eq!(rest(&rem), b"");
    assert_eq!(p.second.calls, 1);
}

#[test]
fn fatal_failure_is_forwarded_unchanged() {
    let mut p = pair(Probe::new(ProbeMode::Fatal), tag("abc"));
    let r = p.parse(cur("abc"));
    assert_eq!(r, Err(ParseErr::Failure(Context { at: 0 })));
}

#[test]
fn incomplete_is_forwarded_unchanged() {
    let mut p = preceded(tag("ab"), Probe::new(ProbeMode::NeedMore));
    let r = p.parse(cur("abcd"));
    assert_eq!(r, Err(ParseErr::Incomplete(Needed::Unknown)));
}

#[test]
fn recoverable_failure_of_a_probe_reports_its_position() {
    let mut p = preceded(tag("ab"), Probe::new(ProbeMode::Recoverable));
    let r = p.parse(cur("abcd"));
    assert_eq!(r, Err(ParseErr::Error(Context { at: 2 })));
}

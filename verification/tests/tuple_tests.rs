use parseq::cursor::Cursor;
use parseq::error::ParseErr;
use parseq::leaf::Context;
use parseq::leaf::Probe;
use parseq::leaf::ProbeMode;
use parseq::leaf::Tag;
use parseq::parser::Parser;
use parseq::tuple::tuple;

fn tag(s: &str) -> Tag {
    Tag::new(s.as_bytes().to_vec())
}

fn cur(s: &str) -> Cursor {
    Cursor::new(s.as_bytes().to_vec())
}

fn rest(c: &Cursor) -> &[u8] {
    &c.data[c.pos..]
}

#[test]
fn empty_tuple_is_the_identity() {
    let mut p = tuple::<Cursor, Context, ()>(());
    let input = cur("abc");
    let (rem, out) = Parser::<Cursor, Context>::parse(&mut p, input).unwrap();
    assert_eq!(rest(&rem), b"abc");
    assert_eq!(out, ());
}

#[test]
fn empty_tuple_succeeds_on_empty_input_too() {
    let mut p = tuple::<Cursor, Context, ()>(());
    let (rem, ()) = Parser::<Cursor, Context>::parse(&mut p, cur("")).unwrap();
    assert_eq!(rest(&rem), b"");
}

#[test]
fn single_tuple_wraps_one_output() {
    let mut p = tuple((tag("abc"),));
    let (rem, out) = p.parse(cur("abcd")).unwrap();
    assert_eq!(rest(&rem), b"d");
    assert_eq!(out, (b"abc".to_vec(),));
}

#[test]
fn triple_keeps_positions_stable() {
    let mut p = tuple((tag("ab"), tag("123"), tag("cd")));
    let (rem, out) = p.parse(cur("ab123cd!")).unwrap();
    assert_eq!(rest(&rem), b"!");
    assert_eq!(out.0, b"ab".to_vec());
    assert_eq!(out.1, b"123".to_vec());
    assert_eq!(out.2, b"cd".to_vec());
}

#[test]
fn triple_fails_at_the_first_component_that_fails() {
    let mut p = tuple((tag("ab"), tag("123"), tag("cd")));
    let r = p.parse(cur("ab999cd"));
    assert_eq!(r, Err(ParseErr::Error(Context { at: 2 })));
}

#[test]
fn triple_fail_fast_skips_everything_after_the_failure() {
    let mut p = tuple((tag("ab"), tag("123"), Probe::new(ProbeMode::Succeed)));
    let r = p.parse(cur("abxyz"));
    assert_eq!(r, Err(ParseErr::Error(Context { at: 2 })));
    assert_eq!(p.parsers.2.calls, 0);
}

#[test]
fn triple_consumption_is_additive() {
    let mut p = tuple((tag("ab"), tag("123"), tag("cd")));
    let input = cur("ab123cdtail");
    let whole_len = rest(&input).len();
    let (rem, _) = p.parse(input).unwrap();
    assert_eq!(whole_len - rest(&rem).len(), 2 + 3 + 2);
}

#[test]
fn tuple_of_twenty_one_parsers_runs_them_all_in_order() {
    let mut p = tuple((
        tag("a"),
        tag("b"),
        tag("c"),
        tag("d"),
        tag("e"),
        tag("f"),
        tag("g"),
        tag("h"),
        tag("i"),
        tag("j"),
        tag("k"),
        tag("l"),
        tag("m"),
        tag("n"),
        tag("o"),
        tag("p"),
        tag("q"),
        tag("r"),
        tag("s"),
        tag("t"),
        tag("u"),
    ));
    let (rem, out) = p.parse(cur("abcdefghijklmnopqrstuv")).unwrap();
    assert_eq!(rest(&rem), b"v");
    assert_eq!(out.0, b"a".to_vec());
    assert_eq!(out.10, b"k".to_vec());
    assert_eq!(out.20, b"u".to_vec());
}

#[test]
fn tuple_of_twenty_one_fails_fast_at_the_last_position() {
    let mut p = tuple((
        tag("a"),
        tag("b"),
        tag("c"),
        tag("d"),
        tag("e"),
        tag("f"),
        tag("g"),
        tag("h"),
        tag("i"),
        tag("j"),
        tag("k"),
        tag("l"),
        tag("m"),
        tag("n"),
        tag("o"),
        tag("p"),
        tag("q"),
        tag("r"),
        tag("s"),
        tag("t"),
        tag("u"),
    ));
    match p.parse(cur("abcdefghijklmnopqrst!")) {
        Err(e) => assert_eq!(e, ParseErr::Error(Context { at: 20 })),
        Ok(_) => panic!("the last position should have failed"),
    }
}

#[test]
fn tupled_parser_nests_inside_other_combinators() {
    let mut p = parseq::sequence::delimited(tag("("), tuple((tag("a"), tag("b"))), tag(")"));
    let (rem, out) = p.parse(cur("(ab)")).unwrap();
    assert_eq!(rest(&rem), b"");
    assert_eq!(out, (b"a".to_vec(), b"b".to_vec()));
}

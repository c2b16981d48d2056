use parseq::cursor::Cursor;
use parseq::error::ParseErr;
use parseq::leaf::Context;
use parseq::leaf::Probe;
use parseq::leaf::ProbeMode;
use parseq::leaf::Tag;
use parseq::parser::Parser;

fn cur(s: &str) -> Cursor {
    Cursor::new(s.as_bytes().to_vec())
}

fn rest(c: &Cursor) -> &[u8] {
    &c.data[c.pos..]
}

#[test]
fn cursor_starts_at_the_beginning() {
    let c = cur("abc");
    assert_eq!(c.pos, 0);
    assert_eq!(c.len(), 3);
    assert_eq!(rest(&c), b"abc");
}

#[test]
fn cursor_advance_moves_along_the_same_source() {
    let c = cur("abcdef").advance(2);
    assert_eq!(c.pos, 2);
    assert_eq!(c.len(), 4);
    assert_eq!(rest(&c), b"cdef");
    assert_eq!(c.data, b"abcdef".to_vec());
}

#[test]
fn tag_matches_an_exact_prefix() {
    let mut t = Tag::new(b"ab".to_vec());
    let (rem, out) = t.parse(cur("abc")).unwrap();
    assert_eq!(out, b"ab".to_vec());
    assert_eq!(rest(&rem), b"c");
}

#[test]
fn tag_of_the_whole_input_leaves_nothing() {
    let mut t = Tag::new(b"abc".to_vec());
    let (rem, out) = t.parse(cur("abc")).unwrap();
    assert_eq!(out, b"abc".to_vec());
    assert_eq!(rest(&rem), b"");
}

#[test]
fn empty_tag_matches_anything_and_consumes_nothing() {
    let mut t = Tag::new(Vec::new());
    let (rem, out) = t.parse(cur("xyz")).unwrap();
    assert_eq!(out, b"".to_vec());
    assert_eq!(rest(&rem), b"xyz");
}

#[test]
fn tag_longer_than_the_input_fails() {
    let mut t = Tag::new(b"abcd".to_vec());
    let r = t.parse(cur("abc"));
    assert_eq!(r, Err(ParseErr::Error(Context { at: 0 })));
}

#[test]
fn tag_mismatch_fails_without_consuming() {
    let mut t = Tag::new(b"abc".to_vec());
    let r = t.parse(cur("abd"));
    assert_eq!(r, Err(ParseErr::Error(Context { at: 0 })));
}

#[test]
fn tag_failure_reports_the_cursor_position() {
    let mut t = Tag::new(b"cd".to_vec());
    let r = t.parse(cur("abcd").advance(1));
    assert_eq!(r, Err(ParseErr::Error(Context { at: 1 })));
}

#[test]
fn probe_counts_every_invocation() {
    let mut p = Probe::new(ProbeMode::Succeed);
    assert_eq!(p.calls, 0);
    let (rem, ()) = p.parse(cur("abc")).unwrap();
    assert_eq!(rest(&rem), b"abc");
    assert_eq!(p.calls, 1);
    let _ = p.parse(cur("abc")).unwrap();
    assert_eq!(p.calls, 2);
}

use std::borrow::Cow;

use serde_urlencoded::{serialize_record, Accumulator, Error, Key, KeySink, Part, ValueSink};

fn text(s: &str) -> Part {
    Part::Str(s.to_string())
}

fn some(p: Part) -> Part {
    Part::Optional(Some(Box::new(p)))
}

fn pairs(acc: &Accumulator) -> Vec<(String, String)> {
    acc.pairs().clone()
}

fn owned_pairs(items: &[(&str, &str)]) -> Vec<(String, String)> {
    items.iter().map(|(k, v)| (k.to_string(), v.to_string())).collect()
}

fn key_text(k: Key) -> Result<String, Error> {
    Ok(k.as_str().to_owned())
}

#[test]
fn key_static_str_is_kept_without_copy() {
    let r = KeySink::new(|k: Key| match k {
        Key::Static(s) => Ok(s),
        Key::Dynamic(_) => Err(Error::UnsupportedValue),
    })
    .serialize_static_str("name");
    assert_eq!(r, Ok("name"));
}

#[test]
fn key_str_and_string_resolve_to_their_text() {
    assert_eq!(KeySink::new(key_text).serialize_str("field"), Ok("field".to_string()));
    assert_eq!(
        KeySink::new(key_text).serialize_string("owned".to_string()),
        Ok("owned".to_string())
    );
    assert_eq!(KeySink::new(key_text).serialize_part(&text("x")), Ok("x".to_string()));
    assert_eq!(KeySink::new(key_text).serialize_part(&Part::StaticStr("y")), Ok("y".to_string()));
}

#[test]
fn key_continuation_error_is_the_result() {
    let r: Result<(), Error> = KeySink::new(|_k: Key| Err(Error::UnsupportedValue)).serialize_str("a");
    assert_eq!(r, Err(Error::UnsupportedValue));
}

#[test]
fn key_refuses_optional_and_sequence_without_calling_continuation() {
    let called = std::cell::Cell::new(0u32);
    let end = |_k: Key| -> Result<(), Error> {
        called.set(called.get() + 1);
        Ok(())
    };
    assert_eq!(KeySink::new(end).serialize_none(), Err(Error::UnsupportedKey));
    assert_eq!(KeySink::new(end).serialize_some(&text("a")), Err(Error::UnsupportedKey));
    assert!(matches!(KeySink::new(end).serialize_seq(), Err(Error::UnsupportedKey)));
    assert_eq!(KeySink::new(end).serialize_part(&Part::Optional(None)), Err(Error::UnsupportedKey));
    assert_eq!(KeySink::new(end).serialize_part(&some(text("a"))), Err(Error::UnsupportedKey));
    assert_eq!(
        KeySink::new(end).serialize_part(&Part::Sequence(vec![text("a")])),
        Err(Error::UnsupportedKey)
    );
    assert_eq!(KeySink::new(end).serialize_part(&Part::Bool(true)), Err(Error::UnsupportedKey));
    assert_eq!(KeySink::new(end).serialize_part(&Part::Int(3)), Err(Error::UnsupportedKey));
    assert_eq!(called.get(), 0);
}

#[test]
fn key_deref_and_conversion_keep_text() {
    let k = Key::Static("abc");
    assert_eq!(&*k, "abc");
    let c: Cow<'static, str> = Key::Static("abc").into_static();
    assert!(matches!(c, Cow::Borrowed("abc")));
    let local = String::from("dyn");
    let c: Cow<'static, str> = Key::Dynamic(Cow::Borrowed(local.as_str())).into_static();
    assert_eq!(c, "dyn");
    assert!(matches!(c, Cow::Owned(_)));
}

#[test]
fn value_string_appends_one_pair() {
    let mut acc = Accumulator::new();
    acc.append_pair("first", "1");
    assert_eq!(ValueSink::new(&mut acc, "k").serialize_str("v"), Ok(()));
    assert_eq!(ValueSink::new(&mut acc, "k").serialize_static_str("w"), Ok(()));
    assert_eq!(ValueSink::new(&mut acc, "k").serialize_string("x".to_string()), Ok(()));
    assert_eq!(pairs(&acc), owned_pairs(&[("first", "1"), ("k", "v"), ("k", "w"), ("k", "x")]));
}

#[test]
fn value_none_appends_nothing_and_some_is_transparent() {
    let mut acc = Accumulator::new();
    assert_eq!(ValueSink::new(&mut acc, "k").serialize_none(), Ok(()));
    assert_eq!(acc.len(), 0);
    assert_eq!(ValueSink::new(&mut acc, "k").serialize_some(&text("v")), Ok(()));
    assert_eq!(ValueSink::new(&mut acc, "k").serialize_part(&some(some(text("w")))), Ok(()));
    assert_eq!(ValueSink::new(&mut acc, "k").serialize_part(&some(Part::Optional(None))), Ok(()));
    assert_eq!(pairs(&acc), owned_pairs(&[("k", "v"), ("k", "w")]));

    let mut direct = Accumulator::new();
    let mut wrapped = Accumulator::new();
    let seq = Part::Sequence(vec![text("a"), text("b")]);
    let r1 = ValueSink::new(&mut direct, "t").serialize_part(&seq);
    let r2 = ValueSink::new(&mut wrapped, "t").serialize_part(&some(Part::Sequence(vec![text("a"), text("b")])));
    assert_eq!(r1, r2);
    assert_eq!(pairs(&direct), pairs(&wrapped));
}

#[test]
fn value_sequence_appends_pairs_in_order() {
    let mut acc = Accumulator::new();
    let seq = Part::Sequence(vec![text("a"), Part::StaticStr("b"), text("c")]);
    assert_eq!(ValueSink::new(&mut acc, "k").serialize_part(&seq), Ok(()));
    assert_eq!(pairs(&acc), owned_pairs(&[("k", "a"), ("k", "b"), ("k", "c")]));
}

#[test]
fn value_sequence_by_hand() {
    let mut acc = Accumulator::new();
    let mut seq = match ValueSink::new(&mut acc, "k").serialize_seq() {
        Ok(s) => s,
        Err(_) => panic!("a top-level sequence is accepted"),
    };
    assert_eq!(seq.serialize_element(&text("a")), Ok(()));
    assert_eq!(seq.serialize_element(&Part::Optional(None)), Ok(()));
    assert_eq!(seq.serialize_element(&some(text("b"))), Ok(()));
    assert_eq!(seq.end(), Ok(()));
    assert_eq!(pairs(&acc), owned_pairs(&[("k", "a"), ("k", "b")]));
}

#[test]
fn value_empty_sequence_appends_nothing() {
    let mut acc = Accumulator::new();
    assert_eq!(ValueSink::new(&mut acc, "k").serialize_part(&Part::Sequence(vec![])), Ok(()));
    assert_eq!(acc.len(), 0);
}

#[test]
fn value_nested_sequence_is_refused() {
    let mut acc = Accumulator::new();
    let seq = Part::Sequence(vec![text("a"), Part::Sequence(vec![text("x")]), text("c")]);
    assert_eq!(ValueSink::new(&mut acc, "k").serialize_part(&seq), Err(Error::UnsupportedValue));
    assert_eq!(pairs(&acc), owned_pairs(&[("k", "a")]));

    let mut acc = Accumulator::new();
    let sink = ValueSink { urlencoder: &mut acc, key: "k", nested: true };
    assert!(matches!(sink.serialize_seq(), Err(Error::UnsupportedValue)));
    assert_eq!(acc.len(), 0);
}

#[test]
fn value_other_shapes_are_refused() {
    let mut acc = Accumulator::new();
    assert_eq!(ValueSink::new(&mut acc, "k").serialize_part(&Part::Bool(false)), Err(Error::UnsupportedValue));
    assert_eq!(ValueSink::new(&mut acc, "k").serialize_part(&Part::Int(7)), Err(Error::UnsupportedValue));
    assert_eq!(ValueSink::new(&mut acc, "k").serialize_part(&Part::Other), Err(Error::UnsupportedValue));
    assert_eq!(ValueSink::new(&mut acc, "k").unsupported(), Error::UnsupportedValue);
    assert_eq!(acc.len(), 0);
}

#[test]
fn record_end_to_end() {
    let fields = vec![
        (Part::StaticStr("q"), text("rust")),
        (Part::StaticStr("tag"), Part::Sequence(vec![text("a"), text("b")])),
        (Part::StaticStr("opt"), Part::Optional(None)),
    ];
    let mut acc = Accumulator::new();
    assert_eq!(serialize_record(&fields, &mut acc), Ok(()));
    assert_eq!(pairs(&acc), owned_pairs(&[("q", "rust"), ("tag", "a"), ("tag", "b")]));
    assert_eq!(acc.finish(), "q=rust&tag=a&tag=b");
}

#[test]
fn record_boolean_key_fails_without_pairs() {
    let fields = vec![(Part::Bool(true), text("x")), (Part::StaticStr("q"), text("rust"))];
    let mut acc = Accumulator::new();
    assert_eq!(serialize_record(&fields, &mut acc), Err(Error::UnsupportedKey));
    assert_eq!(acc.len(), 0);
}

#[test]
fn record_keeps_pairs_before_failure_and_duplicates() {
    let fields = vec![
        (text("a"), text("1")),
        (text("a"), text("2")),
        (text("b"), Part::Other),
        (text("c"), text("3")),
    ];
    let mut acc = Accumulator::new();
    assert_eq!(serialize_record(&fields, &mut acc), Err(Error::UnsupportedValue));
    assert_eq!(pairs(&acc), owned_pairs(&[("a", "1"), ("a", "2")]));
}

#[test]
fn finish_escapes_text() {
    let mut acc = Accumulator::new();
    assert_eq!(acc.finish(), "");
    acc.append_pair("a b", "x&y=z");
    acc.append_pair("é", "");
    assert_eq!(acc.finish(), "a+b=x%26y%3Dz&%C3%A9=");
}

#[test]
fn error_messages() {
    assert_eq!(Error::unsupported_key().message(), "unsupported key");
    assert_eq!(Error::unsupported_value().message(), "unsupported value");
}

#[test]
fn key_converts_into_cow() {
    let c: Cow<'static, str> = Key::Static("abc").into();
    assert!(matches!(c, Cow::Borrowed("abc")));
    let local = String::from("dyn");
    let c = Cow::from(Key::Dynamic(Cow::Borrowed(local.as_str())));
    assert_eq!(c, "dyn");
    assert!(matches!(c, Cow::Owned(_)));
    let k = Key::Dynamic(Cow::Owned("own".to_string()));
    assert_eq!(&*k, "own");
    assert_eq!(k.len(), 3);
}

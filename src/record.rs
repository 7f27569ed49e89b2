use std::borrow::Cow;

use vstd::prelude::*;

use crate::accumulator::Accumulator;
use crate::error::Error;
use crate::key::{Key, KeySink};
use crate::part::{string_text, Part};
use crate::value::{render, Rendered, ValueSink};

verus! {

/// Rendering of one field: its name must be a single string, and its value
/// is rendered under that name.
pub open spec fn render_field(name: Part, value: Part) -> Rendered {
    match string_text(name) {
        Some(key) => render(key, value, false),
        None => (seq![], Err(Error::UnsupportedKey)),
    }
}

/// Rendering of a record's fields in order, up to and including the first
/// field that fails.
pub open spec fn render_record(fields: Seq<(Part, Part)>) -> Rendered
    decreases fields.len(),
{
    if fields.len() == 0 {
        (seq![], Ok(()))
    } else {
        let prev = render_record(fields.drop_last());
        if prev.1 is Err {
            prev
        } else {
            let last = render_field(fields.last().0, fields.last().1);
            (prev.0 + last.0, last.1)
        }
    }
}

proof fn lemma_record_stop(fields: Seq<(Part, Part)>, m: int)
    requires
        0 <= m <= fields.len(),
        render_record(fields.take(m)).1 is Err,
    ensures
        render_record(fields) == render_record(fields.take(m)),
    decreases fields.len(),
{
    if m == fields.len() {
        assert(fields.take(m) =~= fields);
    } else {
        assert(fields.drop_last().take(m) =~= fields.take(m));
        lemma_record_stop(fields.drop_last(), m);
    }
}

fn cow_text<'a>(c: &'a Cow<'static, str>) -> (r: &'a str)
    ensures
        r@ == c@,
{
    match c {
        Cow::Borrowed(s) => s,
        Cow::Owned(s) => s.as_str(),
    }
}

/// Appends the pairs of a record's `(name, value)` fields in order: each
/// name goes through a [`KeySink`], each value through a [`ValueSink`]
/// bound to that name. Stops at the first field that fails; the pairs of
/// the fields before it stay.
pub fn serialize_record(fields: &Vec<(Part, Part)>, urlencoder: &mut Accumulator) -> (r: Result<(), Error>)
    ensures
        final(urlencoder)@ == old(urlencoder)@ + render_record(fields@).0,
        r == render_record(fields@).1,
{
    let ghost start = urlencoder@;
    let mut i: usize = 0;
    while i < fields.len()
        invariant
            i <= fields.len(),
            start == old(urlencoder)@,
            urlencoder@ == start + render_record(fields@.take(i as int)).0,
            render_record(fields@.take(i as int)).1 == Ok::<(), Error>(()),
        decreases fields.len() - i,
    {
        assert(fields@.take(i + 1).drop_last() =~= fields@.take(i as int));
        assert(fields@.take(i + 1).last() == fields@[i as int]);
        let end = |k: Key| -> (c: Result<Cow<'static, str>, Error>)
            ensures
                c matches Ok(text) && text@ == k@,
        { Ok(k.into_static()) };
        let name = KeySink::new(end).serialize_part(&fields[i].0);
        let res = match name {
            Err(e) => Err(e),
            Ok(key) => ValueSink::new(&mut *urlencoder, cow_text(&key)).serialize_part(&fields[i].1),
        };
        if let Err(_) = res {
            proof {
                lemma_record_stop(fields@, i + 1);
            }
            return res;
        }
        assert(res is Ok);
        assert(res->Ok_0 == ());
        i = i + 1;
    }
    assert(fields@.take(i as int) =~= fields@);
    Ok(())
}

} // verus!

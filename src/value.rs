use vstd::prelude::*;

use crate::accumulator::{Accumulator, PairText};
use crate::error::Error;
use crate::part::{string_text, Part};

verus! {

/// Pairs appended by rendering a value, and how the rendering ended.
pub type Rendered = (Seq<PairText>, Result<(), Error>);

/// Rendering of a value inside a sequence element: strings give one pair,
/// an absent optional none, a present one its inner value; anything else
/// (a sequence included) is refused.
pub open spec fn render_nested(key: Seq<char>, part: Part) -> Rendered
    decreases part,
{
    match part {
        Part::StaticStr(s) => (seq![(key, s@)], Ok(())),
        Part::Str(s) => (seq![(key, s@)], Ok(())),
        Part::Optional(None) => (seq![], Ok(())),
        Part::Optional(Some(b)) => render_nested(key, *b),
        _ => (seq![], Err(Error::UnsupportedValue)),
    }
}

/// Rendering of the elements of a top-level sequence, in order, up to and
/// including the first element that fails.
pub open spec fn render_elements(key: Seq<char>, elems: Seq<Part>) -> Rendered
    decreases elems.len(),
{
    if elems.len() == 0 {
        (seq![], Ok(()))
    } else {
        let prev = render_elements(key, elems.drop_last());
        if prev.1 is Err {
            prev
        } else {
            let last = render_nested(key, elems.last());
            (prev.0 + last.0, last.1)
        }
    }
}

/// Rendering of a value under `key`; `nested` is set inside a sequence.
pub open spec fn render(key: Seq<char>, part: Part, nested: bool) -> Rendered
    decreases part,
{
    if nested {
        render_nested(key, part)
    } else {
        match part {
            Part::Optional(Some(b)) => render(key, *b, false),
            Part::Sequence(v) => render_elements(key, v@),
            _ => render_nested(key, part),
        }
    }
}

/// Once a prefix of the elements fails, the later ones add nothing.
proof fn lemma_elements_stop(key: Seq<char>, elems: Seq<Part>, m: int)
    requires
        0 <= m <= elems.len(),
        render_elements(key, elems.take(m)).1 is Err,
    ensures
        render_elements(key, elems) == render_elements(key, elems.take(m)),
    decreases elems.len(),
{
    if m == elems.len() {
        assert(elems.take(m) =~= elems);
    } else {
        assert(elems.drop_last().take(m) =~= elems.take(m));
        lemma_elements_stop(key, elems.drop_last(), m);
    }
}

proof fn lemma_nested_error(key: Seq<char>, part: Part)
    ensures
        render_nested(key, part).1 is Err ==> render_nested(key, part).1 == Err::<(), Error>(
            Error::UnsupportedValue,
        ),
    decreases part,
{
    if let Part::Optional(Some(b)) = part {
        lemma_nested_error(key, *b);
    }
}

proof fn lemma_elements_error(key: Seq<char>, elems: Seq<Part>)
    ensures
        render_elements(key, elems).1 is Err ==> render_elements(key, elems).1 == Err::<(), Error>(
            Error::UnsupportedValue,
        ),
    decreases elems.len(),
{
    if elems.len() > 0 {
        lemma_elements_error(key, elems.drop_last());
        lemma_nested_error(key, elems.last());
    }
}

proof fn lemma_elements_of_strings(key: Seq<char>, elems: Seq<Part>)
    requires
        forall|i: int| 0 <= i < elems.len() ==> (#[trigger] string_text(elems[i])) is Some,
    ensures
        render_elements(key, elems) == (
            elems.map_values(|p: Part| (key, string_text(p)->Some_0)),
            Ok::<(), Error>(()),
        ),
    decreases elems.len(),
{
    if elems.len() > 0 {
        let init = elems.drop_last();
        assert forall|i: int| 0 <= i < init.len() implies (#[trigger] string_text(init[i])) is Some by {
            assert(init[i] == elems[i]);
        }
        lemma_elements_of_strings(key, init);
        assert(string_text(elems[elems.len() - 1]) is Some);
        assert(elems.map_values(|p: Part| (key, string_text(p)->Some_0)) =~= init.map_values(
            |p: Part| (key, string_text(p)->Some_0),
        ).push((key, string_text(elems.last())->Some_0)));
    }
}

/// An absent optional value adds no pair, and a present one renders exactly
/// as its inner value would, at either nesting level.
pub proof fn lemma_optional_transparent(key: Seq<char>, inner: Part, nested: bool)
    ensures
        render(key, Part::Optional(None), nested) == (Seq::<PairText>::empty(), Ok::<(), Error>(())),
        render(key, Part::Optional(Some(Box::new(inner))), nested) == render(key, inner, nested),
{
    assert(seq![] =~= Seq::<PairText>::empty());
}

/// A top-level sequence of strings adds one pair per element under the key,
/// in the order of the elements, and succeeds.
pub proof fn lemma_sequence_of_strings(key: Seq<char>, elems: Vec<Part>)
    requires
        forall|i: int| 0 <= i < elems@.len() ==> (#[trigger] string_text(elems@[i])) is Some,
    ensures
        render(key, Part::Sequence(elems), false) == (
            elems@.map_values(|p: Part| (key, string_text(p)->Some_0)),
            Ok::<(), Error>(()),
        ),
{
    lemma_elements_of_strings(key, elems@);
}

/// A sequence with an element that is itself a sequence fails with an
/// unsupported value, having added only what the elements before it add.
pub proof fn lemma_nested_sequence_refused(key: Seq<char>, elems: Vec<Part>, i: int)
    requires
        0 <= i < elems@.len(),
        elems@[i] is Sequence,
    ensures
        render(key, Part::Sequence(elems), false) == (
            render_elements(key, elems@.take(i)).0,
            Err::<(), Error>(Error::UnsupportedValue),
        ),
{
    let s = elems@;
    lemma_elements_error(key, s.take(i));
    if render_elements(key, s.take(i)).1 is Err {
        lemma_elements_stop(key, s, i);
    } else {
        assert(s.take(i + 1).drop_last() =~= s.take(i));
        assert(s.take(i + 1).last() == s[i]);
        assert(render_elements(key, s.take(i)).0 + seq![] =~= render_elements(key, s.take(i)).0);
        lemma_elements_stop(key, s, i + 1);
    }
}

/// A sink for one field value: it appends zero, one or many pairs under its
/// key to the shared accumulator.
pub struct ValueSink<'key, 'target> {
    pub urlencoder: &'target mut Accumulator,
    pub key: &'key str,
    pub nested: bool,
}

impl<'key, 'target> ValueSink<'key, 'target> {
    /// A top-level sink for values under `key`.
    pub fn new(urlencoder: &'target mut Accumulator, key: &'key str) -> (r: Self)
        ensures
            r.key@ == key@,
            !r.nested,
            r.urlencoder@ == old(urlencoder)@,
            final(r.urlencoder)@ == final(urlencoder)@,
    {
        ValueSink { urlencoder, key, nested: false }
    }

    /// Appends the pair `(key, value)`.
    pub fn serialize_str(self, value: &str) -> (r: Result<(), Error>)
        ensures
            final(self.urlencoder)@ == old(self.urlencoder)@.push((self.key@, value@)),
            r == Ok::<(), Error>(()),
    {
        self.urlencoder.append_pair(self.key, value);
        Ok(())
    }

    /// Appends the pair `(key, value)`.
    pub fn serialize_static_str(self, value: &'static str) -> (r: Result<(), Error>)
        ensures
            final(self.urlencoder)@ == old(self.urlencoder)@.push((self.key@, value@)),
            r == Ok::<(), Error>(()),
    {
        self.serialize_str(value)
    }

    /// Appends the pair `(key, value)`.
    pub fn serialize_string(self, value: String) -> (r: Result<(), Error>)
        ensures
            final(self.urlencoder)@ == old(self.urlencoder)@.push((self.key@, value@)),
            r == Ok::<(), Error>(()),
    {
        self.serialize_str(&value)
    }

    /// An absent optional value: no pair at all.
    pub fn serialize_none(self) -> (r: Result<(), Error>)
        ensures
            final(self.urlencoder)@ == old(self.urlencoder)@,
            r == Ok::<(), Error>(()),
    {
        Ok(())
    }

    /// Begins a sequence: refused inside a sequence, else the sink itself
    /// goes on to take the elements.
    pub fn serialize_seq(self) -> (r: Result<Self, Error>)
        ensures
            self.nested ==> r == Err::<Self, Error>(Error::UnsupportedValue)
                && final(self.urlencoder)@ == old(self.urlencoder)@,
            !self.nested ==> (r matches Ok(s) && s.key == self.key && !s.nested
                && s.urlencoder@ == old(self.urlencoder)@
                && final(s.urlencoder)@ == final(self.urlencoder)@),
    {
        if self.nested {
            Err(self.unsupported())
        } else {
            Ok(self)
        }
    }

    /// Renders a present optional value as the value itself.
    pub fn serialize_some(self, value: &Part) -> (r: Result<(), Error>)
        ensures
            final(self.urlencoder)@ == old(self.urlencoder)@ + render(self.key@, *value, self.nested).0,
            r == render(self.key@, *value, self.nested).1,
        decreases value, 1int,
    {
        self.serialize_part(value)
    }

    /// Renders one element of a sequence through a nested sink that shares
    /// the key and the accumulator.
    pub fn serialize_element(&mut self, value: &Part) -> (r: Result<(), Error>)
        ensures
            final(self).key == old(self).key,
            final(self).nested == old(self).nested,
            final(self).urlencoder@ == old(self).urlencoder@ + render(old(self).key@, *value, true).0,
            final(final(self).urlencoder)@ == final(old(self).urlencoder)@,
            r == render(old(self).key@, *value, true).1,
        decreases value, 1int,
    {
        ValueSink { urlencoder: self.urlencoder, key: self.key, nested: true }.serialize_part(value)
    }

    /// Ends a sequence: its pairs were appended element by element.
    pub fn end(self) -> (r: Result<(), Error>)
        ensures
            final(self.urlencoder)@ == old(self.urlencoder)@,
            r == Ok::<(), Error>(()),
    {
        Ok(())
    }

    /// Renders `part` under the sink's key, as a front-end drives the sink
    /// for that shape of value.
    pub fn serialize_part(self, part: &Part) -> (r: Result<(), Error>)
        ensures
            final(self.urlencoder)@ == old(self.urlencoder)@ + render(self.key@, *part, self.nested).0,
            r == render(self.key@, *part, self.nested).1,
        decreases part, 0int,
    {
        match part {
            Part::StaticStr(s) => self.serialize_static_str(s),
            Part::Str(s) => self.serialize_str(s.as_str()),
            Part::Optional(None) => self.serialize_none(),
            Part::Optional(Some(b)) => {
                assert(render(self.key@, *part, self.nested) == render(self.key@, **b, self.nested));
                self.serialize_some(b)
            },
            Part::Sequence(v) => {
                let ghost key = self.key@;
                let ghost start = self.urlencoder@;
                match self.serialize_seq() {
                    Err(e) => Err(e),
                    Ok(mut seq) => {
                        let mut i: usize = 0;
                        while i < v.len()
                            invariant
                                i <= v.len(),
                                *part == Part::Sequence(*v),
                                key == self.key@,
                                !self.nested,
                                start == old(self.urlencoder)@,
                                seq.key@ == key,
                                !seq.nested,
                                seq.urlencoder@ == start + render_elements(key, v@.take(i as int)).0,
                                render_elements(key, v@.take(i as int)).1 == Ok::<(), Error>(()),
                                final(seq.urlencoder)@ == final(self.urlencoder)@,
                            decreases v.len() - i,
                        {
                            assert(v@.take(i + 1).drop_last() =~= v@.take(i as int));
                            proof {
                                assert(decreases_to!(*part => *v));
                                assert(decreases_to!(*part => v[i as int]));
                            }
                            let res = seq.serialize_element(&v[i]);
                            assert(v@.take(i + 1).last() == v@[i as int]);
                            if let Err(_) = res {
                                proof {
                                    lemma_elements_stop(key, v@, i + 1);
                                }
                                return res;
                            }
                            assert(res->Ok_0 == ());
                            i = i + 1;
                        }
                        assert(v@.take(i as int) =~= v@);
                        seq.end()
                    },
                }
            },
            _ => Err(self.unsupported()),
        }
    }

    /// The error for any value that pairs cannot carry.
    pub fn unsupported(self) -> (r: Error)
        ensures
            final(self.urlencoder)@ == old(self.urlencoder)@,
            r == Error::UnsupportedValue,
    {
        Error::unsupported_value()
    }
}

} // verus!

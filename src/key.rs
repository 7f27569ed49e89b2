use std::borrow::Cow;

use vstd::prelude::*;

use crate::error::Error;
use crate::part::{string_text, Part};

verus! {

/// A field name about to be written into a pair.
pub enum Key<'key> {
    /// Text that lives for the whole program: kept without a copy.
    Static(&'static str),
    /// Text computed while serializing, borrowed or owned.
    Dynamic(Cow<'key, str>),
}

impl<'key> View for Key<'key> {
    type V = Seq<char>;

    open spec fn view(&self) -> Seq<char> {
        match self {
            Key::Static(s) => s@,
            Key::Dynamic(c) => c@,
        }
    }
}

impl<'key> Key<'key> {
    /// The text of the key.
    pub fn as_str(&self) -> (r: &str)
        ensures
            r@ == self@,
    {
        match self {
            Key::Static(s) => s,
            Key::Dynamic(Cow::Borrowed(s)) => s,
            Key::Dynamic(Cow::Owned(s)) => s.as_str(),
        }
    }

    /// Text that outlives the serialization call: a static key stays a
    /// reference, a dynamic one becomes an owned copy.
    pub fn into_static(self) -> (r: Cow<'static, str>)
        ensures
            r@ == self@,
            self is Static ==> r == Cow::<'static, str>::Borrowed(self->Static_0),
            self is Dynamic ==> r is Owned,
            self matches Key::Dynamic(Cow::Owned(o)) ==> r == Cow::<'static, str>::Owned(o),
    {
        match self {
            Key::Static(s) => Cow::Borrowed(s),
            Key::Dynamic(Cow::Borrowed(s)) => Cow::Owned(s.to_owned()),
            Key::Dynamic(Cow::Owned(s)) => Cow::Owned(s),
        }
    }
}

impl<'key> std::ops::Deref for Key<'key> {
    type Target = str;

    fn deref(&self) -> (r: &str)
        ensures
            r@ == self@,
    {
        self.as_str()
    }
}

impl<'key> From<Key<'key>> for Cow<'static, str> {
    fn from(key: Key<'key>) -> (r: Cow<'static, str>)
        ensures
            r@ == key@,
            key is Static ==> r == Cow::<'static, str>::Borrowed(key->Static_0),
            key is Dynamic ==> r is Owned,
            key matches Key::Dynamic(Cow::Owned(o)) ==> r == Cow::<'static, str>::Owned(o),
    {
        key.into_static()
    }
}

/// `from` promises no single value: a dynamic key becomes some owned copy
/// of its text, which `r@ == key@` above describes.
impl<'key> vstd::std_specs::convert::FromSpecImpl<Key<'key>> for Cow<'static, str> {
    open spec fn obeys_from_spec() -> bool {
        false
    }

    open spec fn from_spec(key: Key<'key>) -> Cow<'static, str> {
        choose|c: Cow<'static, str>| c@ == key@
    }
}

/// A sink for one field name: it wraps the name into a [`Key`] and hands it
/// to its continuation, or fails when the value is not a single string.
pub struct KeySink<End> {
    end: End,
}

impl<End, T> KeySink<End> where End: FnOnce(Key) -> Result<T, Error> {
    /// The continuation that receives the key.
    pub closed spec fn end(&self) -> End {
        self.end
    }

    /// A sink that hands the key it resolves to `end`.
    pub fn new(end: End) -> (r: Self)
        ensures
            r.end() == end,
    {
        KeySink { end }
    }

    /// A static name becomes a static key, without a copy.
    pub fn serialize_static_str(self, value: &'static str) -> (r: Result<T, Error>)
        requires
            self.end().requires((Key::Static(value),)),
        ensures
            self.end().ensures((Key::Static(value),), r),
    {
        (self.end)(Key::Static(value))
    }

    /// A borrowed name becomes a dynamic key that borrows it.
    pub fn serialize_str<'a>(self, value: &'a str) -> (r: Result<T, Error>)
        requires
            self.end().requires((Key::Dynamic(Cow::Borrowed(value)),)),
        ensures
            self.end().ensures((Key::Dynamic(Cow::Borrowed(value)),), r),
    {
        (self.end)(Key::Dynamic(Cow::Borrowed(value)))
    }

    /// An owned name becomes a dynamic key that owns it.
    pub fn serialize_string(self, value: String) -> (r: Result<T, Error>)
        requires
            self.end().requires((Key::Dynamic(Cow::Owned(value)),)),
        ensures
            self.end().ensures((Key::Dynamic(Cow::Owned(value)),), r),
    {
        (self.end)(Key::Dynamic(Cow::Owned(value)))
    }

    /// A field name is never optional.
    pub fn serialize_none(self) -> (r: Result<T, Error>)
        ensures
            r == Err::<T, Error>(Error::UnsupportedKey),
    {
        Err(self.unsupported())
    }

    /// A field name is never an optional value, even a present one.
    pub fn serialize_some(self, _value: &Part) -> (r: Result<T, Error>)
        ensures
            r == Err::<T, Error>(Error::UnsupportedKey),
    {
        Err(self.unsupported())
    }

    /// A field name is never a sequence: no continuation is ever returned.
    pub fn serialize_seq(self) -> (r: Result<Self, Error>)
        ensures
            r == Err::<Self, Error>(Error::UnsupportedKey),
    {
        Err(self.unsupported())
    }

    /// The error for any value that is not a single string.
    pub fn unsupported(self) -> (r: Error)
        ensures
            r == Error::UnsupportedKey,
    {
        Error::unsupported_key()
    }

    /// Resolves `part` to a key, as a front-end drives the sink for that
    /// shape of value: a string goes to the continuation, anything else is
    /// refused without calling it.
    pub fn serialize_part(self, part: &Part) -> (r: Result<T, Error>)
        requires
            string_text(*part) matches Some(text) ==> forall|k: Key|
                k@ == text ==> #[trigger] self.end().requires((k,)),
        ensures
            string_text(*part) is None ==> r == Err::<T, Error>(Error::UnsupportedKey),
            part is StaticStr ==> self.end().ensures((Key::Static(part->StaticStr_0),), r),
            part is Str ==> exists|k: Key|
                k@ == part->Str_0@ && (k matches Key::Dynamic(Cow::Borrowed(_)))
                    && #[trigger] self.end().ensures((k,), r),
    {
        match part {
            Part::StaticStr(s) => self.serialize_static_str(s),
            Part::Str(s) => self.serialize_str(s.as_str()),
            Part::Optional(None) => self.serialize_none(),
            Part::Optional(Some(b)) => self.serialize_some(b),
            Part::Sequence(_) => match self.serialize_seq() {
                Ok(sink) => Err(sink.unsupported()),
                Err(e) => Err(e),
            },
            _ => Err(self.unsupported()),
        }
    }
}

} // verus!

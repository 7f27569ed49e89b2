use vstd::prelude::*;

verus! {

/// One value as a serializer front-end hands it over: the shapes that a
/// pair can carry, and the ones it cannot.
pub enum Part {
    /// Text that lives for the whole program.
    StaticStr(&'static str),
    /// Text computed while serializing.
    Str(String),
    /// An optional value, absent or present.
    Optional(Option<Box<Part>>),
    /// A sequence of values.
    Sequence(Vec<Part>),
    /// A boolean.
    Bool(bool),
    /// An integer.
    Int(i64),
    /// A map, a struct, a float or any other shape.
    Other,
}

/// The text of a part that is a single string, if it is one.
pub open spec fn string_text(part: Part) -> Option<Seq<char>> {
    match part {
        Part::StaticStr(s) => Some(s@),
        Part::Str(s) => Some(s@),
        _ => None,
    }
}

} // verus!

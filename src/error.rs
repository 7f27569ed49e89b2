use vstd::prelude::*;

verus! {

/// Why a value could not be rendered as a form pair.
#[derive(Debug, Clone, Copy, PartialEq, Eq, Structural)]
pub enum Error {
    /// The value stood where a field name was expected and is not a single string.
    UnsupportedKey,
    /// The value stood where a field value was expected and has a shape that
    /// pairs cannot carry (a nested sequence, a map, a number, ...).
    UnsupportedValue,
}

impl Error {
    /// The error for a field name that is not a single string.
    pub fn unsupported_key() -> (r: Error)
        ensures
            r == Error::UnsupportedKey,
    {
        Error::UnsupportedKey
    }

    /// The error for a field value that pairs cannot carry.
    pub fn unsupported_value() -> (r: Error)
        ensures
            r == Error::UnsupportedValue,
    {
        Error::UnsupportedValue
    }

    /// A short description of the error.
    pub fn message(&self) -> (r: &'static str)
        ensures
            *self == Error::UnsupportedKey ==> r@ == "unsupported key"@,
            *self == Error::UnsupportedValue ==> r@ == "unsupported value"@,
    {
        match self {
            Error::UnsupportedKey => "unsupported key",
            Error::UnsupportedValue => "unsupported value",
        }
    }
}

} // verus!

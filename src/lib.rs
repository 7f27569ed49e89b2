//! Sinks that turn serialized field names and values into
//! `application/x-www-form-urlencoded` name/value pairs.
pub mod accumulator;
pub mod error;
pub mod key;
pub mod part;
pub mod record;
pub mod value;

pub use accumulator::Accumulator;
pub use error::Error;
pub use key::{Key, KeySink};
pub use part::Part;
pub use record::serialize_record;
pub use value::ValueSink;

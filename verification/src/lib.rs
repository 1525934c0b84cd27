use vstd::prelude::*;

pub mod model;
pub mod text;
pub mod decode;
pub mod parse;
pub mod bigint;
pub mod decimal;

verus! {

/// The failure modes of a decode call.
#[derive(Clone, Copy, Debug, PartialEq, Eq, Structural)]
pub enum DecodeError {
    /// A numeric string failed to parse as a decimal or integer.
    ParseError,
    /// A value exceeded the representable range of the target numeric type.
    ConversionError,
    /// The canonical snapshot could not be produced.
    SerializationError,
}

} // verus!

//! Failures of the codec, frame and conversion layers.

use vstd::prelude::*;

verus! {

/// Why a value could not be decoded, parsed or converted.
#[derive(Clone, Copy, Debug, PartialEq, Eq, Structural)]
pub enum Error {
    /// A hex string of odd length, or with a character that is no hex digit,
    /// or a hex integer that does not denote exactly four bytes.
    MalformedHex,
    /// An envelope field is absent or has the wrong type, or the method
    /// name is not one of the protocol's.
    BadEnvelope,
    /// A payload was converted into a message of another method.
    MethodMismatch,
    /// A parameter or result array has the wrong length, or an element has
    /// the wrong wire type for its position.
    ParamShape,
    /// A response that carries an error was converted into a result.
    NoResult,
    /// A response was built with both a result and an error, or with neither.
    ResultXorError,
}

} // verus!

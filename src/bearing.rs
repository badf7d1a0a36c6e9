//! Tolerant decoding of a position's bearing, the one field whose wire shape
//! varies upstream: a float, a whole number, numeric text, or nothing.

use vstd::prelude::*;
use crate::codes::DecodeError;

verus! {

/// A decoded bearing in degrees.
#[derive(Debug, Clone, Copy, PartialEq, Eq, Structural)]
pub enum Bearing {
    /// A single-precision value, held as its IEEE-754 bit pattern.
    Float(u32),
    /// A whole number of degrees, exactly representable in single precision.
    Whole(i16),
}

/// The shape in which a bearing arrived on the wire.
#[derive(Debug, Clone, Copy, PartialEq, Eq, Structural)]
pub enum BearingWire {
    /// The field was not sent.
    Absent,
    /// The field was sent as `null`.
    Null,
    /// A floating-point number, as its single-precision bit pattern.
    Float(u32),
    /// A non-negative whole number.
    Unsigned(u64),
    /// Text; holds the bit pattern it reads as, or `None` when it does not
    /// read as a floating-point number.
    Text(Option<u32>),
    /// Any other shape: an object, an array, a boolean, a negative number.
    Other,
}

/// The largest whole number that fits in 16 signed bits.
pub const BEARING_WHOLE_MAX: u64 = 32767;

/// What a bearing in the given wire shape decodes to.
pub open spec fn spec_decode_bearing(w: BearingWire) -> Result<Option<Bearing>, DecodeError> {
    match w {
        BearingWire::Absent => Ok(None),
        BearingWire::Null => Ok(None),
        BearingWire::Float(bits) => Ok(Some(Bearing::Float(bits))),
        BearingWire::Unsigned(v) => if v <= BEARING_WHOLE_MAX {
            Ok(Some(Bearing::Whole(v as i16)))
        } else {
            Err(DecodeError::BearingOutOfRange { value: v })
        },
        BearingWire::Text(Some(bits)) => Ok(Some(Bearing::Float(bits))),
        BearingWire::Text(None) => Err(DecodeError::BearingNotNumeric),
        BearingWire::Other => Err(DecodeError::BearingUnsupportedShape),
    }
}

/// Decodes a bearing: absent or null is `None`; a float is taken as it is; a
/// whole number must fit in 16 signed bits; text must read as a number;
/// every other shape is an error.
pub fn deserialize_bearing(w: BearingWire) -> (r: Result<Option<Bearing>, DecodeError>)
    ensures
        r == spec_decode_bearing(w),
{
    match w {
        BearingWire::Absent => Ok(None),
        BearingWire::Null => Ok(None),
        BearingWire::Float(bits) => Ok(Some(Bearing::Float(bits))),
        BearingWire::Unsigned(v) => {
            if v <= BEARING_WHOLE_MAX {
                Ok(Some(Bearing::Whole(v as i16)))
            } else {
                Err(DecodeError::BearingOutOfRange { value: v })
            }
        },
        BearingWire::Text(Some(bits)) => Ok(Some(Bearing::Float(bits))),
        BearingWire::Text(None) => Err(DecodeError::BearingNotNumeric),
        BearingWire::Other => Err(DecodeError::BearingUnsupportedShape),
    }
}

} // verus!

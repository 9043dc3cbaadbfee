//! Rotary-encoder events.

use vstd::prelude::*;

verus! {

/// Represents the direction of encoder rotation.
#[derive(Debug, Clone, Copy, PartialEq, Eq, Structural)]
pub enum EncoderDirection {
    Clockwise,
    CounterClockwise,
}

/// What one sampling of the two encoder pins means, after the debounce delay
/// that follows a rising edge on pin A.
///
/// Pin A must still be high, otherwise the edge was noise and no event is
/// produced. With pin A high, pin B low means a clockwise step and pin B high a
/// counter-clockwise step.
pub open spec fn decoded_rotation(a_high: bool, b_low: bool) -> Option<EncoderDirection> {
    if !a_high {
        None
    } else if b_low {
        Some(EncoderDirection::Clockwise)
    } else {
        Some(EncoderDirection::CounterClockwise)
    }
}

/// Decodes the pin levels sampled after the debounce delay into a rotation
/// event, or `None` where the edge was noise.
pub fn decode_rotation(a_high: bool, b_low: bool) -> (event: Option<EncoderDirection>)
    ensures
        event == decoded_rotation(a_high, b_low),
{
    if !a_high {
        None
    } else if b_low {
        Some(EncoderDirection::Clockwise)
    } else {
        Some(EncoderDirection::CounterClockwise)
    }
}

} // verus!

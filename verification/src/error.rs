//! The errors of the codec.

use vstd::prelude::*;

verus! {

/// Why an operation of the codec failed.
#[derive(Debug, Clone, Copy, PartialEq, Eq, Structural)]
pub enum CyphalError {
    /// An identifier is out of range, or the transfer is an anonymous
    /// multi-frame message or an anonymous service transfer.
    InvalidArgument,
    /// A byte count has no data length code or does not fit the frame
    /// capacity of the instance, or a received record declares data that is
    /// empty or longer than a frame of the instance.
    InvalidFrameSize,
    /// Received bytes are not a whole number of frame records.
    InvalidFrameLength,
    /// No CAN identifier could be built for the transfer.
    InvalidCanId,
    /// A first frame was asked to carry a toggle bit other than the initial
    /// one.
    InvalidState,
    /// A declared length differs from the length of the data.
    LengthMismatch,
}

} // verus!

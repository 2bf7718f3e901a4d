//! The data lengths that a CAN FD frame can have, and rounding a byte count
//! up to the next of them.

use crate::defines::constants::{CAN_DLC_TO_DLEN, CAN_DLEN_TO_DLC};
use vstd::prelude::*;

verus! {

/// The data lengths that a CAN FD frame can have: every length up to 8, then
/// 12, 16, 20, 24, 32, 48 and 64.
pub open spec fn is_frame_length(len: int) -> bool {
    ||| 0 <= len <= 8
    ||| len == 12
    ||| len == 16
    ||| len == 20
    ||| len == 24
    ||| len == 32
    ||| len == 48
    ||| len == 64
}

/// The shortest frame length that holds `n` bytes, for `n` up to 64.
pub open spec fn round_up_frame_length(n: int) -> int {
    if n <= 8 {
        n
    } else if n <= 12 {
        12
    } else if n <= 16 {
        16
    } else if n <= 20 {
        20
    } else if n <= 24 {
        24
    } else if n <= 32 {
        32
    } else if n <= 48 {
        48
    } else {
        64
    }
}

/// The most payload bytes that one frame carries beside its tail byte, on a
/// link whose frames hold `mtu` bytes: the capacity is taken as at least 8
/// and at most 64, and rounded up to a frame length.
pub open spec fn presentation_layer_mtu(mtu: int) -> int {
    let capacity = if mtu < 8 {
        8
    } else if mtu > 64 {
        64
    } else {
        mtu
    };
    round_up_frame_length(capacity) - 1
}

/// `round_up_frame_length` gives a frame length that holds `n` bytes, and
/// every frame length that holds them is at least as long.
pub proof fn lemma_round_up_is_least(n: int)
    requires
        0 <= n <= 64,
    ensures
        is_frame_length(round_up_frame_length(n)),
        n <= round_up_frame_length(n) <= 64,
        forall|len: int| is_frame_length(len) && n <= len ==> round_up_frame_length(n) <= len,
{
}

/// The frame lengths are the entries of the table of data length codes.
pub proof fn lemma_frame_lengths_are_table_entries(len: int)
    ensures
        is_frame_length(len) <==> exists|dlc: int|
            0 <= dlc < 16 && #[trigger] CAN_DLC_TO_DLEN@[dlc] == len,
{
    if is_frame_length(len) {
        let dlc = if len <= 8 {
            len
        } else if len == 12 {
            9
        } else if len == 16 {
            10
        } else if len == 20 {
            11
        } else if len == 24 {
            12
        } else if len == 32 {
            13
        } else if len == 48 {
            14
        } else {
            15
        };
        assert(CAN_DLC_TO_DLEN@[dlc] == len);
    }
}

/// Going from a byte count to its data length code and back to a length
/// rounds the count up: the length holds the count, and no entry of the
/// length table that holds it is shorter.
pub proof fn lemma_dlc_round_trip(n: int)
    requires
        0 <= n <= 64,
    ensures
        0 <= CAN_DLEN_TO_DLC@[n] < 16,
        CAN_DLC_TO_DLEN@[CAN_DLEN_TO_DLC@[n] as int] == round_up_frame_length(n),
        CAN_DLC_TO_DLEN@[CAN_DLEN_TO_DLC@[n] as int] >= n,
        forall|dlc: int|
            0 <= dlc < 16 && #[trigger] CAN_DLC_TO_DLEN@[dlc] >= n
                ==> CAN_DLC_TO_DLEN@[CAN_DLEN_TO_DLC@[n] as int] <= CAN_DLC_TO_DLEN@[dlc],
{
}

/// The presentation-layer MTU is between 7 and 63, and one more is a frame
/// length. A frame of that length fits the link where the capacity of the
/// link is a frame length of at least 8 bytes, or 64 bytes and more, and
/// nowhere else.
pub proof fn lemma_presentation_layer_mtu(mtu: int)
    ensures
        7 <= presentation_layer_mtu(mtu) <= 63,
        is_frame_length(presentation_layer_mtu(mtu) + 1),
        mtu >= 64 || (8 <= mtu && is_frame_length(mtu)) <==> presentation_layer_mtu(mtu) + 1
            <= mtu,
{
}

} // verus!

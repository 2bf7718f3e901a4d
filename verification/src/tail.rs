//! The tail byte that ends the data of every frame.

use crate::defines::enums::CyphalRxPacketType;
use crate::defines::structs::CyphalRxPacketStatus;
use vstd::prelude::*;

verus! {

/// The last byte of every frame: bit 7 marks the first frame of a transfer,
/// bit 6 the last one, bit 5 is the toggle, and the low five bits carry the
/// transfer id, of which only those five bits are kept.
pub open spec fn tail_byte(start: bool, end: bool, toggle: bool, transfer_id: u8) -> u8 {
    (if start {
        0x80u8
    } else {
        0u8
    }) | (if end {
        0x40u8
    } else {
        0u8
    }) | (if toggle {
        0x20u8
    } else {
        0u8
    }) | (transfer_id & 0x1f)
}

/// Whether a tail byte marks the first frame of a transfer.
pub open spec fn tail_start(tail: u8) -> bool {
    tail & 0x80 != 0
}

/// Whether a tail byte marks the last frame of a transfer.
pub open spec fn tail_end(tail: u8) -> bool {
    tail & 0x40 != 0
}

/// The toggle bit of a tail byte.
pub open spec fn tail_toggle(tail: u8) -> bool {
    tail & 0x20 != 0
}

/// The transfer id that a tail byte carries.
pub open spec fn tail_transfer_id(tail: u8) -> u8 {
    tail & 0x1f
}

/// Where a frame stands in its transfer, by the two flags of its tail byte.
pub open spec fn frame_type_of(start: bool, end: bool) -> CyphalRxPacketType {
    if start && end {
        CyphalRxPacketType::SignleFrame
    } else if start {
        CyphalRxPacketType::MultiFrameStart
    } else if end {
        CyphalRxPacketType::MultiFrameEnd
    } else {
        CyphalRxPacketType::MultiFrameInProcess
    }
}

/// What a tail byte says of its frame.
pub open spec fn tail_status(tail: u8) -> CyphalRxPacketStatus {
    CyphalRxPacketStatus {
        frame_type: frame_type_of(tail_start(tail), tail_end(tail)),
        toggle: tail_toggle(tail),
    }
}

/// A tail byte gives back the flags it was made of, and the low five bits of
/// the transfer id.
pub proof fn lemma_tail_byte_fields(start: bool, end: bool, toggle: bool, transfer_id: u8)
    ensures
        tail_start(tail_byte(start, end, toggle, transfer_id)) == start,
        tail_end(tail_byte(start, end, toggle, transfer_id)) == end,
        tail_toggle(tail_byte(start, end, toggle, transfer_id)) == toggle,
        tail_transfer_id(tail_byte(start, end, toggle, transfer_id)) == transfer_id & 0x1f,
        transfer_id <= 31 ==> transfer_id & 0x1f == transfer_id,
{
    let s: u8 = if start { 0x80 } else { 0 };
    let e: u8 = if end { 0x40 } else { 0 };
    let t: u8 = if toggle { 0x20 } else { 0 };
    let tail = s | e | t | (transfer_id & 0x1f);
    assert({
        &&& (tail & 0x80 != 0) == (s != 0)
        &&& (tail & 0x40 != 0) == (e != 0)
        &&& (tail & 0x20 != 0) == (t != 0)
        &&& tail & 0x1f == transfer_id & 0x1f
        &&& (transfer_id <= 31 ==> transfer_id & 0x1f == transfer_id)
    }) by (bit_vector)
        requires
            s == 0x80 || s == 0,
            e == 0x40 || e == 0,
            t == 0x20 || t == 0,
            tail == s | e | t | (transfer_id & 0x1f),
    ;
}

/// Encoding the four fields of a tail byte and decoding them again changes
/// nothing, for every transfer id of up to five bits whose first frame
/// carries the initial toggle.
pub proof fn lemma_tail_byte_round_trip(start: bool, end: bool, toggle: bool, transfer_id: u8)
    requires
        transfer_id <= 31,
        start ==> toggle,
    ensures
        tail_start(tail_byte(start, end, toggle, transfer_id)) == start,
        tail_end(tail_byte(start, end, toggle, transfer_id)) == end,
        tail_toggle(tail_byte(start, end, toggle, transfer_id)) == toggle,
        tail_transfer_id(tail_byte(start, end, toggle, transfer_id)) == transfer_id,
        tail_status(tail_byte(start, end, toggle, transfer_id)) == (CyphalRxPacketStatus {
            frame_type: frame_type_of(start, end),
            toggle,
        }),
{
    lemma_tail_byte_fields(start, end, toggle, transfer_id);
}

} // verus!

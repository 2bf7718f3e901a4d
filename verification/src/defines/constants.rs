//! The constants of the wire format.

use vstd::prelude::*;

verus! {

/// Semantic version of this library (not of the protocol).
pub const CYPHAL_VERSION_MAJOR: u8 = 1;

pub const CYPHAL_VERSION_MINOR: u8 = 1;

/// The version of the Cyphal protocol that this library implements.
pub const CYPHAL_PROTOCOL_VERSION_MAJOR: u8 = 1;

pub const CYPHAL_PROTOCOL_VERSION_MINOR: u8 = 0;

/// Frame capacity of classic CAN, in bytes.
pub const CYPHAL_MTU_CAN_CLASSIC: u8 = 8;

/// Frame capacity of CAN FD, in bytes.
pub const CYPHAL_MTU_CAN_FD: u8 = 64;

/// Parameter ranges are inclusive; the lower bound is zero for all.
pub const CYPHAL_SUBJECT_ID_MAX: u16 = 8191;

pub const CYPHAL_SERVICE_ID_MAX: u16 = 511;

pub const CYPHAL_NODE_ID_MAX: u8 = 127;

pub const CYPHAL_PRIORITY_MAX: u8 = 7;

pub const CYPHAL_TRANSFER_ID_BIT_LENGTH: u8 = 5;

pub const CYPHAL_TRANSFER_ID_MAX: u8 = 31;

/// An undefined node id: broadcast destination or anonymous source.
/// Every value above `CYPHAL_NODE_ID_MAX` is treated as anonymous.
pub const CYPHAL_NODE_ID_UNSET: u8 = 255;

/// The recommended transfer-id timeout, in microseconds.
pub const CYPHAL_DEFAULT_TRANSFER_ID_TIMEOUT_USEC: usize = 2000000;

pub const CYPHAL_NUM_TRANSFER_KINDS: usize = 3;

/// Subject id on which a node publishes its heartbeat.
pub const CYPHAL_HEARTBEAT_SUBJECT_ID: u16 = 0x1d55;

/// Data length, in bytes, that each 4-bit data length code stands for.
pub const CAN_DLC_TO_DLEN: [u8; 16] = [0, 1, 2, 3, 4, 5, 6, 7, 8, 12, 16, 20, 24, 32, 48, 64];

/// For each byte count up to 64, the code of the shortest data length that
/// holds it.
pub const CAN_DLEN_TO_DLC: [u8; 65] = [
    0, 1, 2, 3, 4, 5, 6, 7, 8,  // 0-8
    9, 9, 9, 9,  // 9-12
    10, 10, 10, 10,  // 13-16
    11, 11, 11, 11,  // 17-20
    12, 12, 12, 12,  // 21-24
    13, 13, 13, 13, 13, 13, 13, 13,  // 25-32
    14, 14, 14, 14, 14, 14, 14, 14, 14, 14, 14, 14, 14, 14, 14, 14,  // 33-48
    15, 15, 15, 15, 15, 15, 15, 15, 15, 15, 15, 15, 15, 15, 15, 15,  // 49-64
];

pub const BITS_PER_BYTE: u8 = 8;

pub const BYTE_MAX: u16 = 0xff;

/// An extended CAN identifier has 29 bits.
pub const CAN_EXT_ID_MASK: u32 = 0x1fff_ffff;

/// Bytes that precede the data in a received record: the identifier and the
/// header word.
pub const CAN_FRAME_XID_AND_HEADER_LENGTH: usize = 8;

pub const MFT_NON_LAST_FRAME_PAYLOAD_MIN: u8 = 7;

pub const PADDING_BYTE_VALUE: u8 = 0;

pub const OFFSET_PRIORITY: u8 = 26;

pub const OFFSET_SUBJECT_ID: u8 = 8;

pub const OFFSET_SERVICE_ID: u8 = 14;

pub const OFFSET_DST_NODE_ID: u8 = 7;

pub const FLAG_SERVICE_NOT_MESSAGE: u32 = 0x0200_0000;

pub const FLAG_ANONYMOUS_MESSAGE: u32 = 0x0100_0000;

pub const FLAG_REQUEST_NOT_RESPONSE: u32 = 0x0100_0000;

pub const FLAG_RESERVED_23: u32 = 0x0080_0000;

pub const FLAG_RESERVED_07: u32 = 0x0000_0080;

pub const TAIL_START_OF_TRANSFER: u8 = 128;

pub const TAIL_END_OF_TRANSFER: u8 = 64;

pub const TAIL_TOGGLE: u8 = 32;

pub const TAIL_SIZE_BYTES: u8 = 1;

pub const INITIAL_TOGGLE_STATE: bool = true;

pub const CRC_INITIAL: u16 = 0xFFFF;

pub const CRC_RESIDUE: u16 = 0x0000;

pub const CRC_SIZE_BYTES: u8 = 2;

} // verus!

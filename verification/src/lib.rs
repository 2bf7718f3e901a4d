//! A codec for the CAN transport of Cyphal.
//!
//! Outbound, a transfer (a payload of any length with its routing) becomes
//! the CAN frames that carry it: one frame where the payload fits, else
//! several, with a CRC behind the payload. Inbound, the records that a bus
//! driver hands over become frames with their routing decoded. Nothing here
//! touches a bus, and nothing puts received frames back together.
//!
//! Every function states what it returns over the models in [`crc`],
//! [`frame_length`], [`can_id`], [`tail`], [`fragment`] and [`rx`], and is
//! proved to meet that statement.

#![allow(unused_imports)]

pub mod can_id;
pub mod crc;
pub mod defines;
pub mod error;
pub mod fragment;
pub mod frame_length;
pub mod middleware;
pub mod rx;
pub mod tail;
pub mod tx;

pub use crate::crc::{crc_add, crc_add_byte};
pub use crate::defines::enums::{CyphalPriority, CyphalRxPacketType, CyphalTransferKind};
pub use crate::defines::structs::{
    CyphalInstance, CyphalRxData, CyphalRxFrame, CyphalRxPacket, CyphalRxPacketStatus,
    CyphalRxProps, CyphalTxPacket, CyphalTxPacketFrame, CyphalTxProps,
};
pub use crate::error::CyphalError;
pub use crate::middleware::CyphalMiddleware;

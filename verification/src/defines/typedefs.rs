//! Names for the integer types of the fields of a transfer.

use vstd::prelude::*;

verus! {

pub type CyphalNodeID = u8;

pub type CyphalPortID = u16;

pub type CyphalTransferID = u8;

pub type TransferCRC = u16;

} // verus!

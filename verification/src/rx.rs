//! From received records to frames.

use crate::can_id::rx_props;
use crate::defines::constants::{
    CAN_DLC_TO_DLEN, CAN_EXT_ID_MASK, CAN_FRAME_XID_AND_HEADER_LENGTH, CYPHAL_NODE_ID_UNSET,
    CYPHAL_TRANSFER_ID_MAX, FLAG_ANONYMOUS_MESSAGE, FLAG_REQUEST_NOT_RESPONSE,
    FLAG_SERVICE_NOT_MESSAGE, OFFSET_DST_NODE_ID, OFFSET_PRIORITY, OFFSET_SERVICE_ID,
    OFFSET_SUBJECT_ID, TAIL_END_OF_TRANSFER, TAIL_START_OF_TRANSFER, TAIL_TOGGLE,
};
use crate::defines::enums::{CyphalPriority, CyphalRxPacketType, CyphalTransferKind};
use crate::defines::structs::{CyphalRxPacket, CyphalRxPacketStatus, CyphalRxProps};
use crate::error::CyphalError;
use crate::middleware::CyphalMiddleware;
use crate::tail::tail_status;
use vstd::prelude::*;
use vstd::slice::slice_subrange;

verus! {

/// The 32-bit word that four bytes stand for, the lowest byte first.
pub open spec fn u32_from_le(b0: u8, b1: u8, b2: u8, b3: u8) -> u32 {
    (b0 as u32) | ((b1 as u32) << 8) | ((b2 as u32) << 16) | ((b3 as u32) << 24)
}

/// The identifier of a received record: the low 29 bits of its first word.
pub open spec fn record_xid(record: Seq<u8>) -> u32 {
    u32_from_le(record[0], record[1], record[2], record[3]) & CAN_EXT_ID_MASK
}

/// The data length code of a received record: bits 16 to 19 of its second
/// word.
pub open spec fn record_dlc(record: Seq<u8>) -> u8 {
    ((u32_from_le(record[4], record[5], record[6], record[7]) >> 16) & 0x0f) as u8
}

/// The number of data bytes that a received record declares, tail byte
/// included.
pub open spec fn record_data_length(record: Seq<u8>) -> int {
    CAN_DLC_TO_DLEN@[record_dlc(record) as int] as int
}

/// A record can be decoded where the data that it declares has a tail byte
/// and fits the frames of the link.
pub open spec fn record_is_valid(record: Seq<u8>, mtu: int) -> bool {
    1 <= record_data_length(record) <= mtu
}

/// The tail byte of a received record: the last of the data bytes that it
/// declares.
pub open spec fn record_tail(record: Seq<u8>) -> u8 {
    record[CAN_FRAME_XID_AND_HEADER_LENGTH + record_data_length(record) - 1]
}

/// Record number `index` of received bytes that hold one record after the
/// other, each of `mtu + 8` bytes.
pub open spec fn record_at(data: Seq<u8>, mtu: int, index: int) -> Seq<u8> {
    data.subrange(index * (mtu + 8), (index + 1) * (mtu + 8))
}

impl<const MTU: usize> CyphalRxPacket<MTU> {
    /// Whether this is the frame that `record` decodes to: its identifier,
    /// its declared data without the tail byte in a buffer that holds zeros
    /// behind them, and what tail byte and identifier say.
    pub open spec fn is_record(&self, record: Seq<u8>) -> bool {
        let size = record_data_length(record) - 1;
        &&& self.xid == record_xid(record)
        &&& self.payload_size == size
        &&& forall|i: int|
            0 <= i < MTU ==> #[trigger] self.payload@[i] == (if i < size {
                record[CAN_FRAME_XID_AND_HEADER_LENGTH + i]
            } else {
                0u8
            })
        &&& self.status == tail_status(record_tail(record))
        &&& self.props == rx_props(record_xid(record), record_tail(record))
    }
}

/// The word that stands in four bytes of `data` from `at` on, the lowest
/// byte first.
fn read_u32_le(data: &[u8], at: usize) -> (r: u32)
    requires
        at + 4 <= data@.len(),
    ensures
        r == u32_from_le(
            data@[at as int],
            data@[at + 1],
            data@[at + 2],
            data@[at + 3],
        ),
{
    (data[at] as u32) | ((data[at + 1] as u32) << 8) | ((data[at + 2] as u32) << 16) | ((data[at
        + 3] as u32) << 24)
}

/// What the tail byte of a frame says of it.
pub fn rx_parse_status(tail: u8) -> (r: CyphalRxPacketStatus)
    ensures
        r == tail_status(tail),
{
    let start_of_transfer: bool = (tail & TAIL_START_OF_TRANSFER) != 0;
    let end_of_transfer: bool = (tail & TAIL_END_OF_TRANSFER) != 0;
    let toggle: bool = (tail & TAIL_TOGGLE) != 0;
    let frame_type = match (start_of_transfer, end_of_transfer) {
        (true, true) => CyphalRxPacketType::SignleFrame,
        (true, false) => CyphalRxPacketType::MultiFrameStart,
        (false, true) => CyphalRxPacketType::MultiFrameEnd,
        (false, false) => CyphalRxPacketType::MultiFrameInProcess,
    };
    CyphalRxPacketStatus { frame_type, toggle }
}

/// What identifier and tail byte of a frame say of its routing.
pub fn rx_parse_props(xid: u32, tail: u8) -> (r: CyphalRxProps)
    ensures
        r == rx_props(xid, tail),
{
    let transfer_id: u8 = tail & CYPHAL_TRANSFER_ID_MAX;
    let transfer_kind: CyphalTransferKind = if (xid & FLAG_SERVICE_NOT_MESSAGE) != 0 {
        if (xid & FLAG_REQUEST_NOT_RESPONSE) != 0 {
            CyphalTransferKind::Request
        } else {
            CyphalTransferKind::Response
        }
    } else {
        CyphalTransferKind::Message
    };
    let priority: CyphalPriority = CyphalPriority::from(((xid >> OFFSET_PRIORITY) & 7) as u8);
    match transfer_kind {
        CyphalTransferKind::Message => {
            let port_id: u16 = ((xid >> OFFSET_SUBJECT_ID) & 8191) as u16;
            let source_node_id: u8 = if (xid & FLAG_ANONYMOUS_MESSAGE) != 0 {
                CYPHAL_NODE_ID_UNSET
            } else {
                (xid & 127) as u8
            };
            CyphalRxProps {
                priority,
                transfer_kind,
                transfer_id,
                port_id,
                source_node_id,
                destination_node_id: CYPHAL_NODE_ID_UNSET,
            }
        },
        _ => {
            let port_id: u16 = ((xid >> OFFSET_SERVICE_ID) & 511) as u16;
            let source_node_id: u8 = (xid & 127) as u8;
            let destination_node_id: u8 = ((xid >> OFFSET_DST_NODE_ID) & 127) as u8;
            CyphalRxProps {
                priority,
                transfer_kind,
                transfer_id,
                port_id,
                source_node_id,
                destination_node_id,
            }
        },
    }
}

/// The records of `data` lie one behind the other: the next one begins where
/// this one ends, and while bytes are left, a whole record is left.
proof fn lemma_next_record(len: int, size: int, index: int)
    requires
        0 < size,
        0 <= index,
        len % size == 0,
        index * size < len,
    ensures
        (index + 1) * size == index * size + size,
        (index + 1) * size <= len,
        index < len / size,
{
    let count = len / size;
    vstd::arithmetic::div_mod::lemma_fundamental_div_mod(len, size);
    vstd::arithmetic::mul::lemma_mul_is_commutative(size, count);
    vstd::arithmetic::mul::lemma_mul_strict_inequality_converse(index, count, size);
    vstd::arithmetic::mul::lemma_mul_inequality(index + 1, count, size);
    assert((index + 1) * size == index * size + size) by (nonlinear_arith);
}

impl<const MTU: usize> CyphalMiddleware<MTU> {
    /// Decodes received bytes that hold zero or more records of `MTU + 8`
    /// bytes each, one frame for each record, in the order of the records.
    ///
    /// Fails with `InvalidFrameLength` where the bytes are not a whole
    /// number of records, and else with `InvalidFrameSize` where the data
    /// that one of the records declares is empty or longer than a frame of
    /// the link.
    pub fn try_read(&self, data: &[u8]) -> (r: Result<Vec<CyphalRxPacket<MTU>>, CyphalError>)
        ensures
            match r {
                Ok(frames) => {
                    &&& data@.len() as int % (MTU + 8) == 0
                    &&& frames@.len() == data@.len() as int / (MTU + 8)
                    &&& forall|k: int|
                        #![trigger record_at(data@, MTU as int, k)]
                        0 <= k < frames@.len() ==> {
                            &&& record_is_valid(record_at(data@, MTU as int, k), MTU as int)
                            &&& frames@[k].is_record(record_at(data@, MTU as int, k))
                        }
                },
                Err(e) => if data@.len() as int % (MTU + 8) != 0 {
                    e == CyphalError::InvalidFrameLength
                } else {
                    &&& e == CyphalError::InvalidFrameSize
                    &&& exists|k: int|
                        0 <= k < data@.len() as int / (MTU + 8) && !record_is_valid(
                            #[trigger] record_at(data@, MTU as int, k),
                            MTU as int,
                        )
                },
            },
    {
        let data_len: usize = data.len();
        let record_size: usize = match MTU.checked_add(CAN_FRAME_XID_AND_HEADER_LENGTH) {
            Some(x) => x,
            None => {
                // No bytes at all are the only whole number of records that
                // are longer than any data.
                proof {
                    if data_len > 0 {
                        vstd::arithmetic::div_mod::lemma_small_mod(
                            data_len as nat,
                            (MTU + 8) as nat,
                        );
                    } else {
                        vstd::arithmetic::div_mod::lemma_small_mod(0, (MTU + 8) as nat);
                        vstd::arithmetic::div_mod::lemma_basic_div(0, MTU + 8);
                    }
                }
                if data_len == 0 {
                    return Ok(Vec::new());
                } else {
                    return Err(CyphalError::InvalidFrameLength);
                }
            },
        };
        if data_len % record_size != 0 {
            return Err(CyphalError::InvalidFrameLength);
        }
        let mut ret: Vec<CyphalRxPacket<MTU>> = Vec::new();
        let mut at: usize = 0;
        proof {
            assert(0 * record_size == 0) by (nonlinear_arith);
        }
        while at < data_len
            invariant
                record_size == MTU + 8,
                data_len == data@.len(),
                data_len as int % (record_size as int) == 0,
                at <= data_len,
                at == ret@.len() * record_size,
                forall|k: int|
                    #![trigger record_at(data@, MTU as int, k)]
                    0 <= k < ret@.len() ==> {
                        &&& record_is_valid(record_at(data@, MTU as int, k), MTU as int)
                        &&& ret@[k].is_record(record_at(data@, MTU as int, k))
                    },
            decreases data_len - at,
        {
            proof {
                lemma_next_record(data_len as int, record_size as int, ret@.len() as int);
            }
            let record = slice_subrange(data, at, at + record_size);
            assert(record@ == record_at(data@, MTU as int, ret@.len() as int));
            let frame = self.rx_parse_record(record)?;
            ret.push(frame);
            at += record_size;
        }
        proof {
            vstd::arithmetic::div_mod::lemma_fundamental_div_mod_converse(
                data_len as int,
                record_size as int,
                ret@.len() as int,
                0,
            );
        }
        Ok(ret)
    }

    /// Decodes one received record: four bytes of identifier, four bytes of
    /// header, and the data bytes of the frame.
    ///
    /// Fails with `InvalidFrameLength` where `record` has not the `MTU + 8`
    /// bytes of a record, and with `InvalidFrameSize` where the data that it
    /// declares is empty or longer than a frame of the link.
    pub fn rx_parse_record(&self, record: &[u8]) -> (r: Result<CyphalRxPacket<MTU>, CyphalError>)
        ensures
            match r {
                Ok(frame) => {
                    &&& record@.len() == MTU + 8
                    &&& record_is_valid(record@, MTU as int)
                    &&& frame.is_record(record@)
                },
                Err(e) => if record@.len() != MTU + 8 {
                    e == CyphalError::InvalidFrameLength
                } else {
                    e == CyphalError::InvalidFrameSize && !record_is_valid(record@, MTU as int)
                },
            },
    {
        if record.len() < CAN_FRAME_XID_AND_HEADER_LENGTH || record.len()
            - CAN_FRAME_XID_AND_HEADER_LENGTH != MTU {
            return Err(CyphalError::InvalidFrameLength);
        }
        // The identifier field.
        let xid: u32 = read_u32_le(record, 0) & CAN_EXT_ID_MASK;

        // The header field.
        let header: u32 = read_u32_le(record, 4);
        let dlc: u8 = ((header >> 16) & 0x0f) as u8;
        assert((header >> 16) & 0x0f < 16) by (bit_vector);

        let dlen: usize = CAN_DLC_TO_DLEN[dlc as usize] as usize;
        if dlen == 0 || dlen > MTU {
            return Err(CyphalError::InvalidFrameSize);
        }
        let tail: u8 = record[CAN_FRAME_XID_AND_HEADER_LENGTH + dlen - 1];

        // The data field, without its tail byte.
        let payload_size: usize = dlen - 1;
        let mut payload: [u8; MTU] = [0;MTU];
        let mut i: usize = 0;
        while i < payload_size
            invariant
                i <= payload_size < MTU,
                record@.len() == MTU + 8 <= usize::MAX,
                forall|j: int| 0 <= j < i ==> payload@[j] == record@[8 + j],
                forall|j: int| i <= j < MTU ==> payload@[j] == 0,
            decreases payload_size - i,
        {
            payload[i] = record[i + CAN_FRAME_XID_AND_HEADER_LENGTH];
            i += 1;
        }

        Ok(
            CyphalRxPacket {
                xid,
                payload,
                payload_size,
                status: rx_parse_status(tail),
                props: rx_parse_props(xid, tail),
            },
        )
    }
}

} // verus!

//! The data types of transfers and frames.

use crate::crc::{crc_add, crc_bytes, crc_trailer};
use crate::defines::constants::CRC_INITIAL;
use crate::defines::enums::{CyphalPriority, CyphalRxPacketType, CyphalTransferKind};
use crate::defines::typedefs::{CyphalNodeID, CyphalPortID, CyphalTransferID};
use crate::error::CyphalError;
use vstd::prelude::*;

verus! {

/// The identity of a node on the bus and the capacity of its frames.
pub struct CyphalInstance<const MTU: usize> {
    pub(crate) mtu_bytes: usize,
    pub(crate) node_id: CyphalNodeID,
}

impl<const MTU: usize> CyphalInstance<MTU> {
    #[verifier::type_invariant]
    spec fn well_formed(&self) -> bool {
        self.mtu_bytes == MTU
    }

    /// The node id of the instance; a value above 127 means that the node is
    /// anonymous.
    pub closed spec fn spec_node_id(&self) -> CyphalNodeID {
        self.node_id
    }

    /// The node `node_id` on a link whose frames hold `MTU` bytes.
    pub fn new(node_id: CyphalNodeID) -> (r: Self)
        ensures
            r.node_id() == node_id,
    {
        Self { mtu_bytes: MTU, node_id }
    }

    /// The node id of the instance.
    #[verifier::when_used_as_spec(spec_node_id)]
    pub fn node_id(&self) -> (r: CyphalNodeID)
        ensures
            r == self.node_id(),
    {
        self.node_id
    }

    /// The capacity of a frame, in bytes: the parameter of the type.
    pub fn mtu_bytes(&self) -> (r: usize)
        ensures
            r == MTU,
    {
        proof {
            use_type_invariant(self);
        }
        self.mtu_bytes
    }
}

/// How an outbound transfer is routed.
#[derive(Debug, Copy, Clone, PartialEq, Eq, Structural)]
pub struct CyphalTxProps {
    pub priority: CyphalPriority,
    pub transfer_kind: CyphalTransferKind,
    pub transfer_id: CyphalTransferID,
    pub port_id: CyphalPortID,
    pub remote_node_id: CyphalNodeID,
}

/// An outbound transfer before it is split into frames.
#[derive(Debug)]
pub struct CyphalTxPacketFrame {
    pub payload: Vec<u8>,
    pub payload_size: usize,
    pub props: CyphalTxProps,
}

/// An outbound transfer as mathematical values.
pub struct TransferView {
    pub payload: Seq<u8>,
    pub payload_size: int,
    pub props: CyphalTxProps,
}

impl View for CyphalTxPacketFrame {
    type V = TransferView;

    open spec fn view(&self) -> TransferView {
        TransferView {
            payload: self.payload@,
            payload_size: self.payload_size as int,
            props: self.props,
        }
    }
}

/// One CAN frame ready for the bus: the identifier, and a buffer of which the
/// first `payload_size` bytes are the frame's data, tail byte included.
#[derive(Debug, Clone)]
pub struct CyphalTxPacket<const MTU: usize> {
    pub xid: u32,
    pub payload: [u8; MTU],
    pub payload_size: usize,
}

impl<const MTU: usize> CyphalTxPacket<MTU> {
    /// The bytes that the frame puts on the bus.
    pub open spec fn data(&self) -> Seq<u8> {
        self.payload@.take(self.payload_size as int)
    }

    /// Whether the frame has the identifier `xid` and the bytes `data`, in a
    /// buffer that holds zeros behind them.
    pub open spec fn is_frame(&self, xid: u32, data: Seq<u8>) -> bool {
        &&& self.xid == xid
        &&& self.payload_size == data.len()
        &&& data.len() <= MTU
        &&& forall|i: int|
            0 <= i < MTU ==> #[trigger] self.payload@[i] == (if i < data.len() {
                data[i]
            } else {
                0u8
            })
    }

    /// A frame that `is_frame` describes puts exactly the described bytes on
    /// the bus.
    pub proof fn lemma_is_frame_data(&self, xid: u32, data: Seq<u8>)
        requires
            self.is_frame(xid, data),
        ensures
            self.data() == data,
    {
        assert(self.data() =~= data);
    }
}

/// Where a received frame stands in its transfer, and its toggle bit.
#[derive(Debug, Copy, Clone, PartialEq, Eq, Structural)]
pub struct CyphalRxPacketStatus {
    pub frame_type: CyphalRxPacketType,
    pub toggle: bool,
}

/// How a received frame was routed.
#[derive(Debug, Copy, Clone, PartialEq, Eq, Structural)]
pub struct CyphalRxProps {
    pub priority: CyphalPriority,
    pub transfer_kind: CyphalTransferKind,
    pub transfer_id: CyphalTransferID,
    pub port_id: CyphalPortID,
    pub source_node_id: CyphalNodeID,
    pub destination_node_id: CyphalNodeID,
}

/// One received CAN frame: the identifier, a buffer of which the first
/// `payload_size` bytes are the frame's payload without its tail byte, and
/// what identifier and tail byte say.
#[derive(Debug, Clone)]
pub struct CyphalRxPacket<const MTU: usize> {
    pub xid: u32,
    pub payload: [u8; MTU],
    pub payload_size: usize,
    pub status: CyphalRxPacketStatus,
    pub props: CyphalRxProps,
}

/// A received payload of any length with its routing.
#[derive(Debug, Clone)]
pub struct CyphalRxFrame {
    pub xid: u32,
    pub payload: Vec<u8>,
    pub payload_size: usize,
    pub props: CyphalRxProps,
}

impl CyphalRxFrame {
    /// The transfer CRC of the payload, high byte first. Fails where
    /// `payload_size` is not the length of the payload.
    pub fn calculate_crc(&self) -> (r: Result<[u8; 2], CyphalError>)
        ensures
            match r {
                Ok(bytes) => {
                    &&& self.payload_size == self.payload@.len()
                    &&& bytes@ == crc_trailer(crc_bytes(CRC_INITIAL, self.payload@))
                },
                Err(e) => self.payload_size != self.payload@.len() && e
                    == CyphalError::LengthMismatch,
            },
    {
        let crc: u16 = crc_add(CRC_INITIAL, self.payload_size, self.payload.as_slice())?;
        let bytes: [u8; 2] = [(crc >> 8) as u8, (crc & 0xff) as u8];
        assert(bytes@ =~= crc_trailer(crc));
        Ok(bytes)
    }
}

/// A decoded value with the routing of the transfer that carried it.
#[derive(Debug)]
pub struct CyphalRxData<T> {
    pub data: T,
    pub props: CyphalRxProps,
}

} // verus!

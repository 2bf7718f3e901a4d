//! The 29-bit extended CAN identifier: how priority, kind of transfer, port
//! and node ids are packed into it, and how they are read from it.

use crate::crc::crc_bytes;
use crate::defines::constants::{
    CRC_INITIAL, CYPHAL_NODE_ID_MAX, CYPHAL_NODE_ID_UNSET, CYPHAL_SERVICE_ID_MAX,
    CYPHAL_SUBJECT_ID_MAX, FLAG_ANONYMOUS_MESSAGE, FLAG_REQUEST_NOT_RESPONSE,
    FLAG_SERVICE_NOT_MESSAGE,
};
use crate::defines::enums::{CyphalPriority, CyphalTransferKind};
use crate::defines::structs::{CyphalRxProps, CyphalTxProps, TransferView};
use crate::error::CyphalError;
use crate::tail::{tail_byte, tail_transfer_id, lemma_tail_byte_fields};
use vstd::prelude::*;

verus! {

/// The identifier of a message frame without its priority: the source node
/// in bits 0 to 6, the subject in bits 8 to 20, and bits 21 and 22 set.
pub open spec fn message_session_specifier(subject_id: u16, src_node_id: u8) -> u32 {
    (src_node_id as u32) | (((subject_id as u32) | 0x2000u32 | 0x4000u32) << 8)
}

/// The identifier of a service frame without its priority: the source node
/// in bits 0 to 6, the destination node in bits 7 to 13, the service in
/// bits 14 to 22, bit 24 set for a request, and bit 25 set.
pub open spec fn service_session_specifier(
    service_id: u16,
    request_not_response: bool,
    src_node_id: u8,
    dst_node_id: u8,
) -> u32 {
    (src_node_id as u32) | ((dst_node_id as u32) << 7) | ((service_id as u32) << 14) | (
    if request_not_response {
        FLAG_REQUEST_NOT_RESPONSE
    } else {
        0u32
    }) | FLAG_SERVICE_NOT_MESSAGE
}

/// The priority of a transfer, moved to bits 26 and up of the identifier.
pub open spec fn priority_bits(priority: CyphalPriority) -> u32 {
    (priority.code_spec() as u32) << 26
}

/// A message transfer that can be sent: it names no remote node, and its
/// subject id is in range.
pub open spec fn is_message_transfer(props: CyphalTxProps) -> bool {
    &&& props.transfer_kind == CyphalTransferKind::Message
    &&& props.remote_node_id == CYPHAL_NODE_ID_UNSET
    &&& props.port_id <= CYPHAL_SUBJECT_ID_MAX
}

/// A service transfer that can be sent: it names a remote node, and its
/// service id is in range.
pub open spec fn is_service_transfer(props: CyphalTxProps) -> bool {
    &&& props.transfer_kind == CyphalTransferKind::Request || props.transfer_kind
        == CyphalTransferKind::Response
    &&& props.remote_node_id <= CYPHAL_NODE_ID_MAX
    &&& props.port_id <= CYPHAL_SERVICE_ID_MAX
}

/// The source node that stands in the identifier of an anonymous message:
/// the low seven bits of the CRC of its payload.
pub open spec fn anonymous_source(payload: Seq<u8>) -> u8 {
    (crc_bytes(CRC_INITIAL, payload) & 0x7f) as u8
}

/// The CAN identifier of a transfer that the node `local_node_id` sends in
/// frames of up to `pl_mtu` payload bytes, or why it has none.
///
/// A node with an id above 127 is anonymous. It can send a message that
/// fits one frame, and nothing else.
pub open spec fn can_id(transfer: TransferView, local_node_id: u8, pl_mtu: int) -> Result<
    u32,
    CyphalError,
> {
    let props = transfer.props;
    if is_message_transfer(props) {
        if local_node_id <= CYPHAL_NODE_ID_MAX {
            Ok(
                message_session_specifier(props.port_id, local_node_id) | priority_bits(
                    props.priority,
                ),
            )
        } else if transfer.payload_size <= pl_mtu {
            if transfer.payload.len() != transfer.payload_size {
                Err(CyphalError::LengthMismatch)
            } else {
                Ok(
                    message_session_specifier(props.port_id, anonymous_source(transfer.payload))
                        | FLAG_ANONYMOUS_MESSAGE | priority_bits(props.priority),
                )
            }
        } else {
            Err(CyphalError::InvalidArgument)
        }
    } else if is_service_transfer(props) {
        if local_node_id <= CYPHAL_NODE_ID_MAX {
            Ok(
                service_session_specifier(
                    props.port_id,
                    props.transfer_kind == CyphalTransferKind::Request,
                    local_node_id,
                    props.remote_node_id,
                ) | priority_bits(props.priority),
            )
        } else {
            Err(CyphalError::InvalidArgument)
        }
    } else {
        Err(CyphalError::InvalidArgument)
    }
}

/// The priority that an identifier carries in bits 26 to 28.
pub open spec fn id_priority(xid: u32) -> CyphalPriority {
    CyphalPriority::of_code(((xid >> 26) & 7) as u8)
}

/// The kind of transfer that an identifier stands for: bit 25 tells a
/// service from a message, bit 24 a request from a response.
pub open spec fn id_transfer_kind(xid: u32) -> CyphalTransferKind {
    if xid & FLAG_SERVICE_NOT_MESSAGE != 0 {
        if xid & FLAG_REQUEST_NOT_RESPONSE != 0 {
            CyphalTransferKind::Request
        } else {
            CyphalTransferKind::Response
        }
    } else {
        CyphalTransferKind::Message
    }
}

/// The subject id of a message identifier, or the service id of a service
/// identifier.
pub open spec fn id_port(xid: u32) -> u16 {
    if id_transfer_kind(xid) == CyphalTransferKind::Message {
        ((xid >> 8) & 8191) as u16
    } else {
        ((xid >> 14) & 511) as u16
    }
}

/// The node that sent a frame; unset for an anonymous message.
pub open spec fn id_source(xid: u32) -> u8 {
    if id_transfer_kind(xid) == CyphalTransferKind::Message && xid & FLAG_ANONYMOUS_MESSAGE != 0 {
        CYPHAL_NODE_ID_UNSET
    } else {
        (xid & 127) as u8
    }
}

/// The node that a frame is for; unset for a message.
pub open spec fn id_destination(xid: u32) -> u8 {
    if id_transfer_kind(xid) == CyphalTransferKind::Message {
        CYPHAL_NODE_ID_UNSET
    } else {
        ((xid >> 7) & 127) as u8
    }
}

/// What identifier and tail byte of a received frame say of its routing.
pub open spec fn rx_props(xid: u32, tail: u8) -> CyphalRxProps {
    CyphalRxProps {
        priority: id_priority(xid),
        transfer_kind: id_transfer_kind(xid),
        transfer_id: tail_transfer_id(tail),
        port_id: id_port(xid),
        source_node_id: id_source(xid),
        destination_node_id: id_destination(xid),
    }
}

/// What is decoded from a received frame is in range, whatever the frame
/// holds: the priority is one of the eight levels, the transfer id has five
/// bits, a subject id has thirteen and a service id nine, a node id is at
/// most 127 or unset, and a message has no destination.
pub proof fn lemma_rx_props_in_range(xid: u32, tail: u8)
    ensures
        ({
            let props = rx_props(xid, tail);
            &&& props.priority.is_defined()
            &&& props.transfer_id <= 31
            &&& props.transfer_kind == CyphalTransferKind::Message ==> {
                &&& props.port_id <= CYPHAL_SUBJECT_ID_MAX
                &&& props.source_node_id <= CYPHAL_NODE_ID_MAX || props.source_node_id
                    == CYPHAL_NODE_ID_UNSET
                &&& props.destination_node_id == CYPHAL_NODE_ID_UNSET
            }
            &&& props.transfer_kind != CyphalTransferKind::Message ==> {
                &&& props.port_id <= CYPHAL_SERVICE_ID_MAX
                &&& props.source_node_id <= CYPHAL_NODE_ID_MAX
                &&& props.destination_node_id <= CYPHAL_NODE_ID_MAX
            }
        }),
{
    assert({
        &&& (xid >> 26) & 7 <= 7
        &&& (xid >> 8) & 8191 <= 8191
        &&& (xid >> 14) & 511 <= 511
        &&& (xid >> 7) & 127 <= 127
        &&& xid & 127 <= 127
    }) by (bit_vector);
    assert(tail & 0x1f <= 31) by (bit_vector);
}

/// What decoding finds in the identifier of a message.
pub proof fn lemma_message_id_fields(subject_id: u16, src_node_id: u8, anonymous: bool, code: u8)
    requires
        subject_id <= CYPHAL_SUBJECT_ID_MAX,
        src_node_id <= CYPHAL_NODE_ID_MAX,
        code <= 8,
    ensures
        ({
            let xid = message_session_specifier(subject_id, src_node_id) | (if anonymous {
                FLAG_ANONYMOUS_MESSAGE
            } else {
                0u32
            }) | ((code as u32) << 26);
            &&& xid > 0
            &&& code <= 7 ==> xid <= 0x1fff_ffff
            &&& code <= 7 ==> (xid >> 26) & 7 == code
            &&& xid & FLAG_SERVICE_NOT_MESSAGE == 0
            &&& (xid & FLAG_ANONYMOUS_MESSAGE != 0) == anonymous
            &&& (xid >> 8) & 8191 == subject_id
            &&& xid & 127 == src_node_id
        }),
{
    let flag: u32 = if anonymous { FLAG_ANONYMOUS_MESSAGE } else { 0u32 };
    let xid = message_session_specifier(subject_id, src_node_id) | flag | ((code as u32) << 26);
    assert({
        &&& xid > 0
        &&& code <= 7 ==> xid <= 0x1fff_ffff
        &&& code <= 7 ==> (xid >> 26) & 7 == code as u32
        &&& xid & 0x0200_0000 == 0
        &&& (xid & 0x0100_0000 != 0) == (flag != 0)
        &&& (xid >> 8) & 8191 == subject_id as u32
        &&& xid & 127 == src_node_id as u32
    }) by (bit_vector)
        requires
            subject_id <= 8191,
            src_node_id <= 127,
            code <= 8,
            flag == 0x0100_0000 || flag == 0,
            xid == (src_node_id as u32) | (((subject_id as u32) | 0x2000u32 | 0x4000u32) << 8)
                | flag | ((code as u32) << 26),
    ;
}

/// What decoding finds in the identifier of a service transfer.
pub proof fn lemma_service_id_fields(
    service_id: u16,
    request_not_response: bool,
    src_node_id: u8,
    dst_node_id: u8,
    code: u8,
)
    requires
        service_id <= CYPHAL_SERVICE_ID_MAX,
        src_node_id <= CYPHAL_NODE_ID_MAX,
        dst_node_id <= CYPHAL_NODE_ID_MAX,
        code <= 8,
    ensures
        ({
            let xid = service_session_specifier(
                service_id,
                request_not_response,
                src_node_id,
                dst_node_id,
            ) | ((code as u32) << 26);
            &&& xid > 0
            &&& code <= 7 ==> xid <= 0x1fff_ffff
            &&& code <= 7 ==> (xid >> 26) & 7 == code
            &&& xid & FLAG_SERVICE_NOT_MESSAGE != 0
            &&& (xid & FLAG_REQUEST_NOT_RESPONSE != 0) == request_not_response
            &&& (xid >> 14) & 511 == service_id
            &&& (xid >> 7) & 127 == dst_node_id
            &&& xid & 127 == src_node_id
        }),
{
    let flag: u32 = if request_not_response { FLAG_REQUEST_NOT_RESPONSE } else { 0u32 };
    let xid = service_session_specifier(service_id, request_not_response, src_node_id, dst_node_id)
        | ((code as u32) << 26);
    assert({
        &&& xid > 0
        &&& code <= 7 ==> xid <= 0x1fff_ffff
        &&& code <= 7 ==> (xid >> 26) & 7 == code as u32
        &&& xid & 0x0200_0000 != 0
        &&& (xid & 0x0100_0000 != 0) == (flag != 0)
        &&& (xid >> 14) & 511 == service_id as u32
        &&& (xid >> 7) & 127 == dst_node_id as u32
        &&& xid & 127 == src_node_id as u32
    }) by (bit_vector)
        requires
            service_id <= 511,
            src_node_id <= 127,
            dst_node_id <= 127,
            code <= 8,
            flag == 0x0100_0000 || flag == 0,
            xid == (src_node_id as u32) | ((dst_node_id as u32) << 7) | ((service_id as u32)
                << 14) | flag | 0x0200_0000u32 | ((code as u32) << 26),
    ;
}

/// The source node of an anonymous message is a node id.
pub proof fn lemma_anonymous_source_in_range(payload: Seq<u8>)
    ensures
        anonymous_source(payload) <= CYPHAL_NODE_ID_MAX,
        anonymous_source(payload) == crc_bytes(CRC_INITIAL, payload) & 0x7f,
{
    let crc = crc_bytes(CRC_INITIAL, payload);
    assert(crc & 0x7f <= 127) by (bit_vector);
}

/// An identifier that `can_id` gives is not zero, and fits 29 bits where the
/// priority of the transfer is one of the eight levels.
pub proof fn lemma_can_id_in_range(transfer: TransferView, local_node_id: u8, pl_mtu: int)
    requires
        can_id(transfer, local_node_id, pl_mtu) is Ok,
    ensures
        can_id(transfer, local_node_id, pl_mtu)->Ok_0 > 0,
        transfer.props.priority.is_defined() ==> can_id(transfer, local_node_id, pl_mtu)->Ok_0
            <= 0x1fff_ffff,
{
    let props = transfer.props;
    let code = props.priority.code_spec();
    if is_message_transfer(props) {
        if local_node_id <= CYPHAL_NODE_ID_MAX {
            lemma_message_id_fields(props.port_id, local_node_id, false, code);
            lemma_or_zero(message_session_specifier(props.port_id, local_node_id));
        } else {
            lemma_anonymous_source_in_range(transfer.payload);
            lemma_message_id_fields(
                props.port_id,
                anonymous_source(transfer.payload),
                true,
                code,
            );
        }
    } else {
        lemma_service_id_fields(
            props.port_id,
            props.transfer_kind == CyphalTransferKind::Request,
            local_node_id,
            props.remote_node_id,
            code,
        );
    }
}

/// An anonymous node can send nothing but a message that fits one frame:
/// it has no identifier for a service transfer, nor for a message that
/// would be split over several frames.
pub proof fn lemma_anonymous_node_is_rejected(
    transfer: TransferView,
    local_node_id: u8,
    pl_mtu: int,
)
    requires
        local_node_id > CYPHAL_NODE_ID_MAX,
    ensures
        transfer.props.transfer_kind != CyphalTransferKind::Message ==> can_id(
            transfer,
            local_node_id,
            pl_mtu,
        ) == Err::<u32, CyphalError>(CyphalError::InvalidArgument),
        transfer.payload_size > pl_mtu ==> can_id(transfer, local_node_id, pl_mtu) == Err::<
            u32,
            CyphalError,
        >(CyphalError::InvalidArgument),
{
}

/// Or-ing zero into a word changes nothing.
pub proof fn lemma_or_zero(x: u32)
    ensures
        x | 0u32 == x,
{
    assert(x | 0u32 == x) by (bit_vector);
}

/// Decoding the identifier and the tail byte of a frame gives back how the
/// transfer was routed: for every transfer that a node with an id of its
/// own can send, with a priority among the eight levels and a transfer id
/// of up to five bits, priority, kind, transfer id and port id are those of
/// the transfer, the source is the sending node, and the destination is the
/// remote node of the transfer.
pub proof fn lemma_can_id_round_trip(
    transfer: TransferView,
    local_node_id: u8,
    pl_mtu: int,
    start: bool,
    end: bool,
    toggle: bool,
)
    requires
        local_node_id <= CYPHAL_NODE_ID_MAX,
        transfer.props.priority.is_defined(),
        transfer.props.transfer_id <= 31,
        can_id(transfer, local_node_id, pl_mtu) is Ok,
    ensures
        rx_props(
            can_id(transfer, local_node_id, pl_mtu)->Ok_0,
            tail_byte(start, end, toggle, transfer.props.transfer_id),
        ) == (CyphalRxProps {
            priority: transfer.props.priority,
            transfer_kind: transfer.props.transfer_kind,
            transfer_id: transfer.props.transfer_id,
            port_id: transfer.props.port_id,
            source_node_id: local_node_id,
            destination_node_id: transfer.props.remote_node_id,
        }),
{
    let props = transfer.props;
    let code = props.priority.code_spec();
    lemma_tail_byte_fields(start, end, toggle, props.transfer_id);
    props.priority.lemma_code_round_trip();
    if is_message_transfer(props) {
        lemma_message_id_fields(props.port_id, local_node_id, false, code);
        lemma_or_zero(message_session_specifier(props.port_id, local_node_id));
    } else {
        lemma_service_id_fields(
            props.port_id,
            props.transfer_kind == CyphalTransferKind::Request,
            local_node_id,
            props.remote_node_id,
            code,
        );
    }
}

/// The message of an anonymous node decodes to the routing of the transfer
/// with an unset source: the node id that stands in the identifier is not
/// given out.
pub proof fn lemma_anonymous_can_id_round_trip(
    transfer: TransferView,
    local_node_id: u8,
    pl_mtu: int,
    start: bool,
    end: bool,
    toggle: bool,
)
    requires
        local_node_id > CYPHAL_NODE_ID_MAX,
        transfer.props.priority.is_defined(),
        transfer.props.transfer_id <= 31,
        can_id(transfer, local_node_id, pl_mtu) is Ok,
    ensures
        rx_props(
            can_id(transfer, local_node_id, pl_mtu)->Ok_0,
            tail_byte(start, end, toggle, transfer.props.transfer_id),
        ) == (CyphalRxProps {
            priority: transfer.props.priority,
            transfer_kind: CyphalTransferKind::Message,
            transfer_id: transfer.props.transfer_id,
            port_id: transfer.props.port_id,
            source_node_id: CYPHAL_NODE_ID_UNSET,
            destination_node_id: CYPHAL_NODE_ID_UNSET,
        }),
{
    let props = transfer.props;
    lemma_tail_byte_fields(start, end, toggle, props.transfer_id);
    props.priority.lemma_code_round_trip();
    lemma_anonymous_source_in_range(transfer.payload);
    lemma_message_id_fields(
        props.port_id,
        anonymous_source(transfer.payload),
        true,
        props.priority.code_spec(),
    );
}

} // verus!

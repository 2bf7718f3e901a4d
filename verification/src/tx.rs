//! From transfers to frames.

use crate::can_id::{
    can_id, lemma_anonymous_source_in_range, lemma_can_id_in_range, message_session_specifier,
    service_session_specifier,
};
use crate::crc::{crc_add, crc_add_byte, crc_bytes, lemma_crc_push};
use crate::defines::constants::{
    CAN_DLC_TO_DLEN, CAN_DLEN_TO_DLC, CRC_INITIAL, CRC_SIZE_BYTES, CYPHAL_HEARTBEAT_SUBJECT_ID,
    CYPHAL_MTU_CAN_CLASSIC, CYPHAL_NODE_ID_MAX, CYPHAL_NODE_ID_UNSET, CYPHAL_SERVICE_ID_MAX,
    CYPHAL_SUBJECT_ID_MAX, CYPHAL_TRANSFER_ID_MAX, FLAG_ANONYMOUS_MESSAGE,
    FLAG_REQUEST_NOT_RESPONSE, FLAG_SERVICE_NOT_MESSAGE, INITIAL_TOGGLE_STATE, OFFSET_DST_NODE_ID,
    OFFSET_PRIORITY, OFFSET_SERVICE_ID, OFFSET_SUBJECT_ID, PADDING_BYTE_VALUE,
    TAIL_END_OF_TRANSFER, TAIL_START_OF_TRANSFER, TAIL_TOGGLE,
};
use crate::defines::enums::{CyphalPriority, CyphalTransferKind};
use crate::defines::structs::{CyphalTxPacket, CyphalTxPacketFrame, CyphalTxProps};
use crate::defines::typedefs::{CyphalNodeID, CyphalPortID, CyphalTransferID};
use crate::error::CyphalError;
use crate::fragment::{
    frames_are, heartbeat_payload, is_outcome, lemma_frame_data, lemma_frame_extent,
    lemma_stream_bytes, message_transfer, multi_frame_count, multi_frame_data,
    multi_frame_outcome, multi_frame_padding, multi_frame_stream, next_transfer_id,
    packet_outcome, service_transfer, single_frame_outcome, zeros,
};
use crate::frame_length::{
    is_frame_length, lemma_dlc_round_trip, presentation_layer_mtu, round_up_frame_length,
};
use crate::middleware::CyphalMiddleware;
use crate::tail::tail_byte;
use vstd::prelude::*;
use vstd::slice::slice_to_vec;

verus! {

impl<const MTU: usize> CyphalMiddleware<MTU> {
    /// The frames of a heartbeat: a message of seven bytes on the heartbeat
    /// subject. The transfer id of the instance advances, whether or not
    /// the frames could be made.
    pub fn create_heartbeat_tx_data(&mut self) -> (r: Result<
        Vec<CyphalTxPacket<MTU>>,
        CyphalError,
    >)
        ensures
            final(self).transfer_id == next_transfer_id(old(self).transfer_id),
            final(self).can_instance == old(self).can_instance,
            is_outcome(
                r,
                packet_outcome(
                    message_transfer(
                        old(self).transfer_id,
                        CYPHAL_HEARTBEAT_SUBJECT_ID,
                        heartbeat_payload(),
                        7,
                    ),
                    old(self).node_id(),
                    MTU as int,
                ),
            ),
    {
        let payload: Vec<u8> = vec![0x00, 0x00, 0x00, 0x00, 0x00, 0x00, 0xa1];
        assert(payload@ =~= heartbeat_payload());
        let transfer_data: CyphalTxPacketFrame = CyphalTxPacketFrame {
            props: CyphalTxProps {
                priority: CyphalPriority::Nominal,
                transfer_kind: CyphalTransferKind::Message,
                transfer_id: self.transfer_id,
                port_id: CYPHAL_HEARTBEAT_SUBJECT_ID,
                remote_node_id: CYPHAL_NODE_ID_UNSET,
            },
            payload_size: 7,
            payload,
        };
        self.transfer_id = if self.transfer_id == 255 {
            0
        } else {
            self.transfer_id + 1
        };
        self.create_packet(&transfer_data)
    }

    /// The frames that publish `data` on the subject `subject_id`;
    /// `data_size` is the length that the caller believes `data` to have.
    /// The transfer id of the instance advances, whether or not the frames
    /// could be made.
    pub fn create_message_data(&mut self, subject_id: u16, data: &[u8], data_size: usize) -> (r:
        Result<Vec<CyphalTxPacket<MTU>>, CyphalError>)
        ensures
            final(self).transfer_id == next_transfer_id(old(self).transfer_id),
            final(self).can_instance == old(self).can_instance,
            is_outcome(
                r,
                packet_outcome(
                    message_transfer(old(self).transfer_id, subject_id, data@, data_size as int),
                    old(self).node_id(),
                    MTU as int,
                ),
            ),
    {
        let transfer_data: CyphalTxPacketFrame = CyphalTxPacketFrame {
            props: CyphalTxProps {
                priority: CyphalPriority::Nominal,
                transfer_kind: CyphalTransferKind::Message,
                transfer_id: self.transfer_id,
                port_id: subject_id,
                remote_node_id: CYPHAL_NODE_ID_UNSET,
            },
            payload_size: data_size,
            payload: slice_to_vec(data),
        };
        self.transfer_id = if self.transfer_id == 255 {
            0
        } else {
            self.transfer_id + 1
        };
        self.create_packet(&transfer_data)
    }

    /// The frames that call the service `port_id` of the node
    /// `remote_node_id` with `data`; `data_size` is the length that the
    /// caller believes `data` to have. The transfer id of the instance
    /// advances, whether or not the frames could be made.
    pub fn create_request_data(
        &mut self,
        remote_node_id: u8,
        port_id: u16,
        data: &[u8],
        data_size: usize,
    ) -> (r: Result<Vec<CyphalTxPacket<MTU>>, CyphalError>)
        ensures
            final(self).transfer_id == next_transfer_id(old(self).transfer_id),
            final(self).can_instance == old(self).can_instance,
            is_outcome(
                r,
                packet_outcome(
                    service_transfer(
                        CyphalTransferKind::Request,
                        old(self).transfer_id,
                        remote_node_id,
                        port_id,
                        data@,
                        data_size as int,
                    ),
                    old(self).node_id(),
                    MTU as int,
                ),
            ),
    {
        let transfer_data: CyphalTxPacketFrame = CyphalTxPacketFrame {
            props: CyphalTxProps {
                priority: CyphalPriority::Nominal,
                transfer_kind: CyphalTransferKind::Request,
                transfer_id: self.transfer_id,
                port_id,
                remote_node_id,
            },
            payload_size: data_size,
            payload: slice_to_vec(data),
        };
        self.transfer_id = if self.transfer_id == 255 {
            0
        } else {
            self.transfer_id + 1
        };
        self.create_packet(&transfer_data)
    }

    /// The frames that answer a call of the service `port_id` by the node
    /// `remote_node_id` with `data`; `data_size` is the length that the
    /// caller believes `data` to have. The transfer id of the instance
    /// advances, whether or not the frames could be made.
    pub fn create_response_data(
        &mut self,
        remote_node_id: u8,
        port_id: u16,
        data: &[u8],
        data_size: usize,
    ) -> (r: Result<Vec<CyphalTxPacket<MTU>>, CyphalError>)
        ensures
            final(self).transfer_id == next_transfer_id(old(self).transfer_id),
            final(self).can_instance == old(self).can_instance,
            is_outcome(
                r,
                packet_outcome(
                    service_transfer(
                        CyphalTransferKind::Response,
                        old(self).transfer_id,
                        remote_node_id,
                        port_id,
                        data@,
                        data_size as int,
                    ),
                    old(self).node_id(),
                    MTU as int,
                ),
            ),
    {
        let transfer_data: CyphalTxPacketFrame = CyphalTxPacketFrame {
            props: CyphalTxProps {
                priority: CyphalPriority::Nominal,
                transfer_kind: CyphalTransferKind::Response,
                transfer_id: self.transfer_id,
                port_id,
                remote_node_id,
            },
            payload_size: data_size,
            payload: slice_to_vec(data),
        };
        self.transfer_id = if self.transfer_id == 255 {
            0
        } else {
            self.transfer_id + 1
        };
        self.create_packet(&transfer_data)
    }
}

impl<const MTU: usize> CyphalMiddleware<MTU> {
    /// The frames of a transfer, in the order in which they are sent: one
    /// frame where the payload fits it, else as many as payload and CRC
    /// need.
    ///
    /// Fails with `InvalidCanId` where the node has no identifier for the
    /// transfer, with `LengthMismatch` where the declared size is not that
    /// of the payload, and with `InvalidFrameSize` where a frame does not
    /// fit the link.
    pub fn create_packet(&self, transfer_data: &CyphalTxPacketFrame) -> (r: Result<
        Vec<CyphalTxPacket<MTU>>,
        CyphalError,
    >)
        ensures
            is_outcome(r, packet_outcome(transfer_data@, self.node_id(), MTU as int)),
    {
        let pl_mtu: u8 = self.tx_get_presentation_layer_mtu();
        let can_id: u32 = match self.tx_make_can_id(transfer_data, self.can_instance.node_id()) {
            Ok(x) => x,
            Err(_) => {
                return Err(CyphalError::InvalidCanId);
            },
        };
        if transfer_data.payload_size <= pl_mtu as usize {
            match self.handle_single_frame(can_id, transfer_data) {
                Ok(x) => {
                    let frames = vec![x];
                    assert(frames@[0] == x);
                    Ok(frames)
                },
                Err(err) => Err(err),
            }
        } else {
            self.handle_multi_frame(can_id, transfer_data)
        }
    }

    /// The most payload bytes that one frame of this instance carries beside
    /// its tail byte.
    pub fn tx_get_presentation_layer_mtu(&self) -> (r: u8)
        ensures
            r == presentation_layer_mtu(MTU as int),
            7 <= r <= 63,
            is_frame_length(r + 1),
    {
        let mtu_bytes: usize = self.can_instance.mtu_bytes();
        let mtu: u8 = if mtu_bytes < (CYPHAL_MTU_CAN_CLASSIC as usize) {
            CYPHAL_MTU_CAN_CLASSIC
        } else if mtu_bytes < 64 {
            proof {
                lemma_dlc_round_trip(mtu_bytes as int);
            }
            CAN_DLC_TO_DLEN[CAN_DLEN_TO_DLC[mtu_bytes] as usize]
        } else {
            proof {
                lemma_dlc_round_trip(64);
            }
            CAN_DLC_TO_DLEN[CAN_DLEN_TO_DLC[64] as usize]
        };
        mtu - 1
    }

    /// The identifier of a message frame without its priority.
    pub fn tx_make_message_session_specifier(subject_id: u16, src_node_id: u8) -> (r: Result<
        u32,
        CyphalError,
    >)
        ensures
            match r {
                Ok(id) => {
                    &&& src_node_id <= CYPHAL_NODE_ID_MAX
                    &&& subject_id <= CYPHAL_SUBJECT_ID_MAX
                    &&& id == message_session_specifier(subject_id, src_node_id)
                },
                Err(e) => {
                    &&& src_node_id > CYPHAL_NODE_ID_MAX || subject_id > CYPHAL_SUBJECT_ID_MAX
                    &&& e == CyphalError::InvalidArgument
                },
            },
    {
        if src_node_id > CYPHAL_NODE_ID_MAX {
            return Err(CyphalError::InvalidArgument);
        }
        if subject_id > CYPHAL_SUBJECT_ID_MAX {
            return Err(CyphalError::InvalidArgument);
        }
        let tmp: u32 = (subject_id as u32) | 0x2000u32 | 0x4000u32;
        Ok((src_node_id as u32) | (tmp << OFFSET_SUBJECT_ID))
    }

    /// The identifier of a service frame without its priority.
    pub fn tx_make_service_session_specifier(
        service_id: CyphalPortID,
        request_not_response: bool,
        src_node_id: CyphalNodeID,
        dst_node_id: CyphalNodeID,
    ) -> (r: Result<u32, CyphalError>)
        ensures
            match r {
                Ok(id) => {
                    &&& src_node_id <= CYPHAL_NODE_ID_MAX
                    &&& dst_node_id <= CYPHAL_NODE_ID_MAX
                    &&& service_id <= CYPHAL_SERVICE_ID_MAX
                    &&& id == service_session_specifier(
                        service_id,
                        request_not_response,
                        src_node_id,
                        dst_node_id,
                    )
                },
                Err(e) => {
                    &&& src_node_id > CYPHAL_NODE_ID_MAX || dst_node_id > CYPHAL_NODE_ID_MAX
                        || service_id > CYPHAL_SERVICE_ID_MAX
                    &&& e == CyphalError::InvalidArgument
                },
            },
    {
        if src_node_id > CYPHAL_NODE_ID_MAX {
            return Err(CyphalError::InvalidArgument);
        }
        if dst_node_id > CYPHAL_NODE_ID_MAX {
            return Err(CyphalError::InvalidArgument);
        }
        if service_id > CYPHAL_SERVICE_ID_MAX {
            return Err(CyphalError::InvalidArgument);
        }
        let request: u32 = if request_not_response {
            FLAG_REQUEST_NOT_RESPONSE
        } else {
            0
        };
        Ok(
            (src_node_id as u32) | ((dst_node_id as u32) << OFFSET_DST_NODE_ID) | ((
            service_id as u32) << OFFSET_SERVICE_ID) | request | FLAG_SERVICE_NOT_MESSAGE,
        )
    }

    /// The shortest frame length that holds `x` bytes; fails where `x` is
    /// more than the 64 bytes of the longest frame.
    pub fn tx_round_frame_payload_sizeup(x: usize) -> (r: Result<usize, CyphalError>)
        ensures
            match r {
                Ok(len) => x <= 64 && len == round_up_frame_length(x as int),
                Err(e) => x > 64 && e == CyphalError::InvalidFrameSize,
            },
    {
        if x >= 65 {
            return Err(CyphalError::InvalidFrameSize);
        }
        proof {
            lemma_dlc_round_trip(x as int);
        }
        Ok(CAN_DLC_TO_DLEN[CAN_DLEN_TO_DLC[x] as usize] as usize)
    }

    /// The tail byte of a frame; fails where a first frame is to carry a
    /// toggle bit that is not set.
    pub fn tx_make_tail_byte(
        start_of_transfer: bool,
        end_of_transfer: bool,
        toggle: bool,
        transfer_id: CyphalTransferID,
    ) -> (r: Result<u8, CyphalError>)
        ensures
            match r {
                Ok(tail) => {
                    &&& start_of_transfer ==> toggle
                    &&& tail == tail_byte(start_of_transfer, end_of_transfer, toggle, transfer_id)
                },
                Err(e) => start_of_transfer && !toggle && e == CyphalError::InvalidState,
            },
    {
        if start_of_transfer && toggle != INITIAL_TOGGLE_STATE {
            return Err(CyphalError::InvalidState);
        }
        let start: u8 = if start_of_transfer {
            TAIL_START_OF_TRANSFER
        } else {
            0
        };
        let end: u8 = if end_of_transfer {
            TAIL_END_OF_TRANSFER
        } else {
            0
        };
        let tog: u8 = if toggle {
            TAIL_TOGGLE
        } else {
            0
        };
        Ok(start | end | tog | (transfer_id & CYPHAL_TRANSFER_ID_MAX))
    }

    /// The CAN identifier under which the node `local_node_id` sends a
    /// transfer; it is never zero.
    ///
    /// Fails with `InvalidArgument` where the transfer is neither a message
    /// nor a service transfer in range, and where the node is anonymous and
    /// the transfer is not a message that fits one frame; with
    /// `LengthMismatch` where the message of an anonymous node declares a
    /// size that is not that of its payload.
    pub fn tx_make_can_id(&self, transfer_data: &CyphalTxPacketFrame, local_node_id: u8) -> (r:
        Result<u32, CyphalError>)
        ensures
            r == can_id(transfer_data@, local_node_id, presentation_layer_mtu(MTU as int)),
            r matches Ok(id) ==> id > 0,
    {
        let pl_mtu: u8 = self.tx_get_presentation_layer_mtu();
        let props: CyphalTxProps = transfer_data.props;
        let priority: u32 = (props.priority.code() as u32) << OFFSET_PRIORITY;
        proof {
            if can_id(transfer_data@, local_node_id, pl_mtu as int) is Ok {
                lemma_can_id_in_range(transfer_data@, local_node_id, pl_mtu as int);
            }
        }
        if props.transfer_kind == CyphalTransferKind::Message && props.remote_node_id
            == CYPHAL_NODE_ID_UNSET && props.port_id <= CYPHAL_SUBJECT_ID_MAX {
            if local_node_id <= CYPHAL_NODE_ID_MAX {
                let out: u32 = Self::tx_make_message_session_specifier(
                    props.port_id,
                    local_node_id,
                )?;
                Ok(out | priority)
            } else if transfer_data.payload_size <= pl_mtu as usize {
                // An anonymous node stands in the identifier with a number
                // taken from the payload.
                let crc: u16 = crc_add(
                    CRC_INITIAL,
                    transfer_data.payload_size,
                    transfer_data.payload.as_slice(),
                )?;
                proof {
                    lemma_anonymous_source_in_range(transfer_data.payload@);
                }
                let c: u8 = (crc & 0x7f) as u8;
                let out: u32 = Self::tx_make_message_session_specifier(props.port_id, c)?;
                Ok(out | FLAG_ANONYMOUS_MESSAGE | priority)
            } else {
                // Anonymous multi-frame messages are not allowed.
                Err(CyphalError::InvalidArgument)
            }
        } else if (props.transfer_kind == CyphalTransferKind::Request || props.transfer_kind
            == CyphalTransferKind::Response) && props.remote_node_id <= CYPHAL_NODE_ID_MAX
            && props.port_id <= CYPHAL_SERVICE_ID_MAX {
            if local_node_id <= CYPHAL_NODE_ID_MAX {
                let out: u32 = Self::tx_make_service_session_specifier(
                    props.port_id,
                    props.transfer_kind == CyphalTransferKind::Request,
                    local_node_id,
                    props.remote_node_id,
                )?;
                Ok(out | priority)
            } else {
                // Anonymous service transfers are not allowed.
                Err(CyphalError::InvalidArgument)
            }
        } else {
            Err(CyphalError::InvalidArgument)
        }
    }

    /// The one frame of a transfer that fits it, under the identifier `xid`.
    ///
    /// Fails with `LengthMismatch` where the declared size is not that of
    /// the payload, and with `InvalidFrameSize` where payload and tail byte
    /// do not fit a frame of the link.
    pub fn handle_single_frame(&self, xid: u32, transfer_data: &CyphalTxPacketFrame) -> (r: Result<
        CyphalTxPacket<MTU>,
        CyphalError,
    >)
        ensures
            match (r, single_frame_outcome(transfer_data@, MTU as int)) {
                (Ok(frame), Ok(data)) => frame.is_frame(xid, data),
                (Err(e), Err(expected)) => e == expected,
                _ => false,
            },
    {
        if transfer_data.payload.len() != transfer_data.payload_size {
            return Err(CyphalError::LengthMismatch);
        }
        let frame_payload_size: usize = match transfer_data.payload_size.checked_add(1) {
            Some(x) => Self::tx_round_frame_payload_sizeup(x)?,
            None => {
                return Err(CyphalError::InvalidFrameSize);
            },
        };
        if frame_payload_size > self.can_instance.mtu_bytes() {
            return Err(CyphalError::InvalidFrameSize);
        }
        let mut payload: [u8; MTU] = [0;MTU];
        let mut i: usize = 0;
        while i < transfer_data.payload_size
            invariant
                i <= transfer_data.payload_size == transfer_data.payload@.len(),
                transfer_data.payload_size < frame_payload_size <= MTU,
                forall|j: int| 0 <= j < i ==> payload@[j] == transfer_data.payload@[j],
                forall|j: int| i <= j < MTU ==> payload@[j] == 0,
            decreases transfer_data.payload_size - i,
        {
            payload[i] = transfer_data.payload[i];
            i += 1;
        }
        let tail_byte: u8 = Self::tx_make_tail_byte(
            true,
            true,
            true,
            transfer_data.props.transfer_id,
        )?;
        payload[frame_payload_size - 1] = tail_byte;
        Ok(CyphalTxPacket { xid, payload, payload_size: frame_payload_size })
    }

    /// The frames of a transfer that is split, under the identifier `xid`:
    /// payload, padding and CRC in pieces, each with its tail byte.
    ///
    /// Fails with `LengthMismatch` where the declared size is not that of
    /// the payload, and with `InvalidFrameSize` where a full frame does not
    /// fit the link.
    #[verifier::rlimit(50)]
    pub fn handle_multi_frame(&self, xid: u32, transfer_data: &CyphalTxPacketFrame) -> (r: Result<
        Vec<CyphalTxPacket<MTU>>,
        CyphalError,
    >)
        ensures
            match (r, multi_frame_outcome(transfer_data@, MTU as int)) {
                (Ok(frames), Ok(data)) => frames_are(frames@, xid, data),
                (Err(e), Err(expected)) => e == expected,
                _ => false,
            },
    {
        let pl_mtu: u8 = self.tx_get_presentation_layer_mtu();
        let mut crc: u16 = crc_add(
            CRC_INITIAL,
            transfer_data.payload_size,
            transfer_data.payload.as_slice(),
        )?;
        if pl_mtu as usize + 1 > self.can_instance.mtu_bytes() {
            return Err(CyphalError::InvalidFrameSize);
        }
        let payload_size_with_crc: usize = match transfer_data.payload_size.checked_add(
            CRC_SIZE_BYTES as usize,
        ) {
            Some(x) => x,
            None => {
                return Err(CyphalError::InvalidFrameSize);
            },
        };
        let transfer_id: u8 = transfer_data.props.transfer_id;
        let mut offset: usize = 0;
        let mut start_of_transfer: bool = true;
        let mut toggle: bool = INITIAL_TOGGLE_STATE;
        let mut packets: Vec<CyphalTxPacket<MTU>> = Vec::new();

        let ghost source = transfer_data.payload@;
        let ghost m = pl_mtu as int;
        let ghost n = source.len() as int;
        let ghost stream = multi_frame_stream(source, m);
        let ghost padding = multi_frame_padding(n, m);
        let ghost count = multi_frame_count(n, m);
        proof {
            assert(0 * m == 0) by (nonlinear_arith);
        }

        while offset < payload_size_with_crc
            invariant
                7 <= pl_mtu <= 63,
                is_frame_length(pl_mtu + 1),
                pl_mtu + 1 <= MTU,
                m == pl_mtu,
                source == transfer_data.payload@,
                n == source.len(),
                n == transfer_data.payload_size,
                payload_size_with_crc == n + 2,
                transfer_id == transfer_data.props.transfer_id,
                stream == multi_frame_stream(source, m),
                padding == multi_frame_padding(n, m),
                count == multi_frame_count(n, m),
                offset <= payload_size_with_crc,
                offset < payload_size_with_crc ==> offset == packets@.len() * m && crc
                    == crc_bytes(CRC_INITIAL, source),
                offset == payload_size_with_crc ==> packets@.len() == count,
                start_of_transfer == (packets@.len() == 0),
                toggle == (packets@.len() % 2 == 0),
                forall|j: int|
                    0 <= j < packets@.len() ==> (#[trigger] packets@[j]).is_frame(
                        xid,
                        multi_frame_data(source, m, transfer_id, j),
                    ),
            decreases payload_size_with_crc - offset,
        {
            let ghost index = packets@.len() as int;
            let ghost base = offset as int;
            proof {
                lemma_stream_bytes(source, m);
                lemma_frame_extent(n, m, index);
                lemma_frame_data(source, m, transfer_id, index);
                assert((index + 1) * m == base + m) by (nonlinear_arith)
                    requires
                        base == index * m,
                ;
            }
            let residual_payload_size: usize = payload_size_with_crc - offset;
            let frame_payload_size_with_tail: usize = if residual_payload_size < pl_mtu as usize {
                Self::tx_round_frame_payload_sizeup(residual_payload_size + 1)?
            } else {
                pl_mtu as usize + 1
            };
            let frame_payload_size: usize = frame_payload_size_with_tail - 1;
            // The frame is a full one before any padding, or the last one,
            // which ends the stream.
            assert(1 <= frame_payload_size <= m);
            assert(base + frame_payload_size <= stream.len());
            assert(residual_payload_size < m ==> base + frame_payload_size == stream.len());
            assert(residual_payload_size >= m ==> frame_payload_size == m);

            let mut payload: [u8; MTU] = [0;MTU];
            let mut frame_offset: usize = 0;
            let payload_size_in_frame: usize = if offset < transfer_data.payload_size {
                if transfer_data.payload_size - offset < frame_payload_size {
                    transfer_data.payload_size - offset
                } else {
                    frame_payload_size
                }
            } else {
                0
            };

            let mut i: usize = 0;
            while i < payload_size_in_frame
                invariant
                    i <= payload_size_in_frame < MTU,
                    offset == base,
                    payload_size_in_frame > 0 ==> base + payload_size_in_frame <= n,
                    n == transfer_data.payload@.len(),
                    n == transfer_data.payload_size,
                    stream.len() >= n,
                    forall|j: int| 0 <= j < n ==> stream[j] == transfer_data.payload@[j],
                    forall|j: int| 0 <= j < i ==> payload@[j] == stream[base + j],
                    forall|j: int| i <= j < MTU ==> payload@[j] == 0,
                decreases payload_size_in_frame - i,
            {
                payload[i] = transfer_data.payload[i + offset];
                i += 1;
            }

            frame_offset += payload_size_in_frame;
            offset += payload_size_in_frame;

            // The frame that reaches the end of the payload also takes the
            // padding and what fits of the CRC.
            if offset >= transfer_data.payload_size {
                let ghost first_pad = frame_offset as int;
                proof {
                    assert(source + zeros(0) =~= source);
                }
                // The padding belongs to what the CRC protects.
                while frame_offset + (CRC_SIZE_BYTES as usize) < frame_payload_size
                    invariant
                        first_pad <= frame_offset,
                        first_pad <= frame_payload_size,
                        frame_offset + 2 <= frame_payload_size || frame_offset == first_pad,
                        frame_payload_size < MTU,
                        frame_payload_size <= 63,
                        first_pad + 2 >= frame_payload_size || (base + first_pad == n && base
                            + frame_payload_size == n + padding + 2),
                        stream.len() == n + padding + 2,
                        forall|j: int| n <= j < n + padding ==> stream[j] == 0,
                        crc == crc_bytes(CRC_INITIAL, source + zeros(frame_offset - first_pad)),
                        forall|j: int| 0 <= j < frame_offset ==> payload@[j] == stream[base + j],
                        forall|j: int| frame_offset <= j < MTU ==> payload@[j] == 0,
                    decreases frame_payload_size - frame_offset,
                {
                    proof {
                        let done = zeros(frame_offset - first_pad);
                        lemma_crc_push(CRC_INITIAL, source + done, PADDING_BYTE_VALUE);
                        assert((source + done).push(PADDING_BYTE_VALUE) =~= source + zeros(
                            frame_offset - first_pad + 1,
                        ));
                    }
                    payload[frame_offset] = PADDING_BYTE_VALUE;
                    frame_offset += 1;
                    crc = crc_add_byte(crc, PADDING_BYTE_VALUE);
                }
                let ghost padded = frame_offset - first_pad;

                // The CRC goes out high byte first.
                if frame_offset < frame_payload_size && offset == transfer_data.payload_size {
                    assert(padded == padding);
                    assert(base + frame_offset == n + padding);
                    payload[frame_offset] = (crc >> 8) as u8;
                    frame_offset += 1;
                    offset += 1;
                }
                if frame_offset < frame_payload_size && offset > transfer_data.payload_size {
                    assert(padded == padding);
                    assert(base + frame_offset == n + padding + 1);
                    payload[frame_offset] = (crc & 0xff) as u8;
                    frame_offset += 1;
                    offset += 1;
                }
            }

            assert(frame_offset == frame_payload_size);
            assert(offset >= payload_size_with_crc <==> base + frame_payload_size == stream.len());
            let tail_byte: u8 = Self::tx_make_tail_byte(
                start_of_transfer,
                offset >= payload_size_with_crc,
                toggle,
                transfer_id,
            )?;
            payload[frame_offset] = tail_byte;

            start_of_transfer = false;
            toggle = !toggle;

            let packet = CyphalTxPacket {
                xid,
                payload,
                payload_size: frame_payload_size_with_tail,
            };
            assert(packet.is_frame(xid, multi_frame_data(source, m, transfer_id, index)));
            packets.push(packet);
        }

        Ok(packets)
    }
}

} // verus!

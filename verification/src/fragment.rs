//! What a transfer looks like on the bus: the bytes of its frames, as
//! mathematical sequences, and what is true of them.

use crate::can_id::{can_id, is_message_transfer, is_service_transfer};
use crate::crc::{crc_bytes, crc_trailer, lemma_crc_of_data_and_trailer};
use crate::defines::constants::{CRC_INITIAL, CYPHAL_NODE_ID_UNSET};
use crate::defines::enums::{CyphalPriority, CyphalTransferKind};
use crate::defines::structs::{CyphalTxPacket, CyphalTxProps, TransferView};
use crate::error::CyphalError;
use crate::frame_length::{is_frame_length, presentation_layer_mtu, round_up_frame_length};
use crate::tail::{
    tail_byte, tail_end, tail_start, tail_toggle, tail_transfer_id, lemma_tail_byte_fields,
};
use vstd::arithmetic::div_mod::lemma_fundamental_div_mod_converse;
use vstd::prelude::*;

verus! {

/// `n` zero bytes; none where `n` is not positive.
pub open spec fn zeros(n: int) -> Seq<u8> {
    Seq::new(
        if n >= 0 {
            n as nat
        } else {
            0nat
        },
        |i: int| 0u8,
    )
}

/// The bytes of the one frame of a single-frame transfer: the payload, zeros
/// up to the next frame length, and a tail byte that marks the frame as
/// first and last.
pub open spec fn single_frame_data(payload: Seq<u8>, transfer_id: u8) -> Seq<u8> {
    let n = payload.len() as int;
    payload + zeros(round_up_frame_length(n + 1) - 1 - n) + seq![
        tail_byte(true, true, true, transfer_id),
    ]
}

/// The number of zero bytes that stand between the payload and the CRC of a
/// multi-frame transfer. Payload and CRC are cut into pieces of `pl_mtu`
/// bytes; what is left for the last frame is padded until that frame, with
/// its tail byte, has a frame length.
pub open spec fn multi_frame_padding(payload_len: int, pl_mtu: int) -> int {
    let rest = (payload_len + 2) % pl_mtu;
    if rest == 0 {
        0
    } else {
        round_up_frame_length(rest + 1) - 1 - rest
    }
}

/// The payload with its padding: what the CRC of a multi-frame transfer
/// protects.
pub open spec fn multi_frame_body(payload: Seq<u8>, pl_mtu: int) -> Seq<u8> {
    payload + zeros(multi_frame_padding(payload.len() as int, pl_mtu))
}

/// All the bytes that the frames of a multi-frame transfer carry before
/// their tail bytes, in order: payload, padding, and the CRC of both, high
/// byte first.
pub open spec fn multi_frame_stream(payload: Seq<u8>, pl_mtu: int) -> Seq<u8> {
    multi_frame_body(payload, pl_mtu) + crc_trailer(
        crc_bytes(CRC_INITIAL, multi_frame_body(payload, pl_mtu)),
    )
}

/// The number of frames of a multi-frame transfer: as many as payload and
/// CRC need at `pl_mtu` bytes each.
pub open spec fn multi_frame_count(payload_len: int, pl_mtu: int) -> int {
    (payload_len + 2 + pl_mtu - 1) / pl_mtu
}

/// The bytes of frame number `index` of a multi-frame transfer: its piece of
/// the stream and its tail byte. Only the first frame is marked as first,
/// only the one that ends the stream as last, and the toggle starts set and
/// alternates.
pub open spec fn multi_frame_data(
    payload: Seq<u8>,
    pl_mtu: int,
    transfer_id: u8,
    index: int,
) -> Seq<u8> {
    let stream = multi_frame_stream(payload, pl_mtu);
    let from = index * pl_mtu;
    let to = if from + pl_mtu <= stream.len() {
        from + pl_mtu
    } else {
        stream.len() as int
    };
    stream.subrange(from, to) + seq![
        tail_byte(index == 0, to == stream.len(), index % 2 == 0, transfer_id),
    ]
}

/// The frames of a multi-frame transfer, as `multi_frame_outcome` gives
/// them on a link that has room for them.
pub open spec fn multi_frames(payload: Seq<u8>, pl_mtu: int, transfer_id: u8) -> Seq<Seq<u8>> {
    Seq::new(
        multi_frame_count(payload.len() as int, pl_mtu) as nat,
        |i: int| multi_frame_data(payload, pl_mtu, transfer_id, i),
    )
}

/// What a receiver puts together from the frames of a transfer: the bytes
/// of each frame but its tail byte, in the order of the frames.
pub open spec fn reassembled(frames: Seq<Seq<u8>>) -> Seq<u8>
    decreases frames.len(),
{
    if frames.len() == 0 {
        Seq::empty()
    } else {
        reassembled(frames.drop_last()) + frames.last().drop_last()
    }
}

/// The frame of a single-frame transfer on a link whose frames hold `mtu`
/// bytes, or why there is none: the declared size is not that of the
/// payload, or payload and tail byte do not fit a frame of the link.
pub open spec fn single_frame_outcome(transfer: TransferView, mtu: int) -> Result<
    Seq<u8>,
    CyphalError,
> {
    if transfer.payload.len() != transfer.payload_size {
        Err(CyphalError::LengthMismatch)
    } else if transfer.payload_size + 1 > 64 || round_up_frame_length(transfer.payload_size + 1)
        > mtu {
        Err(CyphalError::InvalidFrameSize)
    } else {
        Ok(single_frame_data(transfer.payload, transfer.props.transfer_id))
    }
}

/// The frames of a multi-frame transfer on a link whose frames hold `mtu`
/// bytes, or why there are none: the declared size is not that of the
/// payload, a full frame does not fit the link, or the length of payload and
/// CRC together is beyond what the machine can count.
pub open spec fn multi_frame_outcome(transfer: TransferView, mtu: int) -> Result<
    Seq<Seq<u8>>,
    CyphalError,
> {
    let pl_mtu = presentation_layer_mtu(mtu);
    if transfer.payload.len() != transfer.payload_size {
        Err(CyphalError::LengthMismatch)
    } else if pl_mtu + 1 > mtu || transfer.payload_size + 2 > usize::MAX {
        Err(CyphalError::InvalidFrameSize)
    } else {
        Ok(multi_frames(transfer.payload, pl_mtu, transfer.props.transfer_id))
    }
}

/// What a node makes of a transfer: the CAN identifier and the bytes of each
/// frame, in the order in which they are sent. A transfer that fits one
/// frame is sent in one; a longer one is split and protected by a CRC.
pub open spec fn packet_outcome(transfer: TransferView, node_id: u8, mtu: int) -> Result<
    (u32, Seq<Seq<u8>>),
    CyphalError,
> {
    let pl_mtu = presentation_layer_mtu(mtu);
    match can_id(transfer, node_id, pl_mtu) {
        Err(_) => Err(CyphalError::InvalidCanId),
        Ok(xid) => if transfer.payload_size <= pl_mtu {
            match single_frame_outcome(transfer, mtu) {
                Ok(data) => Ok((xid, seq![data])),
                Err(e) => Err(e),
            }
        } else {
            match multi_frame_outcome(transfer, mtu) {
                Ok(frames) => Ok((xid, frames)),
                Err(e) => Err(e),
            }
        },
    }
}

/// Whether `frames` are the frames with the identifier `xid` and the given
/// bytes, each in a buffer that holds zeros behind them.
pub open spec fn frames_are<const MTU: usize>(
    frames: Seq<CyphalTxPacket<MTU>>,
    xid: u32,
    data: Seq<Seq<u8>>,
) -> bool {
    &&& frames.len() == data.len()
    &&& forall|i: int| 0 <= i < frames.len() ==> (#[trigger] frames[i]).is_frame(xid, data[i])
}

/// Whether `r` is what `outcome` describes: the frames with its identifier
/// and bytes, in its order, or its error.
pub open spec fn is_outcome<const MTU: usize>(
    r: Result<Vec<CyphalTxPacket<MTU>>, CyphalError>,
    outcome: Result<(u32, Seq<Seq<u8>>), CyphalError>,
) -> bool {
    match (r, outcome) {
        (Ok(frames), Ok((xid, data))) => frames_are(frames@, xid, data),
        (Err(e), Err(expected)) => e == expected,
        _ => false,
    }
}

/// The transfer id that follows `transfer_id` in the counter of an
/// instance. The counter runs through all values of a byte; a frame carries
/// its low five bits.
pub open spec fn next_transfer_id(transfer_id: u8) -> u8 {
    if transfer_id == 255 {
        0
    } else {
        (transfer_id + 1) as u8
    }
}

/// The transfer that publishes `data` on the subject `subject_id`.
pub open spec fn message_transfer(
    transfer_id: u8,
    subject_id: u16,
    data: Seq<u8>,
    data_size: int,
) -> TransferView {
    TransferView {
        payload: data,
        payload_size: data_size,
        props: CyphalTxProps {
            priority: CyphalPriority::Nominal,
            transfer_kind: CyphalTransferKind::Message,
            transfer_id,
            port_id: subject_id,
            remote_node_id: CYPHAL_NODE_ID_UNSET,
        },
    }
}

/// The transfer that calls, or answers a call of, the service `port_id` of
/// the node `remote_node_id`.
pub open spec fn service_transfer(
    transfer_kind: CyphalTransferKind,
    transfer_id: u8,
    remote_node_id: u8,
    port_id: u16,
    data: Seq<u8>,
    data_size: int,
) -> TransferView {
    TransferView {
        payload: data,
        payload_size: data_size,
        props: CyphalTxProps {
            priority: CyphalPriority::Nominal,
            transfer_kind,
            transfer_id,
            port_id,
            remote_node_id,
        },
    }
}

/// The payload of a heartbeat: seven bytes, the last of them `0xa1`.
pub open spec fn heartbeat_payload() -> Seq<u8> {
    seq![0u8, 0u8, 0u8, 0u8, 0u8, 0u8, 0xa1u8]
}

/// The padding is never negative, and the padded last frame is no longer
/// than the others.
pub proof fn lemma_padding_bounds(payload_len: int, pl_mtu: int)
    requires
        0 <= payload_len,
        7 <= pl_mtu <= 63,
        is_frame_length(pl_mtu + 1),
    ensures
        0 <= multi_frame_padding(payload_len, pl_mtu),
        (payload_len + 2) % pl_mtu + multi_frame_padding(payload_len, pl_mtu) <= pl_mtu,
        (payload_len + 2) % pl_mtu <= 1 ==> multi_frame_padding(payload_len, pl_mtu) == 0,
{
}

/// Where frame number `index` lies in the stream of a multi-frame transfer.
///
/// A frame that takes `pl_mtu` bytes of payload and CRC lies before any
/// padding; if it reaches into the CRC, there is no padding at all. A frame
/// for which fewer are left is the last one: it takes them with the padding,
/// and has a frame length once its tail byte is added.
pub proof fn lemma_frame_extent(payload_len: int, pl_mtu: int, index: int)
    requires
        0 <= payload_len,
        7 <= pl_mtu <= 63,
        is_frame_length(pl_mtu + 1),
        0 <= index,
        index * pl_mtu < payload_len + 2,
    ensures
        ({
            let left = payload_len + 2 - index * pl_mtu;
            let padding = multi_frame_padding(payload_len, pl_mtu);
            let count = multi_frame_count(payload_len, pl_mtu);
            &&& 0 <= padding
            &&& index < count
            &&& left > pl_mtu ==> index + 1 < count
            &&& left <= pl_mtu ==> index + 1 == count
            &&& pl_mtu <= left < pl_mtu + 2 ==> padding == 0
            &&& left < pl_mtu ==> padding == round_up_frame_length(left + 1) - 1 - left
            &&& left == 1 ==> padding == 0
        }),
{
    let total = payload_len + 2;
    let base = index * pl_mtu;
    let left = total - base;
    lemma_padding_bounds(payload_len, pl_mtu);
    assert((index + 1) * pl_mtu == base + pl_mtu) by (nonlinear_arith)
        requires
            base == index * pl_mtu,
    ;
    if left < pl_mtu {
        lemma_fundamental_div_mod_converse(total, pl_mtu, index, left);
        lemma_fundamental_div_mod_converse(total + pl_mtu - 1, pl_mtu, index + 1, left - 1);
    } else if left == pl_mtu {
        lemma_fundamental_div_mod_converse(total, pl_mtu, index + 1, 0);
        lemma_fundamental_div_mod_converse(total + pl_mtu - 1, pl_mtu, index + 1, pl_mtu - 1);
    } else {
        if left < pl_mtu + 2 {
            lemma_fundamental_div_mod_converse(total, pl_mtu, index + 1, left - pl_mtu);
        }
        // More than one frame is left: the count is beyond the next index.
        let count = multi_frame_count(payload_len, pl_mtu);
        assert(count * pl_mtu > (index + 1) * pl_mtu) by {
            vstd::arithmetic::div_mod::lemma_fundamental_div_mod(total + pl_mtu - 1, pl_mtu);
            vstd::arithmetic::div_mod::lemma_mod_bound(total + pl_mtu - 1, pl_mtu);
            vstd::arithmetic::mul::lemma_mul_is_commutative(count, pl_mtu);
        }
        vstd::arithmetic::mul::lemma_mul_strict_inequality_converse(index + 1, count, pl_mtu);
    }
}

/// Every frame of a multi-frame transfer begins within payload and CRC.
pub proof fn lemma_frame_begins_in_stream(payload_len: int, pl_mtu: int, index: int)
    requires
        0 <= payload_len,
        7 <= pl_mtu <= 63,
        0 <= index < multi_frame_count(payload_len, pl_mtu),
    ensures
        0 <= index * pl_mtu < payload_len + 2,
{
    let count = multi_frame_count(payload_len, pl_mtu);
    let total = payload_len + 2;
    vstd::arithmetic::div_mod::lemma_fundamental_div_mod(total + pl_mtu - 1, pl_mtu);
    vstd::arithmetic::div_mod::lemma_mod_bound(total + pl_mtu - 1, pl_mtu);
    vstd::arithmetic::mul::lemma_mul_is_commutative(count, pl_mtu);
    vstd::arithmetic::mul::lemma_mul_inequality(index, count - 1, pl_mtu);
    vstd::arithmetic::mul::lemma_mul_nonnegative(index, pl_mtu);
    assert((count - 1) * pl_mtu == count * pl_mtu - pl_mtu) by (nonlinear_arith);
}

/// What stands where in the stream of a multi-frame transfer.
pub proof fn lemma_stream_bytes(payload: Seq<u8>, pl_mtu: int)
    requires
        7 <= pl_mtu <= 63,
        is_frame_length(pl_mtu + 1),
    ensures
        ({
            let stream = multi_frame_stream(payload, pl_mtu);
            let padding = multi_frame_padding(payload.len() as int, pl_mtu);
            let crc = crc_bytes(CRC_INITIAL, payload + zeros(padding));
            &&& 0 <= padding
            &&& stream.len() == payload.len() + padding + 2
            &&& forall|i: int| 0 <= i < payload.len() ==> stream[i] == payload[i]
            &&& forall|i: int| payload.len() <= i < payload.len() + padding ==> stream[i] == 0
            &&& stream[payload.len() + padding] == (crc >> 8) as u8
            &&& stream[payload.len() + padding + 1] == (crc & 0xff) as u8
        }),
{
    lemma_padding_bounds(payload.len() as int, pl_mtu);
}

/// The bytes of frame number `index` of a multi-frame transfer, one by one.
pub proof fn lemma_frame_data(payload: Seq<u8>, pl_mtu: int, transfer_id: u8, index: int)
    requires
        7 <= pl_mtu <= 63,
        is_frame_length(pl_mtu + 1),
        0 <= index,
        index * pl_mtu < payload.len() + 2,
    ensures
        ({
            let stream = multi_frame_stream(payload, pl_mtu);
            let data = multi_frame_data(payload, pl_mtu, transfer_id, index);
            let from = index * pl_mtu;
            let size = if from + pl_mtu <= stream.len() {
                pl_mtu
            } else {
                stream.len() - from
            };
            &&& 1 <= size <= pl_mtu
            &&& data.len() == size + 1
            &&& forall|i: int| 0 <= i < size ==> data[i] == stream[from + i]
            &&& data[size] == tail_byte(
                index == 0,
                from + size == stream.len(),
                index % 2 == 0,
                transfer_id,
            )
        }),
{
    lemma_stream_bytes(payload, pl_mtu);
}

/// Every frame of a multi-frame transfer has a frame length, tail byte
/// included: all but the last are as long as a frame gets, and the last is
/// as short as a frame can be that holds what is left.
pub proof fn lemma_frame_lengths(payload: Seq<u8>, pl_mtu: int, transfer_id: u8, index: int)
    requires
        7 <= pl_mtu <= 63,
        is_frame_length(pl_mtu + 1),
        0 <= index < multi_frame_count(payload.len() as int, pl_mtu),
    ensures
        ({
            let len = multi_frame_data(payload, pl_mtu, transfer_id, index).len();
            let left = payload.len() + 2 - index * pl_mtu;
            &&& is_frame_length(len as int)
            &&& 2 <= len <= pl_mtu + 1
            &&& index + 1 < multi_frame_count(payload.len() as int, pl_mtu) ==> len == pl_mtu + 1
            &&& left < pl_mtu ==> len == round_up_frame_length(left + 1)
        }),
{
    lemma_frame_begins_in_stream(payload.len() as int, pl_mtu, index);
    lemma_frame_extent(payload.len() as int, pl_mtu, index);
    lemma_frame_data(payload, pl_mtu, transfer_id, index);
    lemma_stream_bytes(payload, pl_mtu);
}

/// A node with an id of its own, on a link whose capacity is a frame length
/// of at least 8 bytes or more than any frame, can send every message and
/// every service transfer that is in range and whose declared size is that
/// of its payload.
pub proof fn lemma_valid_transfer_is_sent(transfer: TransferView, node_id: u8, mtu: int)
    requires
        node_id <= 127,
        is_message_transfer(transfer.props) || is_service_transfer(transfer.props),
        transfer.payload.len() == transfer.payload_size,
        transfer.payload_size + 2 <= usize::MAX,
        mtu >= 64 || (8 <= mtu && is_frame_length(mtu)),
    ensures
        packet_outcome(transfer, node_id, mtu) is Ok,
        packet_outcome(transfer, node_id, mtu)->Ok_0.0 == can_id(
            transfer,
            node_id,
            presentation_layer_mtu(mtu),
        )->Ok_0,
        packet_outcome(transfer, node_id, mtu)->Ok_0.1.len() >= 1,
{
    let pl_mtu = presentation_layer_mtu(mtu);
    if transfer.payload_size > pl_mtu {
        assert(0 * pl_mtu == 0) by (nonlinear_arith);
        lemma_frame_extent(transfer.payload_size, pl_mtu, 0);
    }
}

/// A transfer that fits one frame is sent in exactly one. The frame has the
/// shortest frame length that holds payload and tail byte; it begins with
/// the payload, and its tail byte marks it as first and last, with the
/// toggle set.
pub proof fn lemma_single_frame_transfer(transfer: TransferView, node_id: u8, mtu: int)
    requires
        transfer.payload_size <= presentation_layer_mtu(mtu),
        packet_outcome(transfer, node_id, mtu) is Ok,
    ensures
        ({
            let frames = packet_outcome(transfer, node_id, mtu)->Ok_0.1;
            let tail = frames[0].last();
            &&& frames.len() == 1
            &&& frames[0].len() == round_up_frame_length(transfer.payload_size + 1)
            &&& frames[0].len() <= mtu
            &&& frames[0].take(transfer.payload_size) == transfer.payload
            &&& tail == tail_byte(true, true, true, transfer.props.transfer_id)
            &&& tail_start(tail)
            &&& tail_end(tail)
            &&& tail_toggle(tail)
            &&& tail_transfer_id(tail) == transfer.props.transfer_id & 0x1f
        }),
{
    let frames = packet_outcome(transfer, node_id, mtu)->Ok_0.1;
    let data = single_frame_data(transfer.payload, transfer.props.transfer_id);
    assert(frames[0] == data);
    assert(data.take(transfer.payload_size) =~= transfer.payload);
    lemma_tail_byte_fields(true, true, true, transfer.props.transfer_id);
}

/// A payload of one byte more than fits a single frame is sent in exactly
/// two frames, without padding: the first carries all of the payload but
/// its last byte, the second that byte and the CRC of the payload. Put
/// together without their tail bytes, the two are the payload and its CRC.
pub proof fn lemma_two_frames(payload: Seq<u8>, pl_mtu: int, transfer_id: u8)
    requires
        7 <= pl_mtu <= 63,
        is_frame_length(pl_mtu + 1),
        payload.len() == pl_mtu + 1,
    ensures
        ({
            let first = multi_frame_data(payload, pl_mtu, transfer_id, 0);
            let second = multi_frame_data(payload, pl_mtu, transfer_id, 1);
            &&& multi_frame_count(payload.len() as int, pl_mtu) == 2
            &&& multi_frame_padding(payload.len() as int, pl_mtu) == 0
            &&& first.len() == pl_mtu + 1
            &&& second.len() == 4
            &&& first.last() == tail_byte(true, false, true, transfer_id)
            &&& second.last() == tail_byte(false, true, false, transfer_id)
            &&& first.drop_last() + second.drop_last() == payload + crc_trailer(
                crc_bytes(CRC_INITIAL, payload),
            )
        }),
{
    let n = payload.len() as int;
    lemma_fundamental_div_mod_converse(n + 2, pl_mtu, 1, 3);
    lemma_fundamental_div_mod_converse(n + 2 + pl_mtu - 1, pl_mtu, 2, 2);
    assert(multi_frame_padding(n, pl_mtu) == 0);
    assert(payload + zeros(0) =~= payload);
    let stream = multi_frame_stream(payload, pl_mtu);
    assert(stream =~= payload + crc_trailer(crc_bytes(CRC_INITIAL, payload)));
    let first = multi_frame_data(payload, pl_mtu, transfer_id, 0);
    let second = multi_frame_data(payload, pl_mtu, transfer_id, 1);
    assert(0 * pl_mtu == 0 && 1 * pl_mtu == pl_mtu) by (nonlinear_arith);
    assert(first.drop_last() =~= stream.subrange(0, pl_mtu));
    assert(second.drop_last() =~= stream.subrange(pl_mtu, stream.len() as int));
    assert(first.drop_last() + second.drop_last() =~= stream);
}

/// A transfer whose payload is one byte longer than fits a single frame is
/// sent in exactly two frames. The first is as long as a frame gets and is
/// marked as first, the second has four bytes and is marked as last, and
/// what a receiver puts together from the two is the payload and its CRC.
pub proof fn lemma_two_frame_transfer(transfer: TransferView, node_id: u8, mtu: int)
    requires
        transfer.payload_size == presentation_layer_mtu(mtu) + 1,
        packet_outcome(transfer, node_id, mtu) is Ok,
    ensures
        ({
            let frames = packet_outcome(transfer, node_id, mtu)->Ok_0.1;
            let pl_mtu = presentation_layer_mtu(mtu);
            let transfer_id = transfer.props.transfer_id;
            &&& frames.len() == 2
            &&& frames[0].len() == pl_mtu + 1
            &&& frames[1].len() == 4
            &&& frames[0].last() == tail_byte(true, false, true, transfer_id)
            &&& frames[1].last() == tail_byte(false, true, false, transfer_id)
            &&& reassembled(frames) == transfer.payload + crc_trailer(
                crc_bytes(CRC_INITIAL, transfer.payload),
            )
        }),
{
    let frames = packet_outcome(transfer, node_id, mtu)->Ok_0.1;
    let pl_mtu = presentation_layer_mtu(mtu);
    lemma_two_frames(transfer.payload, pl_mtu, transfer.props.transfer_id);
    assert(frames == multi_frames(transfer.payload, pl_mtu, transfer.props.transfer_id));
    assert(frames.drop_last().drop_last() =~= Seq::<Seq<u8>>::empty());
    assert(frames.drop_last().last() == frames[0]);
    assert(reassembled(frames.drop_last()) =~= frames[0].drop_last()) by {
        assert(reassembled(frames.drop_last().drop_last()) =~= Seq::<u8>::empty());
    }
}

/// The stream of a multi-frame transfer begins with the payload and ends
/// with the CRC of all that stands before it. Computed over the whole
/// stream, the CRC is zero.
pub proof fn lemma_stream_crc(payload: Seq<u8>, pl_mtu: int)
    requires
        7 <= pl_mtu <= 63,
        is_frame_length(pl_mtu + 1),
    ensures
        ({
            let stream = multi_frame_stream(payload, pl_mtu);
            let body = stream.take(stream.len() - 2);
            &&& stream.len() >= payload.len() + 2
            &&& stream.take(payload.len() as int) == payload
            &&& body == multi_frame_body(payload, pl_mtu)
            &&& stream.skip(stream.len() - 2) == crc_trailer(crc_bytes(CRC_INITIAL, body))
            &&& crc_bytes(CRC_INITIAL, stream) == 0
        }),
{
    lemma_padding_bounds(payload.len() as int, pl_mtu);
    let stream = multi_frame_stream(payload, pl_mtu);
    let body = multi_frame_body(payload, pl_mtu);
    let crc = crc_bytes(CRC_INITIAL, body);
    assert(stream.take(stream.len() - 2) =~= body);
    assert(stream.take(payload.len() as int) =~= payload);
    assert(stream.skip(stream.len() - 2) =~= crc_trailer(crc));
    lemma_crc_of_data_and_trailer(CRC_INITIAL, body);
}

/// The first `taken` frames of a multi-frame transfer carry the stream up
/// to where the next frame begins.
proof fn lemma_reassembled_prefix(payload: Seq<u8>, pl_mtu: int, transfer_id: u8, taken: int)
    requires
        7 <= pl_mtu <= 63,
        is_frame_length(pl_mtu + 1),
        0 <= taken <= multi_frame_count(payload.len() as int, pl_mtu),
    ensures
        ({
            let stream = multi_frame_stream(payload, pl_mtu);
            let frames = multi_frames(payload, pl_mtu, transfer_id);
            reassembled(frames.take(taken)) == stream.take(
                if taken * pl_mtu <= stream.len() {
                    taken * pl_mtu
                } else {
                    stream.len() as int
                },
            )
        }),
    decreases taken,
{
    let stream = multi_frame_stream(payload, pl_mtu);
    let frames = multi_frames(payload, pl_mtu, transfer_id);
    if taken == 0 {
        assert(0 * pl_mtu == 0) by (nonlinear_arith);
        assert(stream.take(0) =~= Seq::<u8>::empty());
    } else {
        let index = taken - 1;
        let from = index * pl_mtu;
        lemma_reassembled_prefix(payload, pl_mtu, transfer_id, index);
        lemma_frame_begins_in_stream(payload.len() as int, pl_mtu, index);
        lemma_frame_data(payload, pl_mtu, transfer_id, index);
        lemma_stream_bytes(payload, pl_mtu);
        assert(taken * pl_mtu == from + pl_mtu) by (nonlinear_arith)
            requires
                from == (taken - 1) * pl_mtu,
        ;
        let to = if from + pl_mtu <= stream.len() {
            from + pl_mtu
        } else {
            stream.len() as int
        };
        let frame = multi_frame_data(payload, pl_mtu, transfer_id, index);
        assert(frames.take(taken).drop_last() =~= frames.take(index));
        assert(frames.take(taken).last() == frame);
        assert(frame.drop_last() =~= stream.subrange(from, to));
        assert(stream.take(from) + stream.subrange(from, to) =~= stream.take(to));
    }
}

/// Put together without their tail bytes, the frames of a multi-frame
/// transfer are its stream: the payload, the padding, and the CRC of both.
pub proof fn lemma_reassembled_stream(payload: Seq<u8>, pl_mtu: int, transfer_id: u8)
    requires
        7 <= pl_mtu <= 63,
        is_frame_length(pl_mtu + 1),
    ensures
        reassembled(multi_frames(payload, pl_mtu, transfer_id)) == multi_frame_stream(
            payload,
            pl_mtu,
        ),
{
    let n = payload.len() as int;
    let stream = multi_frame_stream(payload, pl_mtu);
    let frames = multi_frames(payload, pl_mtu, transfer_id);
    let count = multi_frame_count(n, pl_mtu);
    assert(0 * pl_mtu == 0) by (nonlinear_arith);
    lemma_frame_extent(n, pl_mtu, 0);
    lemma_frame_begins_in_stream(n, pl_mtu, count - 1);
    lemma_frame_extent(n, pl_mtu, count - 1);
    lemma_frame_data(payload, pl_mtu, transfer_id, count - 1);
    lemma_stream_bytes(payload, pl_mtu);
    lemma_reassembled_prefix(payload, pl_mtu, transfer_id, count);
    assert(count * pl_mtu == (count - 1) * pl_mtu + pl_mtu) by (nonlinear_arith);
    assert(frames.take(count) =~= frames);
    assert(stream.take(stream.len() as int) =~= stream);
}

/// A transfer that does not fit one frame is sent in two frames or more.
/// What a receiver puts together from them is the stream of the transfer:
/// it begins with the payload, and its CRC is zero.
pub proof fn lemma_multi_frame_transfer(transfer: TransferView, node_id: u8, mtu: int)
    requires
        transfer.payload_size > presentation_layer_mtu(mtu),
        packet_outcome(transfer, node_id, mtu) is Ok,
    ensures
        ({
            let frames = packet_outcome(transfer, node_id, mtu)->Ok_0.1;
            let pl_mtu = presentation_layer_mtu(mtu);
            let stream = reassembled(frames);
            &&& frames.len() == multi_frame_count(transfer.payload_size, pl_mtu)
            &&& frames.len() >= 2
            &&& stream == multi_frame_stream(transfer.payload, pl_mtu)
            &&& stream.take(transfer.payload_size) == transfer.payload
            &&& crc_bytes(CRC_INITIAL, stream) == 0
        }),
{
    let pl_mtu = presentation_layer_mtu(mtu);
    assert(0 * pl_mtu == 0) by (nonlinear_arith);
    lemma_frame_extent(transfer.payload_size, pl_mtu, 0);
    lemma_reassembled_stream(transfer.payload, pl_mtu, transfer.props.transfer_id);
    lemma_stream_crc(transfer.payload, pl_mtu);
}

/// The counter of an instance wraps after 255, and the transfer id that a
/// frame carries after 31: both advance together, the one on the wire by
/// one modulo 32.
pub proof fn lemma_next_transfer_id_on_the_wire(transfer_id: u8)
    ensures
        next_transfer_id(transfer_id) == (transfer_id + 1) % 256,
        tail_transfer_id(tail_byte(true, true, true, next_transfer_id(transfer_id))) == (
        tail_transfer_id(tail_byte(true, true, true, transfer_id)) + 1) % 32,
{
    let next = next_transfer_id(transfer_id);
    lemma_tail_byte_fields(true, true, true, transfer_id);
    lemma_tail_byte_fields(true, true, true, next);
    assert(next & 0x1f == ((transfer_id & 0x1f) + 1) % 32) by (bit_vector)
        requires
            next == if transfer_id == 255 {
                0u8
            } else {
                (transfer_id + 1) as u8
            },
    ;
}

} // verus!

use cyphal::{crc_add, CyphalError, CyphalMiddleware, CyphalTxPacket};

fn data_of<const MTU: usize>(frame: &CyphalTxPacket<MTU>) -> Vec<u8> {
    frame.payload[..frame.payload_size].to_vec()
}

fn assert_zero_behind_the_data<const MTU: usize>(frame: &CyphalTxPacket<MTU>) {
    for i in frame.payload_size..MTU {
        assert_eq!(frame.payload[i], 0);
    }
}

fn reassembled<const MTU: usize>(frames: &[CyphalTxPacket<MTU>]) -> Vec<u8> {
    let mut stream = Vec::new();
    for frame in frames {
        stream.extend_from_slice(&frame.payload[..frame.payload_size - 1]);
    }
    stream
}

#[test]
fn new_instance_starts_at_transfer_id_zero() {
    let node = CyphalMiddleware::<8>::new(10);
    assert_eq!(node.transfer_id, 0);
    assert_eq!(node.node_id(), 10);
    assert_eq!(node.can_instance.node_id(), 10);
    assert_eq!(node.can_instance.mtu_bytes(), 8);
}

#[test]
fn set_node_id_changes_the_source_of_the_frames() {
    let mut node = CyphalMiddleware::<8>::new(10);
    node.transfer_id = 3;
    let mut node = node.set_node_id(11);
    assert_eq!(node.node_id(), 11);
    assert_eq!(node.transfer_id, 3);
    let frames = node.create_message_data(100, &[1], 1).unwrap();
    assert_eq!(frames[0].xid, 0x1060640b);
}

#[test]
fn short_message_is_one_frame() {
    let mut node = CyphalMiddleware::<8>::new(10);
    let frames = node.create_message_data(100, &[1, 2, 3], 3).unwrap();
    assert_eq!(frames.len(), 1);
    assert_eq!(frames[0].xid, 0x1060640a);
    assert_eq!(frames[0].payload_size, 4);
    assert_eq!(frames[0].payload, [1, 2, 3, 0xE0, 0, 0, 0, 0]);
}

#[test]
fn short_message_carries_the_transfer_id_in_its_tail_byte() {
    let mut node = CyphalMiddleware::<8>::new(10);
    node.transfer_id = 9;
    let frames = node.create_message_data(100, &[1, 2, 3], 3).unwrap();
    assert_eq!(frames.len(), 1);
    assert_eq!(frames[0].payload[frames[0].payload_size - 1], 0b11100000 | 9);
}

#[test]
fn empty_message_is_a_frame_of_its_tail_byte() {
    let mut node = CyphalMiddleware::<8>::new(10);
    let frames = node.create_message_data(100, &[], 0).unwrap();
    assert_eq!(frames.len(), 1);
    assert_eq!(frames[0].payload_size, 1);
    assert_eq!(frames[0].payload, [0xE0, 0, 0, 0, 0, 0, 0, 0]);
}

#[test]
fn message_of_the_presentation_layer_mtu_is_one_frame() {
    let mut node = CyphalMiddleware::<8>::new(10);
    let frames = node.create_message_data(100, &[1, 2, 3, 4, 5, 6, 7], 7).unwrap();
    assert_eq!(frames.len(), 1);
    assert_eq!(frames[0].payload_size, 8);
    assert_eq!(frames[0].payload, [1, 2, 3, 4, 5, 6, 7, 0xE0]);
}

#[test]
fn single_frame_is_padded_to_a_frame_length() {
    let mut node = CyphalMiddleware::<64>::new(10);
    let payload = [1u8, 2, 3, 4, 5, 6, 7, 8, 9];
    let frames = node.create_message_data(100, &payload, 9).unwrap();
    assert_eq!(frames.len(), 1);
    assert_eq!(frames[0].payload_size, 12);
    assert_eq!(data_of(&frames[0]), vec![1, 2, 3, 4, 5, 6, 7, 8, 9, 0, 0, 0xE0]);
    assert_zero_behind_the_data(&frames[0]);
}

#[test]
fn single_frame_lengths_are_rounded_up() {
    for n in 0..=63usize {
        let mut node = CyphalMiddleware::<64>::new(10);
        let payload = vec![0x55u8; n];
        let frames = node.create_message_data(100, &payload, n).unwrap();
        assert_eq!(frames.len(), 1);
        let expected = CyphalMiddleware::<64>::tx_round_frame_payload_sizeup(n + 1).unwrap();
        assert_eq!(frames[0].payload_size, expected);
        assert_eq!(frames[0].payload[expected - 1], 0xE0);
        assert_eq!(&frames[0].payload[..n], &payload[..]);
        for i in n..expected - 1 {
            assert_eq!(frames[0].payload[i], 0);
        }
    }
}

#[test]
fn heartbeat_is_one_frame_on_its_subject() {
    let mut node = CyphalMiddleware::<8>::new(10);
    let frames = node.create_heartbeat_tx_data().unwrap();
    assert_eq!(frames.len(), 1);
    assert_eq!(frames[0].xid, 0x107d550a);
    assert_eq!(frames[0].payload_size, 8);
    assert_eq!(frames[0].payload, [0, 0, 0, 0, 0, 0, 0xa1, 0xE0]);
    assert_eq!(node.transfer_id, 1);
}

#[test]
fn request_and_response_are_sent_to_the_remote_node() {
    let mut node = CyphalMiddleware::<8>::new(10);
    let request = node.create_request_data(42, 5, &[7], 1).unwrap();
    let response = node.create_response_data(42, 5, &[7], 1).unwrap();
    assert_eq!(request.len(), 1);
    assert_eq!(request[0].xid, 0x1301550a);
    assert_eq!(request[0].payload, [7, 0xE0, 0, 0, 0, 0, 0, 0]);
    assert_eq!(response.len(), 1);
    assert_eq!(response[0].xid, 0x1201550a);
    assert_eq!(response[0].payload, [7, 0xE1, 0, 0, 0, 0, 0, 0]);
}

#[test]
fn ten_bytes_on_classic_can_are_two_frames() {
    let mut node = CyphalMiddleware::<8>::new(10);
    let payload = [1u8, 2, 3, 4, 5, 6, 7, 8, 9, 10];
    let frames = node.create_message_data(100, &payload, 10).unwrap();
    assert_eq!(frames.len(), 2);
    assert_eq!(frames[0].xid, 0x1060640a);
    assert_eq!(frames[1].xid, 0x1060640a);
    assert_eq!(frames[0].payload_size, 8);
    assert_eq!(frames[0].payload, [1, 2, 3, 4, 5, 6, 7, 0xA0]);
    assert_eq!(frames[1].payload_size, 6);
    assert_eq!(frames[1].payload, [8, 9, 10, 0x2C, 0x72, 0x40, 0, 0]);
    let crc = crc_add(0xFFFF, 10, &payload).unwrap();
    let mut expected = payload.to_vec();
    expected.push((crc >> 8) as u8);
    expected.push((crc & 0xff) as u8);
    assert_eq!(reassembled(&frames), expected);
}

#[test]
fn one_byte_more_than_a_frame_holds_is_two_frames() {
    let mut node = CyphalMiddleware::<8>::new(10);
    let payload = [10u8, 11, 12, 13, 14, 15, 16, 17];
    let frames = node.create_message_data(100, &payload, 8).unwrap();
    assert_eq!(frames.len(), 2);
    assert_eq!(frames[0].payload, [10, 11, 12, 13, 14, 15, 16, 0xA0]);
    assert_eq!(frames[0].payload_size, 8);
    assert_eq!(frames[1].payload, [17, 0x4E, 0xFC, 0x40, 0, 0, 0, 0]);
    assert_eq!(frames[1].payload_size, 4);
    let stream = reassembled(&frames);
    let (body, trailer) = stream.split_at(stream.len() - 2);
    let crc = crc_add(0xFFFF, body.len(), body).unwrap();
    assert_eq!(trailer, [(crc >> 8) as u8, (crc & 0xff) as u8]);
    assert_eq!(crc_add(0xFFFF, stream.len(), &stream), Ok(0));
}

#[test]
fn one_byte_more_than_a_frame_holds_is_two_frames_on_can_fd() {
    let mut node = CyphalMiddleware::<64>::new(10);
    let payload: Vec<u8> = (0..64u8).collect();
    let frames = node.create_message_data(100, &payload, 64).unwrap();
    assert_eq!(frames.len(), 2);
    assert_eq!(frames[0].payload_size, 64);
    assert_eq!(frames[1].payload_size, 4);
    let stream = reassembled(&frames);
    let crc = crc_add(0xFFFF, 64, &payload).unwrap();
    let mut expected = payload.clone();
    expected.push((crc >> 8) as u8);
    expected.push((crc & 0xff) as u8);
    assert_eq!(stream, expected);
}

#[test]
fn payload_and_crc_that_fill_their_frames_need_no_more() {
    let mut node = CyphalMiddleware::<8>::new(10);
    node.transfer_id = 3;
    let payload: Vec<u8> = (100..112u8).collect();
    let frames = node.create_message_data(100, &payload, 12).unwrap();
    assert_eq!(frames.len(), 2);
    assert_eq!(frames[0].payload, [100, 101, 102, 103, 104, 105, 106, 0xA3]);
    assert_eq!(frames[1].payload, [107, 108, 109, 110, 111, 0x71, 0x71, 0x43]);
    assert_eq!(frames[1].payload_size, 8);
}

#[test]
fn crc_can_be_split_over_two_frames() {
    let mut node = CyphalMiddleware::<8>::new(10);
    node.transfer_id = 31;
    let payload: Vec<u8> = (200..213u8).collect();
    let frames = node.create_message_data(100, &payload, 13).unwrap();
    assert_eq!(frames.len(), 3);
    assert_eq!(frames[0].payload, [200, 201, 202, 203, 204, 205, 206, 0xBF]);
    assert_eq!(frames[1].payload, [207, 208, 209, 210, 211, 212, 0x1F, 0x1F]);
    assert_eq!(frames[2].payload, [0x3E, 0x7F, 0, 0, 0, 0, 0, 0]);
    assert_eq!(frames[0].payload_size, 8);
    assert_eq!(frames[1].payload_size, 8);
    assert_eq!(frames[2].payload_size, 2);
}

#[test]
fn last_frame_is_padded_and_the_crc_covers_the_padding() {
    let mut node = CyphalMiddleware::<64>::new(10);
    node.transfer_id = 5;
    let payload: Vec<u8> = (0..70u32).map(|i| ((i * 7 + 3) & 0xff) as u8).collect();
    let frames = node.create_message_data(100, &payload, 70).unwrap();
    assert_eq!(frames.len(), 2);
    assert_eq!(frames[0].payload_size, 64);
    assert_eq!(&frames[0].payload[..3], &[3, 10, 17]);
    assert_eq!(frames[0].payload[63], 0xA5);
    assert_eq!(frames[1].payload_size, 12);
    assert_eq!(
        data_of(&frames[1]),
        vec![188, 195, 202, 209, 216, 223, 230, 0, 0, 0x73, 0x85, 0x45]
    );
    assert_zero_behind_the_data(&frames[1]);
    let mut padded = payload.clone();
    padded.extend_from_slice(&[0, 0]);
    assert_eq!(crc_add(0xFFFF, 72, &padded), Ok(0x7385));
    let stream = reassembled(&frames);
    assert_eq!(crc_add(0xFFFF, stream.len(), &stream), Ok(0));
}

#[test]
fn toggle_alternates_and_only_the_ends_are_marked() {
    let mut node = CyphalMiddleware::<8>::new(10);
    node.transfer_id = 2;
    let payload = vec![0xAAu8; 40];
    let frames = node.create_message_data(100, &payload, 40).unwrap();
    assert_eq!(frames.len(), 6);
    for (i, frame) in frames.iter().enumerate() {
        let tail = frame.payload[frame.payload_size - 1];
        assert_eq!(tail & 0x80 != 0, i == 0);
        assert_eq!(tail & 0x40 != 0, i == frames.len() - 1);
        assert_eq!(tail & 0x20 != 0, i % 2 == 0);
        assert_eq!(tail & 0x1f, 2);
    }
    for frame in &frames[..5] {
        assert_eq!(frame.payload_size, 8);
    }
    assert_eq!(frames[5].payload_size, 8);
    assert_eq!(reassembled(&frames).len(), 42);
}

#[test]
fn multi_frame_lengths_are_frame_lengths() {
    let lengths: [usize; 16] = [0, 1, 2, 3, 4, 5, 6, 7, 8, 12, 16, 20, 24, 32, 48, 64];
    for n in 64..200usize {
        let mut node = CyphalMiddleware::<64>::new(10);
        let payload: Vec<u8> = (0..n).map(|i| (i % 251) as u8).collect();
        let frames = node.create_message_data(100, &payload, n).unwrap();
        for frame in &frames[..frames.len() - 1] {
            assert_eq!(frame.payload_size, 64);
        }
        let last = &frames[frames.len() - 1];
        assert!(lengths.contains(&last.payload_size));
        let stream = reassembled(&frames);
        assert_eq!(&stream[..n], &payload[..]);
        assert_eq!(crc_add(0xFFFF, stream.len(), &stream), Ok(0));
        for byte in &stream[n..stream.len() - 2] {
            assert_eq!(*byte, 0);
        }
    }
}

#[test]
fn transfer_id_advances_by_one_and_wraps_after_255() {
    let mut node = CyphalMiddleware::<8>::new(10);
    for i in 0..600u32 {
        assert_eq!(node.transfer_id as u32, i % 256);
        let frames = node.create_message_data(100, &[1, 2, 3], 3).unwrap();
        assert_eq!(frames[0].payload[3], 0xE0 | (i % 32) as u8);
    }
    node.transfer_id = 255;
    node.create_heartbeat_tx_data().unwrap();
    assert_eq!(node.transfer_id, 0);
    node.create_request_data(42, 5, &[], 0).unwrap();
    assert_eq!(node.transfer_id, 1);
    node.create_response_data(42, 5, &[], 0).unwrap();
    assert_eq!(node.transfer_id, 2);
}

#[test]
fn transfer_id_advances_when_the_transfer_fails() {
    let mut node = CyphalMiddleware::<8>::new(10);
    assert_eq!(node.create_message_data(9000, &[1], 1).unwrap_err(), CyphalError::InvalidCanId);
    assert_eq!(node.transfer_id, 1);
}

#[test]
fn wrong_length_is_rejected() {
    let mut node = CyphalMiddleware::<8>::new(10);
    assert_eq!(
        node.create_message_data(100, &[1, 2, 3], 2).unwrap_err(),
        CyphalError::LengthMismatch
    );
    assert_eq!(
        node.create_message_data(100, &[1, 2, 3], 20).unwrap_err(),
        CyphalError::LengthMismatch
    );
    assert_eq!(
        node.create_request_data(42, 5, &[0; 20], 21).unwrap_err(),
        CyphalError::LengthMismatch
    );
}

#[test]
fn transfer_without_an_identifier_is_rejected() {
    let mut anonymous = CyphalMiddleware::<8>::new(255);
    assert_eq!(
        anonymous.create_message_data(100, &[0; 10], 10).unwrap_err(),
        CyphalError::InvalidCanId
    );
    assert_eq!(
        anonymous.create_request_data(42, 5, &[1], 1).unwrap_err(),
        CyphalError::InvalidCanId
    );
    assert_eq!(
        anonymous.create_response_data(42, 5, &[1], 1).unwrap_err(),
        CyphalError::InvalidCanId
    );
    let mut node = CyphalMiddleware::<8>::new(10);
    assert_eq!(node.create_request_data(128, 5, &[1], 1).unwrap_err(), CyphalError::InvalidCanId);
    assert_eq!(node.create_request_data(42, 512, &[1], 1).unwrap_err(), CyphalError::InvalidCanId);
    assert_eq!(node.create_message_data(8192, &[1], 1).unwrap_err(), CyphalError::InvalidCanId);
}

#[test]
fn anonymous_node_sends_a_short_message() {
    let mut anonymous = CyphalMiddleware::<8>::new(255);
    let frames = anonymous.create_message_data(100, &[1, 2, 3], 3).unwrap();
    assert_eq!(frames.len(), 1);
    assert_eq!(frames[0].xid, 0x1160642d);
    assert_eq!(frames[0].payload, [1, 2, 3, 0xE0, 0, 0, 0, 0]);
}

#[test]
fn frame_that_does_not_fit_the_link_is_rejected() {
    let mut small = CyphalMiddleware::<4>::new(10);
    assert_eq!(small.create_message_data(100, &[1, 2, 3], 3).unwrap().len(), 1);
    assert_eq!(
        small.create_message_data(100, &[1, 2, 3, 4], 4).unwrap_err(),
        CyphalError::InvalidFrameSize
    );
    assert_eq!(
        small.create_message_data(100, &[0; 10], 10).unwrap_err(),
        CyphalError::InvalidFrameSize
    );
    let mut odd = CyphalMiddleware::<10>::new(10);
    assert_eq!(odd.create_message_data(100, &[0; 7], 7).unwrap()[0].payload_size, 8);
    assert_eq!(
        odd.create_message_data(100, &[0; 9], 9).unwrap_err(),
        CyphalError::InvalidFrameSize
    );
    assert_eq!(
        odd.create_message_data(100, &[0; 30], 30).unwrap_err(),
        CyphalError::InvalidFrameSize
    );
}

#[test]
fn link_with_room_to_spare_sends_frames_of_64_bytes() {
    let mut node = CyphalMiddleware::<100>::new(10);
    let payload = vec![1u8; 63];
    let frames = node.create_message_data(100, &payload, 63).unwrap();
    assert_eq!(frames.len(), 1);
    assert_eq!(frames[0].payload_size, 64);
    assert_zero_behind_the_data(&frames[0]);
    let payload = vec![1u8; 64];
    let frames = node.create_message_data(100, &payload, 64).unwrap();
    assert_eq!(frames.len(), 2);
    assert_eq!(frames[0].payload_size, 64);
    assert_eq!(frames[1].payload_size, 4);
}

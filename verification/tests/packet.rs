use cyphal::{
    CyphalError, CyphalMiddleware, CyphalPriority, CyphalTransferKind, CyphalTxPacketFrame,
    CyphalTxProps,
};

fn message(transfer_id: u8, payload: Vec<u8>) -> CyphalTxPacketFrame {
    CyphalTxPacketFrame {
        payload_size: payload.len(),
        payload,
        props: CyphalTxProps {
            priority: CyphalPriority::Fast,
            transfer_kind: CyphalTransferKind::Message,
            transfer_id,
            port_id: 100,
            remote_node_id: 255,
        },
    }
}

#[test]
fn packet_of_a_short_transfer_is_its_single_frame() {
    let node = CyphalMiddleware::<8>::new(10);
    let frames = node.create_packet(&message(4, vec![5, 6])).unwrap();
    assert_eq!(frames.len(), 1);
    assert_eq!(frames[0].xid, 0x0860640a);
    assert_eq!(frames[0].payload_size, 3);
    assert_eq!(frames[0].payload, [5, 6, 0xE4, 0, 0, 0, 0, 0]);
}

#[test]
fn packet_does_not_advance_the_transfer_id() {
    let node = CyphalMiddleware::<8>::new(10);
    node.create_packet(&message(4, vec![5, 6])).unwrap();
    assert_eq!(node.transfer_id, 0);
}

#[test]
fn packet_of_a_long_transfer_is_split() {
    let node = CyphalMiddleware::<8>::new(10);
    let frames = node.create_packet(&message(1, vec![1, 2, 3, 4, 5, 6, 7, 8, 9, 10])).unwrap();
    assert_eq!(frames.len(), 2);
    assert_eq!(frames[0].payload, [1, 2, 3, 4, 5, 6, 7, 0xA1]);
    assert_eq!(frames[1].payload, [8, 9, 10, 0x2C, 0x72, 0x41, 0, 0]);
    assert_eq!(frames[0].xid, 0x0860640a);
    assert_eq!(frames[1].xid, 0x0860640a);
}

#[test]
fn packet_without_an_identifier_is_rejected() {
    let node = CyphalMiddleware::<8>::new(10);
    let mut t = message(0, vec![1]);
    t.props.remote_node_id = 42;
    assert_eq!(node.create_packet(&t).unwrap_err(), CyphalError::InvalidCanId);
    let anonymous = CyphalMiddleware::<8>::new(255);
    let mut wrong = message(0, vec![1, 2, 3]);
    wrong.payload_size = 2;
    assert_eq!(anonymous.create_packet(&wrong).unwrap_err(), CyphalError::InvalidCanId);
}

#[test]
fn packet_with_a_wrong_length_is_rejected() {
    let node = CyphalMiddleware::<8>::new(10);
    let mut short = message(0, vec![1, 2, 3]);
    short.payload_size = 4;
    assert_eq!(node.create_packet(&short).unwrap_err(), CyphalError::LengthMismatch);
    let mut long = message(0, vec![1, 2, 3]);
    long.payload_size = 30;
    assert_eq!(node.create_packet(&long).unwrap_err(), CyphalError::LengthMismatch);
}

#[test]
fn single_frame_takes_the_identifier_it_is_given() {
    let node = CyphalMiddleware::<8>::new(10);
    let frame = node.handle_single_frame(0x1234, &message(7, vec![9])).unwrap();
    assert_eq!(frame.xid, 0x1234);
    assert_eq!(frame.payload_size, 2);
    assert_eq!(frame.payload, [9, 0xE7, 0, 0, 0, 0, 0, 0]);
}

#[test]
fn single_frame_of_more_than_a_frame_holds_is_rejected() {
    let node = CyphalMiddleware::<8>::new(10);
    assert_eq!(
        node.handle_single_frame(1, &message(0, vec![0; 8])).unwrap_err(),
        CyphalError::InvalidFrameSize
    );
    let fd = CyphalMiddleware::<64>::new(10);
    assert_eq!(fd.handle_single_frame(1, &message(0, vec![0; 63])).unwrap().payload_size, 64);
    assert_eq!(
        fd.handle_single_frame(1, &message(0, vec![0; 64])).unwrap_err(),
        CyphalError::InvalidFrameSize
    );
    assert_eq!(
        fd.handle_single_frame(1, &message(0, vec![0; 1000])).unwrap_err(),
        CyphalError::InvalidFrameSize
    );
}

#[test]
fn single_frame_with_a_wrong_length_is_rejected() {
    let node = CyphalMiddleware::<8>::new(10);
    let mut t = message(0, vec![1, 2, 3]);
    t.payload_size = 100;
    assert_eq!(node.handle_single_frame(1, &t).unwrap_err(), CyphalError::LengthMismatch);
}

#[test]
fn short_payload_can_be_sent_with_a_crc() {
    let node = CyphalMiddleware::<8>::new(10);
    let frames = node.handle_multi_frame(0x1234, &message(4, vec![5, 6])).unwrap();
    assert_eq!(frames.len(), 1);
    assert_eq!(frames[0].xid, 0x1234);
    assert_eq!(frames[0].payload_size, 5);
    assert_eq!(frames[0].payload, [5, 6, 0x82, 0x3C, 0xE4, 0, 0, 0]);
}

#[test]
fn empty_payload_can_be_sent_with_a_crc() {
    let node = CyphalMiddleware::<8>::new(10);
    let frames = node.handle_multi_frame(0x1234, &message(0, vec![])).unwrap();
    assert_eq!(frames.len(), 1);
    assert_eq!(frames[0].payload_size, 3);
    assert_eq!(frames[0].payload, [0xFF, 0xFF, 0xE0, 0, 0, 0, 0, 0]);
}

#[test]
fn multi_frame_with_a_wrong_length_is_rejected() {
    let node = CyphalMiddleware::<8>::new(10);
    let mut t = message(0, vec![0; 20]);
    t.payload_size = 19;
    assert_eq!(node.handle_multi_frame(1, &t).unwrap_err(), CyphalError::LengthMismatch);
}

#[test]
fn multi_frame_on_a_link_without_room_is_rejected() {
    let small = CyphalMiddleware::<7>::new(10);
    assert_eq!(
        small.handle_multi_frame(1, &message(0, vec![0; 20])).unwrap_err(),
        CyphalError::InvalidFrameSize
    );
    let odd = CyphalMiddleware::<9>::new(10);
    assert_eq!(
        odd.handle_multi_frame(1, &message(0, vec![0; 20])).unwrap_err(),
        CyphalError::InvalidFrameSize
    );
    let twelve = CyphalMiddleware::<12>::new(10);
    let frames = twelve.handle_multi_frame(1, &message(0, vec![0; 20])).unwrap();
    assert_eq!(frames.len(), 2);
    assert_eq!(frames[0].payload_size, 12);
    assert_eq!(frames[1].payload_size, 12);
}

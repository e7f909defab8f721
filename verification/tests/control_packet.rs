use zterm_daemon::control_packet::{
    decode_accept_ticket, decode_ticket_payload_checked, decode_generation, decode_host_ready, decode_owner_ready, decode_packet, decode_verify_host,
    encode_packet, generation_payload, owner_ready_payload, packet_length, push_be, read_be, ticket_payload,
    verify_host_payload, ControlPacketError, PacketCursor, HOST_READY, HOST_VERIFIED, MAX_CONTROL_PACKET, VERIFY_HOST,
};

#[test]
fn packet_frames_length_kind_and_payload() {
    let packet = encode_packet(HOST_VERIFIED, &[0xAA, 0xBB]).expect("small packet");
    assert_eq!(packet, vec![0, 0, 0, 3, HOST_VERIFIED, 0xAA, 0xBB]);
    assert_eq!(decode_packet(&packet, HOST_VERIFIED).expect("same kind"), vec![0xAA, 0xBB]);
}

#[test]
fn packet_round_trips_at_the_size_limit() {
    let payload = vec![7_u8; MAX_CONTROL_PACKET - 1];
    let packet = encode_packet(VERIFY_HOST, &payload).expect("largest packet");
    assert_eq!(decode_packet(&packet, VERIFY_HOST).expect("round trip"), payload);
    let oversized = vec![7_u8; MAX_CONTROL_PACKET];
    assert_eq!(encode_packet(VERIFY_HOST, &oversized), Err(ControlPacketError::TooLarge));
}

#[test]
fn packet_reader_rejects_kind_size_and_truncation() {
    let packet = encode_packet(HOST_READY, &[1, 2, 3]).expect("packet");
    assert_eq!(decode_packet(&packet, VERIFY_HOST), Err(ControlPacketError::UnexpectedKind));
    assert_eq!(decode_packet(&packet[..6], HOST_READY), Err(ControlPacketError::Truncated));
    assert_eq!(decode_packet(&packet[..3], HOST_READY), Err(ControlPacketError::Truncated));
    assert_eq!(decode_packet(&[0, 0, 0, 0, HOST_READY], HOST_READY), Err(ControlPacketError::InvalidSize));
    assert_eq!(decode_packet(&[0, 0, 0x80, 1, HOST_READY], HOST_READY), Err(ControlPacketError::InvalidSize));
    assert_eq!(packet_length(&[0, 0, 0x80, 0]), Ok(MAX_CONTROL_PACKET));
    assert_eq!(ControlPacketError::InvalidSize.message(), "invalid control packet size");
}

#[test]
fn big_endian_fields_are_most_significant_first() {
    let mut out = Vec::new();
    push_be(&mut out, 0x0102_0304_0506_0708, 8);
    assert_eq!(out, vec![1, 2, 3, 4, 5, 6, 7, 8]);
    assert_eq!(read_be(&out), 0x0102_0304_0506_0708);
    let mut short = Vec::new();
    push_be(&mut short, 0x1234, 2);
    assert_eq!(short, vec![0x12, 0x34]);
}

#[test]
fn payloads_round_trip_through_their_decoders() {
    let device = [0x42_u8; 32];
    let ticket = b"zterm-ticket".to_vec();
    let ready = ticket_payload(&device, 4433, &ticket).expect("ticket fits");
    assert_eq!(ready.len(), 38 + ticket.len());
    let (id, port, decoded) = decode_host_ready(&ready);
    assert_eq!((id, port, decoded), (device, 4433, ticket.clone()));
    assert_eq!(decode_accept_ticket(&ready).2, ticket);

    let owner = owner_ready_payload(&device, 9);
    assert_eq!(decode_owner_ready(&owner), (device, 9));

    let verify = verify_host_payload(&device, u64::MAX - 1);
    assert_eq!(decode_verify_host(&verify), (device, u64::MAX - 1));

    let generation = generation_payload(17);
    assert_eq!(generation, vec![0, 0, 0, 0, 0, 0, 0, 17]);
    assert_eq!(decode_generation(&generation), 17);
}

#[test]
fn cursor_takes_fields_in_order() {
    let bytes = [0_u8, 5, 0, 0, 0, 9, 1, 2];
    let mut cursor = PacketCursor::new(&bytes);
    assert_eq!(cursor.u16(), 5);
    assert_eq!(cursor.u32(), 9);
    assert_eq!(cursor.take(2), &[1, 2]);
    cursor.finish();
}

#[test]
fn checked_ticket_decode_refuses_short_and_mismatched_lengths() {
    let device = [0x24_u8; 32];
    let ticket = b"abc".to_vec();
    let ready = ticket_payload(&device, 80, &ticket).expect("ticket fits");
    assert_eq!(decode_ticket_payload_checked(&ready), Some((device, 80, ticket.clone())));
    assert_eq!(decode_ticket_payload_checked(&ready[..37]), None);
    let mut trailing = ready.clone();
    trailing.push(0);
    assert_eq!(decode_ticket_payload_checked(&trailing), None);
    assert_eq!(decode_ticket_payload_checked(&ready[..ready.len() - 1]), None);
    let empty = ticket_payload(&device, 1, &[]).expect("empty ticket fits");
    assert_eq!(decode_ticket_payload_checked(&empty), Some((device, 1, Vec::new())));
}

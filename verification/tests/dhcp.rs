use srun_auto_dial::error::SrunError;
use srun_auto_dial::net::dhcp::{
    classify_reply, classify_reply_from, dhcp_frame, discover_message, frame_of_encoding, inspect_frame, inspect_frame_from, nak_reason, netmask_prefix_len,
    offered_ip, request_message, validated_lease, ClientOption, DhcpExchange, DhcpReply,
    DhcpRequest, DhcpStep, ExchangePhase, ReceiveOutcome, ReplyDisposition, DHCP_ACK,
    DHCP_DISCOVER, DHCP_NAK, DHCP_OFFER, DHCP_REQUEST,
};
use srun_auto_dial::net::frame::{build_eth_ipv4_udp, dhcp_payload_of_frame, frame_with_checksums};

const XID: u32 = 0x1020_3040;
const CLIENT_MAC: [u8; 6] = [0x02, 0x00, 0x00, 0x00, 0x00, 0x01];

fn ip(a: u8, b: u8, c: u8, d: u8) -> u32 {
    u32::from_be_bytes([a, b, c, d])
}

fn reply(msg_type: u8) -> DhcpReply {
    DhcpReply {
        xid: XID,
        chaddr: CLIENT_MAC.to_vec(),
        yiaddr: 0,
        msg_type: Some(msg_type),
        server_id: None,
        subnet_mask: None,
        routers: None,
        message: None,
    }
}

fn valid_ack() -> DhcpReply {
    let mut ack = reply(DHCP_ACK);
    ack.subnet_mask = Some(ip(255, 255, 255, 0));
    ack.routers = Some(vec![ip(192, 0, 2, 1)]);
    ack
}

fn client_identifier(req: &DhcpRequest) -> Option<Vec<u8>> {
    req.options.iter().find_map(|o| match o {
        ClientOption::ClientIdentifier(id) => Some(id.clone()),
        _ => None,
    })
}

fn requested_ip(req: &DhcpRequest) -> Option<u32> {
    req.options.iter().find_map(|o| match o {
        ClientOption::RequestedIpAddress(a) => Some(*a),
        _ => None,
    })
}

fn server_identifier(req: &DhcpRequest) -> Option<u32> {
    req.options.iter().find_map(|o| match o {
        ClientOption::ServerIdentifier(a) => Some(*a),
        _ => None,
    })
}

fn message_type(req: &DhcpRequest) -> Option<u8> {
    req.options.iter().find_map(|o| match o {
        ClientOption::MessageType(t) => Some(*t),
        _ => None,
    })
}

#[test]
fn discover_and_request_share_transaction_and_client_identity() {
    let offered_ip = ip(192, 0, 2, 10);
    let server_id = ip(192, 0, 2, 1);
    let chaddr = CLIENT_MAC.to_vec();
    let discover = discover_message(XID, &chaddr);
    let request = request_message(XID, &chaddr, offered_ip, server_id);

    assert_eq!(discover.xid, XID);
    assert_eq!(request.xid, XID);
    assert_eq!(discover.chaddr, CLIENT_MAC);
    assert_eq!(request.chaddr, CLIENT_MAC);
    assert_eq!(client_identifier(&request), Some(CLIENT_MAC.to_vec()));
    assert_eq!(requested_ip(&request), Some(offered_ip));
    assert_eq!(server_identifier(&request), Some(server_id));
}

#[test]
fn netmask_prefix_accepts_only_contiguous_masks() {
    assert_eq!(netmask_prefix_len(ip(255, 255, 255, 255)), Some(32));
    assert_eq!(netmask_prefix_len(ip(255, 255, 254, 0)), Some(23));
    assert_eq!(netmask_prefix_len(ip(0, 0, 0, 0)), Some(0));
    assert_eq!(netmask_prefix_len(ip(255, 0, 255, 0)), None);
    assert_eq!(netmask_prefix_len(ip(255, 255, 255, 1)), None);
}

#[test]
fn reply_selection_requires_matching_transaction_and_hardware_address() {
    let ack = reply(DHCP_ACK);
    assert_eq!(classify_reply(&ack, DHCP_ACK, XID, &CLIENT_MAC), ReplyDisposition::Accept);
    assert_eq!(classify_reply(&ack, DHCP_ACK, XID + 1, &CLIENT_MAC), ReplyDisposition::Ignore);
    assert_eq!(
        classify_reply(&ack, DHCP_ACK, XID, &[0x02, 0, 0, 0, 0, 0x02]),
        ReplyDisposition::Ignore
    );
    assert_eq!(classify_reply(&ack, DHCP_OFFER, XID, &CLIENT_MAC), ReplyDisposition::Ignore);
}

#[test]
fn reply_selection_distinguishes_matching_nak() {
    let nak = reply(DHCP_NAK);
    assert_eq!(classify_reply(&nak, DHCP_ACK, XID, &CLIENT_MAC), ReplyDisposition::Reject);
}

#[test]
fn lease_validation_requires_explicit_usable_network_settings() {
    let offered = ip(192, 0, 2, 10);
    let lease = validated_lease(offered, &valid_ack()).expect("valid lease");
    assert_eq!(lease.ip, offered);
    assert_eq!(lease.netmask, ip(255, 255, 255, 0));
    assert_eq!(lease.gateway, ip(192, 0, 2, 1));

    assert!(validated_lease(0, &valid_ack()).is_err());

    let missing_mask = reply(DHCP_ACK);
    assert!(validated_lease(offered, &missing_mask).is_err());

    let mut unspecified_mask = valid_ack();
    unspecified_mask.subnet_mask = Some(0);
    assert!(validated_lease(offered, &unspecified_mask).is_err());

    let mut non_contiguous_mask = valid_ack();
    non_contiguous_mask.subnet_mask = Some(ip(255, 0, 255, 0));
    assert!(validated_lease(offered, &non_contiguous_mask).is_err());

    let mut missing_router = valid_ack();
    missing_router.routers = None;
    assert!(validated_lease(offered, &missing_router).is_err());

    let mut empty_router = valid_ack();
    empty_router.routers = Some(Vec::new());
    assert!(validated_lease(offered, &empty_router).is_err());

    let mut unspecified_router = valid_ack();
    unspecified_router.routers = Some(vec![0]);
    assert!(validated_lease(offered, &unspecified_router).is_err());
}

#[test]
fn offer_validation_rejects_unspecified_address() {
    let mut offer = reply(DHCP_OFFER);
    assert!(offered_ip(&offer).is_err());

    let expected = ip(192, 0, 2, 10);
    offer.yiaddr = expected;
    assert_eq!(offered_ip(&offer).expect("offered address"), expected);
}

fn dhcp_message(e: SrunError) -> String {
    match e {
        SrunError::Dhcp(m) => m,
        other => panic!("unexpected {other:?}"),
    }
}

#[test]
fn lease_errors_say_what_is_wrong() {
    let offered = ip(192, 0, 2, 10);
    assert_eq!(dhcp_message(validated_lease(offered, &reply(DHCP_ACK)).unwrap_err()), "missing Subnet Mask in DHCP Ack");
    let mut a = valid_ack();
    a.subnet_mask = Some(ip(255, 0, 255, 0));
    assert_eq!(
        dhcp_message(validated_lease(offered, &a).unwrap_err()),
        "DHCP Ack contained a non-contiguous subnet mask: 255.0.255.0"
    );
    let mut a = valid_ack();
    a.routers = Some(Vec::new());
    assert_eq!(dhcp_message(validated_lease(offered, &a).unwrap_err()), "DHCP Ack contained an empty Router option");
    assert_eq!(
        dhcp_message(offered_ip(&reply(DHCP_OFFER)).unwrap_err()),
        "DHCP Offer did not include a usable offered IP address"
    );
}

#[test]
fn nak_reason_falls_back_to_a_generic_text() {
    let mut nak = reply(DHCP_NAK);
    assert_eq!(nak_reason(&nak), "the DHCP server rejected the requested address");
    nak.message = Some("  ".to_string());
    assert_eq!(nak_reason(&nak), "the DHCP server rejected the requested address");
    nak.message = Some("address in use".to_string());
    assert_eq!(nak_reason(&nak), "address in use");
}

fn to_client(frame: &mut [u8]) {
    // Turn a client-to-server frame into a server-to-client one: swap the UDP ports.
    frame.swap(34, 36);
    frame.swap(35, 37);
}

#[test]
fn frames_carry_the_encoded_message_and_decode_back() {
    let offer = DhcpRequest {
        xid: XID,
        flags: 0x8000,
        chaddr: CLIENT_MAC.to_vec(),
        options: vec![ClientOption::MessageType(DHCP_OFFER)],
    };
    let mut frame = dhcp_frame(&offer, &CLIENT_MAC).unwrap();
    assert_eq!(&frame[0..6], &[0xff; 6]);
    assert_eq!(&frame[6..12], &CLIENT_MAC);
    assert_eq!(&frame[12..14], &[0x08, 0x00]);
    assert_eq!(frame[14], 0x45);
    assert_eq!(frame[23], 17);
    assert_eq!(&frame[34..38], &[0, 68, 0, 67]);
    // The DHCP message starts after the UDP header: BOOTREQUEST, Ethernet, then the xid.
    assert_eq!(frame[42], 1);
    assert_eq!(&frame[46..50], &XID.to_be_bytes());

    // A frame to the server is not a reply.
    assert!(inspect_frame(&frame, DHCP_OFFER, XID, &CLIENT_MAC).is_none());
    to_client(&mut frame);
    match inspect_frame(&frame, DHCP_OFFER, XID, &CLIENT_MAC) {
        Some(ReceiveOutcome::Reply(msg)) => {
            assert_eq!(msg.xid, XID);
            assert_eq!(msg.chaddr, CLIENT_MAC);
            assert_eq!(msg.msg_type, Some(DHCP_OFFER));
        }
        _ => panic!("expected a reply"),
    }
    assert!(inspect_frame(&frame, DHCP_OFFER, XID + 1, &CLIENT_MAC).is_none());
    assert!(inspect_frame(&frame, DHCP_ACK, XID, &CLIENT_MAC).is_none());
}

#[test]
fn the_offered_address_is_read_big_endian_from_the_fixed_part() {
    let offer = DhcpRequest {
        xid: XID,
        flags: 0x8000,
        chaddr: CLIENT_MAC.to_vec(),
        options: vec![ClientOption::MessageType(DHCP_OFFER)],
    };
    let mut frame = dhcp_frame(&offer, &CLIENT_MAC).unwrap();
    to_client(&mut frame);
    // yiaddr sits 16 bytes into the DHCP message, which starts at byte 42.
    frame[58..62].copy_from_slice(&[192, 0, 2, 10]);
    match inspect_frame(&frame, DHCP_OFFER, XID, &CLIENT_MAC) {
        Some(ReceiveOutcome::Reply(msg)) => assert_eq!(msg.yiaddr, ip(192, 0, 2, 10)),
        _ => panic!("expected a reply"),
    }
}

fn ones_complement_sum(words: &[u8]) -> u32 {
    let mut sum: u32 = 0;
    for pair in words.chunks(2) {
        let w = if pair.len() == 2 { u16::from_be_bytes([pair[0], pair[1]]) } else { u16::from_be_bytes([pair[0], 0]) };
        sum += w as u32;
    }
    while sum > 0xffff {
        sum = (sum & 0xffff) + (sum >> 16);
    }
    sum
}

#[test]
fn frame_checksums_are_valid() {
    let payload = [1u8, 2, 3, 4, 5, 6, 7];
    let frame = build_eth_ipv4_udp(&payload, &CLIENT_MAC).unwrap();
    assert_eq!(frame.len(), 14 + 20 + 8 + payload.len());
    let header = &frame[14..34];
    assert_ne!(&header[10..12], &[0, 0]);
    assert_eq!(ones_complement_sum(header), 0xffff);
    let udp = &frame[34..];
    let mut pseudo = vec![0, 0, 0, 0, 255, 255, 255, 255, 0, 17];
    pseudo.extend_from_slice(&(udp.len() as u16).to_be_bytes());
    pseudo.extend_from_slice(udp);
    assert_eq!(ones_complement_sum(&pseudo), 0xffff);
    assert_eq!(&udp[8..], &payload);
}

#[test]
fn payload_extraction_refuses_other_traffic() {
    assert!(dhcp_payload_of_frame(&[]).is_none());
    let mut frame = build_eth_ipv4_udp(&[9, 9, 9], &CLIENT_MAC).unwrap();
    assert!(dhcp_payload_of_frame(&frame).is_none());
    to_client(&mut frame);
    assert_eq!(dhcp_payload_of_frame(&frame), Some(vec![9, 9, 9]));
    frame[13] = 0x06;
    assert!(dhcp_payload_of_frame(&frame).is_none());
}

#[test]
fn exchange_runs_discover_offer_request_ack() {
    let (mut ex, discover) = DhcpExchange::start(CLIENT_MAC.to_vec());
    assert_eq!(ex.phase(), ExchangePhase::Discovering);
    assert_eq!(discover.xid, ex.xid());
    assert_eq!(message_type(&discover), Some(DHCP_DISCOVER));
    assert_eq!(ex.expected_type(), DHCP_OFFER);

    let mut offer = reply(DHCP_OFFER);
    offer.xid = ex.xid();
    offer.yiaddr = ip(192, 0, 2, 10);
    offer.server_id = Some(ip(192, 0, 2, 1));
    let request = match ex.on_outcome(ReceiveOutcome::Reply(offer)) {
        DhcpStep::Send(req) => req,
        DhcpStep::Wait => panic!("unexpected wait"),
        DhcpStep::Done(r) => panic!("unexpected end {r:?}"),
    };
    assert_eq!(ex.phase(), ExchangePhase::Requesting);
    assert_eq!(message_type(&request), Some(DHCP_REQUEST));
    assert_eq!(requested_ip(&request), Some(ip(192, 0, 2, 10)));
    assert_eq!(server_identifier(&request), Some(ip(192, 0, 2, 1)));
    assert_eq!(ex.expected_type(), DHCP_ACK);

    let mut ack = valid_ack();
    ack.xid = ex.xid();
    ack.server_id = Some(ip(192, 0, 2, 1));
    match ex.on_outcome(ReceiveOutcome::Reply(ack)) {
        DhcpStep::Done(Ok(lease)) => {
            assert_eq!(lease.ip, ip(192, 0, 2, 10));
            assert_eq!(lease.gateway, ip(192, 0, 2, 1));
        }
        _ => panic!("expected a lease"),
    }
    assert_eq!(ex.phase(), ExchangePhase::Finished);
}

#[test]
fn exchange_gives_up_after_three_silent_attempts() {
    let (mut ex, _) = DhcpExchange::start(CLIENT_MAC.to_vec());
    for _ in 0..2 {
        match ex.on_outcome(ReceiveOutcome::Timeout) {
            DhcpStep::Send(req) => assert_eq!(message_type(&req), Some(DHCP_DISCOVER)),
            DhcpStep::Wait => panic!("unexpected wait"),
            DhcpStep::Done(r) => panic!("unexpected end {r:?}"),
        }
    }
    match ex.on_outcome(ReceiveOutcome::Timeout) {
        DhcpStep::Done(Err(SrunError::DhcpTimeout { phase, attempts })) => {
            assert_eq!(phase, "offer");
            assert_eq!(attempts, 3);
        }
        _ => panic!("expected a timeout"),
    }
}

#[test]
fn exchange_ends_on_nak_and_on_bad_offers() {
    let (mut ex, _) = DhcpExchange::start(CLIENT_MAC.to_vec());
    let mut nak = reply(DHCP_NAK);
    nak.message = Some("no".to_string());
    match ex.on_outcome(ReceiveOutcome::Nak(nak)) {
        DhcpStep::Done(Err(SrunError::DhcpRejected(m))) => assert_eq!(m, "no"),
        _ => panic!("expected a rejection"),
    }

    let (mut ex, _) = DhcpExchange::start(CLIENT_MAC.to_vec());
    let mut offer = reply(DHCP_OFFER);
    offer.yiaddr = ip(192, 0, 2, 10);
    match ex.on_outcome(ReceiveOutcome::Reply(offer)) {
        DhcpStep::Done(Err(e)) => assert_eq!(dhcp_message(e), "missing Server Identifier in Offer"),
        _ => panic!("expected an error"),
    }

    let (mut ex, _) = DhcpExchange::start(CLIENT_MAC.to_vec());
    let mut offer = reply(DHCP_OFFER);
    offer.yiaddr = ip(192, 0, 2, 10);
    offer.server_id = Some(0);
    match ex.on_outcome(ReceiveOutcome::Reply(offer)) {
        DhcpStep::Done(Err(e)) => assert_eq!(dhcp_message(e), "DHCP Offer contained an unspecified Server Identifier"),
        _ => panic!("expected an error"),
    }
}

#[test]
fn encodings_are_framed_or_refused() {
    let f = frame_of_encoding(Ok(vec![1, 2, 3]), &CLIENT_MAC).unwrap();
    assert_eq!(f, build_eth_ipv4_udp(&[1, 2, 3], &CLIENT_MAC).unwrap());
    assert!(matches!(frame_of_encoding(Ok(vec![0; 65508]), &CLIENT_MAC), Err(SrunError::PacketBuild)));
    assert!(frame_of_encoding(Ok(vec![0; 65507]), &CLIENT_MAC).is_ok());
    match frame_of_encoding(Err("buffer full".to_string()), &CLIENT_MAC) {
        Err(SrunError::Dhcp(m)) => assert_eq!(m, "DHCP encode error: buffer full"),
        other => panic!("unexpected {other:?}"),
    }
    let framed = frame_with_checksums(&[7], &CLIENT_MAC, 0x1234, 0xabcd);
    assert_eq!(framed.len(), 14 + 20 + 8 + 1);
    assert_eq!(&framed[16..18], &[0, 29]);
    assert_eq!(&framed[24..26], &[0xab, 0xcd]);
    assert_eq!(&framed[34..42], &[0, 68, 0, 67, 0, 9, 0x12, 0x34]);
    assert_eq!(framed[42], 7);
}

#[test]
fn while_requesting_only_the_chosen_server_is_heard() {
    let (mut ex, _) = DhcpExchange::start(CLIENT_MAC.to_vec());
    let mut offer = reply(DHCP_OFFER);
    offer.xid = ex.xid();
    offer.yiaddr = ip(192, 0, 2, 10);
    offer.server_id = Some(ip(192, 0, 2, 1));
    assert!(matches!(ex.on_outcome(ReceiveOutcome::Reply(offer)), DhcpStep::Send(_)));

    let mut other_nak = reply(DHCP_NAK);
    other_nak.xid = ex.xid();
    other_nak.server_id = Some(ip(192, 0, 2, 2));
    assert_eq!(
        classify_reply_from(&other_nak, DHCP_ACK, ex.xid(), &CLIENT_MAC, Some(ip(192, 0, 2, 1))),
        ReplyDisposition::Ignore
    );
    assert!(matches!(ex.on_outcome(ReceiveOutcome::Nak(other_nak)), DhcpStep::Wait));
    assert_eq!(ex.phase(), ExchangePhase::Requesting);

    let mut other_ack = valid_ack();
    other_ack.xid = ex.xid();
    other_ack.server_id = Some(ip(192, 0, 2, 2));
    assert!(matches!(ex.on_outcome(ReceiveOutcome::Reply(other_ack)), DhcpStep::Wait));
    let mut anonymous_ack = valid_ack();
    anonymous_ack.xid = ex.xid();
    assert!(matches!(ex.on_outcome(ReceiveOutcome::Reply(anonymous_ack)), DhcpStep::Wait));
    assert_eq!(ex.phase(), ExchangePhase::Requesting);

    let mut nak = reply(DHCP_NAK);
    nak.xid = ex.xid();
    nak.server_id = Some(ip(192, 0, 2, 1));
    nak.message = Some("address in use".to_string());
    assert_eq!(
        classify_reply_from(&nak, DHCP_ACK, ex.xid(), &CLIENT_MAC, Some(ip(192, 0, 2, 1))),
        ReplyDisposition::Reject
    );
    match ex.on_outcome(ReceiveOutcome::Nak(nak)) {
        DhcpStep::Done(Err(SrunError::DhcpRejected(m))) => assert_eq!(m, "address in use"),
        _ => panic!("expected a rejection"),
    }
}

#[test]
fn frames_from_other_servers_do_not_settle_the_request() {
    let ack = DhcpRequest {
        xid: XID,
        flags: 0x8000,
        chaddr: CLIENT_MAC.to_vec(),
        options: vec![ClientOption::MessageType(DHCP_ACK), ClientOption::ServerIdentifier(ip(192, 0, 2, 1))],
    };
    let mut frame = dhcp_frame(&ack, &CLIENT_MAC).unwrap();
    to_client(&mut frame);
    match inspect_frame_from(&frame, DHCP_ACK, XID, &CLIENT_MAC, Some(ip(192, 0, 2, 1))) {
        Some(ReceiveOutcome::Reply(msg)) => assert_eq!(msg.server_id, Some(ip(192, 0, 2, 1))),
        _ => panic!("expected the chosen server's reply"),
    }
    assert!(inspect_frame_from(&frame, DHCP_ACK, XID, &CLIENT_MAC, Some(ip(192, 0, 2, 2))).is_none());
    assert!(inspect_frame_from(&frame, DHCP_ACK, XID, &CLIENT_MAC, None).is_some());
}

use netlink_packet_core::parse_ip;
use netlink_packet_core::DefaultNla;
use netlink_packet_core::NetlinkHeader;
use netlink_packet_core::NetlinkMessage;
use netlink_packet_core::NetlinkPayload;
use netlink_packet_netfilter::conntrack::ConntrackAttribute;
use netlink_packet_netfilter::conntrack::ConntrackMessage;
use netlink_packet_netfilter::conntrack::IPTuple;
use netlink_packet_netfilter::conntrack::ProtoInfo;
use netlink_packet_netfilter::conntrack::ProtoInfoTCP;
use netlink_packet_netfilter::conntrack::ProtoTuple;
use netlink_packet_netfilter::conntrack::Status as WireStatus;
use netlink_packet_netfilter::conntrack::Tuple as WireTuple;
use netlink_packet_netfilter::NetfilterHeader;
use netlink_packet_netfilter::NetfilterMessage;
use rconntrack::addr::IpAddress;
use rconntrack::attr::CtAttr;
use rconntrack::attr::CtMessage;
use rconntrack::attr::IpAttr;
use rconntrack::attr::ProtoAttr;
use rconntrack::attr::TupleAttr;
use rconntrack::error::Error;
use rconntrack::error::NetlinkError;
use rconntrack::event::Event;
use rconntrack::flow::Protocol;
use rconntrack::flow::Status;
use rconntrack::flow::TcpState;
use rconntrack::flow::Tuple;
use rconntrack::message::MessageBuilder;
use rconntrack::message::MessageType;
use rconntrack::request::Direction;
use rconntrack::request::GetParams;
use rconntrack::socket::recv_datagram;
use rconntrack::socket::recv_once_datagram;
use rconntrack::socket::Dump;
use rconntrack::socket::ScanEnd;
use rconntrack::socket::NfConntrackSocket;
use rconntrack::wire::encode;
use rconntrack::wire::scan_datagram;
use rconntrack::Family;
use rconntrack::Table;

fn wire_tuple(src: [u8; 4], dst: [u8; 4], proto: u8, sport: u16, dport: u16) -> Vec<WireTuple> {
    vec![
        WireTuple::Ip(vec![
            IPTuple::SourceAddress(parse_ip(&src).unwrap()),
            IPTuple::DestinationAddress(parse_ip(&dst).unwrap()),
        ]),
        WireTuple::Proto(vec![
            ProtoTuple::Protocol(proto.into()),
            ProtoTuple::SourcePort(sport),
            ProtoTuple::DestinationPort(dport),
        ]),
    ]
}

fn tcp_flow_attributes(mark: u32) -> Vec<ConntrackAttribute> {
    vec![
        ConntrackAttribute::CtaTupleOrig(wire_tuple([1, 1, 1, 1], [2, 2, 2, 2], 6, 1234, 2345)),
        ConntrackAttribute::CtaTupleReply(wire_tuple([3, 3, 3, 3], [4, 4, 4, 4], 6, 3456, 4567)),
        ConntrackAttribute::CtaProtoInfo(vec![ProtoInfo::TCP(vec![ProtoInfoTCP::State(3)])]),
        ConntrackAttribute::CtaMark(mark),
        ConntrackAttribute::Other(DefaultNla::new(11, vec![0, 0, 0, 1])),
        ConntrackAttribute::CtaTimeout(1000),
        ConntrackAttribute::CtaStatus(WireStatus::from_bits_retain(1 << 2)),
        ConntrackAttribute::Other(DefaultNla::new(12, vec![0, 0, 0, 9])),
    ]
}

fn frame_bytes(flags: u16, res_id: u16, msg: ConntrackMessage) -> Vec<u8> {
    let mut header = NetlinkHeader::default();
    header.flags = flags;
    let inner = NetfilterMessage::new(NetfilterHeader::new(2u8.into(), 0, res_id), msg);
    let mut frame = NetlinkMessage::new(header, NetlinkPayload::from(inner));
    frame.finalize();
    let mut bytes = vec![0u8; frame.buffer_len()];
    frame.serialize(&mut bytes);
    bytes
}

fn control_frame(message_type: u16, payload: &[u8]) -> Vec<u8> {
    let mut bytes = Vec::new();
    let len = (16 + payload.len()) as u32;
    bytes.extend_from_slice(&len.to_ne_bytes());
    bytes.extend_from_slice(&message_type.to_ne_bytes());
    bytes.extend_from_slice(&0u16.to_ne_bytes());
    bytes.extend_from_slice(&0u32.to_ne_bytes());
    bytes.extend_from_slice(&0u32.to_ne_bytes());
    bytes.extend_from_slice(payload);
    bytes
}

fn done_frame() -> Vec<u8> {
    control_frame(3, &0i32.to_ne_bytes())
}

fn error_frame(code: i32) -> Vec<u8> {
    let mut payload = Vec::new();
    payload.extend_from_slice(&code.to_ne_bytes());
    payload.extend_from_slice(&[0u8; 16]);
    control_frame(2, &payload)
}

fn v4(a: u8, b: u8, c: u8, d: u8) -> IpAddress {
    IpAddress::V4(u32::from_be_bytes([a, b, c, d]))
}

#[test]
fn datagram_with_one_flow_is_decoded() {
    let bytes = frame_bytes(0x400, 0, ConntrackMessage::New(tcp_flow_attributes(7)));
    let scan = scan_datagram(&bytes);
    assert!(matches!(scan.end, ScanEnd::Exhausted));
    assert_eq!(scan.messages.len(), 1);
    assert_eq!(scan.messages[0].flag, 0x400);
    let event = Event::from_message(&scan.messages[0]).unwrap();
    match event {
        Event::Flow(f) => {
            assert_eq!(f.event_type, MessageType::New);
            assert_eq!(f.original.src_addr, v4(1, 1, 1, 1));
            assert_eq!(f.original.dst_addr, v4(2, 2, 2, 2));
            assert_eq!(f.original.src_port, 1234);
            assert_eq!(f.original.dst_port, 2345);
            assert_eq!(f.reply.src_addr, v4(3, 3, 3, 3));
            assert_eq!(f.reply.dst_addr, v4(4, 4, 4, 4));
            assert_eq!(f.reply.src_port, 3456);
            assert_eq!(f.reply.dst_port, 4567);
            assert_eq!(f.protocol, Protocol::Tcp);
            assert_eq!(f.tcp_state, Some(TcpState::Established));
            assert_eq!(f.mark, 7);
            assert_eq!(f.use_count, 1);
            assert_eq!(f.timeout, 1000);
            assert_eq!(f.status, Status::assured());
        }
        _ => panic!("a flow is expected"),
    }
}

#[test]
fn datagram_keeps_the_order_of_its_frames() {
    let mut bytes = Vec::new();
    bytes.extend(frame_bytes(0, 0, ConntrackMessage::New(tcp_flow_attributes(1))));
    bytes.extend(frame_bytes(0, 0, ConntrackMessage::New(tcp_flow_attributes(2))));
    bytes.extend(frame_bytes(0, 0, ConntrackMessage::New(tcp_flow_attributes(3))));
    let batch = recv_once_datagram(&bytes).unwrap();
    let marks: Vec<u32> = batch
        .iter()
        .map(|m| match Event::from_message(m).unwrap() {
            Event::Flow(f) => f.mark,
            _ => panic!("a flow is expected"),
        })
        .collect();
    assert_eq!(marks, vec![1, 2, 3]);
}

#[test]
fn end_of_dump_ends_the_sequence_after_the_batch() {
    let mut bytes = Vec::new();
    bytes.extend(frame_bytes(0, 0, ConntrackMessage::New(tcp_flow_attributes(1))));
    bytes.extend(done_frame());
    bytes.extend(frame_bytes(0, 0, ConntrackMessage::New(tcp_flow_attributes(2))));
    let mut stream = NfConntrackSocket::new();
    assert!(stream.is_open());
    let first = stream.poll_next(&bytes);
    let batch = first.unwrap().unwrap();
    assert_eq!(batch.len(), 1);
    assert!(!stream.is_open());
    assert!(stream.poll_next(&bytes).is_none());
}

#[test]
fn end_of_dump_alone_ends_the_sequence() {
    let mut stream = NfConntrackSocket::new();
    assert!(stream.poll_next(&done_frame()).is_none());
    assert!(!stream.is_open());
}

#[test]
fn error_payload_is_passed_through() {
    let mut stream = NfConntrackSocket::new();
    let item = stream.poll_next(&error_frame(-1));
    match item {
        Some(Err(Error::NetlinkMessage(e))) => {
            assert_eq!(e, NetlinkError::OperationNotPermitted)
        }
        _ => panic!("an error of the kernel is expected"),
    }
    assert!(stream.is_open());
    match recv_once_datagram(&error_frame(-17)) {
        Err(Error::NetlinkMessage(e)) => assert_eq!(e, NetlinkError::AlreadyExists),
        _ => panic!("an error of the kernel is expected"),
    }
    match recv_once_datagram(&error_frame(-4)) {
        Err(Error::NetlinkMessage(e)) => assert_eq!(e, NetlinkError::Other(-4)),
        _ => panic!("an error of the kernel is expected"),
    }
}

#[test]
fn bytes_that_are_no_frame_are_refused() {
    let bytes = [1u8, 2, 3];
    assert!(matches!(recv_once_datagram(&bytes), Err(Error::Netfilter(_))));
    let mut truncated = frame_bytes(0, 0, ConntrackMessage::New(tcp_flow_attributes(1)));
    truncated.truncate(20);
    assert!(matches!(recv_once_datagram(&truncated), Err(Error::Netfilter(_))));
    let mut stream = NfConntrackSocket::new();
    assert!(matches!(stream.poll_next(&bytes), Some(Err(Error::Netfilter(_)))));
    assert!(stream.is_open());
}

#[test]
fn empty_datagram_is_an_empty_batch() {
    assert_eq!(recv_once_datagram(&[]).unwrap().len(), 0);
}

#[test]
fn whole_dump_is_read_over_datagrams() {
    let first = frame_bytes(0, 0, ConntrackMessage::New(tcp_flow_attributes(1)));
    let mut second = frame_bytes(0, 0, ConntrackMessage::New(tcp_flow_attributes(2)));
    second.extend(done_frame());
    let sofar = match recv_datagram(Vec::new(), &first) {
        Dump::More(v) => v,
        Dump::Finished(_) => panic!("the dump is not over"),
    };
    assert_eq!(sofar.len(), 1);
    match recv_datagram(sofar, &second) {
        Dump::Finished(Ok(v)) => assert_eq!(v.len(), 2),
        _ => panic!("the dump is over"),
    }
}

#[test]
fn error_in_a_dump_gives_what_was_read_or_the_error() {
    let first = frame_bytes(0, 0, ConntrackMessage::New(tcp_flow_attributes(1)));
    let sofar = match recv_datagram(Vec::new(), &first) {
        Dump::More(v) => v,
        Dump::Finished(_) => panic!("the dump is not over"),
    };
    match recv_datagram(sofar, &error_frame(-2)) {
        Dump::Finished(Ok(v)) => assert_eq!(v.len(), 1),
        _ => panic!("the messages so far are expected"),
    }
    match recv_datagram(Vec::new(), &error_frame(-2)) {
        Dump::Finished(Err(Error::NetlinkMessage(e))) => assert_eq!(e, NetlinkError::NoEntry),
        _ => panic!("the error is expected"),
    }
}

#[test]
fn delete_message_is_a_destroyed_flow() {
    let bytes = frame_bytes(0x400, 0, ConntrackMessage::Delete(tcp_flow_attributes(1)));
    let batch = recv_once_datagram(&bytes).unwrap();
    match Event::from_message(&batch[0]).unwrap() {
        Event::Flow(f) => assert_eq!(f.event_type, MessageType::Destroy),
        _ => panic!("a flow is expected"),
    }
}

#[test]
fn new_message_without_create_flag_is_an_update() {
    let bytes = frame_bytes(0, 0, ConntrackMessage::New(tcp_flow_attributes(1)));
    let batch = recv_once_datagram(&bytes).unwrap();
    match Event::from_message(&batch[0]).unwrap() {
        Event::Flow(f) => assert_eq!(f.event_type, MessageType::Update),
        _ => panic!("a flow is expected"),
    }
}

#[test]
fn statistics_of_a_cpu_are_decoded() {
    let attributes = vec![
        DefaultNla::new(1, 99u32.to_be_bytes().to_vec()),
        DefaultNla::new(2, 42u32.to_be_bytes().to_vec()),
        DefaultNla::new(3, 98u32.to_be_bytes().to_vec()),
        DefaultNla::new(4, 3u32.to_be_bytes().to_vec()),
        DefaultNla::new(8, 10u32.to_be_bytes().to_vec()),
    ];
    let bytes = frame_bytes(0, 2, ConntrackMessage::Other { message_type: 4, attributes });
    let batch = recv_once_datagram(&bytes).unwrap();
    assert_eq!(batch[0].res_id, 2);
    match Event::from_message(&batch[0]).unwrap() {
        Event::Stats(s) => {
            assert_eq!(s.cpu, 2);
            assert_eq!(s.found, 42);
            assert_eq!(s.invalid, 3);
            assert_eq!(s.insert, 10);
            assert_eq!(s.searched, None);
            assert_eq!(s.new, None);
            assert_eq!(s.drop, 0);
        }
        _ => panic!("statistics are expected"),
    }
}

#[test]
fn count_is_decoded() {
    let attributes = vec![DefaultNla::new(1, 321u32.to_be_bytes().to_vec())];
    let bytes = frame_bytes(0, 0, ConntrackMessage::Other { message_type: 5, attributes });
    let batch = recv_once_datagram(&bytes).unwrap();
    assert!(matches!(Event::from_message(&batch[0]).unwrap(), Event::Count(321)));
}

#[test]
fn list_request_is_encoded_and_read_back() {
    let frame = MessageBuilder::new(Family::Ipv6, Table::Conntrack).res_id(5).list();
    let bytes = encode(&frame);
    assert_eq!(bytes.len(), 20);
    assert_eq!(&bytes[0..4], &20u32.to_ne_bytes());
    assert_eq!(&bytes[4..6], &0x0101u16.to_ne_bytes());
    assert_eq!(&bytes[6..8], &0x0301u16.to_ne_bytes());
    assert_eq!(bytes[16], 10);
    assert_eq!(bytes[17], 0);
    assert_eq!(&bytes[18..20], &5u16.to_be_bytes());
    let scan = scan_datagram(&bytes);
    assert_eq!(scan.messages.len(), 1);
    assert_eq!(scan.messages[0].flag, 0x301);
    assert_eq!(scan.messages[0].res_id, 5);
    assert_eq!(scan.messages[0].msg, CtMessage::Get(vec![]));
}

#[test]
fn requests_without_attributes_have_their_types() {
    let dying = encode(&MessageBuilder::new(Family::Ipv4, Table::Dying).list());
    assert_eq!(&dying[4..6], &0x0106u16.to_ne_bytes());
    let unconfirmed = encode(&MessageBuilder::new(Family::Ipv4, Table::Unconfirmed).list());
    assert_eq!(&unconfirmed[4..6], &0x0107u16.to_ne_bytes());
    let zero = encode(&MessageBuilder::new(Family::Ipv4, Table::Conntrack).zero().list());
    assert_eq!(&zero[4..6], &0x0103u16.to_ne_bytes());
    let count = encode(&MessageBuilder::new(Family::Unspec, Table::Conntrack).count());
    assert_eq!(&count[4..6], &0x0105u16.to_ne_bytes());
    assert_eq!(&count[6..8], &0x0001u16.to_ne_bytes());
    assert_eq!(count[16], 0);
    let stat = encode(&MessageBuilder::new(Family::Unspec, Table::Conntrack).stat());
    assert_eq!(&stat[4..6], &0x0104u16.to_ne_bytes());
    assert_eq!(&stat[6..8], &0x0301u16.to_ne_bytes());
}

#[test]
fn get_request_is_encoded_and_read_back() {
    let tuple = Tuple {
        src_addr: v4(10, 0, 0, 1),
        dst_addr: v4(10, 0, 0, 2),
        src_port: 40000,
        dst_port: 443,
    };
    let params = GetParams::new(Protocol::Tcp, Direction::Reply(tuple));
    let frame = MessageBuilder::new(Family::Ipv4, Table::Conntrack).get(&params);
    let bytes = encode(&frame);
    let scan = scan_datagram(&bytes);
    assert_eq!(scan.messages.len(), 1);
    assert_eq!(scan.messages[0].flag, 0x001);
    let expected = CtMessage::Get(vec![CtAttr::TupleReply(vec![
        TupleAttr::Ip(vec![IpAttr::Src(v4(10, 0, 0, 1)), IpAttr::Dst(v4(10, 0, 0, 2))]),
        TupleAttr::Proto(vec![
            ProtoAttr::Number(6),
            ProtoAttr::SrcPort(40000),
            ProtoAttr::DstPort(443),
        ]),
    ])]);
    assert_eq!(scan.messages[0].msg, expected);
    assert_eq!(params.attrs(), vec![CtAttr::TupleReply(vec![
        TupleAttr::Ip(vec![IpAttr::Src(v4(10, 0, 0, 1)), IpAttr::Dst(v4(10, 0, 0, 2))]),
        TupleAttr::Proto(vec![
            ProtoAttr::Number(6),
            ProtoAttr::SrcPort(40000),
            ProtoAttr::DstPort(443),
        ]),
    ])]);
}

#[test]
fn get_request_with_ipv6_addresses_is_read_back() {
    let src = IpAddress::V6(0xfd00_0000_0000_0000_0000_0000_0000_0001);
    let dst = IpAddress::V6(0xfd00_0000_0000_0000_0000_0000_0000_0002);
    let tuple = Tuple { src_addr: src, dst_addr: dst, src_port: 1, dst_port: 2 };
    let params = GetParams::new(Protocol::Udp, Direction::Orig(tuple));
    let bytes = encode(&MessageBuilder::new(Family::Ipv6, Table::Conntrack).get(&params));
    let scan = scan_datagram(&bytes);
    let expected = CtMessage::Get(vec![CtAttr::TupleOrig(vec![
        TupleAttr::Ip(vec![IpAttr::Src(src), IpAttr::Dst(dst)]),
        TupleAttr::Proto(vec![
            ProtoAttr::Number(17),
            ProtoAttr::SrcPort(1),
            ProtoAttr::DstPort(2),
        ]),
    ])]);
    assert_eq!(scan.messages[0].msg, expected);
}

#[test]
fn frame_of_unaligned_length_is_refused() {
    let bytes = control_frame(3, &[0, 0, 0, 0, 0]);
    assert_eq!(bytes.len(), 21);
    assert!(matches!(recv_once_datagram(&bytes), Err(Error::Netfilter(_))));
    let mut two = frame_bytes(0, 0, ConntrackMessage::New(tcp_flow_attributes(1)));
    two.extend(bytes);
    let scan = scan_datagram(&two);
    assert_eq!(scan.messages.len(), 1);
    assert!(matches!(scan.end, ScanEnd::Broken(_)));
}

#[test]
fn frame_longer_than_the_datagram_is_refused() {
    let mut bytes = done_frame();
    bytes[0] = 24;
    assert!(matches!(recv_once_datagram(&bytes), Err(Error::Netfilter(_))));
    let mut short = done_frame();
    short[0] = 12;
    assert!(matches!(recv_once_datagram(&short), Err(Error::Netfilter(_))));
}

#[test]
fn end_of_dump_without_payload_is_an_end() {
    let mut bytes = control_frame(3, &[]);
    assert_eq!(bytes.len(), 16);
    bytes.extend(frame_bytes(0, 0, ConntrackMessage::New(tcp_flow_attributes(1))));
    let scan = scan_datagram(&bytes);
    assert_eq!(scan.messages.len(), 0);
    assert!(matches!(scan.end, ScanEnd::Done));
}

#[test]
fn frames_that_are_no_conntrack_messages_are_passed_over() {
    let mut bytes = control_frame(1, &[]);
    bytes.extend(control_frame(4, &[1, 2, 3, 4]));
    bytes.extend(frame_bytes(0, 0, ConntrackMessage::New(tcp_flow_attributes(5))));
    let mut log = control_frame(0x0400, &[2, 0, 0, 0]);
    log[4] = 0;
    log[5] = 4;
    bytes.extend(log);
    let scan = scan_datagram(&bytes);
    assert!(matches!(scan.end, ScanEnd::Exhausted));
    assert_eq!(scan.messages.len(), 1);
}

#[test]
fn addresses_of_both_families_are_read_from_a_message() {
    let six = |last: u8| {
        let mut b = [0u8; 16];
        b[0] = 0xfd;
        b[15] = last;
        parse_ip(&b).unwrap()
    };
    let tuple = vec![
        WireTuple::Ip(vec![IPTuple::SourceAddress(six(1)), IPTuple::DestinationAddress(six(2))]),
        WireTuple::Proto(vec![
            ProtoTuple::Protocol(17u8.into()),
            ProtoTuple::SourcePort(1),
            ProtoTuple::DestinationPort(2),
        ]),
    ];
    let attributes = vec![
        ConntrackAttribute::CtaTupleOrig(tuple.clone()),
        ConntrackAttribute::CtaTupleReply(tuple),
        ConntrackAttribute::CtaMark(0),
        ConntrackAttribute::Other(DefaultNla::new(11, vec![0, 0, 0, 3])),
        ConntrackAttribute::CtaTimeout(10),
        ConntrackAttribute::CtaStatus(WireStatus::from_bits_retain(0xffff_ffff)),
    ];
    let bytes = frame_bytes(0, 0, ConntrackMessage::New(attributes));
    let batch = recv_once_datagram(&bytes).unwrap();
    match Event::from_message(&batch[0]).unwrap() {
        Event::Flow(f) => {
            assert_eq!(f.original.src_addr, IpAddress::V6((0xfd << 120) + 1));
            assert_eq!(f.reply.dst_addr, IpAddress::V6((0xfd << 120) + 2));
            assert_eq!(f.protocol, Protocol::Udp);
            assert_eq!(f.tcp_state, None);
            assert_eq!(f.status.to_u16(), 0x7fff);
            assert_eq!(f.use_count, 3);
        }
        _ => panic!("a flow is expected"),
    }
}

#[test]
fn attributes_that_are_not_read_are_kept_apart() {
    let tuple = vec![
        WireTuple::Other(DefaultNla::new(9, vec![1, 2, 3, 4])),
        WireTuple::Ip(vec![
            IPTuple::Other(DefaultNla::new(7, vec![9, 9, 9, 9, 9, 9])),
            IPTuple::SourceAddress(parse_ip(&[1, 1, 1, 1]).unwrap()),
            IPTuple::DestinationAddress(parse_ip(&[2, 2, 2, 2]).unwrap()),
        ]),
        WireTuple::Proto(vec![
            ProtoTuple::Other(DefaultNla::new(8, vec![])),
            ProtoTuple::Protocol(6u8.into()),
            ProtoTuple::SourcePort(1),
            ProtoTuple::DestinationPort(2),
        ]),
    ];
    let attributes = vec![
        ConntrackAttribute::CtaTupleOrig(tuple.clone()),
        ConntrackAttribute::CtaTupleReply(tuple),
        ConntrackAttribute::CtaProtoInfo(vec![
            ProtoInfo::Other(DefaultNla::new(2, vec![1, 2, 3, 4])),
            ProtoInfo::TCP(vec![
                ProtoInfoTCP::OriginalWindowScale(7),
                ProtoInfoTCP::State(8),
                ProtoInfoTCP::ReplyWindowScale(7),
                ProtoInfoTCP::Other(DefaultNla::new(9, vec![0, 0, 0, 0])),
            ]),
        ]),
        ConntrackAttribute::CtaMark(0),
        ConntrackAttribute::Other(DefaultNla::new(11, vec![0, 0, 0, 3])),
        ConntrackAttribute::Other(DefaultNla::new(30, vec![1, 2, 3, 4, 5, 6, 7, 8])),
        ConntrackAttribute::CtaTimeout(10),
        ConntrackAttribute::CtaStatus(WireStatus::from_bits_retain(8)),
    ];
    let bytes = frame_bytes(0, 0, ConntrackMessage::New(attributes));
    let scan = scan_datagram(&bytes);
    assert_eq!(scan.messages.len(), 1);
    match &scan.messages[0].msg {
        CtMessage::New(attrs) => {
            assert_eq!(attrs.len(), 8);
            match &attrs[0] {
                CtAttr::TupleOrig(groups) => {
                    assert_eq!(groups[0], TupleAttr::Other);
                    assert_eq!(groups[1], TupleAttr::Ip(vec![
                        IpAttr::Other,
                        IpAttr::Src(v4(1, 1, 1, 1)),
                        IpAttr::Dst(v4(2, 2, 2, 2)),
                    ]));
                    assert_eq!(groups[2], TupleAttr::Proto(vec![
                        ProtoAttr::Other,
                        ProtoAttr::Number(6),
                        ProtoAttr::SrcPort(1),
                        ProtoAttr::DstPort(2),
                    ]));
                }
                _ => panic!("the original tuple is expected"),
            }
            assert_eq!(attrs[3], CtAttr::Mark(0));
            assert_eq!(attrs[6], CtAttr::Timeout(10));
            assert_eq!(attrs[7], CtAttr::Status(8));
        }
        _ => panic!("a message of a new flow is expected"),
    }
    match Event::from_message(&scan.messages[0]).unwrap() {
        Event::Flow(f) => {
            assert_eq!(f.tcp_state, Some(TcpState::Close));
            assert_eq!(f.use_count, 3);
        }
        _ => panic!("a flow is expected"),
    }
}

#[test]
fn requests_that_are_read_back_are_no_events() {
    let count = encode(&MessageBuilder::new(Family::Unspec, Table::Conntrack).count());
    let batch = recv_once_datagram(&count).unwrap();
    match Event::from_message(&batch[0]) {
        Err(Error::Message(s)) => assert_eq!(s, "unknown message type: 5"),
        _ => panic!("an error is expected"),
    }
    let stat = encode(&MessageBuilder::new(Family::Unspec, Table::Conntrack).stat());
    let batch = recv_once_datagram(&stat).unwrap();
    match Event::from_message(&batch[0]) {
        Err(Error::Message(s)) => assert_eq!(s, "unknown message type: 4"),
        _ => panic!("an error is expected"),
    }
    let list = encode(&MessageBuilder::new(Family::Ipv4, Table::Conntrack).list());
    let batch = recv_once_datagram(&list).unwrap();
    match Event::from_message(&batch[0]) {
        Err(Error::Message(s)) => assert_eq!(s, "unknown message type: 1"),
        _ => panic!("an error is expected"),
    }
}

use rconntrack::addr::Cidr;
use rconntrack::addr::IpAddress;
use rconntrack::attr::CtMessage;
use rconntrack::attr::RawAttr;
use rconntrack::deliver;
use rconntrack::error::Error;
use rconntrack::error::NetlinkError;
use rconntrack::event::Event;
use rconntrack::events_of;
use rconntrack::flow::Flow;
use rconntrack::flow::FlowBuilder;
use rconntrack::flow::FlowError;
use rconntrack::flow::Protocol;
use rconntrack::flow::Status;
use rconntrack::flow::TcpState;
use rconntrack::flow::TupleBuilder;
use rconntrack::message::Message;
use rconntrack::message::MessageBuilder;
use rconntrack::message::MessageType;
use rconntrack::request::Filter;
use rconntrack::request::Request;
use rconntrack::request::RequestMeta;
use rconntrack::request::RequestOperation;
use rconntrack::select;
use rconntrack::socket::ConntrackSocket;
use rconntrack::socket::MockConntrackSocket;
use rconntrack::stats::Stats;
use rconntrack::Conntrack;
use rconntrack::ConntrackOption;
use rconntrack::Family;
use rconntrack::Table;

fn v4(a: u8, b: u8, c: u8, d: u8) -> IpAddress {
    IpAddress::V4(u32::from_be_bytes([a, b, c, d]))
}

fn v6(last: u16) -> IpAddress {
    IpAddress::V6(0xfd00_0000_0000_0000_0000_0000_0000_0000 + last as u128)
}

fn ipv4_tcp_flow() -> Flow {
    FlowBuilder::default()
        .event_type(MessageType::Update)
        .original(
            TupleBuilder::default()
                .src_addr(v4(1, 1, 1, 1))
                .dst_addr(v4(2, 2, 2, 2))
                .src_port(1234)
                .dst_port(2345)
                .build()
                .unwrap(),
        )
        .reply(
            TupleBuilder::default()
                .src_addr(v4(3, 3, 3, 3))
                .dst_addr(v4(4, 4, 4, 4))
                .src_port(3456)
                .dst_port(4567)
                .build()
                .unwrap(),
        )
        .protocol(Protocol::Tcp)
        .mark(1)
        .use_count(1)
        .tcp_state(TcpState::Established)
        .timeout(1000)
        .status(Status::assured())
        .build()
        .unwrap()
}

fn ipv6_udp_flow() -> Flow {
    FlowBuilder::default()
        .event_type(MessageType::Update)
        .original(
            TupleBuilder::default()
                .src_addr(v6(1))
                .dst_addr(v6(2))
                .src_port(1234)
                .dst_port(2345)
                .build()
                .unwrap(),
        )
        .reply(
            TupleBuilder::default()
                .src_addr(v6(3))
                .dst_addr(v6(4))
                .src_port(3456)
                .dst_port(4567)
                .build()
                .unwrap(),
        )
        .protocol(Protocol::Udp)
        .mark(1)
        .use_count(1)
        .timeout(1000)
        .status(Status::assured())
        .build()
        .unwrap()
}

fn five_flows() -> Conntrack<MockConntrackSocket> {
    let base_ipv4_tcp_flow = ipv4_tcp_flow();
    let base_ipv6_udp_flow = ipv6_udp_flow();
    let mut ipv4_tcp_time_wait = base_ipv4_tcp_flow;
    ipv4_tcp_time_wait.tcp_state = Some(TcpState::TimeWait);
    let mut ipv4_tcp_seen_reply = base_ipv4_tcp_flow;
    ipv4_tcp_seen_reply.status = Status::seen_reply();
    let mut ipv4_tcp_another_addr = base_ipv4_tcp_flow;
    ipv4_tcp_another_addr.original.src_addr = v4(1, 1, 1, 2);
    let ipv4_flows = vec![
        base_ipv4_tcp_flow,
        ipv4_tcp_time_wait,
        ipv4_tcp_seen_reply,
        ipv4_tcp_another_addr,
    ];
    let ipv6_flows = vec![base_ipv6_udp_flow];
    let mock_socket = MockConntrackSocket::with_flow(ipv4_flows, ipv6_flows).unwrap();
    Conntrack::with_socket(mock_socket)
}

fn drain(ct: &mut Conntrack<MockConntrackSocket>) -> Vec<Event> {
    let mut all = Vec::new();
    while let Some(batch) = ct.poll_next() {
        all.extend(batch.unwrap());
    }
    all
}

fn flows(events: Vec<Event>) -> Vec<Flow> {
    events
        .into_iter()
        .map(|e| match e {
            Event::Flow(f) => f,
            _ => panic!("a flow is expected"),
        })
        .collect()
}

#[test]
fn test_conntrack_poll_by_poll() {
    let mut ct = five_flows();
    ct.request(Request::new(
        RequestMeta::default().family(Family::Unspec),
        RequestOperation::List(None),
    ))
    .unwrap();
    assert_eq!(drain(&mut ct).len(), 5);

    // filter family
    ct.request(Request::new(RequestMeta::default(), RequestOperation::List(None))).unwrap();
    assert_eq!(drain(&mut ct).len(), 4);

    // filter l4 protocol
    ct.request(Request::new(
        RequestMeta::default().family(Family::Unspec),
        RequestOperation::List(Some(Filter::default().protocol(Protocol::Udp))),
    ))
    .unwrap();
    assert_eq!(drain(&mut ct).len(), 1);

    // filter orig_src_addr
    ct.request(Request::new(
        RequestMeta::default().family(Family::Unspec),
        RequestOperation::List(Some(
            Filter::default().orig_src_addr(Cidr::parse("1.1.1.2/32").unwrap()),
        )),
    ))
    .unwrap();
    assert_eq!(drain(&mut ct).len(), 1);

    // filter tcp_state and status
    ct.request(Request::new(
        RequestMeta::default().family(Family::Unspec),
        RequestOperation::List(Some(
            Filter::default().tcp_state(TcpState::TimeWait).status(Status::assured()),
        )),
    ))
    .unwrap();
    assert_eq!(drain(&mut ct).len(), 1);

    // no matched flows
    ct.request(Request::new(
        RequestMeta::default().family(Family::Ipv6),
        RequestOperation::List(Some(Filter::default().protocol(Protocol::Tcp))),
    ))
    .unwrap();
    assert_eq!(drain(&mut ct).len(), 0);
}

#[test]
fn test_mock_conntrack_socket_poll() {
    let empty = |n: usize| -> Vec<Message> {
        (0..n).map(|_| Message::new(CtMessage::New(vec![]), 0, 0)).collect()
    };
    let mut mock_socket = MockConntrackSocket::with_event(empty(5), empty(3));
    let mut read = 0;
    mock_socket.send(MessageBuilder::new(Family::Unspec, Table::Conntrack).list()).unwrap();
    while let Some(msg) = mock_socket.poll_next() {
        assert_eq!(msg.unwrap().len(), 1);
        read += 1;
    }
    assert_eq!(8, read);
}

#[test]
fn list_with_state_and_status_gives_the_one_flow() {
    let mut ct = five_flows();
    ct.request(Request::new(
        RequestMeta::default().family(Family::Unspec),
        RequestOperation::List(Some(
            Filter::default()
                .family(Family::Unspec)
                .tcp_state(TcpState::TimeWait)
                .status(Status::assured()),
        )),
    ))
    .unwrap();
    let got = flows(drain(&mut ct));
    assert_eq!(got.len(), 1);
    assert_eq!(got[0].tcp_state, Some(TcpState::TimeWait));
    assert_eq!(got[0].status, Status::assured());
    assert_eq!(got[0].original.src_addr, v4(1, 1, 1, 1));
}

#[test]
fn list_by_family() {
    let mut ct = five_flows();
    let unspec = RequestMeta::default().family(Family::Unspec);
    ct.request(Request::new(
        unspec,
        RequestOperation::List(Some(Filter::default().family(Family::Unspec))),
    ))
    .unwrap();
    assert_eq!(drain(&mut ct).len(), 5);
    ct.request(Request::new(
        unspec,
        RequestOperation::List(Some(Filter::default().family(Family::Ipv4))),
    ))
    .unwrap();
    assert_eq!(drain(&mut ct).len(), 4);
    ct.request(Request::new(
        unspec,
        RequestOperation::List(Some(
            Filter::default().family(Family::Ipv6).protocol(Protocol::Tcp),
        )),
    ))
    .unwrap();
    assert_eq!(drain(&mut ct).len(), 0);
}

#[test]
fn list_by_block_gives_the_one_flow() {
    let mut ct = five_flows();
    ct.request(Request::new(
        RequestMeta::default().family(Family::Unspec),
        RequestOperation::List(Some(
            Filter::default().orig_src_addr(Cidr::parse("1.1.1.2/32").unwrap()),
        )),
    ))
    .unwrap();
    let got = flows(drain(&mut ct));
    assert_eq!(got.len(), 1);
    assert_eq!(got[0].original.src_addr, v4(1, 1, 1, 2));
}

#[test]
fn flows_come_in_the_order_of_the_transport() {
    let mut ct = five_flows();
    ct.request(Request::new(
        RequestMeta::default().family(Family::Unspec),
        RequestOperation::List(None),
    ))
    .unwrap();
    let got = flows(drain(&mut ct));
    assert_eq!(got[0], ipv4_tcp_flow());
    assert_eq!(got[1].tcp_state, Some(TcpState::TimeWait));
    assert_eq!(got[2].status, Status::seen_reply());
    assert_eq!(got[3].original.src_addr, v4(1, 1, 1, 2));
    assert_eq!(got[4], ipv6_udp_flow());
}

#[test]
fn mock_refuses_what_is_out_of_turn() {
    let mut mock = MockConntrackSocket::new();
    match mock.poll_next() {
        Some(Err(Error::Recv(s))) => assert_eq!(s, "request is not received yet"),
        _ => panic!("an error is expected"),
    }
    mock.send(MessageBuilder::new(Family::Ipv4, Table::Conntrack).list()).unwrap();
    match mock.send(MessageBuilder::new(Family::Ipv4, Table::Conntrack).list()) {
        Err(Error::Recv(s)) => assert_eq!(s, "request is already received"),
        _ => panic!("an error is expected"),
    }
    match mock.poll_next() {
        Some(Err(Error::Poll(s))) => assert_eq!(s, "empty"),
        _ => panic!("an error is expected"),
    }
    assert_eq!(mock.recv().unwrap().len(), 0);
    assert_eq!(mock.recv_once().unwrap().len(), 0);
}

#[test]
fn mock_answers_each_family_from_its_list() {
    let batch = |n: usize| -> Vec<Message> {
        (0..n).map(|i| Message::new(CtMessage::New(vec![]), i as u16, 0)).collect()
    };
    let mut mock = MockConntrackSocket::with_event(batch(2), batch(3));
    mock.send(MessageBuilder::new(Family::Ipv6, Table::Conntrack).list()).unwrap();
    let mut flags = Vec::new();
    while let Some(b) = mock.poll_next() {
        flags.push(b.unwrap()[0].flag);
    }
    assert_eq!(flags, vec![0, 1, 2]);
    mock.send(MessageBuilder::new(Family::Ipv4, Table::Conntrack).list()).unwrap();
    let mut n = 0;
    while let Some(b) = mock.poll_next() {
        b.unwrap();
        n += 1;
    }
    assert_eq!(n, 2);
    let mut only_six = MockConntrackSocket::with_event(batch(0), batch(1));
    only_six.send(MessageBuilder::new(Family::Ipv4, Table::Conntrack).list()).unwrap();
    assert!(matches!(only_six.poll_next(), Some(Err(Error::Poll(_)))));
}

#[test]
fn mock_has_no_message_for_a_tcp_flow_without_state() {
    let mut flow = ipv4_tcp_flow();
    flow.tcp_state = None;
    match MockConntrackSocket::with_flow(vec![ipv4_tcp_flow(), flow], vec![]) {
        Err(Error::Flow(FlowError::MissingField(name))) => assert_eq!(name, "tcp_state"),
        _ => panic!("a missing field is expected"),
    }
}

#[test]
fn event_subscription_sends_nothing() {
    let mut ct = Conntrack::with_socket(MockConntrackSocket::new());
    let filter = Filter::default().protocol(Protocol::Tcp);
    let req = Request::new(RequestMeta::default(), RequestOperation::Event(Some(filter)));
    assert!(req.message().unwrap().is_none());
    assert_eq!(req.op.group().bits(), 7);
    ct.request(req).unwrap();
    assert_eq!(ct.filter().unwrap().protocol, Some(Protocol::Tcp));
    assert!(matches!(ct.poll_next(), Some(Err(Error::Recv(_)))));
    assert_eq!(ct.recv_once().unwrap().len(), 0);
}

#[test]
fn groups_of_the_operations() {
    assert_eq!(RequestOperation::Count.group().bits(), 0);
    assert_eq!(RequestOperation::Stat.group().bits(), 0);
    assert_eq!(RequestOperation::List(None).group().bits(), 1);
    assert_eq!(ConntrackOption::default().flow_event_group().bits(), 1);
    let opt = ConntrackOption::default().set_flow_event_group(RequestOperation::Event(None).group());
    assert!(opt.flow_event_group().has(MessageType::New));
    assert!(opt.flow_event_group().has(MessageType::Update));
    assert!(opt.flow_event_group().has(MessageType::Destroy));
}

#[test]
fn events_that_are_no_flows_pass_without_a_filter_only() {
    let events = vec![
        Event::Count(3),
        Event::Flow(ipv4_tcp_flow()),
        Event::Stats(Stats::from_nlas(1, &vec![])),
        Event::Flow(ipv6_udp_flow()),
    ];
    assert_eq!(select(&None, events.clone()), events);
    let udp = Some(Filter::default().protocol(Protocol::Udp));
    assert_eq!(select(&udp, events.clone()), vec![Event::Flow(ipv6_udp_flow())]);
    assert_eq!(select(&Some(Filter::default()), events.clone()), vec![
        Event::Flow(ipv4_tcp_flow()),
        Event::Flow(ipv6_udp_flow()),
    ]);
}

#[test]
fn one_message_that_means_nothing_fails_the_batch() {
    let good = Message::new(ipv4_tcp_flow().to_message().unwrap(), 0x400, 0);
    let bad = Message::new(CtMessage::Get(vec![]), 0, 0);
    match events_of(&vec![good.clone(), bad, good.clone()]) {
        Err(Error::Message(s)) => assert_eq!(s, "unknown message type: 1"),
        _ => panic!("an error is expected"),
    }
    let events = events_of(&vec![good.clone(), good]).unwrap();
    assert_eq!(events.len(), 2);
    match events[0] {
        Event::Flow(f) => assert_eq!(f.event_type, MessageType::New),
        _ => panic!("a flow is expected"),
    }
}

#[test]
fn items_of_the_transport_are_delivered() {
    assert!(deliver(&None, None).is_none());
    match deliver(&None, Some(Err(Error::NetlinkMessage(NetlinkError::IO)))) {
        Some(Err(Error::NetlinkMessage(e))) => assert_eq!(e, NetlinkError::IO),
        _ => panic!("the error is expected"),
    }
    let good = Message::new(ipv4_tcp_flow().to_message().unwrap(), 0, 0);
    let udp = Some(Filter::default().protocol(Protocol::Udp));
    assert_eq!(deliver(&udp, Some(Ok(vec![good.clone()]))).unwrap().unwrap().len(), 0);
    assert_eq!(deliver(&None, Some(Ok(vec![good]))).unwrap().unwrap().len(), 1);
    let other = Message::new(CtMessage::Other { message_type: 9, attributes: vec![] }, 0, 0);
    match deliver(&None, Some(Ok(vec![other]))) {
        Some(Err(Error::Message(s))) => assert_eq!(s, "unknown message type: 9"),
        _ => panic!("an error is expected"),
    }
}

#[test]
fn messages_of_counters_are_events() {
    let count = Message::new(
        CtMessage::Other {
            message_type: 5,
            attributes: vec![
                RawAttr { kind: 2, value: vec![0, 0, 0, 1] },
                RawAttr { kind: 1, value: vec![0, 0] },
                RawAttr::of_u32(1, 77),
                RawAttr::of_u32(1, 78),
            ],
        },
        0,
        0,
    );
    assert_eq!(Event::from_message(&count).unwrap(), Event::Count(77));
    let request = Message::new(CtMessage::Other { message_type: 5, attributes: vec![] }, 0, 0);
    match Event::from_message(&request) {
        Err(Error::Message(s)) => assert_eq!(s, "unknown message type: 5"),
        _ => panic!("an error is expected"),
    }
    let request = Message::new(CtMessage::Other { message_type: 4, attributes: vec![] }, 0, 2);
    match Event::from_message(&request) {
        Err(Error::Message(s)) => assert_eq!(s, "unknown message type: 4"),
        _ => panic!("an error is expected"),
    }
    let none = Message::new(
        CtMessage::Other { message_type: 5, attributes: vec![RawAttr::of_u32(2, 7)] },
        0,
        0,
    );
    match Event::from_message(&none) {
        Err(Error::Message(s)) => assert_eq!(s, "failed to get the counter"),
        _ => panic!("an error is expected"),
    }
    let stats = Message::new(
        CtMessage::Other {
            message_type: 4,
            attributes: vec![
                RawAttr::of_u32(1, 1000),
                RawAttr::of_u32(2, 42),
                RawAttr::of_u32(3, 1000),
                RawAttr::of_u32(4, 3),
                RawAttr::of_u32(8, 10),
                RawAttr::of_u32(8 | 0x4000, 11),
                RawAttr::of_u32(40, 5),
                RawAttr { kind: 9, value: vec![1] },
                RawAttr::of_u32(9, 1),
                RawAttr::of_u32(10, 2),
                RawAttr::of_u32(11, 3),
                RawAttr::of_u32(12, 4),
                RawAttr::of_u32(13, 5),
                RawAttr::of_u32(14, 6),
                RawAttr::of_u32(15, 7),
                RawAttr::of_u32(5, 9),
                RawAttr::of_u32(6, 9),
                RawAttr::of_u32(7, 9),
            ],
        },
        0,
        2,
    );
    let expected = Stats {
        cpu: 2,
        searched: None,
        found: 42,
        new: None,
        invalid: 3,
        ignore: None,
        delete: None,
        delete_list: None,
        insert: 11,
        insert_failed: 1,
        drop: 2,
        early_drop: 3,
        error: 4,
        search_restart: 5,
        clash_resolve: 6,
        chain_too_long: 7,
    };
    assert_eq!(Event::from_message(&stats).unwrap(), Event::Stats(expected));
}

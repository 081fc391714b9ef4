use rconntrack::addr::Cidr;
use rconntrack::addr::IpAddress;
use rconntrack::flow::Flow;
use rconntrack::flow::FlowBuilder;
use rconntrack::flow::Protocol;
use rconntrack::flow::Status;
use rconntrack::flow::TcpState;
use rconntrack::flow::TupleBuilder;
use rconntrack::message::MessageType;
use rconntrack::request::Filter;
use rconntrack::Family;

fn v4(a: u8, b: u8, c: u8, d: u8) -> IpAddress {
    IpAddress::V4(u32::from_be_bytes([a, b, c, d]))
}

fn v6(last: u16) -> IpAddress {
    IpAddress::V6(0xfd00_0000_0000_0000_0000_0000_0000_0000 + last as u128)
}

fn net(s: &str) -> Cidr {
    Cidr::parse(s).unwrap()
}

fn ipv4_tcp_flow() -> Flow {
    FlowBuilder::default()
        .event_type(MessageType::Update)
        .original(
            TupleBuilder::default()
                .src_addr(v4(1, 1, 1, 1))
                .dst_addr(v4(2, 2, 2, 2))
                .src_port(1234)
                .dst_port(2345)
                .build()
                .unwrap(),
        )
        .reply(
            TupleBuilder::default()
                .src_addr(v4(3, 3, 3, 3))
                .dst_addr(v4(4, 4, 4, 4))
                .src_port(3456)
                .dst_port(4567)
                .build()
                .unwrap(),
        )
        .protocol(Protocol::Tcp)
        .mark(1)
        .use_count(1)
        .tcp_state(TcpState::Established)
        .timeout(1000)
        .status(Status::assured())
        .build()
        .unwrap()
}

fn ipv6_udp_flow() -> Flow {
    FlowBuilder::default()
        .event_type(MessageType::Update)
        .original(
            TupleBuilder::default()
                .src_addr(v6(1))
                .dst_addr(v6(2))
                .src_port(1234)
                .dst_port(2345)
                .build()
                .unwrap(),
        )
        .reply(
            TupleBuilder::default()
                .src_addr(v6(3))
                .dst_addr(v6(4))
                .src_port(3456)
                .dst_port(4567)
                .build()
                .unwrap(),
        )
        .protocol(Protocol::Udp)
        .mark(1)
        .use_count(1)
        .timeout(1000)
        .status(Status::assured())
        .build()
        .unwrap()
}

#[test]
fn test_filter_apply_empty() {
    assert_eq!(Filter::default().apply(&ipv4_tcp_flow()), true);
}

#[test]
fn test_filter_apply_protocol_tcp() {
    assert_eq!(Filter::default().protocol(Protocol::Tcp).apply(&ipv4_tcp_flow()), true);
}

#[test]
fn test_filter_apply_protocol_udp() {
    assert_eq!(Filter::default().protocol(Protocol::Udp).apply(&ipv4_tcp_flow()), false);
}

#[test]
fn test_filter_apply_four_addresses() {
    let filter = Filter::default()
        .orig_src_addr(net("1.1.1.1/32"))
        .orig_dst_addr(net("2.2.2.2/32"))
        .reply_src_addr(net("3.3.3.3/32"))
        .reply_dst_addr(net("4.4.4.4/32"));
    assert_eq!(filter.apply(&ipv4_tcp_flow()), true);
}

#[test]
fn test_filter_apply_one_address_differs() {
    let filter = Filter::default()
        .orig_src_addr(net("1.1.1.1/32"))
        .orig_dst_addr(net("2.2.2.2/32"))
        .reply_src_addr(net("3.3.3.0/32"))
        .reply_dst_addr(net("4.4.4.4/32"));
    assert_eq!(filter.apply(&ipv4_tcp_flow()), false);
}

#[test]
fn test_filter_apply_protocol_and_port() {
    let filter = Filter::default().protocol(Protocol::Tcp).reply_dst_port(4567);
    assert_eq!(filter.apply(&ipv4_tcp_flow()), true);
}

#[test]
fn test_filter_apply_tcp_state_established() {
    let filter = Filter::default().protocol(Protocol::Tcp).tcp_state(TcpState::Established);
    assert_eq!(filter.apply(&ipv4_tcp_flow()), true);
}

#[test]
fn test_filter_apply_tcp_state_time_wait() {
    let filter = Filter::default().protocol(Protocol::Tcp).tcp_state(TcpState::TimeWait);
    assert_eq!(filter.apply(&ipv4_tcp_flow()), false);
}

#[test]
fn test_filter_apply_mark() {
    assert_eq!(Filter::default().mark(1).apply(&ipv4_tcp_flow()), true);
}

#[test]
fn test_filter_apply_use() {
    assert_eq!(Filter::default().use_count(1).apply(&ipv4_tcp_flow()), true);
}

#[test]
fn test_filter_apply_status_assured() {
    assert_eq!(Filter::default().status(Status::assured()).apply(&ipv4_tcp_flow()), true);
}

#[test]
fn test_filter_apply_status_seen_reply() {
    assert_eq!(Filter::default().status(Status::seen_reply()).apply(&ipv4_tcp_flow()), false);
}

#[test]
fn test_filter_apply_status_two_flags() {
    let filter = Filter::default().status(Status::from((1 << 1) + (1 << 2)));
    assert_eq!(filter.apply(&ipv4_tcp_flow()), true);
}

#[test]
fn test_filter_apply_ipv6_address() {
    let filter = Filter::default().orig_src_addr(net("fd00::1/128"));
    assert_eq!(filter.apply(&ipv6_udp_flow()), true);
}

#[test]
fn test_filter_apply_tcp_state_on_udp_flow() {
    let filter = Filter::default().tcp_state(TcpState::Established);
    assert_eq!(filter.apply(&ipv6_udp_flow()), false);
}

#[test]
fn block_accepts_its_addresses_only() {
    let filter = Filter::default().orig_src_addr(net("1.1.1.0/24"));
    let mut flow = ipv4_tcp_flow();
    assert!(filter.apply(&flow));
    flow.original.src_addr = v4(1, 1, 2, 1);
    assert!(!filter.apply(&flow));
    flow.original.src_addr = v4(1, 1, 1, 255);
    assert!(filter.apply(&flow));
    flow.original.src_addr = v4(1, 1, 0, 255);
    assert!(!filter.apply(&flow));
    assert!(!filter.apply(&ipv6_udp_flow()));
}

#[test]
fn family_is_that_of_the_original_source() {
    assert!(Filter::default().family(Family::Unspec).apply(&ipv4_tcp_flow()));
    assert!(Filter::default().family(Family::Unspec).apply(&ipv6_udp_flow()));
    assert!(Filter::default().family(Family::Ipv4).apply(&ipv4_tcp_flow()));
    assert!(!Filter::default().family(Family::Ipv4).apply(&ipv6_udp_flow()));
    assert!(Filter::default().family(Family::Ipv6).apply(&ipv6_udp_flow()));
    assert!(!Filter::default().family(Family::Ipv6).apply(&ipv4_tcp_flow()));
}

#[test]
fn every_field_is_a_condition() {
    let flow = ipv4_tcp_flow();
    assert!(!Filter::default().orig_src_port(1).apply(&flow));
    assert!(Filter::default().orig_src_port(1234).apply(&flow));
    assert!(!Filter::default().orig_dst_port(1).apply(&flow));
    assert!(Filter::default().orig_dst_port(2345).apply(&flow));
    assert!(!Filter::default().reply_src_port(1).apply(&flow));
    assert!(Filter::default().reply_src_port(3456).apply(&flow));
    assert!(!Filter::default().reply_dst_port(1).apply(&flow));
    assert!(!Filter::default().mark(2).apply(&flow));
    assert!(!Filter::default().use_count(2).apply(&flow));
    assert!(!Filter::default().orig_dst_addr(net("2.2.2.3/32")).apply(&flow));
    assert!(!Filter::default().reply_dst_addr(net("4.4.4.5/32")).apply(&flow));
    assert!(Filter::default().reply_dst_addr(net("0.0.0.0/0")).apply(&flow));
}

#[test]
fn two_conditions_accept_what_both_accept() {
    let flows = [ipv4_tcp_flow(), ipv6_udp_flow()];
    let a = Filter::default().protocol(Protocol::Tcp);
    let b = Filter::default().orig_src_port(1234);
    let both = Filter::default().protocol(Protocol::Tcp).orig_src_port(1234);
    for flow in flows {
        assert_eq!(both.apply(&flow), a.apply(&flow) && b.apply(&flow));
    }
}

#[test]
fn filter_of_the_fields_of_a_flow_accepts_it() {
    for flow in [ipv4_tcp_flow(), ipv6_udp_flow()] {
        let mut filter = Filter::default()
            .family(if flow.original.src_addr.is_ipv4() { Family::Ipv4 } else { Family::Ipv6 })
            .protocol(flow.protocol)
            .orig_src_addr(Cidr::host(flow.original.src_addr))
            .orig_dst_addr(Cidr::host(flow.original.dst_addr))
            .reply_src_addr(Cidr::host(flow.reply.src_addr))
            .reply_dst_addr(Cidr::host(flow.reply.dst_addr))
            .orig_src_port(flow.original.src_port)
            .orig_dst_port(flow.original.dst_port)
            .reply_src_port(flow.reply.src_port)
            .reply_dst_port(flow.reply.dst_port)
            .mark(flow.mark)
            .use_count(flow.use_count)
            .status(flow.status);
        if let Some(s) = flow.tcp_state {
            filter = filter.tcp_state(s);
        }
        assert!(filter.apply(&flow));
    }
}

#[test]
fn status_condition_fails_on_a_flow_without_flags() {
    let mut flow = ipv4_tcp_flow();
    flow.status = Status::from(0);
    assert!(!Filter::default().status(flow.status).apply(&flow));
}

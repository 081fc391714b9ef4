use rconntrack::addr::IpAddress;
use rconntrack::display::ct_status_to_string;
use rconntrack::display::Column;
use rconntrack::display::EventFlowRow;
use rconntrack::display::FlowColumn;
use rconntrack::display::FlowRow;
use rconntrack::display::Row;
use rconntrack::display::StatsColumn;
use rconntrack::display::StatsRow;
use rconntrack::display::ToColumnOptions;
use rconntrack::display::ToColumns;
use rconntrack::display::line_of;
use rconntrack::flow::Flow;
use rconntrack::flow::Protocol;
use rconntrack::flow::Status;
use rconntrack::flow::TcpState;
use rconntrack::flow::Tuple;
use rconntrack::message::MessageType;
use rconntrack::stats::Stats;
use rconntrack::text::binary_u16;
use rconntrack::text::decimal_u32;
use rconntrack::text::pad_left;
use rconntrack::Family;

fn v4(a: u8, b: u8, c: u8, d: u8) -> IpAddress {
    IpAddress::V4(u32::from_be_bytes([a, b, c, d]))
}

fn tcp_flow() -> Flow {
    Flow {
        event_type: MessageType::Update,
        original: Tuple {
            src_addr: v4(1, 1, 1, 1),
            dst_addr: v4(2, 2, 2, 2),
            src_port: 1234,
            dst_port: 2345,
        },
        reply: Tuple {
            src_addr: v4(3, 3, 3, 3),
            dst_addr: v4(192, 168, 100, 200),
            src_port: 3456,
            dst_port: 65535,
        },
        protocol: Protocol::Tcp,
        mark: 1,
        use_count: 2,
        tcp_state: Some(TcpState::Established),
        status: Status::from(0x0006),
        timeout: 4294967295,
    }
}

fn udp_flow() -> Flow {
    Flow {
        event_type: MessageType::Destroy,
        original: Tuple {
            src_addr: IpAddress::V6(0xfd00 << 112 | 1),
            dst_addr: IpAddress::V6(1),
            src_port: 1,
            dst_port: 2,
        },
        reply: Tuple {
            src_addr: IpAddress::V6(0),
            dst_addr: IpAddress::V6(u128::MAX),
            src_port: 3,
            dst_port: 4,
        },
        protocol: Protocol::Udp,
        mark: 0,
        use_count: 0,
        tcp_state: None,
        status: Status::from(0x4008),
        timeout: 30,
    }
}

#[test]
fn texts_are_padded_on_the_left() {
    assert_eq!(pad_left("tcp", 8), "     tcp");
    assert_eq!(pad_left("", 3), "   ");
    assert_eq!(pad_left("abc", 3), "abc");
    assert_eq!(pad_left("abcd", 3), "abcd");
    assert_eq!(pad_left("x", 0), "x");
    assert_eq!(decimal_u32(0), "0");
    assert_eq!(decimal_u32(4294967295), "4294967295");
    assert_eq!(decimal_u32(1000), "1000");
    assert_eq!(binary_u16(5, 15), "000000000000101");
    assert_eq!(binary_u16(0x7fff, 15), "111111111111111");
    assert_eq!(binary_u16(0, 0), "");
    assert_eq!(binary_u16(6, 2), "10");
}

#[test]
fn addresses_are_shown_in_their_notation() {
    assert_eq!(v4(192, 168, 0, 1).to_text(), "192.168.0.1");
    assert_eq!(IpAddress::V6(1).to_text(), "::1");
    assert_eq!(IpAddress::V6(0xfd00 << 112 | 1).to_text(), "fd00::1");
}

#[test]
fn status_is_shown_by_flag_or_by_name() {
    assert_eq!(ct_status_to_string(&Status::from(0x0006), true), "000000000000110");
    assert_eq!(ct_status_to_string(&Status::from(0x0006), false), "ASSURED");
    assert_eq!(ct_status_to_string(&Status::from(0), false), "");
    assert_eq!(ct_status_to_string(&Status::from(0), true), "000000000000000");
}

#[test]
fn line_of_titles_of_ipv4_tcp_flows() {
    let row = FlowRow::new(false, Family::Ipv4, Protocol::Tcp);
    let expected = format!(
        "{:>8} {:>8} {:>10} {:>11} {:>15} {:>15} {:>13} {:>13} {:>15} {:>15} {:>14} {:>14} {:>13} {:>5} {:>5}\n",
        "PROTOCOL",
        "PROTONUM",
        "TIMEOUT",
        "TCP_STATE",
        "ORIG_SRC_ADDR",
        "ORIG_DST_ADDR",
        "ORIG_SRC_PORT",
        "ORIG_DST_PORT",
        "REPLY_SRC_ADDR",
        "REPLY_DST_ADDR",
        "REPLY_SRC_PORT",
        "REPLY_DST_PORT",
        "FLAGS",
        "MARK",
        "USE"
    );
    assert_eq!(row.header(), expected);
    assert_eq!(
        row.header(),
        "PROTOCOL PROTONUM    TIMEOUT   TCP_STATE   ORIG_SRC_ADDR   ORIG_DST_ADDR ORIG_SRC_PORT ORIG_DST_PORT  REPLY_SRC_ADDR  REPLY_DST_ADDR REPLY_SRC_PORT REPLY_DST_PORT         FLAGS  MARK   USE\n"
    );
}

#[test]
fn line_of_an_ipv4_tcp_flow() {
    let row = FlowRow::new(false, Family::Ipv4, Protocol::Tcp);
    let expected = format!(
        "{:>8} {:>8} {:>10} {:>11} {:>15} {:>15} {:>13} {:>13} {:>15} {:>15} {:>14} {:>14} {:>13} {:>5} {:>5}\n",
        "tcp",
        6,
        4294967295u32,
        "ESTABLISHED",
        "1.1.1.1",
        "2.2.2.2",
        1234,
        2345,
        "3.3.3.3",
        "192.168.100.200",
        3456,
        65535,
        "ASSURED",
        1,
        2
    );
    assert_eq!(row.row(&tcp_flow()), expected);
    let detailed = FlowRow::new(true, Family::Ipv4, Protocol::Tcp);
    assert!(detailed.row(&tcp_flow()).contains(" 000000000000110     1     2\n"));
    assert!(detailed.header().ends_with("           FLAGS  MARK   USE\n"));
}

#[test]
fn lines_of_udp_flows_have_no_tcp_state() {
    let row = FlowRow::new(false, Family::Ipv6, Protocol::Udp);
    let expected = format!(
        "{:>8} {:>8} {:>10} {:>39} {:>39} {:>13} {:>13} {:>39} {:>39} {:>14} {:>14} {:>13} {:>5} {:>5}\n",
        "udp",
        17,
        30,
        "fd00::1",
        "::1",
        1,
        2,
        "::",
        "ffff:ffff:ffff:ffff:ffff:ffff:ffff:ffff",
        3,
        4,
        "CONFIRMED",
        0,
        0
    );
    assert_eq!(row.row(&udp_flow()), expected);
    let titles = format!(
        "{:>8} {:>8} {:>10} {:>39} {:>39} {:>13} {:>13} {:>39} {:>39} {:>14} {:>14} {:>13} {:>5} {:>5}\n",
        "PROTOCOL",
        "PROTONUM",
        "TIMEOUT",
        "ORIG_SRC_ADDR",
        "ORIG_DST_ADDR",
        "ORIG_SRC_PORT",
        "ORIG_DST_PORT",
        "REPLY_SRC_ADDR",
        "REPLY_DST_ADDR",
        "REPLY_SRC_PORT",
        "REPLY_DST_PORT",
        "FLAGS",
        "MARK",
        "USE"
    );
    assert_eq!(row.header(), titles);
    assert_eq!(FlowRow::new(false, Family::Unspec, Protocol::Udp).header(), titles);
}

#[test]
fn lines_of_events_begin_with_the_kind() {
    let row = EventFlowRow::new(false, Family::Ipv4, Protocol::Tcp);
    let line = row.row(&tcp_flow());
    assert!(line.starts_with(" UPDATE      tcp        6 4294967295 ESTABLISHED         1.1.1.1"));
    assert!(line.ends_with("       ASSURED     1     2\n"));
    let titles = row.header();
    assert!(titles.starts_with("  EVENT PROTOCOL PROTONUM    TIMEOUT   TCP_STATE   ORIG_SRC_ADDR"));
    assert!(titles.ends_with("REPLY_DST_PORT         FLAGS\n"));
    let udp = EventFlowRow::new(false, Family::Ipv6, Protocol::Udp);
    assert!(udp.row(&udp_flow()).starts_with("DESTROY      udp       17         30 "));
    assert!(!udp.header().contains("TCP_STATE"));
}

#[test]
fn columns_of_a_flow_follow_the_options() {
    let flow = tcp_flow();
    let opt = ToColumnOptions { event: true, detailed_status: true, omit_tcp_state: true, family: Family::Ipv6 };
    let columns = flow.to_columns(opt);
    assert_eq!(columns.len(), 15);
    assert_eq!(columns[0], FlowColumn::Event(MessageType::Update));
    assert_eq!(columns[4], FlowColumn::OrigSrcAddr((v4(1, 1, 1, 1), Family::Ipv6)));
    assert_eq!(columns[12], FlowColumn::Flags((Status::from(6), true)));
    assert_eq!(columns[13], FlowColumn::Mark(Some(1)));
    assert_eq!(columns[14], FlowColumn::Use(Some(2)));
    assert_eq!(columns[4].column(false), format!("{:>39}", "1.1.1.1"));
    assert_eq!(columns[4].column(true), format!("{:>15}", "ORIG_SRC_ADDR"));
    assert_eq!(flow.to_columns(ToColumnOptions::default()).len(), 15);
    assert_eq!(FlowColumn::TcpState(None).column(false), "           ");
    assert_eq!(FlowColumn::Mark(None).column(false), "     ");
    assert_eq!(FlowColumn::Use(None).column(true), "  USE");
    assert_eq!(FlowColumn::Protocol(Protocol::Other(132)).column(false), "other(132)");
    assert_eq!(FlowColumn::Event(MessageType::New).header(), "EVENT");
    assert_eq!(FlowColumn::Event(MessageType::New).column(false), "    NEW");
}

#[test]
fn lines_of_statistics() {
    let stats = Stats {
        cpu: 2,
        searched: None,
        found: 42,
        new: None,
        invalid: 3,
        ignore: None,
        delete: None,
        delete_list: None,
        insert: 10,
        insert_failed: 0,
        drop: 12345,
        early_drop: 0,
        error: 0,
        search_restart: 7,
        clash_resolve: 0,
        chain_too_long: 4294967295,
    };
    let row = StatsRow::new();
    assert_eq!(
        row.header(),
        "CPU FOUND INVALID INSERT INSERT_FAILED DROP EARLY_DROP ERROR SEARCH_RESTART CLASH_RESOLVE CHAIN_TOO_LONG\n"
    );
    assert_eq!(
        row.row(&stats),
        "  2    42       3     10             0 12345          0     0              7             0     4294967295\n"
    );
    assert_eq!(StatsColumn::Drop(1).header(), "DROP");
    assert_eq!(StatsColumn::Drop(1).column(false), "   1");
    let none: Vec<StatsColumn> = Vec::new();
    assert_eq!(line_of(&none, false), "\n");
    assert_eq!(line_of(&vec![StatsColumn::Cpu(1)], false), "  1\n");
}

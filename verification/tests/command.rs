use rconntrack::addr::Cidr;
use rconntrack::addr::IpAddress;
use rconntrack::attr::CtMessage;
use rconntrack::command::AddrText;
use rconntrack::command::CommandError;
use rconntrack::command::CountCmd;
use rconntrack::command::CountOperation;
use rconntrack::command::EventCmd;
use rconntrack::command::EventOperation;
use rconntrack::command::FilterArgs;
use rconntrack::command::GetCmd;
use rconntrack::command::GetOperation;
use rconntrack::command::ListCmd;
use rconntrack::command::ListOperation;
use rconntrack::command::Operation;
use rconntrack::command::OperationType;
use rconntrack::command::StatsCmd;
use rconntrack::command::StatsOperation;
use rconntrack::config;
use rconntrack::event::flow_from_message;
use rconntrack::flow::FlowError;
use rconntrack::flow::Protocol;
use rconntrack::flow::Status;
use rconntrack::flow::StatusFlag;
use rconntrack::flow::TcpState;
use rconntrack::flow::Tuple;
use rconntrack::message::Message;
use rconntrack::request::Direction;
use rconntrack::request::GetArgs;
use rconntrack::request::RequestOperation;
use rconntrack::request::ValidationError;
use rconntrack::Family;
use rconntrack::Table;

fn no_filter() -> FilterArgs {
    FilterArgs {
        table: config::Table::default(),
        family: config::Family::default(),
        zero: false,
        protocol: config::Protocol::default(),
        orig_src_addr: None,
        orig_dst_addr: None,
        reply_src_addr: None,
        reply_dst_addr: None,
        orig_src_port: None,
        orig_dst_port: None,
        reply_src_port: None,
        reply_dst_port: None,
        mark: None,
        use_count: None,
        tcp_state: None,
        status: None,
    }
}

fn text(s: &str, bare: Option<IpAddress>) -> Option<AddrText> {
    Some(AddrText { text: s.to_string(), bare })
}

fn invalid<T: std::fmt::Debug>(r: Result<T, config::Error>) -> String {
    match r {
        Err(config::Error::InvalidValue(s)) => s,
        Ok(v) => panic!("an invalid value is expected, not {:?}", v),
    }
}

#[test]
fn values_of_the_command_line_are_read() {
    assert_eq!(config::Output::from_name("json").unwrap(), config::Output::Json);
    assert_eq!(config::Output::from_name("TABLE").unwrap(), config::Output::Table);
    assert_eq!(invalid(config::Output::from_name("yaml")), "yaml");
    assert_eq!(config::Output::default(), config::Output::Table);
    assert_eq!(config::Table::from_name("Conntrack").unwrap(), config::Table::Conntrack);
    assert_eq!(config::Table::from_name("dying").unwrap(), config::Table::Dying);
    assert_eq!(config::Table::from_name("unconfirmed").unwrap(), config::Table::Unconfirmed);
    assert_eq!(invalid(config::Table::from_name("Expect")), "Expect");
    assert_eq!(config::Table::Dying.table(), Table::Dying);
    assert_eq!(config::Table::Conntrack.table(), Table::Conntrack);
    assert_eq!(config::Table::Unconfirmed.table(), Table::Unconfirmed);
    assert_eq!(config::Family::from_name("ipv4").unwrap(), config::Family::Ipv4);
    assert_eq!(config::Family::from_name("IPV6").unwrap(), config::Family::Ipv6);
    assert_eq!(config::Family::from_name("any").unwrap(), config::Family::Any);
    assert_eq!(invalid(config::Family::from_name("unspec")), "unspec");
    assert_eq!(config::Family::Any.family(), Family::Unspec);
    assert_eq!(config::Family::Ipv4.family(), Family::Ipv4);
    assert_eq!(config::Family::Ipv6.family(), Family::Ipv6);
    assert_eq!(config::Protocol::from_name("any").unwrap(), config::Protocol::Any);
    assert_eq!(config::Protocol::from_name("Tcp").unwrap(), config::Protocol::Tcp);
    assert_eq!(config::Protocol::from_name("udp").unwrap(), config::Protocol::Udp);
    assert_eq!(invalid(config::Protocol::from_name("icmp")), "icmp");
    assert_eq!(config::Protocol::Any.protocol(), Protocol::Tcp);
    assert_eq!(config::Protocol::Tcp.protocol(), Protocol::Tcp);
    assert_eq!(config::Protocol::Udp.protocol(), Protocol::Udp);
}

#[test]
fn status_is_a_name_or_a_number() {
    assert_eq!(config::Status::from_name("assured").unwrap(), config::Status::Assured);
    assert_eq!(config::Status::from_name("SEEN_REPLY").unwrap(), config::Status::SeenReply);
    assert_eq!(config::Status::from_name("Fixed_Timeout").unwrap(), config::Status::FixedTimeout);
    assert_eq!(config::Status::from_name("expected").unwrap(), config::Status::Expected);
    assert_eq!(config::Status::from_name("6").unwrap(), config::Status::Detailed(6));
    assert_eq!(config::Status::from_name("+6").unwrap(), config::Status::Detailed(6));
    assert_eq!(config::Status::from_name("0007").unwrap(), config::Status::Detailed(7));
    assert_eq!(config::Status::from_name("0").unwrap(), config::Status::Detailed(0));
    assert_eq!(invalid(config::Status::from_name("")), "");
    assert_eq!(invalid(config::Status::from_name("+")), "+");
    assert_eq!(invalid(config::Status::from_name("++6")), "++6");
    assert_eq!(invalid(config::Status::from_name("6 ")), "6 ");
    assert_eq!(invalid(config::Status::from_name("0x6")), "0x6");
    assert_eq!(invalid(config::Status::from_name("1_0")), "1_0");
    assert_eq!(config::Status::from_name("65535").unwrap(), config::Status::Detailed(65535));
    assert_eq!(invalid(config::Status::from_name("65536")), "65536");
    assert_eq!(invalid(config::Status::from_name("seenreply")), "seenreply");
    assert_eq!(invalid(config::Status::from_name("-1")), "-1");
    assert_eq!(config::Status::Assured.status(), Status::assured());
    assert_eq!(config::Status::SeenReply.status(), Status::seen_reply());
    assert_eq!(config::Status::FixedTimeout.status(), Status::fixed_timeout());
    assert_eq!(config::Status::Expected.status(), Status::expected());
    assert_eq!(config::Status::Detailed(0xffff).status().to_u16(), 0x7fff);
}

#[test]
fn flags_of_a_status_come_in_the_order_of_their_bits() {
    assert_eq!(Status::from(0).flags(), vec![]);
    assert_eq!(Status::from(0x4005).flags(), vec![
        StatusFlag::Expected,
        StatusFlag::Assured,
        StatusFlag::Offload,
    ]);
    let all = Status::from(0x7fff).flags();
    assert_eq!(all.len(), 15);
    for (i, flag) in all.iter().enumerate() {
        assert_eq!(*flag, StatusFlag::from_position(i as u8));
        assert_eq!(flag.bit(), 1 << i);
    }
    let names: Vec<String> = all.iter().map(|f| f.name()).collect();
    assert_eq!(names, vec![
        "EXPECTED",
        "SEEN_REPLY",
        "ASSURED",
        "CONFIRMED",
        "SNAT",
        "DNAT",
        "SEQ_ADJ",
        "SNAT_DONE",
        "DNAT_DONE",
        "DYING",
        "FIXED_TIMEOUT",
        "TEMPLATE",
        "UNTRACKED",
        "HELPER",
        "OFFLOAD",
    ]);
}

#[test]
fn conditions_become_a_filter() {
    let a = IpAddress::V4(0x0a00_0001);
    let args = FilterArgs {
        family: config::Family::Any,
        protocol: config::Protocol::Udp,
        orig_src_addr: text("10.0.0.1", Some(a)),
        orig_dst_addr: text("10.0.0.0/8", None),
        reply_dst_port: Some(53),
        mark: Some(1),
        use_count: Some(2),
        tcp_state: Some(TcpState::Listen),
        status: Some(config::Status::Detailed(6)),
        ..no_filter()
    };
    let f = args.to_filter().unwrap();
    assert_eq!(f.family, Some(Family::Unspec));
    assert_eq!(f.protocol, Some(Protocol::Udp));
    assert_eq!(f.orig_src_addr, Some(Cidr::host(a)));
    assert_eq!(f.orig_dst_addr, Cidr::new(IpAddress::V4(0x0a00_0000), 8));
    assert_eq!(f.reply_src_addr, None);
    assert_eq!(f.reply_dst_addr, None);
    assert_eq!(f.orig_src_port, None);
    assert_eq!(f.reply_dst_port, Some(53));
    assert_eq!(f.mark, Some(1));
    assert_eq!(f.use_count, Some(2));
    assert_eq!(f.tcp_state, Some(TcpState::Listen));
    assert_eq!(f.status, Some(Status::from(6)));
    let plain = no_filter().to_filter().unwrap();
    assert_eq!(plain.family, Some(Family::Ipv4));
    assert_eq!(plain.protocol, None);
    assert_eq!(plain.status, None);
}

#[test]
fn first_unreadable_address_is_named() {
    let args = FilterArgs {
        orig_src_addr: text("10.0.0.0/8", None),
        orig_dst_addr: text("nowhere", None),
        reply_src_addr: text("elsewhere", None),
        ..no_filter()
    };
    match args.to_filter() {
        Err(CommandError::FailedToParseAddrOrCIDR(s)) => assert_eq!(s, "nowhere"),
        _ => panic!("an unreadable address is expected"),
    }
    match ListOperation::new(args).request() {
        Err(CommandError::FailedToParseAddrOrCIDR(s)) => assert_eq!(s, "nowhere"),
        _ => panic!("an unreadable address is expected"),
    }
    let args = FilterArgs { reply_dst_addr: text("10.0.0.0/33", None), ..no_filter() };
    match EventOperation::new(args).request() {
        Err(CommandError::FailedToParseAddrOrCIDR(s)) => assert_eq!(s, "10.0.0.0/33"),
        _ => panic!("an unreadable address is expected"),
    }
}

#[test]
fn operations_make_their_requests() {
    let args = FilterArgs {
        table: config::Table::Dying,
        family: config::Family::Ipv6,
        zero: true,
        ..no_filter()
    };
    let list = ListOperation::new(args);
    assert_eq!(list.typ(), OperationType::List);
    let req = list.request().unwrap();
    assert_eq!(req.meta.family, Family::Ipv6);
    assert_eq!(req.meta.table, Table::Dying);
    assert!(req.meta.zero);
    assert!(matches!(req.op, RequestOperation::List(Some(_))));
    let event = EventOperation::new(FilterArgs { zero: true, ..no_filter() });
    assert_eq!(event.typ(), OperationType::Event);
    let req = event.request().unwrap();
    assert!(!req.meta.zero);
    assert!(matches!(req.op, RequestOperation::Event(Some(_))));
    assert_eq!(req.op.group().bits(), 7);
    let count = CountCmd { table: config::Table::Unconfirmed }.operation();
    assert_eq!(count.typ(), OperationType::Counter);
    let req = count.request().unwrap();
    assert_eq!(req.meta.family, Family::Unspec);
    assert_eq!(req.meta.table, Table::Unconfirmed);
    assert!(matches!(req.op, RequestOperation::Count));
    assert_eq!(CountOperation::new(config::Table::Dying).to_request().meta.table, Table::Dying);
    let stats = StatsCmd { output: config::Output::Table, no_header: false }.operation();
    assert_eq!(stats.typ(), OperationType::Stats);
    let req = stats.request().unwrap();
    assert_eq!(req.meta.family, Family::Unspec);
    assert!(matches!(req.op, RequestOperation::Stat));
    assert!(matches!(StatsOperation::new().to_request().op, RequestOperation::Stat));
    let tuple = Tuple {
        src_addr: IpAddress::V4(1),
        dst_addr: IpAddress::V4(2),
        src_port: 3,
        dst_port: 4,
    };
    let get = GetOperation::new(
        config::Table::Conntrack,
        config::Family::Ipv4,
        config::Protocol::Any,
        Direction::Reply(tuple),
    );
    assert_eq!(get.typ(), OperationType::Get);
    match get.request().unwrap().op {
        RequestOperation::Get(p) => {
            assert_eq!(p.protocol, Protocol::Tcp);
            assert_eq!(p.directed_tuple, Direction::Reply(tuple));
        }
        _ => panic!("a lookup is expected"),
    }
}

#[test]
fn commands_show_titles_in_tables_only() {
    let mut stats = StatsCmd { output: config::Output::Table, no_header: false };
    assert!(stats.shows_header());
    stats.no_header = true;
    assert!(!stats.shows_header());
    stats = StatsCmd { output: config::Output::Json, no_header: false };
    assert!(!stats.shows_header());
    let list = ListCmd {
        output: config::Output::Table,
        filter: no_filter(),
        detailed_status: false,
        no_header: false,
    };
    assert!(list.shows_header());
    let event = EventCmd {
        output: config::Output::Json,
        filter: no_filter(),
        detailed_status: false,
        no_header: false,
    };
    assert!(!event.shows_header());
}

#[test]
fn get_command_validates_its_parameters() {
    let none = GetArgs {
        orig_src_addr: None,
        orig_dst_addr: None,
        orig_src_port: None,
        orig_dst_port: None,
        reply_src_addr: None,
        reply_dst_addr: None,
        reply_src_port: None,
        reply_dst_port: None,
    };
    let mut cmd = GetCmd {
        output: config::Output::Table,
        table: config::Table::Conntrack,
        family: config::Family::Ipv4,
        protocol: config::Protocol::Udp,
        args: GetArgs { orig_src_addr: Some(IpAddress::V4(1)), ..none },
        detailed_status: false,
        no_header: true,
    };
    assert!(!cmd.shows_header());
    match cmd.operation() {
        Err(CommandError::Validation(e)) => assert_eq!(e, ValidationError::Orig),
        _ => panic!("a validation error is expected"),
    }
    cmd.args = none;
    match cmd.operation() {
        Err(CommandError::Validation(e)) => assert_eq!(e, ValidationError::Missing),
        _ => panic!("a validation error is expected"),
    }
    cmd.args = GetArgs {
        reply_src_addr: Some(IpAddress::V4(1)),
        reply_dst_addr: Some(IpAddress::V4(2)),
        reply_src_port: Some(3),
        reply_dst_port: Some(4),
        ..none
    };
    let op = cmd.operation().unwrap();
    assert!(matches!(op.tuple, Direction::Reply(_)));
    assert_eq!(op.protocol, config::Protocol::Udp);
}

#[test]
fn only_messages_of_flows_carry_a_flow() {
    let get = Message::new(CtMessage::Get(vec![]), 0, 0);
    match flow_from_message(&get) {
        Err(FlowError::InvalidMessageType(t)) => assert_eq!(t, 1),
        _ => panic!("an invalid message type is expected"),
    }
    let other = Message::new(CtMessage::Other { message_type: 5, attributes: vec![] }, 0, 0);
    match flow_from_message(&other) {
        Err(FlowError::InvalidMessageType(t)) => assert_eq!(t, 5),
        _ => panic!("an invalid message type is expected"),
    }
    let empty = Message::new(CtMessage::New(vec![]), 0, 0);
    match flow_from_message(&empty) {
        Err(FlowError::MissingField(name)) => assert_eq!(name, "original"),
        _ => panic!("a missing field is expected"),
    }
    let deleted = Message::new(CtMessage::Delete(vec![]), 0, 0);
    assert!(matches!(flow_from_message(&deleted), Err(FlowError::MissingField(_))));
}

//! Flows and statistics as lines of a table: each value is a column of a
//! fixed width, and a line is its columns with one space between them.

use crate::addr::address_notation;
use crate::addr::IpAddress;
use crate::flow::Flow;
use crate::flow::Protocol;
use crate::flow::Status;
use crate::flow::TcpState;
use crate::message::MessageType;
use crate::stats::Stats;
use crate::text::binary;
use crate::text::binary_u16;
use crate::text::decimal;
use crate::text::decimal_u32;
use crate::text::pad_left;
use crate::text::padded;
use crate::text::push_char;
use crate::text::push_str;
use crate::Family;
use vstd::prelude::*;

verus! {

/// One value of a line, which knows its title and its width.
pub trait Column {
    /// The title of the column.
    spec fn title(&self) -> Seq<char>;

    /// The column as it stands in a line: the title in a line of titles,
    /// else the value, brought to the width of the column.
    spec fn text(&self, header: bool) -> Seq<char>;

    fn header(&self) -> (r: String)
        ensures
            r@ == self.title(),
    ;

    fn column(&self, header: bool) -> (r: String)
        ensures
            r@ == self.text(header),
    ;
}

/// What can be shown as a line of columns.
pub trait ToColumns<C: Column> {
    /// The columns of the value, in their order.
    spec fn columns(&self, opt: ToColumnOptions) -> Seq<C>;

    fn to_columns(&self, opt: ToColumnOptions) -> (r: Vec<C>)
        ensures
            r@ == self.columns(opt),
    ;
}

/// How a value is turned into columns.
#[derive(Debug, Clone, Copy)]
pub struct ToColumnOptions {
    /// Whether the kind of event is a column.
    pub event: bool,
    /// Whether the status is shown flag by flag.
    pub detailed_status: bool,
    /// Whether the TCP state is left out.
    pub omit_tcp_state: bool,
    /// The family that decides the width of the addresses.
    pub family: Family,
}

impl Default for ToColumnOptions {
    fn default() -> (r: ToColumnOptions)
        ensures
            r == (ToColumnOptions {
                event: false,
                detailed_status: false,
                omit_tcp_state: false,
                family: Family::Ipv4,
            }),
    {
        ToColumnOptions {
            event: false,
            detailed_status: false,
            omit_tcp_state: false,
            family: Family::Ipv4,
        }
    }
}

/// A line of a table: the texts with one space between them, and a line
/// feed at the end.
pub open spec fn line(texts: Seq<Seq<char>>) -> Seq<char>
    decreases texts.len(),
{
    if texts.len() == 0 {
        seq!['\n']
    } else if texts.len() == 1 {
        texts[0] + seq!['\n']
    } else {
        texts[0] + seq![' '] + line(texts.skip(1))
    }
}

/// The texts of the columns, in their order.
pub open spec fn texts_of<C: Column>(cols: Seq<C>, header: bool) -> Seq<Seq<char>> {
    Seq::new(cols.len(), |i: int| cols[i].text(header))
}

/// The line of the columns.
pub fn line_of<C: Column>(cols: &Vec<C>, header: bool) -> (r: String)
    ensures
        r@ == line(texts_of(cols@, header)),
{
    let mut out = String::new();
    let ghost texts = texts_of(cols@, header);
    let mut i: usize = 0;
    assert(texts.skip(0) =~= texts);
    if cols.len() == 0 {
        push_char(&mut out, '\n');
        assert(out@ =~= seq!['\n']);
        return out;
    }
    while i < cols.len()
        invariant
            i <= cols.len(),
            cols.len() > 0,
            texts == texts_of(cols@, header),
            i < cols.len() ==> line(texts) == out@ + line(texts.skip(i as int)),
            i == cols.len() ==> line(texts) == out@,
        decreases cols.len() - i,
    {
        let ghost before = out@;
        let ghost rest = texts.skip(i as int);
        assert(rest[0] == cols@[i as int].text(header));
        assert(rest.skip(1) =~= texts.skip(i + 1));
        let c = cols[i].column(header);
        push_str(&mut out, c.as_str());
        if i != cols.len() - 1 {
            push_char(&mut out, ' ');
            assert(out@ + line(rest.skip(1)) =~= before + (rest[0] + seq![' '] + line(
                rest.skip(1),
            )));
        } else {
            push_char(&mut out, '\n');
            assert(rest.len() == 1);
            assert(out@ =~= before + (rest[0] + seq!['\n']));
        }
        i = i + 1;
    }
    out
}

/// What turns values into the lines of a table.
pub trait Row {
    /// The options that the columns of an entry are made with.
    spec fn options(&self) -> ToColumnOptions;

    /// The line of an entry.
    fn row<C: Column, E: ToColumns<C>>(&self, entry: &E) -> (r: String)
        ensures
            r@ == line(texts_of(entry.columns(self.options()), false)),
    ;

    /// The line of titles.
    spec fn title_line(&self) -> Seq<char>;

    fn header(&self) -> (r: String)
        ensures
            r@ == self.title_line(),
    ;
}

/// A column of a flow.
#[derive(Debug, Clone, Copy, PartialEq, Eq)]
pub enum FlowColumn {
    Event(MessageType),
    Protocol(Protocol),
    ProtocolNumber(u8),
    Timeout(u32),
    TcpState(Option<TcpState>),
    OrigSrcAddr((IpAddress, Family)),
    OrigDstAddr((IpAddress, Family)),
    OrigSrcPort(u16),
    OrigDstPort(u16),
    ReplySrcAddr((IpAddress, Family)),
    ReplyDstAddr((IpAddress, Family)),
    ReplySrcPort(u16),
    ReplyDstPort(u16),
    /// The status, and whether it is shown flag by flag.
    Flags((Status, bool)),
    Mark(Option<u32>),
    Use(Option<u32>),
}

/// The width of an address in a line of a family: that of the longest IPv4
/// address for IPv4, else that of the longest IPv6 address.
pub open spec fn addr_width(family: Family) -> nat {
    match family {
        Family::Ipv4 => 15,
        _ => 39,
    }
}

/// The width of the title of an address column: it goes by the address that
/// the column holds.
pub open spec fn addr_title_width(addr: IpAddress) -> nat {
    match addr {
        IpAddress::V4(_) => 15,
        IpAddress::V6(_) => 39,
    }
}

/// The status as it is shown: flag by flag as fifteen binary digits, or as
/// the name of the one flag that stands for it.
pub open spec fn status_text(status: Status, detail: bool) -> Seq<char> {
    if detail {
        binary(status.bits() as nat, 15)
    } else {
        match status.preferred() {
            Some(f) => f.spec_name(),
            None => Seq::empty(),
        }
    }
}

/// A number as it is shown, or nothing where there is none.
pub open spec fn optional_number(v: Option<u32>) -> Seq<char> {
    match v {
        Some(n) => decimal(n as nat),
        None => Seq::empty(),
    }
}

impl FlowColumn {
    /// The width of the column.
    pub open spec fn width(&self, header: bool) -> nat {
        match self {
            FlowColumn::Event(_) => 7,
            FlowColumn::Protocol(_) => 8,
            FlowColumn::ProtocolNumber(_) => 8,
            FlowColumn::Timeout(_) => 10,
            FlowColumn::TcpState(_) => 11,
            FlowColumn::OrigSrcAddr(a) => if header {
                addr_title_width(a.0)
            } else {
                addr_width(a.1)
            },
            FlowColumn::OrigDstAddr(a) => if header {
                addr_title_width(a.0)
            } else {
                addr_width(a.1)
            },
            FlowColumn::OrigSrcPort(_) => 13,
            FlowColumn::OrigDstPort(_) => 13,
            FlowColumn::ReplySrcAddr(a) => if header {
                addr_title_width(a.0)
            } else {
                addr_width(a.1)
            },
            FlowColumn::ReplyDstAddr(a) => if header {
                addr_title_width(a.0)
            } else {
                addr_width(a.1)
            },
            FlowColumn::ReplySrcPort(_) => 14,
            FlowColumn::ReplyDstPort(_) => 14,
            FlowColumn::Flags(f) => if f.1 {
                15
            } else {
                13
            },
            FlowColumn::Mark(_) => 5,
            FlowColumn::Use(_) => 5,
        }
    }

    /// The value of the column as a text.
    pub open spec fn value(&self) -> Seq<char> {
        match self {
            FlowColumn::Event(e) => e.spec_upper_name(),
            FlowColumn::Protocol(p) => p.spec_name(),
            FlowColumn::ProtocolNumber(n) => decimal(*n as nat),
            FlowColumn::Timeout(t) => decimal(*t as nat),
            FlowColumn::TcpState(s) => match s {
                Some(s) => s.spec_name(),
                None => Seq::empty(),
            },
            FlowColumn::OrigSrcAddr(a) => address_notation(a.0),
            FlowColumn::OrigDstAddr(a) => address_notation(a.0),
            FlowColumn::OrigSrcPort(n) => decimal(*n as nat),
            FlowColumn::OrigDstPort(n) => decimal(*n as nat),
            FlowColumn::ReplySrcAddr(a) => address_notation(a.0),
            FlowColumn::ReplyDstAddr(a) => address_notation(a.0),
            FlowColumn::ReplySrcPort(n) => decimal(*n as nat),
            FlowColumn::ReplyDstPort(n) => decimal(*n as nat),
            FlowColumn::Flags(f) => status_text(f.0, f.1),
            FlowColumn::Mark(m) => optional_number(*m),
            FlowColumn::Use(u) => optional_number(*u),
        }
    }

    fn value_text(&self) -> (r: String)
        ensures
            r@ == self.value(),
    {
        match self {
            FlowColumn::Event(e) => e.upper_name(),
            FlowColumn::Protocol(p) => p.name(),
            FlowColumn::ProtocolNumber(n) => decimal_u32(*n as u32),
            FlowColumn::Timeout(t) => decimal_u32(*t),
            FlowColumn::TcpState(s) => match s {
                Some(s) => s.name(),
                None => String::new(),
            },
            FlowColumn::OrigSrcAddr(a) => a.0.to_text(),
            FlowColumn::OrigDstAddr(a) => a.0.to_text(),
            FlowColumn::OrigSrcPort(n) => decimal_u32(*n as u32),
            FlowColumn::OrigDstPort(n) => decimal_u32(*n as u32),
            FlowColumn::ReplySrcAddr(a) => a.0.to_text(),
            FlowColumn::ReplyDstAddr(a) => a.0.to_text(),
            FlowColumn::ReplySrcPort(n) => decimal_u32(*n as u32),
            FlowColumn::ReplyDstPort(n) => decimal_u32(*n as u32),
            FlowColumn::Flags(f) => ct_status_to_string(&f.0, f.1),
            FlowColumn::Mark(m) => match m {
                Some(m) => decimal_u32(*m),
                None => String::new(),
            },
            FlowColumn::Use(u) => match u {
                Some(u) => decimal_u32(*u),
                None => String::new(),
            },
        }
    }

    fn width_of(&self, header: bool) -> (r: usize)
        ensures
            r as nat == self.width(header),
    {
        match self {
            FlowColumn::Event(_) => 7,
            FlowColumn::Protocol(_) => 8,
            FlowColumn::ProtocolNumber(_) => 8,
            FlowColumn::Timeout(_) => 10,
            FlowColumn::TcpState(_) => 11,
            FlowColumn::OrigSrcAddr(a) => address_width(a, header),
            FlowColumn::OrigDstAddr(a) => address_width(a, header),
            FlowColumn::OrigSrcPort(_) => 13,
            FlowColumn::OrigDstPort(_) => 13,
            FlowColumn::ReplySrcAddr(a) => address_width(a, header),
            FlowColumn::ReplyDstAddr(a) => address_width(a, header),
            FlowColumn::ReplySrcPort(_) => 14,
            FlowColumn::ReplyDstPort(_) => 14,
            FlowColumn::Flags(f) => if f.1 {
                15
            } else {
                13
            },
            FlowColumn::Mark(_) => 5,
            FlowColumn::Use(_) => 5,
        }
    }
}

fn address_width(a: &(IpAddress, Family), header: bool) -> (r: usize)
    ensures
        r as nat == if header {
            addr_title_width(a.0)
        } else {
            addr_width(a.1)
        },
{
    if header {
        match a.0 {
            IpAddress::V4(_) => 15,
            IpAddress::V6(_) => 39,
        }
    } else {
        match a.1 {
            Family::Ipv4 => 15,
            _ => 39,
        }
    }
}

/// The status as it is shown.
pub fn ct_status_to_string(status: &Status, detail: bool) -> (r: String)
    ensures
        r@ == status_text(*status, detail),
{
    if detail {
        binary_u16(status.to_u16(), 15)
    } else {
        status.preferred_one()
    }
}

impl Column for FlowColumn {
    open spec fn title(&self) -> Seq<char> {
        match self {
            FlowColumn::Event(_) => "EVENT"@,
            FlowColumn::Protocol(_) => "PROTOCOL"@,
            FlowColumn::ProtocolNumber(_) => "PROTONUM"@,
            FlowColumn::Timeout(_) => "TIMEOUT"@,
            FlowColumn::TcpState(_) => "TCP_STATE"@,
            FlowColumn::OrigSrcAddr(_) => "ORIG_SRC_ADDR"@,
            FlowColumn::OrigDstAddr(_) => "ORIG_DST_ADDR"@,
            FlowColumn::OrigSrcPort(_) => "ORIG_SRC_PORT"@,
            FlowColumn::OrigDstPort(_) => "ORIG_DST_PORT"@,
            FlowColumn::ReplySrcAddr(_) => "REPLY_SRC_ADDR"@,
            FlowColumn::ReplyDstAddr(_) => "REPLY_DST_ADDR"@,
            FlowColumn::ReplySrcPort(_) => "REPLY_SRC_PORT"@,
            FlowColumn::ReplyDstPort(_) => "REPLY_DST_PORT"@,
            FlowColumn::Flags(_) => "FLAGS"@,
            FlowColumn::Mark(_) => "MARK"@,
            FlowColumn::Use(_) => "USE"@,
        }
    }

    open spec fn text(&self, header: bool) -> Seq<char> {
        padded(
            if header {
                self.title()
            } else {
                self.value()
            },
            self.width(header),
        )
    }

    fn header(&self) -> (r: String) {
        match self {
            FlowColumn::Event(_) => "EVENT".to_owned(),
            FlowColumn::Protocol(_) => "PROTOCOL".to_owned(),
            FlowColumn::ProtocolNumber(_) => "PROTONUM".to_owned(),
            FlowColumn::Timeout(_) => "TIMEOUT".to_owned(),
            FlowColumn::TcpState(_) => "TCP_STATE".to_owned(),
            FlowColumn::OrigSrcAddr(_) => "ORIG_SRC_ADDR".to_owned(),
            FlowColumn::OrigDstAddr(_) => "ORIG_DST_ADDR".to_owned(),
            FlowColumn::OrigSrcPort(_) => "ORIG_SRC_PORT".to_owned(),
            FlowColumn::OrigDstPort(_) => "ORIG_DST_PORT".to_owned(),
            FlowColumn::ReplySrcAddr(_) => "REPLY_SRC_ADDR".to_owned(),
            FlowColumn::ReplyDstAddr(_) => "REPLY_DST_ADDR".to_owned(),
            FlowColumn::ReplySrcPort(_) => "REPLY_SRC_PORT".to_owned(),
            FlowColumn::ReplyDstPort(_) => "REPLY_DST_PORT".to_owned(),
            FlowColumn::Flags(_) => "FLAGS".to_owned(),
            FlowColumn::Mark(_) => "MARK".to_owned(),
            FlowColumn::Use(_) => "USE".to_owned(),
        }
    }

    fn column(&self, header: bool) -> (r: String) {
        let content = if header {
            self.header()
        } else {
            self.value_text()
        };
        pad_left(content.as_str(), self.width_of(header))
    }
}

/// The columns of a flow: the kind of event if it is asked for, protocol,
/// protocol number, timeout, the TCP state unless it is left out, the
/// addresses and ports of both directions, the status, mark and use count.
pub open spec fn flow_columns(flow: Flow, opt: ToColumnOptions) -> Seq<FlowColumn> {
    (if opt.event {
        seq![FlowColumn::Event(flow.event_type)]
    } else {
        Seq::empty()
    }) + seq![
        FlowColumn::Protocol(flow.protocol),
        FlowColumn::ProtocolNumber(flow.protocol.spec_number()),
        FlowColumn::Timeout(flow.timeout),
    ] + (if opt.omit_tcp_state {
        Seq::empty()
    } else {
        seq![FlowColumn::TcpState(flow.tcp_state)]
    }) + seq![
        FlowColumn::OrigSrcAddr((flow.original.src_addr, opt.family)),
        FlowColumn::OrigDstAddr((flow.original.dst_addr, opt.family)),
        FlowColumn::OrigSrcPort(flow.original.src_port),
        FlowColumn::OrigDstPort(flow.original.dst_port),
        FlowColumn::ReplySrcAddr((flow.reply.src_addr, opt.family)),
        FlowColumn::ReplyDstAddr((flow.reply.dst_addr, opt.family)),
        FlowColumn::ReplySrcPort(flow.reply.src_port),
        FlowColumn::ReplyDstPort(flow.reply.dst_port),
        FlowColumn::Flags((flow.status, opt.detailed_status)),
        FlowColumn::Mark(Some(flow.mark)),
        FlowColumn::Use(Some(flow.use_count)),
    ]
}

impl ToColumns<FlowColumn> for Flow {
    open spec fn columns(&self, opt: ToColumnOptions) -> Seq<FlowColumn> {
        flow_columns(*self, opt)
    }

    fn to_columns(&self, opt: ToColumnOptions) -> (r: Vec<FlowColumn>) {
        let mut columns: Vec<FlowColumn> = Vec::new();
        if opt.event {
            columns.push(FlowColumn::Event(self.event_type));
        }
        columns.push(FlowColumn::Protocol(self.protocol));
        columns.push(FlowColumn::ProtocolNumber(self.protocol.number()));
        columns.push(FlowColumn::Timeout(self.timeout));
        if !opt.omit_tcp_state {
            columns.push(FlowColumn::TcpState(self.tcp_state));
        }
        columns.push(FlowColumn::OrigSrcAddr((self.original.src_addr, opt.family)));
        columns.push(FlowColumn::OrigDstAddr((self.original.dst_addr, opt.family)));
        columns.push(FlowColumn::OrigSrcPort(self.original.src_port));
        columns.push(FlowColumn::OrigDstPort(self.original.dst_port));
        columns.push(FlowColumn::ReplySrcAddr((self.reply.src_addr, opt.family)));
        columns.push(FlowColumn::ReplyDstAddr((self.reply.dst_addr, opt.family)));
        columns.push(FlowColumn::ReplySrcPort(self.reply.src_port));
        columns.push(FlowColumn::ReplyDstPort(self.reply.dst_port));
        columns.push(FlowColumn::Flags((self.status, opt.detailed_status)));
        columns.push(FlowColumn::Mark(Some(self.mark)));
        columns.push(FlowColumn::Use(Some(self.use_count)));
        assert(columns@ =~= flow_columns(*self, opt));
        columns
    }
}

/// The address that stands in the columns of a line of titles: one of the
/// family, so that the titles are as wide as the values.
pub open spec fn title_addr(family: Family) -> IpAddress {
    match family {
        Family::Ipv4 => IpAddress::V4(0),
        _ => IpAddress::V6(0),
    }
}

/// The columns of the line of titles of a table of flows. The TCP state has
/// a title in a table of TCP flows only; mark and use count have none in a
/// table of events.
pub open spec fn title_columns(
    event: bool,
    detailed_status: bool,
    family: Family,
    protocol: Protocol,
) -> Seq<FlowColumn> {
    let a = (title_addr(family), family);
    (if event {
        seq![FlowColumn::Event(MessageType::New)]
    } else {
        Seq::empty()
    }) + seq![
        FlowColumn::Protocol(Protocol::Tcp),
        FlowColumn::ProtocolNumber(0),
        FlowColumn::Timeout(0),
    ] + (if protocol == Protocol::Tcp {
        seq![FlowColumn::TcpState(None)]
    } else {
        Seq::empty()
    }) + seq![
        FlowColumn::OrigSrcAddr(a),
        FlowColumn::OrigDstAddr(a),
        FlowColumn::OrigSrcPort(0),
        FlowColumn::OrigDstPort(0),
        FlowColumn::ReplySrcAddr(a),
        FlowColumn::ReplyDstAddr(a),
        FlowColumn::ReplySrcPort(0),
        FlowColumn::ReplyDstPort(0),
        FlowColumn::Flags((Status::of_bits(0), detailed_status)),
    ] + (if event {
        Seq::empty()
    } else {
        seq![FlowColumn::Mark(None), FlowColumn::Use(None)]
    })
}

fn titles(event: bool, detailed_status: bool, family: Family, protocol: Protocol) -> (r: Vec<
    FlowColumn,
>)
    ensures
        r@ == title_columns(event, detailed_status, family, protocol),
{
    let dummy_addr = match family {
        Family::Ipv4 => IpAddress::V4(0),
        _ => IpAddress::V6(0),
    };
    let mut columns: Vec<FlowColumn> = Vec::new();
    if event {
        columns.push(FlowColumn::Event(MessageType::New));
    }
    columns.push(FlowColumn::Protocol(Protocol::Tcp));
    columns.push(FlowColumn::ProtocolNumber(0));
    columns.push(FlowColumn::Timeout(0));
    if protocol == Protocol::Tcp {
        columns.push(FlowColumn::TcpState(None));
    }
    columns.push(FlowColumn::OrigSrcAddr((dummy_addr, family)));
    columns.push(FlowColumn::OrigDstAddr((dummy_addr, family)));
    columns.push(FlowColumn::OrigSrcPort(0));
    columns.push(FlowColumn::OrigDstPort(0));
    columns.push(FlowColumn::ReplySrcAddr((dummy_addr, family)));
    columns.push(FlowColumn::ReplyDstAddr((dummy_addr, family)));
    columns.push(FlowColumn::ReplySrcPort(0));
    columns.push(FlowColumn::ReplyDstPort(0));
    columns.push(FlowColumn::Flags((Status::from_u16(0), detailed_status)));
    if !event {
        columns.push(FlowColumn::Mark(None));
        columns.push(FlowColumn::Use(None));
    }
    assert(columns@ =~= title_columns(event, detailed_status, family, protocol));
    columns
}

/// The lines of a table of flows.
#[derive(Debug, Clone, Copy)]
pub struct FlowRow {
    detailed_status: bool,
    family: Family,
    protocol: Protocol,
}

impl FlowRow {
    pub closed spec fn detailed(&self) -> bool {
        self.detailed_status
    }

    pub closed spec fn family(&self) -> Family {
        self.family
    }

    pub closed spec fn protocol(&self) -> Protocol {
        self.protocol
    }

    /// The lines of a table for flows of a family and a protocol.
    pub fn new(detailed_status: bool, family: Family, protocol: Protocol) -> (r: FlowRow)
        ensures
            r.detailed() == detailed_status,
            r.family() == family,
            r.protocol() == protocol,
    {
        FlowRow { detailed_status, family, protocol }
    }
}

impl Row for FlowRow {
    open spec fn options(&self) -> ToColumnOptions {
        ToColumnOptions {
            event: false,
            detailed_status: self.detailed(),
            omit_tcp_state: self.protocol() == Protocol::Udp,
            family: self.family(),
        }
    }

    open spec fn title_line(&self) -> Seq<char> {
        line(
            texts_of(title_columns(false, self.detailed(), self.family(), self.protocol()), true),
        )
    }

    fn row<C: Column, E: ToColumns<C>>(&self, entry: &E) -> (r: String) {
        let columns = entry.to_columns(
            ToColumnOptions {
                event: false,
                detailed_status: self.detailed_status,
                omit_tcp_state: self.protocol == Protocol::Udp,
                family: self.family,
            },
        );
        line_of(&columns, false)
    }

    fn header(&self) -> (r: String) {
        line_of(&titles(false, self.detailed_status, self.family, self.protocol), true)
    }
}

/// The lines of a table of flow events.
#[derive(Debug, Clone, Copy)]
pub struct EventFlowRow {
    detailed_status: bool,
    family: Family,
    protocol: Protocol,
}

impl EventFlowRow {
    pub closed spec fn detailed(&self) -> bool {
        self.detailed_status
    }

    pub closed spec fn family(&self) -> Family {
        self.family
    }

    pub closed spec fn protocol(&self) -> Protocol {
        self.protocol
    }

    /// The lines of a table for events of flows of a family and a protocol.
    pub fn new(detailed_status: bool, family: Family, protocol: Protocol) -> (r: EventFlowRow)
        ensures
            r.detailed() == detailed_status,
            r.family() == family,
            r.protocol() == protocol,
    {
        EventFlowRow { detailed_status, family, protocol }
    }
}

impl Row for EventFlowRow {
    open spec fn options(&self) -> ToColumnOptions {
        ToColumnOptions {
            event: true,
            detailed_status: self.detailed(),
            omit_tcp_state: self.protocol() == Protocol::Udp,
            family: self.family(),
        }
    }

    open spec fn title_line(&self) -> Seq<char> {
        line(
            texts_of(title_columns(true, self.detailed(), self.family(), self.protocol()), true),
        )
    }

    fn row<C: Column, E: ToColumns<C>>(&self, entry: &E) -> (r: String) {
        let columns = entry.to_columns(
            ToColumnOptions {
                event: true,
                detailed_status: self.detailed_status,
                omit_tcp_state: self.protocol == Protocol::Udp,
                family: self.family,
            },
        );
        line_of(&columns, false)
    }

    fn header(&self) -> (r: String) {
        line_of(&titles(true, self.detailed_status, self.family, self.protocol), true)
    }
}

/// A column of the statistics of a CPU.
#[derive(Debug, Clone, Copy, PartialEq, Eq)]
pub enum StatsColumn {
    Cpu(u32),
    Found(u32),
    Invalid(u32),
    Insert(u32),
    InsertFailed(u32),
    Drop(u32),
    EarlyDrop(u32),
    Error(u32),
    SearchRestart(u32),
    ClashResolve(u32),
    ChainTooLong(u32),
}

impl StatsColumn {
    /// The width of the column: that of its title.
    pub open spec fn width(&self) -> nat {
        match self {
            StatsColumn::Cpu(_) => 3,
            StatsColumn::Found(_) => 5,
            StatsColumn::Invalid(_) => 7,
            StatsColumn::Insert(_) => 6,
            StatsColumn::InsertFailed(_) => 13,
            StatsColumn::Drop(_) => 4,
            StatsColumn::EarlyDrop(_) => 10,
            StatsColumn::Error(_) => 5,
            StatsColumn::SearchRestart(_) => 14,
            StatsColumn::ClashResolve(_) => 13,
            StatsColumn::ChainTooLong(_) => 14,
        }
    }

    /// The counter of the column.
    pub open spec fn counter(&self) -> u32 {
        match self {
            StatsColumn::Cpu(v) => *v,
            StatsColumn::Found(v) => *v,
            StatsColumn::Invalid(v) => *v,
            StatsColumn::Insert(v) => *v,
            StatsColumn::InsertFailed(v) => *v,
            StatsColumn::Drop(v) => *v,
            StatsColumn::EarlyDrop(v) => *v,
            StatsColumn::Error(v) => *v,
            StatsColumn::SearchRestart(v) => *v,
            StatsColumn::ClashResolve(v) => *v,
            StatsColumn::ChainTooLong(v) => *v,
        }
    }

    fn width_of(&self) -> (r: usize)
        ensures
            r as nat == self.width(),
    {
        match self {
            StatsColumn::Cpu(_) => 3,
            StatsColumn::Found(_) => 5,
            StatsColumn::Invalid(_) => 7,
            StatsColumn::Insert(_) => 6,
            StatsColumn::InsertFailed(_) => 13,
            StatsColumn::Drop(_) => 4,
            StatsColumn::EarlyDrop(_) => 10,
            StatsColumn::Error(_) => 5,
            StatsColumn::SearchRestart(_) => 14,
            StatsColumn::ClashResolve(_) => 13,
            StatsColumn::ChainTooLong(_) => 14,
        }
    }

    fn counter_of(&self) -> (r: u32)
        ensures
            r == self.counter(),
    {
        match self {
            StatsColumn::Cpu(v) => *v,
            StatsColumn::Found(v) => *v,
            StatsColumn::Invalid(v) => *v,
            StatsColumn::Insert(v) => *v,
            StatsColumn::InsertFailed(v) => *v,
            StatsColumn::Drop(v) => *v,
            StatsColumn::EarlyDrop(v) => *v,
            StatsColumn::Error(v) => *v,
            StatsColumn::SearchRestart(v) => *v,
            StatsColumn::ClashResolve(v) => *v,
            StatsColumn::ChainTooLong(v) => *v,
        }
    }
}

impl Column for StatsColumn {
    open spec fn title(&self) -> Seq<char> {
        match self {
            StatsColumn::Cpu(_) => "CPU"@,
            StatsColumn::Found(_) => "FOUND"@,
            StatsColumn::Invalid(_) => "INVALID"@,
            StatsColumn::Insert(_) => "INSERT"@,
            StatsColumn::InsertFailed(_) => "INSERT_FAILED"@,
            StatsColumn::Drop(_) => "DROP"@,
            StatsColumn::EarlyDrop(_) => "EARLY_DROP"@,
            StatsColumn::Error(_) => "ERROR"@,
            StatsColumn::SearchRestart(_) => "SEARCH_RESTART"@,
            StatsColumn::ClashResolve(_) => "CLASH_RESOLVE"@,
            StatsColumn::ChainTooLong(_) => "CHAIN_TOO_LONG"@,
        }
    }

    open spec fn text(&self, header: bool) -> Seq<char> {
        padded(
            if header {
                self.title()
            } else {
                decimal(self.counter() as nat)
            },
            self.width(),
        )
    }

    fn header(&self) -> (r: String) {
        match self {
            StatsColumn::Cpu(_) => "CPU".to_owned(),
            StatsColumn::Found(_) => "FOUND".to_owned(),
            StatsColumn::Invalid(_) => "INVALID".to_owned(),
            StatsColumn::Insert(_) => "INSERT".to_owned(),
            StatsColumn::InsertFailed(_) => "INSERT_FAILED".to_owned(),
            StatsColumn::Drop(_) => "DROP".to_owned(),
            StatsColumn::EarlyDrop(_) => "EARLY_DROP".to_owned(),
            StatsColumn::Error(_) => "ERROR".to_owned(),
            StatsColumn::SearchRestart(_) => "SEARCH_RESTART".to_owned(),
            StatsColumn::ClashResolve(_) => "CLASH_RESOLVE".to_owned(),
            StatsColumn::ChainTooLong(_) => "CHAIN_TOO_LONG".to_owned(),
        }
    }

    fn column(&self, header: bool) -> (r: String) {
        let content = if header {
            self.header()
        } else {
            decimal_u32(self.counter_of())
        };
        pad_left(content.as_str(), self.width_of())
    }
}

/// The columns of the statistics of a CPU: the CPU and the ten counters
/// that the kernel keeps.
pub open spec fn stats_columns(s: Stats) -> Seq<StatsColumn> {
    seq![
        StatsColumn::Cpu(s.cpu as u32),
        StatsColumn::Found(s.found),
        StatsColumn::Invalid(s.invalid),
        StatsColumn::Insert(s.insert),
        StatsColumn::InsertFailed(s.insert_failed),
        StatsColumn::Drop(s.drop),
        StatsColumn::EarlyDrop(s.early_drop),
        StatsColumn::Error(s.error),
        StatsColumn::SearchRestart(s.search_restart),
        StatsColumn::ClashResolve(s.clash_resolve),
        StatsColumn::ChainTooLong(s.chain_too_long),
    ]
}

fn columns_of_stats(s: &Stats) -> (r: Vec<StatsColumn>)
    ensures
        r@ == stats_columns(*s),
{
    let mut columns: Vec<StatsColumn> = Vec::new();
    columns.push(StatsColumn::Cpu(s.cpu as u32));
    columns.push(StatsColumn::Found(s.found));
    columns.push(StatsColumn::Invalid(s.invalid));
    columns.push(StatsColumn::Insert(s.insert));
    columns.push(StatsColumn::InsertFailed(s.insert_failed));
    columns.push(StatsColumn::Drop(s.drop));
    columns.push(StatsColumn::EarlyDrop(s.early_drop));
    columns.push(StatsColumn::Error(s.error));
    columns.push(StatsColumn::SearchRestart(s.search_restart));
    columns.push(StatsColumn::ClashResolve(s.clash_resolve));
    columns.push(StatsColumn::ChainTooLong(s.chain_too_long));
    assert(columns@ =~= stats_columns(*s));
    columns
}

impl ToColumns<StatsColumn> for Stats {
    open spec fn columns(&self, opt: ToColumnOptions) -> Seq<StatsColumn> {
        stats_columns(*self)
    }

    fn to_columns(&self, opt: ToColumnOptions) -> (r: Vec<StatsColumn>) {
        columns_of_stats(self)
    }
}

/// The lines of a table of statistics.
#[derive(Debug, Clone, Copy)]
pub struct StatsRow {}

impl StatsRow {
    pub fn new() -> (r: StatsRow)
        ensures
            r == (StatsRow {  }),
    {
        StatsRow {  }
    }
}

impl Default for StatsRow {
    fn default() -> (r: StatsRow)
        ensures
            r == (StatsRow {  }),
    {
        StatsRow {  }
    }
}

impl Row for StatsRow {
    open spec fn options(&self) -> ToColumnOptions {
        ToColumnOptions {
            event: false,
            detailed_status: false,
            omit_tcp_state: false,
            family: Family::Ipv4,
        }
    }

    fn row<C: Column, E: ToColumns<C>>(&self, entry: &E) -> (r: String) {
        let columns = entry.to_columns(ToColumnOptions::default());
        line_of(&columns, false)
    }

    open spec fn title_line(&self) -> Seq<char> {
        line(texts_of(stats_columns(Stats::zero(0)), true))
    }

    fn header(&self) -> (r: String) {
        let zero = Stats::from_nlas(0, &Vec::new());
        assert(crate::attr::raw_views(Seq::<crate::attr::RawAttr>::empty()) =~= Seq::empty());
        line_of(&columns_of_stats(&zero), true)
    }
}

/// A column is never narrower than its width, and a value that fits is its
/// last characters.
pub proof fn law_padded(s: Seq<char>, width: nat)
    ensures
        padded(s, width).len() == if s.len() >= width {
            s.len()
        } else {
            width
        },
        padded(s, width).subrange(padded(s, width).len() - s.len(), padded(s, width).len() as int)
            == s,
        forall|i: int| 0 <= i < padded(s, width).len() - s.len() ==> padded(s, width)[i] == ' ',
{
    let p = padded(s, width);
    assert(p.subrange(p.len() - s.len(), p.len() as int) =~= s);
}

} // verus!

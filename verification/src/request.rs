//! Requests to the kernel and the filter that is applied to its answers.

use crate::addr::Cidr;
use crate::attr::attr_views;
use crate::attr::CtAttr;
use crate::attr::CtAttrView;
use crate::error::Error;
use crate::addr::IpAddress;
use crate::message::MessageBuilder;
use crate::message::MessageGroup;
use crate::message::RequestFrame;
use crate::flow::groups_of;
use crate::flow::tuple_groups;
use crate::flow::Flow;
use crate::flow::Protocol;
use crate::flow::Status;
use crate::flow::TcpState;
use crate::flow::Tuple;
use crate::Family;
use crate::Table;
use vstd::prelude::*;

verus! {

/// What every request says of itself: the family and the table it is about,
/// the resource id of its header, and whether counters are set to zero as
/// they are read.
#[derive(Debug, Clone, Copy)]
pub struct RequestMeta {
    pub family: Family,
    pub table: Table,
    pub res_id: u16,
    pub zero: bool,
}

impl RequestMeta {
    pub fn family(self, f: Family) -> (r: RequestMeta)
        ensures
            r == (RequestMeta { family: f, ..self }),
    {
        RequestMeta { family: f, ..self }
    }

    pub fn table(self, t: Table) -> (r: RequestMeta)
        ensures
            r == (RequestMeta { table: t, ..self }),
    {
        RequestMeta { table: t, ..self }
    }

    pub fn res_id(self, id: u16) -> (r: RequestMeta)
        ensures
            r == (RequestMeta { res_id: id, ..self }),
    {
        RequestMeta { res_id: id, ..self }
    }

    pub fn zero(self) -> (r: RequestMeta)
        ensures
            r == (RequestMeta { zero: true, ..self }),
    {
        RequestMeta { zero: true, ..self }
    }

    /// The builder of the frames of a request with this description.
    pub open spec fn builder(&self) -> MessageBuilder {
        MessageBuilder {
            family: self.family,
            table: self.table,
            res_id: self.res_id,
            flag: crate::message::FLAG_REQUEST,
            zero: self.zero,
        }
    }

    /// The builder of the frames of a request with this description.
    pub fn to_builder(&self) -> (r: MessageBuilder)
        ensures
            r == self.builder(),
    {
        if self.zero {
            MessageBuilder::new(self.family, self.table).res_id(self.res_id).zero()
        } else {
            MessageBuilder::new(self.family, self.table).res_id(self.res_id)
        }
    }
}

impl Default for RequestMeta {
    /// A request about the connection-tracking table of IPv4.
    fn default() -> (r: RequestMeta)
        ensures
            r == (RequestMeta {
                family: Family::Ipv4,
                table: Table::Conntrack,
                res_id: 0,
                zero: false,
            }),
    {
        RequestMeta { family: Family::Ipv4, table: Table::Conntrack, res_id: 0, zero: false }
    }
}

/// A tuple with the direction it is of.
#[derive(Debug, Clone, Copy, PartialEq, Eq)]
pub enum Direction {
    Orig(Tuple),
    Reply(Tuple),
}

/// What names the one entry that a get request asks for.
#[derive(Debug, Clone, Copy, PartialEq, Eq)]
pub struct GetParams {
    pub protocol: Protocol,
    pub directed_tuple: Direction,
}

impl GetParams {
    pub fn new(protocol: Protocol, directed_tuple: Direction) -> (r: GetParams)
        ensures
            r == (GetParams { protocol, directed_tuple }),
    {
        GetParams { protocol, directed_tuple }
    }

    /// The attributes of the request: one tuple attribute, of the direction
    /// of the tuple.
    pub open spec fn spec_attrs(&self) -> Seq<CtAttrView> {
        match self.directed_tuple {
            Direction::Orig(t) => seq![CtAttrView::TupleOrig(tuple_groups(self.protocol, t))],
            Direction::Reply(t) => seq![CtAttrView::TupleReply(tuple_groups(self.protocol, t))],
        }
    }

    /// The attributes of the request.
    pub fn attrs(&self) -> (r: Vec<CtAttr>)
        ensures
            attr_views(r@) == self.spec_attrs(),
    {
        let mut nlas: Vec<CtAttr> = Vec::new();
        match &self.directed_tuple {
            Direction::Orig(tuple) => {
                nlas.push(CtAttr::TupleOrig(groups_of(self.protocol, tuple)));
            },
            Direction::Reply(tuple) => {
                nlas.push(CtAttr::TupleReply(groups_of(self.protocol, tuple)));
            },
        }
        assert(attr_views(nlas@) =~= self.spec_attrs());
        nlas
    }
}

/// What a request does.
#[derive(Debug, Clone, Copy)]
pub enum RequestOperation {
    /// Dump the table; the filter, if any, is applied to the flows.
    List(Option<Filter>),
    /// Look one entry up.
    Get(GetParams),
    /// Listen to events; the filter, if any, is applied to the flows.
    Event(Option<Filter>),
    /// Count the tracked entries.
    Count,
    /// Read the statistics of each CPU.
    Stat,
}

impl RequestOperation {
    /// The filter of the operation: that of a list or of an event
    /// subscription.
    pub open spec fn spec_filter(&self) -> Option<Filter> {
        match self {
            RequestOperation::List(f) => *f,
            RequestOperation::Event(f) => *f,
            _ => None,
        }
    }

    pub fn filter(&self) -> (r: Option<Filter>)
        ensures
            r == self.spec_filter(),
    {
        match self {
            RequestOperation::List(f) => *f,
            RequestOperation::Get(_) => None,
            RequestOperation::Event(f) => *f,
            RequestOperation::Count => None,
            RequestOperation::Stat => None,
        }
    }
}

impl RequestOperation {
    /// The mask of the groups that a socket for the operation is bound
    /// with: all three kinds of events for a subscription, none for the
    /// count and the statistics, and new flows for a list or a lookup.
    pub open spec fn group_mask(&self) -> u32 {
        match self {
            RequestOperation::Event(_) => 7,
            RequestOperation::Count => 0,
            RequestOperation::Stat => 0,
            _ => 1,
        }
    }

    /// The groups that a socket for the operation is bound with.
    pub fn group(&self) -> (r: MessageGroup)
        ensures
            r.mask() == self.group_mask(),
    {
        match self {
            RequestOperation::Event(_) => {
                assert(1u32 | 2u32 | 4u32 == 7u32) by (bit_vector);
                MessageGroup::default().set(crate::message::MessageType::Update).set(
                    crate::message::MessageType::Destroy,
                )
            },
            RequestOperation::Count => MessageGroup::from_bits(0),
            RequestOperation::Stat => MessageGroup::from_bits(0),
            _ => MessageGroup::default(),
        }
    }
}

/// Why the parameters of a lookup name no entry.
#[derive(Debug, Clone, Copy, PartialEq, Eq, Structural)]
pub enum ValidationError {
    /// Neither direction is complete.
    Missing,
    /// The original direction is given in part only.
    Orig,
    /// The reply direction is given in part only.
    Reply,
}

/// The parameters of a lookup as they come from the caller: of each
/// direction the four parts of a tuple, each of which may be missing.
#[derive(Debug, Clone, Copy)]
pub struct GetArgs {
    pub orig_src_addr: Option<IpAddress>,
    pub orig_dst_addr: Option<IpAddress>,
    pub orig_src_port: Option<u16>,
    pub orig_dst_port: Option<u16>,
    pub reply_src_addr: Option<IpAddress>,
    pub reply_dst_addr: Option<IpAddress>,
    pub reply_src_port: Option<u16>,
    pub reply_dst_port: Option<u16>,
}

impl GetArgs {
    /// Whether all four parts of the original direction are given.
    pub open spec fn orig_complete(&self) -> bool {
        self.orig_src_addr is Some && self.orig_dst_addr is Some && self.orig_src_port is Some
            && self.orig_dst_port is Some
    }

    /// Whether a part of the original direction is given.
    pub open spec fn orig_given(&self) -> bool {
        self.orig_src_addr is Some || self.orig_dst_addr is Some || self.orig_src_port is Some
            || self.orig_dst_port is Some
    }

    /// Whether all four parts of the reply direction are given.
    pub open spec fn reply_complete(&self) -> bool {
        self.reply_src_addr is Some && self.reply_dst_addr is Some && self.reply_src_port is Some
            && self.reply_dst_port is Some
    }

    /// Whether a part of the reply direction is given.
    pub open spec fn reply_given(&self) -> bool {
        self.reply_src_addr is Some || self.reply_dst_addr is Some || self.reply_src_port is Some
            || self.reply_dst_port is Some
    }

    /// Whether the parameters are in order.
    /// - Nothing given, or both directions given in part only: parameters
    ///   are missing.
    /// - The original direction given in part only: it is incomplete.
    /// - The reply direction given in part only: it is incomplete.
    /// - Else: which of the directions are complete.
    pub open spec fn checked(&self) -> Result<(bool, bool), ValidationError> {
        if !self.orig_complete() && !self.reply_complete() && (self.orig_given()
            == self.reply_given()) {
            Err(ValidationError::Missing)
        } else if self.orig_given() && !self.orig_complete() {
            Err(ValidationError::Orig)
        } else if self.reply_given() && !self.reply_complete() {
            Err(ValidationError::Reply)
        } else {
            Ok((self.orig_complete(), self.reply_complete()))
        }
    }

    /// Whether parts of both directions are given: only one of them is
    /// used, which is worth a warning.
    pub fn both_given(&self) -> (r: bool)
        ensures
            r == (self.orig_given() && self.reply_given()),
    {
        let orig_or = self.orig_src_addr.is_some() || self.orig_dst_addr.is_some()
            || self.orig_src_port.is_some() || self.orig_dst_port.is_some();
        let reply_or = self.reply_src_addr.is_some() || self.reply_dst_addr.is_some()
            || self.reply_src_port.is_some() || self.reply_dst_port.is_some();
        orig_or && reply_or
    }

    /// Whether the parameters are in order, and which directions are
    /// complete.
    pub fn validate(&self) -> (r: Result<(bool, bool), ValidationError>)
        ensures
            r == self.checked(),
    {
        let orig_and = self.orig_src_addr.is_some() && self.orig_dst_addr.is_some()
            && self.orig_src_port.is_some() && self.orig_dst_port.is_some();
        let reply_and = self.reply_src_addr.is_some() && self.reply_dst_addr.is_some()
            && self.reply_src_port.is_some() && self.reply_dst_port.is_some();
        let orig_or = self.orig_src_addr.is_some() || self.orig_dst_addr.is_some()
            || self.orig_src_port.is_some() || self.orig_dst_port.is_some();
        let reply_or = self.reply_src_addr.is_some() || self.reply_dst_addr.is_some()
            || self.reply_src_port.is_some() || self.reply_dst_port.is_some();
        if !orig_and && !reply_and && !orig_or && !reply_or {
            return Err(ValidationError::Missing);
        }
        if orig_or && reply_or {
            if !orig_and && !reply_and {
                return Err(ValidationError::Missing);
            }
        }
        if !orig_and && orig_or {
            return Err(ValidationError::Orig);
        }
        if !reply_and && reply_or {
            return Err(ValidationError::Reply);
        }
        Ok((orig_and, reply_and))
    }

    /// The tuple that the lookup is made with: that of the original
    /// direction where it is complete, else that of the reply direction.
    pub open spec fn directed(&self) -> Result<Direction, ValidationError> {
        match self.checked() {
            Err(e) => Err(e),
            Ok(_) => if self.orig_complete() {
                Ok(
                    Direction::Orig(
                        Tuple {
                            src_addr: self.orig_src_addr->0,
                            dst_addr: self.orig_dst_addr->0,
                            src_port: self.orig_src_port->0,
                            dst_port: self.orig_dst_port->0,
                        },
                    ),
                )
            } else {
                Ok(
                    Direction::Reply(
                        Tuple {
                            src_addr: self.reply_src_addr->0,
                            dst_addr: self.reply_dst_addr->0,
                            src_port: self.reply_src_port->0,
                            dst_port: self.reply_dst_port->0,
                        },
                    ),
                )
            },
        }
    }

    /// The tuple that the lookup is made with.
    pub fn get_tuples(&self) -> (r: Result<Direction, ValidationError>)
        ensures
            r == self.directed(),
    {
        match self.validate() {
            Err(e) => Err(e),
            Ok((orig_accepted, reply_accepted)) => {
                if orig_accepted {
                    match (
                        self.orig_src_addr,
                        self.orig_dst_addr,
                        self.orig_src_port,
                        self.orig_dst_port,
                    ) {
                        (Some(src_addr), Some(dst_addr), Some(src_port), Some(dst_port)) => Ok(
                            Direction::Orig(Tuple { src_addr, dst_addr, src_port, dst_port }),
                        ),
                        _ => Err(ValidationError::Missing),
                    }
                } else {
                    match (
                        self.reply_src_addr,
                        self.reply_dst_addr,
                        self.reply_src_port,
                        self.reply_dst_port,
                    ) {
                        (Some(src_addr), Some(dst_addr), Some(src_port), Some(dst_port)) => Ok(
                            Direction::Reply(Tuple { src_addr, dst_addr, src_port, dst_port }),
                        ),
                        _ => Err(ValidationError::Missing),
                    }
                }
            },
        }
    }
}

/// A lookup goes on exactly where one direction is complete and the other
/// is complete or not given at all, and it prefers the original direction.
pub proof fn law_get_validation(a: GetArgs)
    ensures
        a.checked() is Ok <==> (a.orig_complete() || a.reply_complete()) && (a.orig_given()
            ==> a.orig_complete()) && (a.reply_given() ==> a.reply_complete()),
        a.directed() is Ok <==> a.checked() is Ok,
        a.directed() is Ok && a.orig_complete() ==> a.directed()->Ok_0 is Orig,
        a.directed() is Ok && !a.orig_complete() ==> a.directed()->Ok_0 is Reply,
{
}

/// A request: what it says of itself and what it does.
#[derive(Debug, Clone, Copy)]
pub struct Request {
    pub meta: RequestMeta,
    pub op: RequestOperation,
}

impl Request {
    pub fn new(meta: RequestMeta, op: RequestOperation) -> (r: Request)
        ensures
            r == (Request { meta, op }),
    {
        Request { meta, op }
    }

    /// The frame of the request. A subscription to events has none: the
    /// socket was subscribed when it was bound.
    pub open spec fn frame(&self) -> Option<RequestFrame> {
        let b = self.meta.builder();
        match self.op {
            RequestOperation::List(_) => Some(
                RequestFrame {
                    flags: crate::message::FLAG_REQUEST | crate::message::FLAG_DUMP,
                    family: self.meta.family,
                    res_id: self.meta.res_id,
                    query: b.list_query(),
                },
            ),
            RequestOperation::Get(param) => Some(
                RequestFrame {
                    flags: crate::message::FLAG_REQUEST,
                    family: self.meta.family,
                    res_id: self.meta.res_id,
                    query: crate::message::Query::Get(Some(param)),
                },
            ),
            RequestOperation::Event(_) => None,
            RequestOperation::Count => Some(
                RequestFrame {
                    flags: crate::message::FLAG_REQUEST,
                    family: self.meta.family,
                    res_id: 0,
                    query: crate::message::Query::GetStats,
                },
            ),
            RequestOperation::Stat => Some(
                RequestFrame {
                    flags: crate::message::FLAG_REQUEST | crate::message::FLAG_DUMP,
                    family: self.meta.family,
                    res_id: 0,
                    query: crate::message::Query::GetStatsCpu,
                },
            ),
        }
    }

    /// The frame of the request, if it has one. It never fails.
    pub fn message(&self) -> (r: Result<Option<RequestFrame>, Error>)
        ensures
            r matches Ok(f) && f == self.frame(),
            r matches Ok(Some(f)) ==> f.flags & crate::message::FLAG_REQUEST != 0,
    {
        let builder = self.meta.to_builder();
        proof {
            assert(0x001u16 | 0x001u16 == 0x001u16) by (bit_vector);
            assert(0x001u16 | 0x001u16 | 0x300u16 == 0x001u16 | 0x300u16) by (bit_vector);
            assert(0x001u16 | 0x001u16 | 0x100u16 | 0x200u16 == 0x001u16 | 0x300u16)
                by (bit_vector);
        }
        match &self.op {
            RequestOperation::List(_) => Ok(Some(builder.list())),
            RequestOperation::Get(param) => Ok(Some(builder.get(param))),
            RequestOperation::Event(_) => Ok(None),
            RequestOperation::Count => Ok(Some(builder.count())),
            RequestOperation::Stat => Ok(Some(builder.stat())),
        }
    }

    pub fn filter(&self) -> (r: Option<Filter>)
        ensures
            r == self.op.spec_filter(),
    {
        self.op.filter()
    }
}

/// A condition on flows. Each field that is set is one condition, and a flow
/// passes the filter where it meets them all.
#[derive(Debug, Clone, Copy)]
pub struct Filter {
    pub family: Option<Family>,
    pub protocol: Option<Protocol>,
    pub orig_src_addr: Option<Cidr>,
    pub orig_dst_addr: Option<Cidr>,
    pub reply_src_addr: Option<Cidr>,
    pub reply_dst_addr: Option<Cidr>,
    pub orig_src_port: Option<u16>,
    pub orig_dst_port: Option<u16>,
    pub reply_src_port: Option<u16>,
    pub reply_dst_port: Option<u16>,
    pub mark: Option<u32>,
    pub use_count: Option<u32>,
    pub tcp_state: Option<TcpState>,
    pub status: Option<Status>,
}

/// Whether an address meets a condition on it: there is none, or the block
/// holds the address.
pub open spec fn addr_passes(cond: Option<Cidr>, addr: crate::addr::IpAddress) -> bool {
    match cond {
        Some(c) => c.spec_contains(addr),
        None => true,
    }
}

/// Whether a number meets a condition on it: there is none, or it asks for
/// this number.
pub open spec fn equal_passes<T>(cond: Option<T>, value: T) -> bool {
    match cond {
        Some(c) => c == value,
        None => true,
    }
}

impl Filter {
    /// The filter without a condition.
    pub open spec fn empty() -> Filter {
        Filter {
            family: None,
            protocol: None,
            orig_src_addr: None,
            orig_dst_addr: None,
            reply_src_addr: None,
            reply_dst_addr: None,
            orig_src_port: None,
            orig_dst_port: None,
            reply_src_port: None,
            reply_dst_port: None,
            mark: None,
            use_count: None,
            tcp_state: None,
            status: None,
        }
    }

    pub fn family(self, f: Family) -> (r: Filter)
        ensures
            r == (Filter { family: Some(f), ..self }),
    {
        Filter { family: Some(f), ..self }
    }

    pub fn protocol(self, p: Protocol) -> (r: Filter)
        ensures
            r == (Filter { protocol: Some(p), ..self }),
    {
        Filter { protocol: Some(p), ..self }
    }

    pub fn orig_src_addr(self, n: Cidr) -> (r: Filter)
        ensures
            r == (Filter { orig_src_addr: Some(n), ..self }),
    {
        Filter { orig_src_addr: Some(n), ..self }
    }

    pub fn orig_dst_addr(self, n: Cidr) -> (r: Filter)
        ensures
            r == (Filter { orig_dst_addr: Some(n), ..self }),
    {
        Filter { orig_dst_addr: Some(n), ..self }
    }

    pub fn reply_src_addr(self, n: Cidr) -> (r: Filter)
        ensures
            r == (Filter { reply_src_addr: Some(n), ..self }),
    {
        Filter { reply_src_addr: Some(n), ..self }
    }

    pub fn reply_dst_addr(self, n: Cidr) -> (r: Filter)
        ensures
            r == (Filter { reply_dst_addr: Some(n), ..self }),
    {
        Filter { reply_dst_addr: Some(n), ..self }
    }

    pub fn orig_src_port(self, p: u16) -> (r: Filter)
        ensures
            r == (Filter { orig_src_port: Some(p), ..self }),
    {
        Filter { orig_src_port: Some(p), ..self }
    }

    pub fn orig_dst_port(self, p: u16) -> (r: Filter)
        ensures
            r == (Filter { orig_dst_port: Some(p), ..self }),
    {
        Filter { orig_dst_port: Some(p), ..self }
    }

    pub fn reply_src_port(self, p: u16) -> (r: Filter)
        ensures
            r == (Filter { reply_src_port: Some(p), ..self }),
    {
        Filter { reply_src_port: Some(p), ..self }
    }

    pub fn reply_dst_port(self, p: u16) -> (r: Filter)
        ensures
            r == (Filter { reply_dst_port: Some(p), ..self }),
    {
        Filter { reply_dst_port: Some(p), ..self }
    }

    pub fn mark(self, m: u32) -> (r: Filter)
        ensures
            r == (Filter { mark: Some(m), ..self }),
    {
        Filter { mark: Some(m), ..self }
    }

    pub fn use_count(self, u: u32) -> (r: Filter)
        ensures
            r == (Filter { use_count: Some(u), ..self }),
    {
        Filter { use_count: Some(u), ..self }
    }

    pub fn tcp_state(self, s: TcpState) -> (r: Filter)
        ensures
            r == (Filter { tcp_state: Some(s), ..self }),
    {
        Filter { tcp_state: Some(s), ..self }
    }

    pub fn status(self, s: Status) -> (r: Filter)
        ensures
            r == (Filter { status: Some(s), ..self }),
    {
        Filter { status: Some(s), ..self }
    }

    /// Whether the flow meets the condition on the family: the family of its
    /// original source address is the one asked for.
    pub open spec fn family_passes(&self, flow: &Flow) -> bool {
        match self.family {
            Some(f) => f.spec_is_matched(flow.original.src_addr),
            None => true,
        }
    }

    /// Whether the flow meets the condition on the TCP state: it has a state,
    /// and it is the one asked for. A flow without a state meets no such
    /// condition.
    pub open spec fn tcp_state_passes(&self, flow: &Flow) -> bool {
        match self.tcp_state {
            Some(s) => flow.tcp_state == Some(s),
            None => true,
        }
    }

    /// Whether the flow meets the condition on the status: it has one of the
    /// flags asked for.
    pub open spec fn status_passes(&self, flow: &Flow) -> bool {
        match self.status {
            Some(s) => flow.status.spec_intersects(&s),
            None => true,
        }
    }

    /// Whether the flow passes the filter: it meets every condition that is
    /// set.
    pub open spec fn matches(&self, flow: &Flow) -> bool {
        &&& self.family_passes(flow)
        &&& equal_passes(self.protocol, flow.protocol)
        &&& self.tcp_state_passes(flow)
        &&& addr_passes(self.orig_src_addr, flow.original.src_addr)
        &&& addr_passes(self.orig_dst_addr, flow.original.dst_addr)
        &&& addr_passes(self.reply_src_addr, flow.reply.src_addr)
        &&& addr_passes(self.reply_dst_addr, flow.reply.dst_addr)
        &&& equal_passes(self.orig_src_port, flow.original.src_port)
        &&& equal_passes(self.orig_dst_port, flow.original.dst_port)
        &&& equal_passes(self.reply_src_port, flow.reply.src_port)
        &&& equal_passes(self.reply_dst_port, flow.reply.dst_port)
        &&& equal_passes(self.mark, flow.mark)
        &&& equal_passes(self.use_count, flow.use_count)
        &&& self.status_passes(flow)
    }

    /// Whether the flow passes the filter.
    pub fn apply(&self, flow: &Flow) -> (r: bool)
        ensures
            r == self.matches(flow),
    {
        if let Some(f) = self.family {
            if !f.is_matched(flow.original.src_addr) {
                return false;
            }
        }
        if let Some(p) = self.protocol {
            if p != flow.protocol {
                return false;
            }
        }
        if let Some(s) = self.tcp_state {
            match flow.tcp_state {
                Some(flow_s) => {
                    if s != flow_s {
                        return false;
                    }
                },
                None => {
                    return false;
                },
            }
        }
        if let Some(cidr) = self.orig_src_addr {
            if !cidr.contains(&flow.original.src_addr) {
                return false;
            }
        }
        if let Some(cidr) = self.orig_dst_addr {
            if !cidr.contains(&flow.original.dst_addr) {
                return false;
            }
        }
        if let Some(cidr) = self.reply_src_addr {
            if !cidr.contains(&flow.reply.src_addr) {
                return false;
            }
        }
        if let Some(cidr) = self.reply_dst_addr {
            if !cidr.contains(&flow.reply.dst_addr) {
                return false;
            }
        }
        if let Some(port) = self.orig_src_port {
            if port != flow.original.src_port {
                return false;
            }
        }
        if let Some(port) = self.orig_dst_port {
            if port != flow.original.dst_port {
                return false;
            }
        }
        if let Some(port) = self.reply_src_port {
            if port != flow.reply.src_port {
                return false;
            }
        }
        if let Some(port) = self.reply_dst_port {
            if port != flow.reply.dst_port {
                return false;
            }
        }
        if let Some(mark) = self.mark {
            if mark != flow.mark {
                return false;
            }
        }
        if let Some(us) = self.use_count {
            if us != flow.use_count {
                return false;
            }
        }
        if let Some(s) = self.status {
            if !flow.status.intersects(&s) {
                return false;
            }
        }
        true
    }

    /// The filter that asks for all that `self` and `other` ask for; where
    /// both set a field, the condition of `other` stands.
    pub open spec fn and(self, other: Filter) -> Filter {
        Filter {
            family: if other.family is Some { other.family } else { self.family },
            protocol: if other.protocol is Some { other.protocol } else { self.protocol },
            orig_src_addr: if other.orig_src_addr is Some {
                other.orig_src_addr
            } else {
                self.orig_src_addr
            },
            orig_dst_addr: if other.orig_dst_addr is Some {
                other.orig_dst_addr
            } else {
                self.orig_dst_addr
            },
            reply_src_addr: if other.reply_src_addr is Some {
                other.reply_src_addr
            } else {
                self.reply_src_addr
            },
            reply_dst_addr: if other.reply_dst_addr is Some {
                other.reply_dst_addr
            } else {
                self.reply_dst_addr
            },
            orig_src_port: if other.orig_src_port is Some {
                other.orig_src_port
            } else {
                self.orig_src_port
            },
            orig_dst_port: if other.orig_dst_port is Some {
                other.orig_dst_port
            } else {
                self.orig_dst_port
            },
            reply_src_port: if other.reply_src_port is Some {
                other.reply_src_port
            } else {
                self.reply_src_port
            },
            reply_dst_port: if other.reply_dst_port is Some {
                other.reply_dst_port
            } else {
                self.reply_dst_port
            },
            mark: if other.mark is Some { other.mark } else { self.mark },
            use_count: if other.use_count is Some { other.use_count } else { self.use_count },
            tcp_state: if other.tcp_state is Some { other.tcp_state } else { self.tcp_state },
            status: if other.status is Some { other.status } else { self.status },
        }
    }

    /// Whether no field is set in both filters.
    pub open spec fn apart_from(&self, other: &Filter) -> bool {
        &&& !(self.family is Some && other.family is Some)
        &&& !(self.protocol is Some && other.protocol is Some)
        &&& !(self.orig_src_addr is Some && other.orig_src_addr is Some)
        &&& !(self.orig_dst_addr is Some && other.orig_dst_addr is Some)
        &&& !(self.reply_src_addr is Some && other.reply_src_addr is Some)
        &&& !(self.reply_dst_addr is Some && other.reply_dst_addr is Some)
        &&& !(self.orig_src_port is Some && other.orig_src_port is Some)
        &&& !(self.orig_dst_port is Some && other.orig_dst_port is Some)
        &&& !(self.reply_src_port is Some && other.reply_src_port is Some)
        &&& !(self.reply_dst_port is Some && other.reply_dst_port is Some)
        &&& !(self.mark is Some && other.mark is Some)
        &&& !(self.use_count is Some && other.use_count is Some)
        &&& !(self.tcp_state is Some && other.tcp_state is Some)
        &&& !(self.status is Some && other.status is Some)
    }

    /// The filter that asks of each field exactly what the flow has there:
    /// its family, protocol, addresses as blocks of one address, ports, mark,
    /// use count, TCP state if it has one, and status.
    pub open spec fn describing(flow: &Flow) -> Filter {
        Filter {
            family: Some(
                if flow.original.src_addr is V4 {
                    Family::Ipv4
                } else {
                    Family::Ipv6
                },
            ),
            protocol: Some(flow.protocol),
            orig_src_addr: Some(Cidr::spec_host(flow.original.src_addr)),
            orig_dst_addr: Some(Cidr::spec_host(flow.original.dst_addr)),
            reply_src_addr: Some(Cidr::spec_host(flow.reply.src_addr)),
            reply_dst_addr: Some(Cidr::spec_host(flow.reply.dst_addr)),
            orig_src_port: Some(flow.original.src_port),
            orig_dst_port: Some(flow.original.dst_port),
            reply_src_port: Some(flow.reply.src_port),
            reply_dst_port: Some(flow.reply.dst_port),
            mark: Some(flow.mark),
            use_count: Some(flow.use_count),
            tcp_state: flow.tcp_state,
            status: Some(flow.status),
        }
    }

    /// Whether every condition of `self` is one that `other` has too.
    pub open spec fn part_of(&self, other: &Filter) -> bool {
        &&& self.family is Some ==> self.family == other.family
        &&& self.protocol is Some ==> self.protocol == other.protocol
        &&& self.orig_src_addr is Some ==> self.orig_src_addr == other.orig_src_addr
        &&& self.orig_dst_addr is Some ==> self.orig_dst_addr == other.orig_dst_addr
        &&& self.reply_src_addr is Some ==> self.reply_src_addr == other.reply_src_addr
        &&& self.reply_dst_addr is Some ==> self.reply_dst_addr == other.reply_dst_addr
        &&& self.orig_src_port is Some ==> self.orig_src_port == other.orig_src_port
        &&& self.orig_dst_port is Some ==> self.orig_dst_port == other.orig_dst_port
        &&& self.reply_src_port is Some ==> self.reply_src_port == other.reply_src_port
        &&& self.reply_dst_port is Some ==> self.reply_dst_port == other.reply_dst_port
        &&& self.mark is Some ==> self.mark == other.mark
        &&& self.use_count is Some ==> self.use_count == other.use_count
        &&& self.tcp_state is Some ==> self.tcp_state == other.tcp_state
        &&& self.status is Some ==> self.status == other.status
    }
}

impl Default for Filter {
    /// The filter without a condition.
    fn default() -> (r: Filter)
        ensures
            r == Filter::empty(),
    {
        Filter {
            family: None,
            protocol: None,
            orig_src_addr: None,
            orig_dst_addr: None,
            reply_src_addr: None,
            reply_dst_addr: None,
            orig_src_port: None,
            orig_dst_port: None,
            reply_src_port: None,
            reply_dst_port: None,
            mark: None,
            use_count: None,
            tcp_state: None,
            status: None,
        }
    }
}

/// Every flow passes the filter without a condition.
pub proof fn law_empty_filter(flow: Flow)
    ensures
        Filter::empty().matches(&flow),
{
}

/// A flow passes every filter whose conditions are read out of the flow
/// itself, unless the filter has a condition on the status and the flow has
/// no flag at all: no status has a flag in common with the empty one.
pub proof fn law_filter_of_own_fields(filter: Filter, flow: Flow)
    requires
        filter.part_of(&Filter::describing(&flow)),
        filter.status is Some ==> !flow.status.spec_is_empty(),
    ensures
        filter.matches(&flow),
{
    crate::addr::law_host_block(flow.original.src_addr, flow.original.src_addr);
    crate::addr::law_host_block(flow.original.dst_addr, flow.original.dst_addr);
    crate::addr::law_host_block(flow.reply.src_addr, flow.reply.src_addr);
    crate::addr::law_host_block(flow.reply.dst_addr, flow.reply.dst_addr);
    let b = flow.status.bits();
    assert(b != 0 ==> b & b != 0) by (bit_vector);
}

/// A filter with the conditions of two filters that set no field in common
/// passes exactly the flows that pass both.
pub proof fn law_filter_conjunction(a: Filter, b: Filter, flow: Flow)
    requires
        a.apart_from(&b),
    ensures
        a.and(b).matches(&flow) <==> a.matches(&flow) && b.matches(&flow),
{
}

} // verus!

//! The attributes of a connection-tracking message, as a tree of plain
//! values, and the view of each as a mathematical value.

use crate::addr::IpAddress;
use vstd::prelude::*;

verus! {

/// The part of an attribute's kind that is its number: the two highest bits
/// are flags.
pub const KIND_MASK: u16 = 0x3fff;

/// The number that four bytes stand for in network byte order.
pub open spec fn be32(b: Seq<u8>) -> u32
    recommends
        b.len() == 4,
{
    (b[0] as int * 0x100_0000 + b[1] as int * 0x1_0000 + b[2] as int * 0x100 + b[3] as int) as u32
}

/// The four bytes of a number in network byte order.
pub open spec fn be32_bytes(v: u32) -> Seq<u8> {
    seq![
        (v / 0x100_0000) as u8,
        ((v / 0x1_0000) % 0x100) as u8,
        ((v / 0x100) % 0x100) as u8,
        (v % 0x100) as u8,
    ]
}

/// The four bytes of a number in network byte order.
pub fn u32_to_be(v: u32) -> (r: Vec<u8>)
    ensures
        r@ == be32_bytes(v),
{
    let mut out: Vec<u8> = Vec::new();
    out.push((v / 0x100_0000) as u8);
    out.push(((v / 0x1_0000) % 0x100) as u8);
    out.push(((v / 0x100) % 0x100) as u8);
    out.push((v % 0x100) as u8);
    assert(out@ =~= be32_bytes(v));
    out
}

/// The number that four bytes stand for in network byte order; `None` for
/// any other count of bytes.
pub fn u32_from_be(b: &Vec<u8>) -> (r: Option<u32>)
    ensures
        r == if b@.len() == 4 {
            Some(be32(b@))
        } else {
            None
        },
{
    if b.len() == 4 {
        let v: u32 = (b[0] as u32) * 0x100_0000 + (b[1] as u32) * 0x1_0000 + (b[2] as u32) * 0x100
            + (b[3] as u32);
        Some(v)
    } else {
        None
    }
}

/// Four bytes in network byte order stand for the number they were made of.
pub proof fn law_be32_round_trip(v: u32)
    ensures
        be32_bytes(v).len() == 4,
        be32(be32_bytes(v)) == v,
{
}

/// A copy of the bytes.
pub fn copy_bytes(v: &Vec<u8>) -> (r: Vec<u8>)
    ensures
        r@ == v@,
{
    let mut out: Vec<u8> = Vec::new();
    let mut i: usize = 0;
    while i < v.len()
        invariant
            i <= v.len(),
            out@ == v@.take(i as int),
        decreases v.len() - i,
    {
        out.push(v[i]);
        i = i + 1;
        assert(out@ =~= v@.take(i as int));
    }
    assert(v@.take(v.len() as int) =~= v@);
    out
}

/// An attribute that is kept as it came: its kind and the bytes of its
/// value.
#[derive(Debug, Clone, PartialEq, Eq)]
pub struct RawAttr {
    pub kind: u16,
    pub value: Vec<u8>,
}

/// An attribute that is kept as it came, with its value as a sequence.
pub struct RawAttrView {
    pub kind: u16,
    pub value: Seq<u8>,
}

impl RawAttrView {
    /// The number of the attribute: its kind without the flag bits.
    pub open spec fn number(&self) -> u16 {
        self.kind & KIND_MASK
    }

    /// The value as a 32-bit number, if it has four bytes.
    pub open spec fn number_value(&self) -> Option<u32> {
        if self.value.len() == 4 {
            Some(be32(self.value))
        } else {
            None
        }
    }
}

impl View for RawAttr {
    type V = RawAttrView;

    open spec fn view(&self) -> RawAttrView {
        RawAttrView { kind: self.kind, value: self.value@ }
    }
}

impl RawAttr {
    /// An attribute of this number whose value is a 32-bit number.
    pub fn of_u32(kind: u16, v: u32) -> (r: RawAttr)
        ensures
            r@ == (RawAttrView { kind, value: be32_bytes(v) }),
    {
        RawAttr { kind, value: u32_to_be(v) }
    }

    /// The number of the attribute: its kind without the flag bits.
    pub fn number(&self) -> (r: u16)
        ensures
            r == self@.number(),
    {
        self.kind & 0x3fff
    }

    /// The value as a 32-bit number, if it has four bytes.
    pub fn number_value(&self) -> (r: Option<u32>)
        ensures
            r == self@.number_value(),
    {
        u32_from_be(&self.value)
    }

    /// An attribute with the same kind and value.
    pub fn copy(&self) -> (r: RawAttr)
        ensures
            r@ == self@,
    {
        RawAttr { kind: self.kind, value: copy_bytes(&self.value) }
    }
}

/// An attribute of the address group of a tuple.
#[derive(Debug, Clone, Copy, PartialEq, Eq, Structural)]
pub enum IpAttr {
    Src(IpAddress),
    Dst(IpAddress),
    Other,
}

/// An attribute of the protocol group of a tuple.
#[derive(Debug, Clone, Copy, PartialEq, Eq, Structural)]
pub enum ProtoAttr {
    Number(u8),
    SrcPort(u16),
    DstPort(u16),
    Other,
}

/// An attribute of the TCP part of the protocol information.
#[derive(Debug, Clone, Copy, PartialEq, Eq, Structural)]
pub enum TcpAttr {
    State(u8),
    Other,
}

/// A group of a tuple.
#[derive(Debug, Clone, PartialEq, Eq)]
pub enum TupleAttr {
    Ip(Vec<IpAttr>),
    Proto(Vec<ProtoAttr>),
    Other,
}

/// A group of a tuple, with sequences in place of vectors.
pub enum TupleAttrView {
    Ip(Seq<IpAttr>),
    Proto(Seq<ProtoAttr>),
    Other,
}

impl View for TupleAttr {
    type V = TupleAttrView;

    open spec fn view(&self) -> TupleAttrView {
        match self {
            TupleAttr::Ip(v) => TupleAttrView::Ip(v@),
            TupleAttr::Proto(v) => TupleAttrView::Proto(v@),
            TupleAttr::Other => TupleAttrView::Other,
        }
    }
}

/// A group of the protocol information.
#[derive(Debug, Clone, PartialEq, Eq)]
pub enum ProtoInfoAttr {
    Tcp(Vec<TcpAttr>),
    Other,
}

/// A group of the protocol information, with sequences in place of
/// vectors.
pub enum ProtoInfoAttrView {
    Tcp(Seq<TcpAttr>),
    Other,
}

impl View for ProtoInfoAttr {
    type V = ProtoInfoAttrView;

    open spec fn view(&self) -> ProtoInfoAttrView {
        match self {
            ProtoInfoAttr::Tcp(v) => ProtoInfoAttrView::Tcp(v@),
            ProtoInfoAttr::Other => ProtoInfoAttrView::Other,
        }
    }
}

/// The views of the elements, in their order.
pub open spec fn tuple_views(s: Seq<TupleAttr>) -> Seq<TupleAttrView> {
    Seq::new(s.len(), |i: int| s[i]@)
}

/// The views of the elements, in their order.
pub open spec fn proto_info_views(s: Seq<ProtoInfoAttr>) -> Seq<ProtoInfoAttrView> {
    Seq::new(s.len(), |i: int| s[i]@)
}

/// The views of the elements, in their order.
pub open spec fn raw_views(s: Seq<RawAttr>) -> Seq<RawAttrView> {
    Seq::new(s.len(), |i: int| s[i]@)
}

/// The views of the elements, in their order.
pub open spec fn attr_views(s: Seq<CtAttr>) -> Seq<CtAttrView> {
    Seq::new(s.len(), |i: int| s[i]@)
}

/// An attribute of a connection-tracking message.
#[derive(Debug, Clone, PartialEq, Eq)]
pub enum CtAttr {
    TupleOrig(Vec<TupleAttr>),
    TupleReply(Vec<TupleAttr>),
    ProtoInfo(Vec<ProtoInfoAttr>),
    Status(u32),
    Timeout(u32),
    Mark(u32),
    Other(RawAttr),
}

/// An attribute of a connection-tracking message, with sequences in place
/// of vectors.
pub enum CtAttrView {
    TupleOrig(Seq<TupleAttrView>),
    TupleReply(Seq<TupleAttrView>),
    ProtoInfo(Seq<ProtoInfoAttrView>),
    Status(u32),
    Timeout(u32),
    Mark(u32),
    Other(RawAttrView),
}

impl View for CtAttr {
    type V = CtAttrView;

    open spec fn view(&self) -> CtAttrView {
        match self {
            CtAttr::TupleOrig(v) => CtAttrView::TupleOrig(tuple_views(v@)),
            CtAttr::TupleReply(v) => CtAttrView::TupleReply(tuple_views(v@)),
            CtAttr::ProtoInfo(v) => CtAttrView::ProtoInfo(proto_info_views(v@)),
            CtAttr::Status(v) => CtAttrView::Status(*v),
            CtAttr::Timeout(v) => CtAttrView::Timeout(*v),
            CtAttr::Mark(v) => CtAttrView::Mark(*v),
            CtAttr::Other(a) => CtAttrView::Other(a@),
        }
    }
}

/// A connection-tracking message: its type and its attributes.
#[derive(Debug, Clone, PartialEq, Eq)]
pub enum CtMessage {
    New(Vec<CtAttr>),
    Get(Vec<CtAttr>),
    Delete(Vec<CtAttr>),
    Other { message_type: u8, attributes: Vec<RawAttr> },
}

/// A connection-tracking message, with sequences in place of vectors.
pub enum CtMessageView {
    New(Seq<CtAttrView>),
    Get(Seq<CtAttrView>),
    Delete(Seq<CtAttrView>),
    Other { message_type: u8, attributes: Seq<RawAttrView> },
}

impl CtMessageView {
    /// The number of the message's type: 0 for a new or changed flow, 1 for a
    /// query, 2 for a deleted flow.
    pub open spec fn type_number(&self) -> u8 {
        match self {
            CtMessageView::New(_) => 0,
            CtMessageView::Get(_) => 1,
            CtMessageView::Delete(_) => 2,
            CtMessageView::Other { message_type, .. } => *message_type,
        }
    }
}

impl View for CtMessage {
    type V = CtMessageView;

    open spec fn view(&self) -> CtMessageView {
        match self {
            CtMessage::New(v) => CtMessageView::New(attr_views(v@)),
            CtMessage::Get(v) => CtMessageView::Get(attr_views(v@)),
            CtMessage::Delete(v) => CtMessageView::Delete(attr_views(v@)),
            CtMessage::Other { message_type, attributes } => CtMessageView::Other {
                message_type: *message_type,
                attributes: raw_views(attributes@),
            },
        }
    }
}

fn copy_ips(v: &Vec<IpAttr>) -> (r: Vec<IpAttr>)
    ensures
        r@ == v@,
{
    let mut out: Vec<IpAttr> = Vec::new();
    let mut i: usize = 0;
    while i < v.len()
        invariant
            i <= v.len(),
            out@ == v@.take(i as int),
        decreases v.len() - i,
    {
        out.push(v[i]);
        i = i + 1;
        assert(out@ =~= v@.take(i as int));
    }
    assert(v@.take(v.len() as int) =~= v@);
    out
}

fn copy_protos(v: &Vec<ProtoAttr>) -> (r: Vec<ProtoAttr>)
    ensures
        r@ == v@,
{
    let mut out: Vec<ProtoAttr> = Vec::new();
    let mut i: usize = 0;
    while i < v.len()
        invariant
            i <= v.len(),
            out@ == v@.take(i as int),
        decreases v.len() - i,
    {
        out.push(v[i]);
        i = i + 1;
        assert(out@ =~= v@.take(i as int));
    }
    assert(v@.take(v.len() as int) =~= v@);
    out
}

fn copy_tcps(v: &Vec<TcpAttr>) -> (r: Vec<TcpAttr>)
    ensures
        r@ == v@,
{
    let mut out: Vec<TcpAttr> = Vec::new();
    let mut i: usize = 0;
    while i < v.len()
        invariant
            i <= v.len(),
            out@ == v@.take(i as int),
        decreases v.len() - i,
    {
        out.push(v[i]);
        i = i + 1;
        assert(out@ =~= v@.take(i as int));
    }
    assert(v@.take(v.len() as int) =~= v@);
    out
}

impl TupleAttr {
    /// A group with the same content.
    pub fn copy(&self) -> (r: TupleAttr)
        ensures
            r@ == self@,
    {
        match self {
            TupleAttr::Ip(v) => TupleAttr::Ip(copy_ips(v)),
            TupleAttr::Proto(v) => TupleAttr::Proto(copy_protos(v)),
            TupleAttr::Other => TupleAttr::Other,
        }
    }
}

impl ProtoInfoAttr {
    /// A group with the same content.
    pub fn copy(&self) -> (r: ProtoInfoAttr)
        ensures
            r@ == self@,
    {
        match self {
            ProtoInfoAttr::Tcp(v) => ProtoInfoAttr::Tcp(copy_tcps(v)),
            ProtoInfoAttr::Other => ProtoInfoAttr::Other,
        }
    }
}

fn copy_tuples(v: &Vec<TupleAttr>) -> (r: Vec<TupleAttr>)
    ensures
        tuple_views(r@) == tuple_views(v@),
{
    let mut out: Vec<TupleAttr> = Vec::new();
    let mut i: usize = 0;
    while i < v.len()
        invariant
            i <= v.len(),
            out@.len() == i,
            forall|j: int| 0 <= j < i ==> out@[j]@ == v@[j]@,
        decreases v.len() - i,
    {
        out.push(v[i].copy());
        i = i + 1;
    }
    assert(tuple_views(out@) =~= tuple_views(v@));
    out
}

fn copy_proto_infos(v: &Vec<ProtoInfoAttr>) -> (r: Vec<ProtoInfoAttr>)
    ensures
        proto_info_views(r@) == proto_info_views(v@),
{
    let mut out: Vec<ProtoInfoAttr> = Vec::new();
    let mut i: usize = 0;
    while i < v.len()
        invariant
            i <= v.len(),
            out@.len() == i,
            forall|j: int| 0 <= j < i ==> out@[j]@ == v@[j]@,
        decreases v.len() - i,
    {
        out.push(v[i].copy());
        i = i + 1;
    }
    assert(proto_info_views(out@) =~= proto_info_views(v@));
    out
}

fn copy_raws(v: &Vec<RawAttr>) -> (r: Vec<RawAttr>)
    ensures
        raw_views(r@) == raw_views(v@),
{
    let mut out: Vec<RawAttr> = Vec::new();
    let mut i: usize = 0;
    while i < v.len()
        invariant
            i <= v.len(),
            out@.len() == i,
            forall|j: int| 0 <= j < i ==> out@[j]@ == v@[j]@,
        decreases v.len() - i,
    {
        out.push(v[i].copy());
        i = i + 1;
    }
    assert(raw_views(out@) =~= raw_views(v@));
    out
}

impl CtAttr {
    /// An attribute with the same content.
    pub fn copy(&self) -> (r: CtAttr)
        ensures
            r@ == self@,
    {
        match self {
            CtAttr::TupleOrig(v) => CtAttr::TupleOrig(copy_tuples(v)),
            CtAttr::TupleReply(v) => CtAttr::TupleReply(copy_tuples(v)),
            CtAttr::ProtoInfo(v) => CtAttr::ProtoInfo(copy_proto_infos(v)),
            CtAttr::Status(v) => CtAttr::Status(*v),
            CtAttr::Timeout(v) => CtAttr::Timeout(*v),
            CtAttr::Mark(v) => CtAttr::Mark(*v),
            CtAttr::Other(a) => CtAttr::Other(a.copy()),
        }
    }
}

fn copy_attrs(v: &Vec<CtAttr>) -> (r: Vec<CtAttr>)
    ensures
        attr_views(r@) == attr_views(v@),
{
    let mut out: Vec<CtAttr> = Vec::new();
    let mut i: usize = 0;
    while i < v.len()
        invariant
            i <= v.len(),
            out@.len() == i,
            forall|j: int| 0 <= j < i ==> out@[j]@ == v@[j]@,
        decreases v.len() - i,
    {
        out.push(v[i].copy());
        i = i + 1;
    }
    assert(attr_views(out@) =~= attr_views(v@));
    out
}

impl CtMessage {
    /// A message with the same type and attributes.
    pub fn copy(&self) -> (r: CtMessage)
        ensures
            r@ == self@,
    {
        match self {
            CtMessage::New(v) => CtMessage::New(copy_attrs(v)),
            CtMessage::Get(v) => CtMessage::Get(copy_attrs(v)),
            CtMessage::Delete(v) => CtMessage::Delete(copy_attrs(v)),
            CtMessage::Other { message_type, attributes } => CtMessage::Other {
                message_type: *message_type,
                attributes: copy_raws(attributes),
            },
        }
    }

    /// The number of the message's type.
    pub fn type_number(&self) -> (r: u8)
        ensures
            r == self@.type_number(),
    {
        match self {
            CtMessage::New(_) => 0,
            CtMessage::Get(_) => 1,
            CtMessage::Delete(_) => 2,
            CtMessage::Other { message_type, .. } => *message_type,
        }
    }
}

} // verus!

//! The bridge to the netlink packet crates: their types, as far as the
//! library carries them, one small function for each of their functions
//! that the library calls, and on top of these the reading of a datagram
//! and the writing of a request.

use crate::addr::IpAddress;
use crate::attr::CtAttr;
use crate::attr::CtAttrView;
use crate::attr::CtMessage;
use crate::attr::CtMessageView;
use crate::attr::IpAttr;
use crate::attr::ProtoAttr;
use crate::attr::ProtoInfoAttr;
use crate::attr::ProtoInfoAttrView;
use crate::attr::RawAttr;
use crate::attr::RawAttrView;
use crate::attr::TcpAttr;
use crate::attr::TupleAttr;
use crate::attr::TupleAttrView;
use crate::attr::attr_views;
use crate::attr::proto_info_views;
use crate::attr::raw_views;
use crate::attr::tuple_views;
use crate::flow::Protocol;
use crate::flow::Tuple;
use crate::message::message_views;
use crate::message::Message;
use crate::message::MessageView;
use crate::message::Query;
use crate::message::RequestFrame;
use crate::request::Direction;
use crate::request::GetParams;
use crate::socket::scan;
use crate::socket::FrameStep;
use crate::socket::Scan;
use crate::socket::ScanEnd;
use crate::socket::ScanView;
use netlink_packet_core::DecodeError;
use netlink_packet_core::DefaultNla;
use netlink_packet_core::ErrorMessage;
use netlink_packet_core::NetlinkHeader;
use netlink_packet_core::NetlinkMessage;
use netlink_packet_core::NetlinkPayload;
use netlink_packet_core::Nla;
use netlink_packet_netfilter::conntrack::ConntrackAttribute;
use netlink_packet_netfilter::conntrack::ConntrackMessage;
use netlink_packet_netfilter::conntrack::IPTuple;
use netlink_packet_netfilter::conntrack::ProtoInfo;
use netlink_packet_netfilter::conntrack::ProtoInfoTCP;
use netlink_packet_netfilter::conntrack::ProtoTuple;
use netlink_packet_netfilter::conntrack::Tuple as TupleGroup;
use netlink_packet_netfilter::NetfilterHeader;
use netlink_packet_netfilter::NetfilterMessage;
use netlink_packet_netfilter::NetfilterMessageInner;
use vstd::prelude::*;
use vstd::slice::slice_subrange;

verus! {

/// The decoder's error, `netlink_packet_core::DecodeError`: carried as it is.
#[verifier::external_type_specification]
#[verifier::external_body]
pub struct ExDecodeError(DecodeError);

/// An error payload, `netlink_packet_core::ErrorMessage`.
#[verifier::external_type_specification]
#[verifier::external_body]
pub struct ExErrorMessage(ErrorMessage);

/// An attribute that is kept as it came, `netlink_packet_core::DefaultNla`.
#[verifier::external_type_specification]
#[verifier::external_body]
pub struct ExDefaultNla(DefaultNla);

/// A frame, `netlink_packet_core::NetlinkMessage`.
#[verifier::external_type_specification]
#[verifier::external_body]
#[verifier::reject_recursive_types(I)]
pub struct ExNetlinkMessage<I>(NetlinkMessage<I>);

/// A netfilter message, `netlink_packet_netfilter::NetfilterMessage`.
#[verifier::external_type_specification]
#[verifier::external_body]
pub struct ExNetfilterMessage(NetfilterMessage);

/// A connection-tracking message,
/// `netlink_packet_netfilter::conntrack::ConntrackMessage`.
#[verifier::external_type_specification]
#[verifier::external_body]
pub struct ExConntrackMessage(ConntrackMessage);

/// An attribute of a connection-tracking message,
/// `netlink_packet_netfilter::conntrack::ConntrackAttribute`.
#[verifier::external_type_specification]
#[verifier::external_body]
pub struct ExConntrackAttribute(ConntrackAttribute);

/// A group of a tuple, `netlink_packet_netfilter::conntrack::Tuple`.
#[verifier::external_type_specification]
#[verifier::external_body]
pub struct ExTuple(TupleGroup);

/// An attribute of an address group,
/// `netlink_packet_netfilter::conntrack::IPTuple`.
#[verifier::external_type_specification]
#[verifier::external_body]
pub struct ExIPTuple(IPTuple);

/// An attribute of a protocol group,
/// `netlink_packet_netfilter::conntrack::ProtoTuple`.
#[verifier::external_type_specification]
#[verifier::external_body]
pub struct ExProtoTuple(ProtoTuple);

/// A group of the protocol information,
/// `netlink_packet_netfilter::conntrack::ProtoInfo`.
#[verifier::external_type_specification]
#[verifier::external_body]
pub struct ExProtoInfo(ProtoInfo);

/// An attribute of the TCP part of the protocol information,
/// `netlink_packet_netfilter::conntrack::ProtoInfoTCP`.
#[verifier::external_type_specification]
#[verifier::external_body]
pub struct ExProtoInfoTCP(ProtoInfoTCP);

/// What a frame carries.
pub enum PayloadParts {
    /// The end of a dump.
    Done,
    /// An error payload.
    Error(ErrorMessage),
    /// A netfilter message.
    Inner(NetfilterMessage),
    /// Anything else.
    Ignored,
}

/// What a frame is made of: the length and the flag word of its header, and
/// its payload.
pub struct FrameParts {
    pub length: u32,
    pub flags: u16,
    pub payload: PayloadParts,
}

/// What a netfilter message is made of: the resource id of its header, and
/// its connection-tracking message if it has one.
pub struct NetfilterParts {
    pub res_id: u16,
    pub conntrack: Option<ConntrackMessage>,
}

/// What a connection-tracking message is made of.
pub enum MessageParts {
    New(Vec<ConntrackAttribute>),
    Get(Vec<ConntrackAttribute>),
    Delete(Vec<ConntrackAttribute>),
    Other { message_type: u8, attributes: Vec<DefaultNla> },
    Unknown,
}

/// What an attribute of a connection-tracking message is made of.
pub enum AttributeParts {
    TupleOrig(Vec<TupleGroup>),
    TupleReply(Vec<TupleGroup>),
    ProtoInfo(Vec<ProtoInfo>),
    Status(u32),
    Timeout(u32),
    Mark(u32),
    Other(DefaultNla),
    Unknown,
}

/// What a group of a tuple is made of.
pub enum TupleParts {
    Ip(Vec<IPTuple>),
    Proto(Vec<ProtoTuple>),
    Other,
}

/// What an attribute of an address group is made of: the bytes of a source
/// or of a destination address.
pub enum IpParts {
    Source(Vec<u8>),
    Destination(Vec<u8>),
    Other,
}

/// What a group of the protocol information is made of.
pub enum ProtoInfoParts {
    Tcp(Vec<ProtoInfoTCP>),
    Other,
}

/// The parts of a connection-tracking message, with sequences in place of
/// vectors.
pub enum MessagePartsView {
    New(Seq<ConntrackAttribute>),
    Get(Seq<ConntrackAttribute>),
    Delete(Seq<ConntrackAttribute>),
    Other { message_type: u8, attributes: Seq<DefaultNla> },
    Unknown,
}

impl View for MessageParts {
    type V = MessagePartsView;

    open spec fn view(&self) -> MessagePartsView {
        match self {
            MessageParts::New(v) => MessagePartsView::New(v@),
            MessageParts::Get(v) => MessagePartsView::Get(v@),
            MessageParts::Delete(v) => MessagePartsView::Delete(v@),
            MessageParts::Other { message_type, attributes } => MessagePartsView::Other {
                message_type: *message_type,
                attributes: attributes@,
            },
            MessageParts::Unknown => MessagePartsView::Unknown,
        }
    }
}

/// The parts of an attribute, with sequences in place of vectors.
pub enum AttributePartsView {
    TupleOrig(Seq<TupleGroup>),
    TupleReply(Seq<TupleGroup>),
    ProtoInfo(Seq<ProtoInfo>),
    Status(u32),
    Timeout(u32),
    Mark(u32),
    Other(DefaultNla),
    Unknown,
}

impl View for AttributeParts {
    type V = AttributePartsView;

    open spec fn view(&self) -> AttributePartsView {
        match self {
            AttributeParts::TupleOrig(v) => AttributePartsView::TupleOrig(v@),
            AttributeParts::TupleReply(v) => AttributePartsView::TupleReply(v@),
            AttributeParts::ProtoInfo(v) => AttributePartsView::ProtoInfo(v@),
            AttributeParts::Status(v) => AttributePartsView::Status(*v),
            AttributeParts::Timeout(v) => AttributePartsView::Timeout(*v),
            AttributeParts::Mark(v) => AttributePartsView::Mark(*v),
            AttributeParts::Other(d) => AttributePartsView::Other(*d),
            AttributeParts::Unknown => AttributePartsView::Unknown,
        }
    }
}

/// The parts of a group of a tuple, with sequences in place of vectors.
pub enum TuplePartsView {
    Ip(Seq<IPTuple>),
    Proto(Seq<ProtoTuple>),
    Other,
}

impl View for TupleParts {
    type V = TuplePartsView;

    open spec fn view(&self) -> TuplePartsView {
        match self {
            TupleParts::Ip(v) => TuplePartsView::Ip(v@),
            TupleParts::Proto(v) => TuplePartsView::Proto(v@),
            TupleParts::Other => TuplePartsView::Other,
        }
    }
}

/// The parts of an attribute of an address group, with sequences in place of
/// vectors.
pub enum IpPartsView {
    Source(Seq<u8>),
    Destination(Seq<u8>),
    Other,
}

impl View for IpParts {
    type V = IpPartsView;

    open spec fn view(&self) -> IpPartsView {
        match self {
            IpParts::Source(v) => IpPartsView::Source(v@),
            IpParts::Destination(v) => IpPartsView::Destination(v@),
            IpParts::Other => IpPartsView::Other,
        }
    }
}

/// The parts of a group of the protocol information, with sequences in place
/// of vectors.
pub enum ProtoInfoPartsView {
    Tcp(Seq<ProtoInfoTCP>),
    Other,
}

impl View for ProtoInfoParts {
    type V = ProtoInfoPartsView;

    open spec fn view(&self) -> ProtoInfoPartsView {
        match self {
            ProtoInfoParts::Tcp(v) => ProtoInfoPartsView::Tcp(v@),
            ProtoInfoParts::Other => ProtoInfoPartsView::Other,
        }
    }
}

/// What `NetlinkMessage::deserialize` makes of bytes, the numbers of the
/// header being read in the byte order of the machine, as netlink has them.
pub uninterp spec fn decoded_frame(bytes: Seq<u8>) -> Result<
    NetlinkMessage<NetfilterMessage>,
    DecodeError,
>;

/// The parts of a frame. Its length is the number of bytes that the frame
/// takes on the wire.
pub uninterp spec fn frame_parts(frame: NetlinkMessage<NetfilterMessage>) -> FrameParts;

/// The error for a frame whose length is no multiple of four.
pub uninterp spec fn unaligned_error(length: u32) -> DecodeError;

/// What `ErrorMessage::raw_code` gives for an error payload.
pub uninterp spec fn error_code(e: ErrorMessage) -> i32;

/// The parts of a netfilter message.
pub uninterp spec fn netfilter_parts(m: NetfilterMessage) -> NetfilterParts;

/// The parts of a connection-tracking message.
pub uninterp spec fn message_parts(m: ConntrackMessage) -> MessagePartsView;

/// The parts of an attribute.
pub uninterp spec fn attribute_parts(a: ConntrackAttribute) -> AttributePartsView;

/// The parts of a group of a tuple.
pub uninterp spec fn tuple_parts(t: TupleGroup) -> TuplePartsView;

/// The parts of an attribute of an address group.
pub uninterp spec fn ip_parts(t: IPTuple) -> IpPartsView;

/// What an attribute of a protocol group holds.
pub uninterp spec fn proto_attr(t: ProtoTuple) -> ProtoAttr;

/// The parts of a group of the protocol information.
pub uninterp spec fn proto_info_parts(p: ProtoInfo) -> ProtoInfoPartsView;

/// What an attribute of the TCP part of the protocol information holds.
pub uninterp spec fn tcp_attr(t: ProtoInfoTCP) -> TcpAttr;

/// The kind and the value of an attribute that the packet crates keep as it
/// came.
pub uninterp spec fn raw_attr(d: DefaultNla) -> RawAttrView;

/// The bytes that `NetlinkMessage::serialize` writes for a request with
/// these flags, with this family, version and resource id in its netfilter
/// header, and with this connection-tracking message, once
/// `NetlinkMessage::finalize` has set length and type in its header. The
/// numbers of the header are written in the byte order of the machine.
pub uninterp spec fn request_encoding(
    flags: u16,
    family: u8,
    version: u8,
    res_id: u16,
    msg: ConntrackMessage,
) -> Seq<u8>;

/// The version in the netfilter header of every request.
pub const NETFILTER_VERSION: u8 = 0;

/// Whether a connection-tracking message is, to the library, the message of
/// a request. Such a message has at most one attribute, a tuple of two
/// addresses, a protocol number and two ports: nothing in it is longer than
/// an address.
pub open spec fn models_a_request(msg: ConntrackMessage) -> bool {
    exists|q: Query| message_model(msg) == #[trigger] query_model(q)
}

/// `NetlinkMessage::<NetfilterMessage>::deserialize`: the frame at the
/// start of the bytes, or why there is none. The result depends on the bytes
/// alone. A frame is only read where the length in its header is at least
/// the 16 bytes of a header and at most the number of bytes that are there.
#[verifier::external_body]
fn deserialize(bytes: &[u8]) -> (r: Result<NetlinkMessage<NetfilterMessage>, DecodeError>)
    ensures
        r == decoded_frame(bytes@),
        r matches Ok(frame) ==> 16 <= frame_parts(frame).length <= bytes@.len(),
{
    NetlinkMessage::<NetfilterMessage>::deserialize(bytes)
}

/// The fields `length` and `flags` of the header of a frame, and the
/// variant of its payload, as `NetlinkMessage::into_parts` hands them out.
#[verifier::external_body]
fn split_frame(frame: NetlinkMessage<NetfilterMessage>) -> (r: FrameParts)
    ensures
        r == frame_parts(frame),
{
    let (header, payload) = frame.into_parts();
    let payload = match payload {
        NetlinkPayload::Done(_) => PayloadParts::Done,
        NetlinkPayload::Error(e) => PayloadParts::Error(e),
        NetlinkPayload::InnerMessage(m) => PayloadParts::Inner(m),
        _ => PayloadParts::Ignored,
    };
    FrameParts { length: header.length, flags: header.flags, payload }
}

/// `DecodeError::from` of a text that tells the length: the error for a
/// frame whose length is no multiple of four.
#[verifier::external_body]
fn unaligned(length: u32) -> (r: DecodeError)
    ensures
        r == unaligned_error(length),
{
    DecodeError::from(format!("invalid netlink buffer: length {length} is not a multiple of 4"))
}

/// `ErrorMessage::raw_code`: the code of an error payload as a signed
/// number.
#[verifier::external_body]
fn error_code_of(e: &ErrorMessage) -> (r: i32)
    ensures
        r == error_code(*e),
{
    e.raw_code()
}

/// The fields of a netfilter message: the resource id of its header, and
/// the connection-tracking message where the message is of that subsystem.
#[verifier::external_body]
fn split_netfilter(m: NetfilterMessage) -> (r: NetfilterParts)
    ensures
        r == netfilter_parts(m),
{
    NetfilterParts {
        res_id: m.header.res_id,
        conntrack: match m.inner {
            NetfilterMessageInner::Conntrack(c) => Some(c),
            _ => None,
        },
    }
}

/// The variant of a connection-tracking message, with its fields.
#[verifier::external_body]
fn split_message(m: ConntrackMessage) -> (r: MessageParts)
    ensures
        r@ == message_parts(m),
{
    match m {
        ConntrackMessage::New(v) => MessageParts::New(v),
        ConntrackMessage::Get(v) => MessageParts::Get(v),
        ConntrackMessage::Delete(v) => MessageParts::Delete(v),
        ConntrackMessage::Other { message_type, attributes } => MessageParts::Other {
            message_type,
            attributes,
        },
        _ => MessageParts::Unknown,
    }
}

/// The variant of an attribute, with a copy of its fields; the status as
/// the bits that `Status::bits` gives.
#[verifier::external_body]
fn split_attribute(a: &ConntrackAttribute) -> (r: AttributeParts)
    ensures
        r@ == attribute_parts(*a),
{
    match a {
        ConntrackAttribute::CtaTupleOrig(v) => AttributeParts::TupleOrig(v.clone()),
        ConntrackAttribute::CtaTupleReply(v) => AttributeParts::TupleReply(v.clone()),
        ConntrackAttribute::CtaProtoInfo(v) => AttributeParts::ProtoInfo(v.clone()),
        ConntrackAttribute::CtaStatus(s) => AttributeParts::Status(s.bits()),
        ConntrackAttribute::CtaTimeout(t) => AttributeParts::Timeout(*t),
        ConntrackAttribute::CtaMark(m) => AttributeParts::Mark(*m),
        ConntrackAttribute::Other(d) => AttributeParts::Other(d.clone()),
        _ => AttributeParts::Unknown,
    }
}

/// The variant of a group of a tuple, with a copy of its attributes.
#[verifier::external_body]
fn split_tuple(t: &TupleGroup) -> (r: TupleParts)
    ensures
        r@ == tuple_parts(*t),
{
    match t {
        TupleGroup::Ip(v) => TupleParts::Ip(v.clone()),
        TupleGroup::Proto(v) => TupleParts::Proto(v.clone()),
        _ => TupleParts::Other,
    }
}

/// The variant of an attribute of an address group, with the bytes that
/// `Nla::emit_value` writes for it: the four or sixteen bytes of the
/// address.
#[verifier::external_body]
fn split_ip(t: &IPTuple) -> (r: IpParts)
    ensures
        r@ == ip_parts(*t),
{
    let mut bytes = vec![0u8; t.value_len()];
    t.emit_value(&mut bytes);
    match t {
        IPTuple::SourceAddress(_) => IpParts::Source(bytes),
        IPTuple::DestinationAddress(_) => IpParts::Destination(bytes),
        _ => IpParts::Other,
    }
}

/// The variant of an attribute of a protocol group, with its value; the
/// protocol as the number that `u8::from` gives.
#[verifier::external_body]
fn proto_attr_of(t: &ProtoTuple) -> (r: ProtoAttr)
    ensures
        r == proto_attr(*t),
{
    match t {
        ProtoTuple::Protocol(p) => ProtoAttr::Number((*p).into()),
        ProtoTuple::SourcePort(p) => ProtoAttr::SrcPort(*p),
        ProtoTuple::DestinationPort(p) => ProtoAttr::DstPort(*p),
        _ => ProtoAttr::Other,
    }
}

/// The variant of a group of the protocol information, with a copy of its
/// attributes.
#[verifier::external_body]
fn split_proto_info(p: &ProtoInfo) -> (r: ProtoInfoParts)
    ensures
        r@ == proto_info_parts(*p),
{
    match p {
        ProtoInfo::TCP(v) => ProtoInfoParts::Tcp(v.clone()),
        _ => ProtoInfoParts::Other,
    }
}

/// The variant of an attribute of the TCP part of the protocol information;
/// of the state its byte.
#[verifier::external_body]
fn tcp_attr_of(t: &ProtoInfoTCP) -> (r: TcpAttr)
    ensures
        r == tcp_attr(*t),
{
    match t {
        ProtoInfoTCP::State(s) => TcpAttr::State(*s),
        _ => TcpAttr::Other,
    }
}

/// `Nla::kind` and `Nla::emit_value` of an attribute that the packet crates
/// keep as it came: its kind with the flag bits, and the bytes of its value.
#[verifier::external_body]
fn raw_attr_of(d: &DefaultNla) -> (r: RawAttr)
    ensures
        r@ == raw_attr(*d),
{
    let mut value = vec![0u8; d.value_len()];
    d.emit_value(&mut value);
    RawAttr { kind: d.kind(), value }
}

/// `IPTuple::SourceAddress` of the address that `parse_ip` reads from four
/// or sixteen bytes: an attribute whose value is these bytes.
#[verifier::external_body]
fn ip_source(octets: &Vec<u8>) -> (r: IPTuple)
    requires
        octets@.len() == 4 || octets@.len() == 16,
    ensures
        ip_parts(r) == IpPartsView::Source(octets@),
{
    IPTuple::SourceAddress(netlink_packet_core::parse_ip(octets).unwrap())
}

/// `IPTuple::DestinationAddress` of the address that `parse_ip` reads from
/// four or sixteen bytes: an attribute whose value is these bytes.
#[verifier::external_body]
fn ip_destination(octets: &Vec<u8>) -> (r: IPTuple)
    requires
        octets@.len() == 4 || octets@.len() == 16,
    ensures
        ip_parts(r) == IpPartsView::Destination(octets@),
{
    IPTuple::DestinationAddress(netlink_packet_core::parse_ip(octets).unwrap())
}

/// `ProtoTuple::Protocol` of the protocol with a number.
#[verifier::external_body]
fn proto_number(n: u8) -> (r: ProtoTuple)
    ensures
        proto_attr(r) == ProtoAttr::Number(n),
{
    ProtoTuple::Protocol(n.into())
}

/// `ProtoTuple::SourcePort`.
#[verifier::external_body]
fn source_port(p: u16) -> (r: ProtoTuple)
    ensures
        proto_attr(r) == ProtoAttr::SrcPort(p),
{
    ProtoTuple::SourcePort(p)
}

/// `ProtoTuple::DestinationPort`.
#[verifier::external_body]
fn destination_port(p: u16) -> (r: ProtoTuple)
    ensures
        proto_attr(r) == ProtoAttr::DstPort(p),
{
    ProtoTuple::DestinationPort(p)
}

/// `Tuple::Ip`: the address group of these attributes.
#[verifier::external_body]
fn tuple_ip(v: Vec<IPTuple>) -> (r: TupleGroup)
    ensures
        tuple_parts(r) == TuplePartsView::Ip(v@),
{
    TupleGroup::Ip(v)
}

/// `Tuple::Proto`: the protocol group of these attributes.
#[verifier::external_body]
fn tuple_proto(v: Vec<ProtoTuple>) -> (r: TupleGroup)
    ensures
        tuple_parts(r) == TuplePartsView::Proto(v@),
{
    TupleGroup::Proto(v)
}

/// `ConntrackAttribute::CtaTupleOrig`: the original tuple of these groups.
#[verifier::external_body]
fn attribute_orig(v: Vec<TupleGroup>) -> (r: ConntrackAttribute)
    ensures
        attribute_parts(r) == AttributePartsView::TupleOrig(v@),
{
    ConntrackAttribute::CtaTupleOrig(v)
}

/// `ConntrackAttribute::CtaTupleReply`: the reply tuple of these groups.
#[verifier::external_body]
fn attribute_reply(v: Vec<TupleGroup>) -> (r: ConntrackAttribute)
    ensures
        attribute_parts(r) == AttributePartsView::TupleReply(v@),
{
    ConntrackAttribute::CtaTupleReply(v)
}

/// `ConntrackMessage::Get`: a query with these attributes.
#[verifier::external_body]
fn message_get(v: Vec<ConntrackAttribute>) -> (r: ConntrackMessage)
    ensures
        message_parts(r) == MessagePartsView::Get(v@),
{
    ConntrackMessage::Get(v)
}

/// `ConntrackMessage::Other`: a message of another type, without
/// attributes.
#[verifier::external_body]
fn message_other(message_type: u8) -> (r: ConntrackMessage)
    ensures
        message_parts(r) == (MessagePartsView::Other {
            message_type,
            attributes: Seq::empty(),
        }),
{
    ConntrackMessage::Other { message_type, attributes: Vec::new() }
}

/// `NetlinkMessage::serialize` of a request: a frame with these flags in
/// its header and a netfilter message of this family, version and resource
/// id around the connection-tracking message, made final with
/// `NetlinkMessage::finalize` and written into a buffer of
/// `NetlinkMessage::buffer_len` bytes. Writing fails on an attribute whose
/// value does not fit the 16 bits of its length; the message of a request
/// has none.
#[verifier::external_body]
fn serialize_request(flags: u16, family: u8, version: u8, res_id: u16, msg: ConntrackMessage) -> (r:
    Vec<u8>)
    requires
        models_a_request(msg),
    ensures
        r@ == request_encoding(flags, family, version, res_id, msg),
{
    let mut header = NetlinkHeader::default();
    header.flags = flags;
    let inner = NetfilterMessage::new(NetfilterHeader::new(family.into(), version, res_id), msg);
    let mut frame = NetlinkMessage::new(header, NetlinkPayload::from(inner));
    frame.finalize();
    let mut bytes = vec![0u8; frame.buffer_len()];
    frame.serialize(&mut bytes);
    bytes
}

/// What an attribute of an address group is to the library: an address,
/// whose family follows from the count of its bytes.
pub open spec fn ip_model(t: IPTuple) -> IpAttr {
    match ip_parts(t) {
        IpPartsView::Source(b) => match IpAddress::of_octets(b) {
            Some(a) => IpAttr::Src(a),
            None => IpAttr::Other,
        },
        IpPartsView::Destination(b) => match IpAddress::of_octets(b) {
            Some(a) => IpAttr::Dst(a),
            None => IpAttr::Other,
        },
        IpPartsView::Other => IpAttr::Other,
    }
}

/// What a group of a tuple is to the library.
pub open spec fn tuple_model(t: TupleGroup) -> TupleAttrView {
    match tuple_parts(t) {
        TuplePartsView::Ip(v) => TupleAttrView::Ip(Seq::new(v.len(), |i: int| ip_model(v[i]))),
        TuplePartsView::Proto(v) => TupleAttrView::Proto(
            Seq::new(v.len(), |i: int| proto_attr(v[i])),
        ),
        TuplePartsView::Other => TupleAttrView::Other,
    }
}

/// What a group of the protocol information is to the library.
pub open spec fn proto_info_model(p: ProtoInfo) -> ProtoInfoAttrView {
    match proto_info_parts(p) {
        ProtoInfoPartsView::Tcp(v) => ProtoInfoAttrView::Tcp(
            Seq::new(v.len(), |i: int| tcp_attr(v[i])),
        ),
        ProtoInfoPartsView::Other => ProtoInfoAttrView::Other,
    }
}

/// What an attribute of a message is to the library. One of a variant that
/// the library does not know is an attribute of kind 0 without a value.
pub open spec fn attribute_model(a: ConntrackAttribute) -> CtAttrView {
    match attribute_parts(a) {
        AttributePartsView::TupleOrig(v) => CtAttrView::TupleOrig(
            Seq::new(v.len(), |i: int| tuple_model(v[i])),
        ),
        AttributePartsView::TupleReply(v) => CtAttrView::TupleReply(
            Seq::new(v.len(), |i: int| tuple_model(v[i])),
        ),
        AttributePartsView::ProtoInfo(v) => CtAttrView::ProtoInfo(
            Seq::new(v.len(), |i: int| proto_info_model(v[i])),
        ),
        AttributePartsView::Status(v) => CtAttrView::Status(v),
        AttributePartsView::Timeout(v) => CtAttrView::Timeout(v),
        AttributePartsView::Mark(v) => CtAttrView::Mark(v),
        AttributePartsView::Other(d) => CtAttrView::Other(raw_attr(d)),
        AttributePartsView::Unknown => CtAttrView::Other(
            RawAttrView { kind: 0, value: Seq::empty() },
        ),
    }
}

/// What a connection-tracking message is to the library. One of a variant
/// that the library does not know is a message of type 255 without
/// attributes.
pub open spec fn message_model(m: ConntrackMessage) -> CtMessageView {
    match message_parts(m) {
        MessagePartsView::New(v) => CtMessageView::New(
            Seq::new(v.len(), |i: int| attribute_model(v[i])),
        ),
        MessagePartsView::Get(v) => CtMessageView::Get(
            Seq::new(v.len(), |i: int| attribute_model(v[i])),
        ),
        MessagePartsView::Delete(v) => CtMessageView::Delete(
            Seq::new(v.len(), |i: int| attribute_model(v[i])),
        ),
        MessagePartsView::Other { message_type, attributes } => CtMessageView::Other {
            message_type,
            attributes: Seq::new(attributes.len(), |i: int| raw_attr(attributes[i])),
        },
        MessagePartsView::Unknown => CtMessageView::Other {
            message_type: 255,
            attributes: Seq::empty(),
        },
    }
}

fn lift_ip(t: &IPTuple) -> (r: IpAttr)
    ensures
        r == ip_model(*t),
{
    match split_ip(t) {
        IpParts::Source(b) => match IpAddress::from_octets(&b) {
            Some(a) => IpAttr::Src(a),
            None => IpAttr::Other,
        },
        IpParts::Destination(b) => match IpAddress::from_octets(&b) {
            Some(a) => IpAttr::Dst(a),
            None => IpAttr::Other,
        },
        IpParts::Other => IpAttr::Other,
    }
}

fn lift_ips(v: &Vec<IPTuple>) -> (r: Vec<IpAttr>)
    ensures
        r@ == Seq::new(v@.len(), |i: int| ip_model(v@[i])),
{
    let mut out: Vec<IpAttr> = Vec::new();
    let mut i: usize = 0;
    while i < v.len()
        invariant
            i <= v.len(),
            out@.len() == i,
            forall|j: int| 0 <= j < i ==> out@[j] == ip_model(v@[j]),
        decreases v.len() - i,
    {
        out.push(lift_ip(&v[i]));
        i = i + 1;
    }
    assert(out@ =~= Seq::new(v@.len(), |i: int| ip_model(v@[i])));
    out
}

fn lift_protos(v: &Vec<ProtoTuple>) -> (r: Vec<ProtoAttr>)
    ensures
        r@ == Seq::new(v@.len(), |i: int| proto_attr(v@[i])),
{
    let mut out: Vec<ProtoAttr> = Vec::new();
    let mut i: usize = 0;
    while i < v.len()
        invariant
            i <= v.len(),
            out@.len() == i,
            forall|j: int| 0 <= j < i ==> out@[j] == proto_attr(v@[j]),
        decreases v.len() - i,
    {
        out.push(proto_attr_of(&v[i]));
        i = i + 1;
    }
    assert(out@ =~= Seq::new(v@.len(), |i: int| proto_attr(v@[i])));
    out
}

fn lift_tcps(v: &Vec<ProtoInfoTCP>) -> (r: Vec<TcpAttr>)
    ensures
        r@ == Seq::new(v@.len(), |i: int| tcp_attr(v@[i])),
{
    let mut out: Vec<TcpAttr> = Vec::new();
    let mut i: usize = 0;
    while i < v.len()
        invariant
            i <= v.len(),
            out@.len() == i,
            forall|j: int| 0 <= j < i ==> out@[j] == tcp_attr(v@[j]),
        decreases v.len() - i,
    {
        out.push(tcp_attr_of(&v[i]));
        i = i + 1;
    }
    assert(out@ =~= Seq::new(v@.len(), |i: int| tcp_attr(v@[i])));
    out
}

fn lift_tuple(t: &TupleGroup) -> (r: TupleAttr)
    ensures
        r@ == tuple_model(*t),
{
    match split_tuple(t) {
        TupleParts::Ip(v) => TupleAttr::Ip(lift_ips(&v)),
        TupleParts::Proto(v) => TupleAttr::Proto(lift_protos(&v)),
        TupleParts::Other => TupleAttr::Other,
    }
}

fn lift_tuples(v: &Vec<TupleGroup>) -> (r: Vec<TupleAttr>)
    ensures
        tuple_views(r@) == Seq::new(v@.len(), |i: int| tuple_model(v@[i])),
{
    let mut out: Vec<TupleAttr> = Vec::new();
    let mut i: usize = 0;
    while i < v.len()
        invariant
            i <= v.len(),
            out@.len() == i,
            forall|j: int| 0 <= j < i ==> out@[j]@ == tuple_model(v@[j]),
        decreases v.len() - i,
    {
        out.push(lift_tuple(&v[i]));
        i = i + 1;
    }
    assert(tuple_views(out@) =~= Seq::new(v@.len(), |i: int| tuple_model(v@[i])));
    out
}

fn lift_proto_info(p: &ProtoInfo) -> (r: ProtoInfoAttr)
    ensures
        r@ == proto_info_model(*p),
{
    match split_proto_info(p) {
        ProtoInfoParts::Tcp(v) => ProtoInfoAttr::Tcp(lift_tcps(&v)),
        ProtoInfoParts::Other => ProtoInfoAttr::Other,
    }
}

fn lift_proto_infos(v: &Vec<ProtoInfo>) -> (r: Vec<ProtoInfoAttr>)
    ensures
        proto_info_views(r@) == Seq::new(v@.len(), |i: int| proto_info_model(v@[i])),
{
    let mut out: Vec<ProtoInfoAttr> = Vec::new();
    let mut i: usize = 0;
    while i < v.len()
        invariant
            i <= v.len(),
            out@.len() == i,
            forall|j: int| 0 <= j < i ==> out@[j]@ == proto_info_model(v@[j]),
        decreases v.len() - i,
    {
        out.push(lift_proto_info(&v[i]));
        i = i + 1;
    }
    assert(proto_info_views(out@) =~= Seq::new(v@.len(), |i: int| proto_info_model(v@[i])));
    out
}

fn lift_raws(v: &Vec<DefaultNla>) -> (r: Vec<RawAttr>)
    ensures
        raw_views(r@) == Seq::new(v@.len(), |i: int| raw_attr(v@[i])),
{
    let mut out: Vec<RawAttr> = Vec::new();
    let mut i: usize = 0;
    while i < v.len()
        invariant
            i <= v.len(),
            out@.len() == i,
            forall|j: int| 0 <= j < i ==> out@[j]@ == raw_attr(v@[j]),
        decreases v.len() - i,
    {
        out.push(raw_attr_of(&v[i]));
        i = i + 1;
    }
    assert(raw_views(out@) =~= Seq::new(v@.len(), |i: int| raw_attr(v@[i])));
    out
}

fn lift_attribute(a: &ConntrackAttribute) -> (r: CtAttr)
    ensures
        r@ == attribute_model(*a),
{
    match split_attribute(a) {
        AttributeParts::TupleOrig(v) => CtAttr::TupleOrig(lift_tuples(&v)),
        AttributeParts::TupleReply(v) => CtAttr::TupleReply(lift_tuples(&v)),
        AttributeParts::ProtoInfo(v) => CtAttr::ProtoInfo(lift_proto_infos(&v)),
        AttributeParts::Status(v) => CtAttr::Status(v),
        AttributeParts::Timeout(v) => CtAttr::Timeout(v),
        AttributeParts::Mark(v) => CtAttr::Mark(v),
        AttributeParts::Other(d) => CtAttr::Other(raw_attr_of(&d)),
        AttributeParts::Unknown => CtAttr::Other(RawAttr { kind: 0, value: Vec::new() }),
    }
}

fn lift_attributes(v: &Vec<ConntrackAttribute>) -> (r: Vec<CtAttr>)
    ensures
        attr_views(r@) == Seq::new(v@.len(), |i: int| attribute_model(v@[i])),
{
    let mut out: Vec<CtAttr> = Vec::new();
    let mut i: usize = 0;
    while i < v.len()
        invariant
            i <= v.len(),
            out@.len() == i,
            forall|j: int| 0 <= j < i ==> out@[j]@ == attribute_model(v@[j]),
        decreases v.len() - i,
    {
        out.push(lift_attribute(&v[i]));
        i = i + 1;
    }
    assert(attr_views(out@) =~= Seq::new(v@.len(), |i: int| attribute_model(v@[i])));
    out
}

/// The connection-tracking message as a tree of plain values.
fn lift_message(m: ConntrackMessage) -> (r: CtMessage)
    ensures
        r@ == message_model(m),
{
    match split_message(m) {
        MessageParts::New(v) => CtMessage::New(lift_attributes(&v)),
        MessageParts::Get(v) => CtMessage::Get(lift_attributes(&v)),
        MessageParts::Delete(v) => CtMessage::Delete(lift_attributes(&v)),
        MessageParts::Other { message_type, attributes } => CtMessage::Other {
            message_type,
            attributes: lift_raws(&attributes),
        },
        MessageParts::Unknown => {
            let attributes: Vec<RawAttr> = Vec::new();
            assert(raw_views(attributes@) =~= Seq::empty());
            CtMessage::Other { message_type: 255, attributes }
        },
    }
}

/// What a frame is to the library.
/// - The end of a dump and an error payload are what they are.
/// - A netfilter message with a connection-tracking message is this message
///   with the flag word of the frame and the resource id of its header.
/// - Every other frame is passed over.
pub open spec fn step_of(frame: NetlinkMessage<NetfilterMessage>) -> FrameStep {
    match frame_parts(frame).payload {
        PayloadParts::Done => FrameStep::Done,
        PayloadParts::Error(e) => FrameStep::Error(error_code(e)),
        PayloadParts::Inner(m) => match netfilter_parts(m).conntrack {
            Some(c) => FrameStep::Message(
                MessageView {
                    flag: frame_parts(frame).flags,
                    res_id: netfilter_parts(m).res_id,
                    msg: message_model(c),
                },
            ),
            None => FrameStep::Skip,
        },
        PayloadParts::Ignored => FrameStep::Skip,
    }
}

/// What the positions of a datagram hold: the frame at the start of the
/// bytes, then what the bytes behind it hold, as far behind as the length in
/// the header of the frame says. Bytes that are no frame end the datagram,
/// and so does a frame whose length is no multiple of four.
pub open spec fn steps(data: Seq<u8>) -> Seq<FrameStep>
    decreases data.len(),
{
    if data.len() == 0 {
        Seq::empty()
    } else {
        match decoded_frame(data) {
            Err(e) => seq![FrameStep::Broken(e)],
            Ok(frame) => {
                let n = frame_parts(frame).length;
                if n % 4 != 0 {
                    seq![FrameStep::Broken(unaligned_error(n))]
                } else if n == 0 || n >= data.len() {
                    seq![step_of(frame)]
                } else {
                    seq![step_of(frame)] + steps(data.skip(n as int))
                }
            },
        }
    }
}

proof fn lemma_scan_one(step: FrameStep, rest: Seq<FrameStep>)
    ensures
        scan(seq![step] + rest) == match step {
            FrameStep::Message(m) => ScanView {
                messages: seq![m] + scan(rest).messages,
                end: scan(rest).end,
            },
            FrameStep::Skip => scan(rest),
            FrameStep::Done => ScanView { messages: Seq::empty(), end: ScanEnd::Done },
            FrameStep::Error(code) => ScanView {
                messages: Seq::empty(),
                end: ScanEnd::Failed(code),
            },
            FrameStep::Broken(e) => ScanView { messages: Seq::empty(), end: ScanEnd::Broken(e) },
        },
{
    assert((seq![step] + rest).skip(1) =~= rest);
}

/// What the frames of a datagram come to. Bytes that are fewer than the
/// 16 bytes of a header are no frame.
pub fn scan_datagram(data: &[u8]) -> (r: Scan)
    ensures
        r@ == scan(steps(data@)),
        0 < data@.len() < 16 ==> r.end is Broken && r.messages@.len() == 0,
{
    let mut messages: Vec<Message> = Vec::new();
    let mut read: usize = 0;
    assert(data@.skip(0) =~= data@);
    assert(message_views(messages@) =~= Seq::empty());
    assert(Seq::<MessageView>::empty() + scan(steps(data@)).messages =~= scan(
        steps(data@),
    ).messages);
    while read < data.len()
        invariant
            read <= data.len(),
            read == 0 ==> messages@.len() == 0,
            read > 0 ==> data@.len() >= 16,
            scan(steps(data@)) == (ScanView {
                messages: message_views(messages@) + scan(
                    steps(data@.skip(read as int)),
                ).messages,
                end: scan(steps(data@.skip(read as int))).end,
            }),
        decreases data.len() - read,
    {
        let rest = slice_subrange(data, read, data.len());
        let ghost bytes = data@.skip(read as int);
        assert(rest@ =~= bytes);
        let ghost before = message_views(messages@);
        match deserialize(rest) {
            Err(e) => {
                proof {
                    lemma_scan_one(FrameStep::Broken(e), Seq::empty());
                    assert(seq![FrameStep::Broken(e)] + Seq::<FrameStep>::empty() =~= seq![
                        FrameStep::Broken(e),
                    ]);
                    assert(before + Seq::<MessageView>::empty() =~= before);
                }
                return Scan { messages, end: ScanEnd::Broken(e) };
            },
            Ok(frame) => {
                let ghost step = step_of(frame);
                let parts = split_frame(frame);
                let length = parts.length;
                if length % 4 != 0 {
                    let e = unaligned(length);
                    proof {
                        lemma_scan_one(FrameStep::Broken(e), Seq::empty());
                        assert(seq![FrameStep::Broken(e)] + Seq::<FrameStep>::empty() =~= seq![
                            FrameStep::Broken(e),
                        ]);
                        assert(before + Seq::<MessageView>::empty() =~= before);
                    }
                    return Scan { messages, end: ScanEnd::Broken(e) };
                }
                let n = length as usize;
                let flags = parts.flags;
                let ghost tail = if n >= bytes.len() {
                    Seq::<FrameStep>::empty()
                } else {
                    steps(bytes.skip(n as int))
                };
                proof {
                    assert(steps(bytes) =~= seq![step] + tail);
                    lemma_scan_one(step, tail);
                    assert(before + Seq::<MessageView>::empty() =~= before);
                }
                match parts.payload {
                    PayloadParts::Done => {
                        return Scan { messages, end: ScanEnd::Done };
                    },
                    PayloadParts::Error(e) => {
                        let code = error_code_of(&e);
                        return Scan { messages, end: ScanEnd::Failed(code) };
                    },
                    PayloadParts::Inner(m) => {
                        let inner = split_netfilter(m);
                        match inner.conntrack {
                            Some(c) => {
                                let msg = Message::new(lift_message(c), flags, inner.res_id);
                                let ghost mv = msg@;
                                messages.push(msg);
                                proof {
                                    assert(message_views(messages@) =~= before.push(mv));
                                    assert(before.push(mv) + scan(tail).messages =~= before + (
                                    seq![mv] + scan(tail).messages));
                                }
                            },
                            None => {},
                        }
                    },
                    PayloadParts::Ignored => {},
                }
                if n >= data.len() - read {
                    read = data.len();
                    proof {
                        assert(data@.skip(read as int) =~= Seq::<u8>::empty());
                    }
                } else {
                    read = read + n;
                    proof {
                        assert(data@.skip(read as int) =~= bytes.skip(n as int));
                    }
                }
            },
        }
    }
    proof {
        assert(data@.skip(read as int) =~= Seq::<u8>::empty());
        assert(message_views(messages@) + Seq::<MessageView>::empty() =~= message_views(
            messages@,
        ));
    }
    Scan { messages, end: ScanEnd::Exhausted }
}

/// The connection-tracking message of a request, as a tree of plain values.
/// - A query for entries has the attributes that name the entry, or none.
/// - Every other request is a message without attributes, of type 3 for a
///   dump with reset, 4 for the statistics of each CPU, 5 for the count of
///   entries, 6 for the dying and 7 for the unconfirmed entries.
pub open spec fn query_model(q: Query) -> CtMessageView {
    match q {
        Query::Get(None) => CtMessageView::Get(Seq::empty()),
        Query::Get(Some(p)) => CtMessageView::Get(p.spec_attrs()),
        Query::GetWithReset => CtMessageView::Other { message_type: 3, attributes: Seq::empty() },
        Query::GetStatsCpu => CtMessageView::Other { message_type: 4, attributes: Seq::empty() },
        Query::GetStats => CtMessageView::Other { message_type: 5, attributes: Seq::empty() },
        Query::GetDying => CtMessageView::Other { message_type: 6, attributes: Seq::empty() },
        Query::GetUnconfirmed => CtMessageView::Other {
            message_type: 7,
            attributes: Seq::empty(),
        },
    }
}

/// What the library writes for a request is no event when it is read: it
/// gives the error that tells its type.
pub proof fn law_requests_are_no_events(q: Query, flag: u16, res_id: u16)
    ensures
        crate::event::Event::of_message(MessageView { flag, res_id, msg: query_model(q) }) == Err::<
            crate::event::Event,
            crate::error::ErrorView,
        >(
            crate::error::ErrorView::Message(
                crate::event::unknown_type_text(query_model(q).type_number()),
            ),
        ),
{
    crate::event::law_unknown_types(MessageView { flag, res_id, msg: query_model(q) });
}

fn lower_tuple(protocol: Protocol, t: &Tuple) -> (r: Vec<TupleGroup>)
    ensures
        Seq::new(r@.len(), |i: int| tuple_model(r@[i])) == crate::flow::tuple_groups(
            protocol,
            *t,
        ),
{
    let src = t.src_addr.octets();
    let dst = t.dst_addr.octets();
    let mut ips: Vec<IPTuple> = Vec::new();
    ips.push(ip_source(&src));
    ips.push(ip_destination(&dst));
    let mut protos: Vec<ProtoTuple> = Vec::new();
    protos.push(proto_number(protocol.number()));
    protos.push(source_port(t.src_port));
    protos.push(destination_port(t.dst_port));
    let ghost ips_seq = ips@;
    let ghost protos_seq = protos@;
    let mut groups: Vec<TupleGroup> = Vec::new();
    groups.push(tuple_ip(ips));
    groups.push(tuple_proto(protos));
    proof {
        let want = crate::flow::tuple_groups(protocol, *t);
        assert(Seq::new(ips_seq.len(), |i: int| ip_model(ips_seq[i])) =~= seq![
            IpAttr::Src(t.src_addr),
            IpAttr::Dst(t.dst_addr),
        ]);
        assert(Seq::new(protos_seq.len(), |i: int| proto_attr(protos_seq[i])) =~= seq![
            ProtoAttr::Number(protocol.spec_number()),
            ProtoAttr::SrcPort(t.src_port),
            ProtoAttr::DstPort(t.dst_port),
        ]);
        assert(tuple_model(groups@[0]) == want[0]);
        assert(tuple_model(groups@[1]) == want[1]);
        assert(Seq::new(groups@.len(), |i: int| tuple_model(groups@[i])) =~= want);
    }
    groups
}

fn lower_params(p: &GetParams) -> (r: ConntrackMessage)
    ensures
        message_model(r) == CtMessageView::Get(p.spec_attrs()),
{
    let mut attrs: Vec<ConntrackAttribute> = Vec::new();
    match &p.directed_tuple {
        Direction::Orig(t) => {
            attrs.push(attribute_orig(lower_tuple(p.protocol, t)));
        },
        Direction::Reply(t) => {
            attrs.push(attribute_reply(lower_tuple(p.protocol, t)));
        },
    }
    let ghost attrs_seq = attrs@;
    let m = message_get(attrs);
    proof {
        assert(Seq::new(attrs_seq.len(), |i: int| attribute_model(attrs_seq[i]))
            =~= p.spec_attrs());
    }
    m
}

fn lower_query(q: &Query) -> (r: ConntrackMessage)
    ensures
        message_model(r) == query_model(*q),
{
    let m = match q {
        Query::Get(None) => {
            let attrs: Vec<ConntrackAttribute> = Vec::new();
            let ghost attrs_seq = attrs@;
            let m = message_get(attrs);
            proof {
                assert(Seq::new(attrs_seq.len(), |i: int| attribute_model(attrs_seq[i]))
                    =~= Seq::<CtAttrView>::empty());
            }
            m
        },
        Query::Get(Some(p)) => lower_params(p),
        Query::GetWithReset => message_other(3),
        Query::GetStatsCpu => message_other(4),
        Query::GetStats => message_other(5),
        Query::GetDying => message_other(6),
        Query::GetUnconfirmed => message_other(7),
    };
    proof {
        assert(Seq::new(0, |i: int| raw_attr(Seq::<DefaultNla>::empty()[i])) =~= Seq::<
            RawAttrView,
        >::empty());
    }
    m
}

/// The bytes of a request frame: what the packet crates write for a frame
/// with the flags, the family and the resource id of the request, with
/// version 0, around a connection-tracking message that is, to the library,
/// the message of the request.
pub fn encode(frame: &RequestFrame) -> (r: Vec<u8>)
    ensures
        exists|m: ConntrackMessage|
            message_model(m) == query_model(frame.query) && r@ == #[trigger] request_encoding(
                frame.flags,
                frame.family.spec_code(),
                NETFILTER_VERSION,
                frame.res_id,
                m,
            ),
{
    let m = lower_query(&frame.query);
    let ghost witness = m;
    assert(models_a_request(m)) by {
        assert(message_model(m) == query_model(frame.query));
    }
    let r = serialize_request(
        frame.flags,
        frame.family.code(),
        NETFILTER_VERSION,
        frame.res_id,
        m,
    );
    assert(message_model(witness) == query_model(frame.query) && r@ == request_encoding(
        frame.flags,
        frame.family.spec_code(),
        NETFILTER_VERSION,
        frame.res_id,
        witness,
    ));
    r
}

} // verus!

//! The record of one tracked connection and the values it is made of.

use crate::addr::IpAddress;
use crate::attr::be32_bytes;
use crate::attr::CtAttr;
use crate::attr::CtMessage;
use crate::attr::CtMessageView;
use crate::attr::RawAttr;
use crate::attr::RawAttrView;
use crate::attr::CtAttrView;
use crate::attr::IpAttr;
use crate::attr::ProtoAttr;
use crate::attr::ProtoInfoAttr;
use crate::attr::ProtoInfoAttrView;
use crate::attr::TcpAttr;
use crate::attr::TupleAttr;
use crate::attr::TupleAttrView;
use crate::attr::attr_views;
use crate::attr::proto_info_views;
use crate::attr::tuple_views;
use crate::message::MessageType;
use crate::text::decimal;
use crate::text::lowercase;
use crate::text::same_text;
use crate::text::strip_underscores;
use crate::text::to_lowercase;
use crate::text::with_number;
use crate::text::without_underscores;
use vstd::prelude::*;

verus! {

/// Why a flow could not be made.
#[derive(Debug)]
pub enum FlowError {
    /// The message is of a type that carries no flow.
    InvalidMessageType(u8),
    /// A field that every flow has was not given; the text is its name.
    MissingField(String),
    /// The text or the number stands for no TCP state.
    InvalidTcpState(String),
    /// The text stands for no transport protocol.
    InvalidL4Protocol(String),
    /// The text stands for no flag of the status.
    InvalidCtState(String),
    /// The four addresses of a flow are not of one family.
    AddressFamilyMismatch,
}

/// A flow error with its texts as sequences of characters.
pub enum FlowErrorView {
    InvalidMessageType(u8),
    MissingField(Seq<char>),
    InvalidTcpState(Seq<char>),
    InvalidL4Protocol(Seq<char>),
    InvalidCtState(Seq<char>),
    AddressFamilyMismatch,
}

impl View for FlowError {
    type V = FlowErrorView;

    open spec fn view(&self) -> FlowErrorView {
        match self {
            FlowError::InvalidMessageType(t) => FlowErrorView::InvalidMessageType(*t),
            FlowError::MissingField(s) => FlowErrorView::MissingField(s@),
            FlowError::InvalidTcpState(s) => FlowErrorView::InvalidTcpState(s@),
            FlowError::InvalidL4Protocol(s) => FlowErrorView::InvalidL4Protocol(s@),
            FlowError::InvalidCtState(s) => FlowErrorView::InvalidCtState(s@),
            FlowError::AddressFamilyMismatch => FlowErrorView::AddressFamilyMismatch,
        }
    }
}

/// Whether a result is the one that a model gives: the same value, or
/// an error with the same view.
pub open spec fn agrees<T>(r: Result<T, FlowError>, s: Result<T, FlowErrorView>) -> bool {
    match (r, s) {
        (Ok(a), Ok(b)) => a == b,
        (Err(e), Err(v)) => e@ == v,
        _ => false,
    }
}

/// The transport protocol of a flow.
#[derive(Debug, Clone, Copy, PartialEq, Eq, Structural)]
pub enum Protocol {
    Tcp,
    Udp,
    Other(u8),
}

impl Protocol {
    /// The protocol with this number: 6 is TCP, 17 is UDP.
    pub open spec fn of_number(v: u8) -> Protocol {
        if v == 6 {
            Protocol::Tcp
        } else if v == 17 {
            Protocol::Udp
        } else {
            Protocol::Other(v)
        }
    }

    /// The number of the protocol.
    pub open spec fn spec_number(&self) -> u8 {
        match self {
            Protocol::Tcp => 6,
            Protocol::Udp => 17,
            Protocol::Other(v) => *v,
        }
    }

    #[verifier::when_used_as_spec(spec_number)]
    pub fn number(&self) -> (r: u8)
        ensures
            r == self.spec_number(),
    {
        match self {
            Protocol::Tcp => 6,
            Protocol::Udp => 17,
            Protocol::Other(v) => *v,
        }
    }

    /// The protocol that a lowercase name stands for. Only TCP and UDP have
    /// names.
    pub open spec fn named(name: Seq<char>) -> Option<Protocol> {
        if name == "tcp"@ {
            Some(Protocol::Tcp)
        } else if name == "udp"@ {
            Some(Protocol::Udp)
        } else {
            None
        }
    }

    /// The protocol that a lowercase name stands for.
    pub fn from_lowercase(name: &str) -> (r: Option<Protocol>)
        ensures
            r == Protocol::named(name@),
    {
        if same_text(name, "tcp") {
            Some(Protocol::Tcp)
        } else if same_text(name, "udp") {
            Some(Protocol::Udp)
        } else {
            None
        }
    }

    /// The protocol that a name stands for, whatever its case.
    pub fn from_name(p: &str) -> (r: Result<Protocol, FlowError>)
        ensures
            agrees(
                r,
                match Protocol::named(lowercase(p@)) {
                    Some(v) => Ok(v),
                    None => Err(FlowErrorView::InvalidL4Protocol(p@)),
                },
            ),
    {
        let lower = to_lowercase(p);
        match Protocol::from_lowercase(lower.as_str()) {
            Some(v) => Ok(v),
            None => Err(FlowError::InvalidL4Protocol(p.to_owned())),
        }
    }

    /// The name of the protocol, as it is shown.
    pub open spec fn spec_name(&self) -> Seq<char> {
        match self {
            Protocol::Tcp => "tcp"@,
            Protocol::Udp => "udp"@,
            Protocol::Other(v) => "other("@ + decimal(*v as nat) + ")"@,
        }
    }

    pub fn name(&self) -> (r: String)
        ensures
            r@ == self.spec_name(),
    {
        match self {
            Protocol::Tcp => "tcp".to_owned(),
            Protocol::Udp => "udp".to_owned(),
            Protocol::Other(v) => {
                let mut out = with_number("other(", *v);
                crate::text::push_str(&mut out, ")");
                out
            },
        }
    }
}

impl From<u8> for Protocol {
    fn from(v: u8) -> (r: Protocol) {
        if v == 6 {
            Protocol::Tcp
        } else if v == 17 {
            Protocol::Udp
        } else {
            Protocol::Other(v)
        }
    }
}

impl vstd::std_specs::convert::FromSpecImpl<u8> for Protocol {
    open spec fn obeys_from_spec() -> bool {
        true
    }

    open spec fn from_spec(v: u8) -> Protocol {
        Protocol::of_number(v)
    }
}

/// The state of a TCP connection, as the kernel tracks it.
#[derive(Debug, Clone, Copy, PartialEq, Eq, Structural)]
pub enum TcpState {
    /// No state yet; its name in text is `NONE`.
    NoState,
    SynSent,
    SynRecv,
    Established,
    FinWait,
    CloseWait,
    LastAck,
    TimeWait,
    Close,
    Listen,
}

impl TcpState {
    /// The number of the state on the wire, from 0 to 9 in the order of the
    /// variants.
    pub open spec fn spec_number(&self) -> u8 {
        match self {
            TcpState::NoState => 0,
            TcpState::SynSent => 1,
            TcpState::SynRecv => 2,
            TcpState::Established => 3,
            TcpState::FinWait => 4,
            TcpState::CloseWait => 5,
            TcpState::LastAck => 6,
            TcpState::TimeWait => 7,
            TcpState::Close => 8,
            TcpState::Listen => 9,
        }
    }

    #[verifier::when_used_as_spec(spec_number)]
    pub fn number(&self) -> (r: u8)
        ensures
            r == self.spec_number(),
    {
        match self {
            TcpState::NoState => 0,
            TcpState::SynSent => 1,
            TcpState::SynRecv => 2,
            TcpState::Established => 3,
            TcpState::FinWait => 4,
            TcpState::CloseWait => 5,
            TcpState::LastAck => 6,
            TcpState::TimeWait => 7,
            TcpState::Close => 8,
            TcpState::Listen => 9,
        }
    }

    /// The state with this number, if there is one.
    pub open spec fn of_number(s: u8) -> Option<TcpState> {
        if s == 0 {
            Some(TcpState::NoState)
        } else if s == 1 {
            Some(TcpState::SynSent)
        } else if s == 2 {
            Some(TcpState::SynRecv)
        } else if s == 3 {
            Some(TcpState::Established)
        } else if s == 4 {
            Some(TcpState::FinWait)
        } else if s == 5 {
            Some(TcpState::CloseWait)
        } else if s == 6 {
            Some(TcpState::LastAck)
        } else if s == 7 {
            Some(TcpState::TimeWait)
        } else if s == 8 {
            Some(TcpState::Close)
        } else if s == 9 {
            Some(TcpState::Listen)
        } else {
            None
        }
    }

    /// What decoding a state byte gives: the state, or the byte's decimal
    /// notation as an invalid state.
    pub open spec fn decoded(s: u8) -> Result<TcpState, FlowErrorView> {
        match TcpState::of_number(s) {
            Some(t) => Ok(t),
            None => Err(FlowErrorView::InvalidTcpState(decimal(s as nat))),
        }
    }

    /// The state with this number.
    pub fn from_number(s: u8) -> (r: Result<TcpState, FlowError>)
        ensures
            agrees(r, TcpState::decoded(s)),
    {
        match s {
            0 => Ok(TcpState::NoState),
            1 => Ok(TcpState::SynSent),
            2 => Ok(TcpState::SynRecv),
            3 => Ok(TcpState::Established),
            4 => Ok(TcpState::FinWait),
            5 => Ok(TcpState::CloseWait),
            6 => Ok(TcpState::LastAck),
            7 => Ok(TcpState::TimeWait),
            8 => Ok(TcpState::Close),
            9 => Ok(TcpState::Listen),
            _ => Err(FlowError::InvalidTcpState(crate::text::decimal_u8(s))),
        }
    }

    /// The state that a name stands for, the name being in lowercase and
    /// without underscores.
    pub open spec fn named(name: Seq<char>) -> Option<TcpState> {
        if name == "none"@ {
            Some(TcpState::NoState)
        } else if name == "synsent"@ {
            Some(TcpState::SynSent)
        } else if name == "synrecv"@ {
            Some(TcpState::SynRecv)
        } else if name == "established"@ {
            Some(TcpState::Established)
        } else if name == "finwait"@ {
            Some(TcpState::FinWait)
        } else if name == "closewait"@ {
            Some(TcpState::CloseWait)
        } else if name == "lastack"@ {
            Some(TcpState::LastAck)
        } else if name == "timewait"@ {
            Some(TcpState::TimeWait)
        } else if name == "close"@ {
            Some(TcpState::Close)
        } else if name == "listen"@ {
            Some(TcpState::Listen)
        } else {
            None
        }
    }

    /// The state that a name in lowercase and without underscores stands for.
    pub fn from_plain_name(name: &str) -> (r: Option<TcpState>)
        ensures
            r == TcpState::named(name@),
    {
        if same_text(name, "none") {
            Some(TcpState::NoState)
        } else if same_text(name, "synsent") {
            Some(TcpState::SynSent)
        } else if same_text(name, "synrecv") {
            Some(TcpState::SynRecv)
        } else if same_text(name, "established") {
            Some(TcpState::Established)
        } else if same_text(name, "finwait") {
            Some(TcpState::FinWait)
        } else if same_text(name, "closewait") {
            Some(TcpState::CloseWait)
        } else if same_text(name, "lastack") {
            Some(TcpState::LastAck)
        } else if same_text(name, "timewait") {
            Some(TcpState::TimeWait)
        } else if same_text(name, "close") {
            Some(TcpState::Close)
        } else if same_text(name, "listen") {
            Some(TcpState::Listen)
        } else {
            None
        }
    }

    /// The state that a name stands for: case and underscores do not count,
    /// so `syn_sent`, `SynSent` and `SYNSENT` all name one state.
    pub fn from_name(s: &str) -> (r: Result<TcpState, FlowError>)
        ensures
            agrees(
                r,
                match TcpState::named(without_underscores(lowercase(s@))) {
                    Some(v) => Ok(v),
                    None => Err(FlowErrorView::InvalidTcpState(s@)),
                },
            ),
    {
        let lower = to_lowercase(s);
        let plain = strip_underscores(lower.as_str());
        match TcpState::from_plain_name(plain.as_str()) {
            Some(v) => Ok(v),
            None => Err(FlowError::InvalidTcpState(s.to_owned())),
        }
    }

    /// The name of the state, as it is shown.
    pub open spec fn spec_name(&self) -> Seq<char> {
        match self {
            TcpState::NoState => "NONE"@,
            TcpState::SynSent => "SYN_SENT"@,
            TcpState::SynRecv => "SYN_RECV"@,
            TcpState::Established => "ESTABLISHED"@,
            TcpState::FinWait => "FIN_WAIT"@,
            TcpState::CloseWait => "CLOSE_WAIT"@,
            TcpState::LastAck => "LAST_ACK"@,
            TcpState::TimeWait => "TIME_WAIT"@,
            TcpState::Close => "CLOSE"@,
            TcpState::Listen => "LISTEN"@,
        }
    }

    pub fn name(&self) -> (r: String)
        ensures
            r@ == self.spec_name(),
    {
        match self {
            TcpState::NoState => "NONE".to_owned(),
            TcpState::SynSent => "SYN_SENT".to_owned(),
            TcpState::SynRecv => "SYN_RECV".to_owned(),
            TcpState::Established => "ESTABLISHED".to_owned(),
            TcpState::FinWait => "FIN_WAIT".to_owned(),
            TcpState::CloseWait => "CLOSE_WAIT".to_owned(),
            TcpState::LastAck => "LAST_ACK".to_owned(),
            TcpState::TimeWait => "TIME_WAIT".to_owned(),
            TcpState::Close => "CLOSE".to_owned(),
            TcpState::Listen => "LISTEN".to_owned(),
        }
    }
}

/// One of the fifteen properties that the kernel records of a connection.
#[derive(Debug, Clone, Copy, PartialEq, Eq, Structural)]
pub enum StatusFlag {
    Expected,
    SeenReply,
    Assured,
    Confirmed,
    SourceNat,
    DestinationNat,
    SequenceAdjust,
    SourceNatDone,
    DestinationNatDone,
    Dying,
    FixedTimeout,
    Template,
    Untracked,
    Helper,
    Offload,
}

impl StatusFlag {
    /// The position of the flag's bit, from 0 for `Expected` to 14 for
    /// `Offload`.
    pub open spec fn position(&self) -> nat {
        match self {
            StatusFlag::Expected => 0,
            StatusFlag::SeenReply => 1,
            StatusFlag::Assured => 2,
            StatusFlag::Confirmed => 3,
            StatusFlag::SourceNat => 4,
            StatusFlag::DestinationNat => 5,
            StatusFlag::SequenceAdjust => 6,
            StatusFlag::SourceNatDone => 7,
            StatusFlag::DestinationNatDone => 8,
            StatusFlag::Dying => 9,
            StatusFlag::FixedTimeout => 10,
            StatusFlag::Template => 11,
            StatusFlag::Untracked => 12,
            StatusFlag::Helper => 13,
            StatusFlag::Offload => 14,
        }
    }

    /// The flag's bit: a power of two of its own.
    pub open spec fn spec_bit(&self) -> u16 {
        match self {
            StatusFlag::Expected => 0x0001,
            StatusFlag::SeenReply => 0x0002,
            StatusFlag::Assured => 0x0004,
            StatusFlag::Confirmed => 0x0008,
            StatusFlag::SourceNat => 0x0010,
            StatusFlag::DestinationNat => 0x0020,
            StatusFlag::SequenceAdjust => 0x0040,
            StatusFlag::SourceNatDone => 0x0080,
            StatusFlag::DestinationNatDone => 0x0100,
            StatusFlag::Dying => 0x0200,
            StatusFlag::FixedTimeout => 0x0400,
            StatusFlag::Template => 0x0800,
            StatusFlag::Untracked => 0x1000,
            StatusFlag::Helper => 0x2000,
            StatusFlag::Offload => 0x4000,
        }
    }

    #[verifier::when_used_as_spec(spec_bit)]
    pub fn bit(&self) -> (r: u16)
        ensures
            r == self.spec_bit(),
    {
        match self {
            StatusFlag::Expected => 0x0001,
            StatusFlag::SeenReply => 0x0002,
            StatusFlag::Assured => 0x0004,
            StatusFlag::Confirmed => 0x0008,
            StatusFlag::SourceNat => 0x0010,
            StatusFlag::DestinationNat => 0x0020,
            StatusFlag::SequenceAdjust => 0x0040,
            StatusFlag::SourceNatDone => 0x0080,
            StatusFlag::DestinationNatDone => 0x0100,
            StatusFlag::Dying => 0x0200,
            StatusFlag::FixedTimeout => 0x0400,
            StatusFlag::Template => 0x0800,
            StatusFlag::Untracked => 0x1000,
            StatusFlag::Helper => 0x2000,
            StatusFlag::Offload => 0x4000,
        }
    }

    /// The flag at a position; `Offload` stands at every position from 14
    /// on.
    pub open spec fn at(position: nat) -> StatusFlag {
        if position == 0 {
            StatusFlag::Expected
        } else if position == 1 {
            StatusFlag::SeenReply
        } else if position == 2 {
            StatusFlag::Assured
        } else if position == 3 {
            StatusFlag::Confirmed
        } else if position == 4 {
            StatusFlag::SourceNat
        } else if position == 5 {
            StatusFlag::DestinationNat
        } else if position == 6 {
            StatusFlag::SequenceAdjust
        } else if position == 7 {
            StatusFlag::SourceNatDone
        } else if position == 8 {
            StatusFlag::DestinationNatDone
        } else if position == 9 {
            StatusFlag::Dying
        } else if position == 10 {
            StatusFlag::FixedTimeout
        } else if position == 11 {
            StatusFlag::Template
        } else if position == 12 {
            StatusFlag::Untracked
        } else if position == 13 {
            StatusFlag::Helper
        } else {
            StatusFlag::Offload
        }
    }

    /// The flag at a position.
    pub fn from_position(position: u8) -> (r: StatusFlag)
        ensures
            r == StatusFlag::at(position as nat),
    {
        if position == 0 {
            StatusFlag::Expected
        } else if position == 1 {
            StatusFlag::SeenReply
        } else if position == 2 {
            StatusFlag::Assured
        } else if position == 3 {
            StatusFlag::Confirmed
        } else if position == 4 {
            StatusFlag::SourceNat
        } else if position == 5 {
            StatusFlag::DestinationNat
        } else if position == 6 {
            StatusFlag::SequenceAdjust
        } else if position == 7 {
            StatusFlag::SourceNatDone
        } else if position == 8 {
            StatusFlag::DestinationNatDone
        } else if position == 9 {
            StatusFlag::Dying
        } else if position == 10 {
            StatusFlag::FixedTimeout
        } else if position == 11 {
            StatusFlag::Template
        } else if position == 12 {
            StatusFlag::Untracked
        } else if position == 13 {
            StatusFlag::Helper
        } else {
            StatusFlag::Offload
        }
    }

    /// The name of the flag, as it is shown.
    pub open spec fn spec_name(&self) -> Seq<char> {
        match self {
            StatusFlag::Expected => "EXPECTED"@,
            StatusFlag::SeenReply => "SEEN_REPLY"@,
            StatusFlag::Assured => "ASSURED"@,
            StatusFlag::Confirmed => "CONFIRMED"@,
            StatusFlag::SourceNat => "SNAT"@,
            StatusFlag::DestinationNat => "DNAT"@,
            StatusFlag::SequenceAdjust => "SEQ_ADJ"@,
            StatusFlag::SourceNatDone => "SNAT_DONE"@,
            StatusFlag::DestinationNatDone => "DNAT_DONE"@,
            StatusFlag::Dying => "DYING"@,
            StatusFlag::FixedTimeout => "FIXED_TIMEOUT"@,
            StatusFlag::Template => "TEMPLATE"@,
            StatusFlag::Untracked => "UNTRACKED"@,
            StatusFlag::Helper => "HELPER"@,
            StatusFlag::Offload => "OFFLOAD"@,
        }
    }

    /// The flag that a lowercase name stands for.
    pub open spec fn named(name: Seq<char>) -> Option<StatusFlag> {
        if name == "expected"@ {
            Some(StatusFlag::Expected)
        } else if name == "seen_reply"@ {
            Some(StatusFlag::SeenReply)
        } else if name == "assured"@ {
            Some(StatusFlag::Assured)
        } else if name == "confirmed"@ {
            Some(StatusFlag::Confirmed)
        } else if name == "snat"@ {
            Some(StatusFlag::SourceNat)
        } else if name == "dnat"@ {
            Some(StatusFlag::DestinationNat)
        } else if name == "seq_adj"@ {
            Some(StatusFlag::SequenceAdjust)
        } else if name == "snat_done"@ {
            Some(StatusFlag::SourceNatDone)
        } else if name == "dnat_done"@ {
            Some(StatusFlag::DestinationNatDone)
        } else if name == "dying"@ {
            Some(StatusFlag::Dying)
        } else if name == "fixed_timeout"@ {
            Some(StatusFlag::FixedTimeout)
        } else if name == "template"@ {
            Some(StatusFlag::Template)
        } else if name == "untracked"@ {
            Some(StatusFlag::Untracked)
        } else if name == "helper"@ {
            Some(StatusFlag::Helper)
        } else if name == "offload"@ {
            Some(StatusFlag::Offload)
        } else {
            None
        }
    }

    /// The flag that a lowercase name stands for.
    pub fn from_lowercase(name: &str) -> (r: Option<StatusFlag>)
        ensures
            r == StatusFlag::named(name@),
    {
        if same_text(name, "expected") {
            Some(StatusFlag::Expected)
        } else if same_text(name, "seen_reply") {
            Some(StatusFlag::SeenReply)
        } else if same_text(name, "assured") {
            Some(StatusFlag::Assured)
        } else if same_text(name, "confirmed") {
            Some(StatusFlag::Confirmed)
        } else if same_text(name, "snat") {
            Some(StatusFlag::SourceNat)
        } else if same_text(name, "dnat") {
            Some(StatusFlag::DestinationNat)
        } else if same_text(name, "seq_adj") {
            Some(StatusFlag::SequenceAdjust)
        } else if same_text(name, "snat_done") {
            Some(StatusFlag::SourceNatDone)
        } else if same_text(name, "dnat_done") {
            Some(StatusFlag::DestinationNatDone)
        } else if same_text(name, "dying") {
            Some(StatusFlag::Dying)
        } else if same_text(name, "fixed_timeout") {
            Some(StatusFlag::FixedTimeout)
        } else if same_text(name, "template") {
            Some(StatusFlag::Template)
        } else if same_text(name, "untracked") {
            Some(StatusFlag::Untracked)
        } else if same_text(name, "helper") {
            Some(StatusFlag::Helper)
        } else if same_text(name, "offload") {
            Some(StatusFlag::Offload)
        } else {
            None
        }
    }

    /// The flag that a name stands for, whatever its case; any other text
    /// is refused and handed back in the error.
    pub fn from_name(s: &str) -> (r: Result<StatusFlag, FlowError>)
        ensures
            agrees(
                r,
                match StatusFlag::named(lowercase(s@)) {
                    Some(v) => Ok(v),
                    None => Err(FlowErrorView::InvalidCtState(s@)),
                },
            ),
    {
        let lower = to_lowercase(s);
        match StatusFlag::from_lowercase(lower.as_str()) {
            Some(v) => Ok(v),
            None => Err(FlowError::InvalidCtState(s.to_owned())),
        }
    }

    pub fn name(&self) -> (r: String)
        ensures
            r@ == self.spec_name(),
    {
        match self {
            StatusFlag::Expected => "EXPECTED".to_owned(),
            StatusFlag::SeenReply => "SEEN_REPLY".to_owned(),
            StatusFlag::Assured => "ASSURED".to_owned(),
            StatusFlag::Confirmed => "CONFIRMED".to_owned(),
            StatusFlag::SourceNat => "SNAT".to_owned(),
            StatusFlag::DestinationNat => "DNAT".to_owned(),
            StatusFlag::SequenceAdjust => "SEQ_ADJ".to_owned(),
            StatusFlag::SourceNatDone => "SNAT_DONE".to_owned(),
            StatusFlag::DestinationNatDone => "DNAT_DONE".to_owned(),
            StatusFlag::Dying => "DYING".to_owned(),
            StatusFlag::FixedTimeout => "FIXED_TIMEOUT".to_owned(),
            StatusFlag::Template => "TEMPLATE".to_owned(),
            StatusFlag::Untracked => "UNTRACKED".to_owned(),
            StatusFlag::Helper => "HELPER".to_owned(),
            StatusFlag::Offload => "OFFLOAD".to_owned(),
        }
    }
}

/// The bits of the fifteen flags together.
pub const STATUS_MASK: u16 = 0x7fff;

/// The status of a connection: a set of flags, held as the bits of a 16-bit
/// word. No bit outside the fifteen flags is ever set.
#[derive(Debug, Clone, Copy, PartialEq, Eq, Structural)]
pub struct Status {
    bits: u16,
}

impl Status {
    #[verifier::type_invariant]
    spec fn only_flags(self) -> bool {
        self.bits <= 0x7fff
    }

    /// The flags as a word: the bit of each flag that is set.
    pub closed spec fn bits(&self) -> u16 {
        self.bits
    }

    /// The status with the flags whose bits are set in `value`.
    pub closed spec fn of_bits(value: u16) -> Status {
        Status { bits: value & 0x7fff }
    }

    /// The status with the flags whose bits are set in a 32-bit `value`.
    pub closed spec fn of_wide(value: u32) -> Status {
        Status { bits: (value & 0x7fff) as u16 }
    }

    /// Whether the flag is set.
    pub open spec fn has(&self, flag: StatusFlag) -> bool {
        self.bits() & flag.spec_bit() != 0
    }

    /// Whether no flag is set.
    pub open spec fn spec_is_empty(&self) -> bool {
        self.bits() == 0
    }

    /// The status with the flags whose bits are set in `value`; the one bit
    /// that is no flag is dropped.
    pub fn from_u16(value: u16) -> (r: Status)
        ensures
            r == Status::of_bits(value),
            r.bits() == value & STATUS_MASK,
    {
        assert(value & 0x7fff <= 0x7fff) by (bit_vector);
        Status { bits: value & 0x7fff }
    }

    /// The status with the flags whose bits are set in `value`; bits that are
    /// no flag are dropped.
    pub fn from_u32(value: u32) -> (r: Status)
        ensures
            r == Status::of_wide(value),
            r.bits() as u32 == value & 0x7fff,
    {
        assert(value & 0x7fff <= 0x7fff) by (bit_vector);
        Status { bits: (value & 0x7fff) as u16 }
    }

    /// The flags as a word.
    pub fn to_u16(&self) -> (r: u16)
        ensures
            r == self.bits(),
            r <= STATUS_MASK,
    {
        proof {
            use_type_invariant(self);
        }
        self.bits
    }

    pub fn assured() -> (r: Status)
        ensures
            r.bits() == StatusFlag::Assured.spec_bit(),
    {
        Status { bits: 0x0004 }
    }

    pub fn seen_reply() -> (r: Status)
        ensures
            r.bits() == StatusFlag::SeenReply.spec_bit(),
    {
        Status { bits: 0x0002 }
    }

    pub fn fixed_timeout() -> (r: Status)
        ensures
            r.bits() == StatusFlag::FixedTimeout.spec_bit(),
    {
        Status { bits: 0x0400 }
    }

    pub fn expected() -> (r: Status)
        ensures
            r.bits() == StatusFlag::Expected.spec_bit(),
    {
        Status { bits: 0x0001 }
    }

    #[verifier::when_used_as_spec(spec_is_empty)]
    pub fn is_empty(&self) -> (r: bool)
        ensures
            r == self.spec_is_empty(),
    {
        self.bits == 0
    }

    /// Whether the flag is set.
    pub fn contains(&self, flag: StatusFlag) -> (r: bool)
        ensures
            r == self.has(flag),
    {
        self.bits & flag.bit() != 0
    }

    /// Whether the two have a flag in common.
    pub open spec fn spec_intersects(&self, other: &Status) -> bool {
        self.bits() & other.bits() != 0
    }

    #[verifier::when_used_as_spec(spec_intersects)]
    pub fn intersects(&self, other: &Status) -> (r: bool)
        ensures
            r == self.spec_intersects(other),
    {
        self.bits & other.bits != 0
    }

    /// The flags that are set, from the position `from` on, in the order of
    /// their positions.
    pub open spec fn flags_from(&self, from: nat) -> Seq<StatusFlag>
        decreases 15 - from,
    {
        if from >= 15 {
            Seq::empty()
        } else if self.has(StatusFlag::at(from)) {
            seq![StatusFlag::at(from)] + self.flags_from(from + 1)
        } else {
            self.flags_from(from + 1)
        }
    }

    /// The flags that are set, in the order of their positions.
    pub fn flags(&self) -> (r: Vec<StatusFlag>)
        ensures
            r@ == self.flags_from(0),
    {
        let mut out: Vec<StatusFlag> = Vec::new();
        let mut i: u8 = 0;
        while i < 15
            invariant
                i <= 15,
                self.flags_from(0) == out@ + self.flags_from(i as nat),
            decreases 15 - i,
        {
            let flag = StatusFlag::from_position(i);
            let ghost before = out@;
            if self.contains(flag) {
                out.push(flag);
                assert(out@ + self.flags_from((i + 1) as nat) =~= before + (seq![flag]
                    + self.flags_from((i + 1) as nat)));
            }
            i = i + 1;
        }
        assert(out@ + Seq::<StatusFlag>::empty() =~= out@);
        out
    }

    /// The flag that stands for the whole status where only one can be
    /// shown: `Assured`, `SeenReply`, `FixedTimeout` or `Expected`, the first
    /// of these that is set; where none of them is, the set flag with the
    /// lowest bit; `None` for the empty status.
    pub open spec fn preferred(&self) -> Option<StatusFlag> {
        if self.bits() == 0 {
            None
        } else if self.has(StatusFlag::Assured) {
            Some(StatusFlag::Assured)
        } else if self.has(StatusFlag::SeenReply) {
            Some(StatusFlag::SeenReply)
        } else if self.has(StatusFlag::FixedTimeout) {
            Some(StatusFlag::FixedTimeout)
        } else if self.has(StatusFlag::Expected) {
            Some(StatusFlag::Expected)
        } else if self.has(StatusFlag::Confirmed) {
            Some(StatusFlag::Confirmed)
        } else if self.has(StatusFlag::SourceNat) {
            Some(StatusFlag::SourceNat)
        } else if self.has(StatusFlag::DestinationNat) {
            Some(StatusFlag::DestinationNat)
        } else if self.has(StatusFlag::SequenceAdjust) {
            Some(StatusFlag::SequenceAdjust)
        } else if self.has(StatusFlag::SourceNatDone) {
            Some(StatusFlag::SourceNatDone)
        } else if self.has(StatusFlag::DestinationNatDone) {
            Some(StatusFlag::DestinationNatDone)
        } else if self.has(StatusFlag::Dying) {
            Some(StatusFlag::Dying)
        } else if self.has(StatusFlag::Template) {
            Some(StatusFlag::Template)
        } else if self.has(StatusFlag::Untracked) {
            Some(StatusFlag::Untracked)
        } else if self.has(StatusFlag::Helper) {
            Some(StatusFlag::Helper)
        } else {
            Some(StatusFlag::Offload)
        }
    }

    /// The flag that stands for the whole status.
    pub fn preferred_flag(&self) -> (r: Option<StatusFlag>)
        ensures
            r == self.preferred(),
            r matches Some(f) ==> self.has(f),
    {
        proof {
            use_type_invariant(self);
            let b = self.bits;
            assert(b <= 0x7fff && b != 0 && b & 0x0004 == 0 && b & 0x0002 == 0 && b & 0x0400 == 0
                && b & 0x0001 == 0 && b & 0x0008 == 0 && b & 0x0010 == 0 && b & 0x0020 == 0 && b
                & 0x0040 == 0 && b & 0x0080 == 0 && b & 0x0100 == 0 && b & 0x0200 == 0 && b
                & 0x0800 == 0 && b & 0x1000 == 0 && b & 0x2000 == 0 ==> b & 0x4000 != 0)
                by (bit_vector);
        }
        if self.bits == 0 {
            None
        } else if self.contains(StatusFlag::Assured) {
            Some(StatusFlag::Assured)
        } else if self.contains(StatusFlag::SeenReply) {
            Some(StatusFlag::SeenReply)
        } else if self.contains(StatusFlag::FixedTimeout) {
            Some(StatusFlag::FixedTimeout)
        } else if self.contains(StatusFlag::Expected) {
            Some(StatusFlag::Expected)
        } else if self.contains(StatusFlag::Confirmed) {
            Some(StatusFlag::Confirmed)
        } else if self.contains(StatusFlag::SourceNat) {
            Some(StatusFlag::SourceNat)
        } else if self.contains(StatusFlag::DestinationNat) {
            Some(StatusFlag::DestinationNat)
        } else if self.contains(StatusFlag::SequenceAdjust) {
            Some(StatusFlag::SequenceAdjust)
        } else if self.contains(StatusFlag::SourceNatDone) {
            Some(StatusFlag::SourceNatDone)
        } else if self.contains(StatusFlag::DestinationNatDone) {
            Some(StatusFlag::DestinationNatDone)
        } else if self.contains(StatusFlag::Dying) {
            Some(StatusFlag::Dying)
        } else if self.contains(StatusFlag::Template) {
            Some(StatusFlag::Template)
        } else if self.contains(StatusFlag::Untracked) {
            Some(StatusFlag::Untracked)
        } else if self.contains(StatusFlag::Helper) {
            Some(StatusFlag::Helper)
        } else {
            Some(StatusFlag::Offload)
        }
    }

    /// The name of the flag that stands for the whole status; the empty text
    /// for the empty status.
    pub fn preferred_one(&self) -> (r: String)
        ensures
            r@ == match self.preferred() {
                Some(f) => f.spec_name(),
                None => Seq::<char>::empty(),
            },
    {
        match self.preferred_flag() {
            Some(f) => f.name(),
            None => String::new(),
        }
    }
}

impl From<u16> for Status {
    fn from(value: u16) -> (r: Status) {
        Status::from_u16(value)
    }
}

impl vstd::std_specs::convert::FromSpecImpl<u16> for Status {
    open spec fn obeys_from_spec() -> bool {
        true
    }

    open spec fn from_spec(value: u16) -> Status {
        Status::of_bits(value)
    }
}

/// Every flag stands at its position, and its bit is the power of two of
/// that position.
pub proof fn law_flag_positions(f: StatusFlag)
    ensures
        f.position() <= 14,
        StatusFlag::at(f.position()) == f,
        f.spec_bit() as nat == vstd::arithmetic::power2::pow2(f.position()),
        f.spec_bit() & STATUS_MASK == f.spec_bit(),
{
    vstd::arithmetic::power2::lemma2_to64();
    let b = f.spec_bit();
    assert(b == 0x0001 || b == 0x0002 || b == 0x0004 || b == 0x0008 || b == 0x0010 || b == 0x0020
        || b == 0x0040 || b == 0x0080 || b == 0x0100 || b == 0x0200 || b == 0x0400 || b == 0x0800
        || b == 0x1000 || b == 0x2000 || b == 0x4000 ==> b & 0x7fff == b) by (bit_vector);
}

/// A word that holds flags only goes into a status and comes out of it
/// unchanged; of any other word the one bit that is no flag is lost.
pub proof fn law_status_round_trip(v: u16)
    ensures
        Status::of_bits(v).bits() == v & STATUS_MASK,
        v <= STATUS_MASK ==> Status::of_bits(v).bits() == v,
        Status::of_bits(v).bits() <= STATUS_MASK,
        Status::of_bits(Status::of_bits(v).bits()) == Status::of_bits(v),
{
    assert(v <= 0x7fff ==> v & 0x7fff == v) by (bit_vector);
    assert(v & 0x7fff <= 0x7fff) by (bit_vector);
    assert((v & 0x7fff) & 0x7fff == v & 0x7fff) by (bit_vector);
}

/// One direction of a connection: where its packets come from and go to.
#[derive(Debug, Clone, Copy, PartialEq, Eq, Structural)]
pub struct Tuple {
    pub src_addr: IpAddress,
    pub dst_addr: IpAddress,
    pub src_port: u16,
    pub dst_port: u16,
}

/// One tracked connection.
#[derive(Debug, Clone, Copy, PartialEq, Eq)]
pub struct Flow {
    pub event_type: MessageType,
    pub original: Tuple,
    pub reply: Tuple,
    pub protocol: Protocol,
    pub mark: u32,
    pub use_count: u32,
    pub tcp_state: Option<TcpState>,
    pub status: Status,
    pub timeout: u32,
}

impl Flow {
    /// Whether the four addresses of the flow are of one family.
    pub open spec fn one_family(&self) -> bool {
        &&& self.original.src_addr.spec_is_ipv4() == self.original.dst_addr.spec_is_ipv4()
        &&& self.original.src_addr.spec_is_ipv4() == self.reply.src_addr.spec_is_ipv4()
        &&& self.original.src_addr.spec_is_ipv4() == self.reply.dst_addr.spec_is_ipv4()
    }

    /// Whether the flow has a TCP state exactly if it is a TCP flow.
    pub open spec fn tcp_state_fits(&self) -> bool {
        self.tcp_state is Some <==> self.protocol == Protocol::Tcp
    }

    /// What holds of every flow that the library makes: its addresses are
    /// of one family, it has a TCP state exactly if it is a TCP flow, and
    /// its status holds flags only.
    pub open spec fn wf(&self) -> bool {
        &&& self.one_family()
        &&& self.tcp_state_fits()
        &&& self.status.bits() <= STATUS_MASK
    }
}

/// The number of the attribute that carries the use count.
pub const ATTR_USE: u16 = 11;

/// The number of the attribute that carries the id of the connection.
pub const ATTR_ID: u16 = 12;

/// A tuple in the making: each part is there once it was given.
#[derive(Debug, Clone, Copy, PartialEq, Eq)]
pub struct TupleBuilder {
    pub src_addr: Option<IpAddress>,
    pub dst_addr: Option<IpAddress>,
    pub src_port: Option<u16>,
    pub dst_port: Option<u16>,
}

impl TupleBuilder {
    /// The builder to which nothing was given.
    pub open spec fn empty() -> TupleBuilder {
        TupleBuilder { src_addr: None, dst_addr: None, src_port: None, dst_port: None }
    }

    pub fn src_addr(self, addr: IpAddress) -> (r: TupleBuilder)
        ensures
            r == (TupleBuilder { src_addr: Some(addr), ..self }),
    {
        TupleBuilder { src_addr: Some(addr), ..self }
    }

    pub fn dst_addr(self, addr: IpAddress) -> (r: TupleBuilder)
        ensures
            r == (TupleBuilder { dst_addr: Some(addr), ..self }),
    {
        TupleBuilder { dst_addr: Some(addr), ..self }
    }

    pub fn src_port(self, port: u16) -> (r: TupleBuilder)
        ensures
            r == (TupleBuilder { src_port: Some(port), ..self }),
    {
        TupleBuilder { src_port: Some(port), ..self }
    }

    pub fn dst_port(self, port: u16) -> (r: TupleBuilder)
        ensures
            r == (TupleBuilder { dst_port: Some(port), ..self }),
    {
        TupleBuilder { dst_port: Some(port), ..self }
    }

    /// The tuple of the four parts, or the name of the first part that is
    /// missing, in the order source address, destination address, source
    /// port, destination port.
    pub open spec fn built(&self) -> Result<Tuple, FlowErrorView> {
        if self.src_addr is None {
            Err(FlowErrorView::MissingField("src_addr"@))
        } else if self.dst_addr is None {
            Err(FlowErrorView::MissingField("dst_addr"@))
        } else if self.src_port is None {
            Err(FlowErrorView::MissingField("src_port"@))
        } else if self.dst_port is None {
            Err(FlowErrorView::MissingField("dst_port"@))
        } else {
            Ok(
                Tuple {
                    src_addr: self.src_addr->0,
                    dst_addr: self.dst_addr->0,
                    src_port: self.src_port->0,
                    dst_port: self.dst_port->0,
                },
            )
        }
    }

    /// The tuple of the four parts; it fails where one is missing.
    pub fn build(&self) -> (r: Result<Tuple, FlowError>)
        ensures
            agrees(r, self.built()),
    {
        let src_addr = match self.src_addr {
            Some(v) => v,
            None => {
                return Err(FlowError::MissingField("src_addr".to_owned()));
            },
        };
        let dst_addr = match self.dst_addr {
            Some(v) => v,
            None => {
                return Err(FlowError::MissingField("dst_addr".to_owned()));
            },
        };
        let src_port = match self.src_port {
            Some(v) => v,
            None => {
                return Err(FlowError::MissingField("src_port".to_owned()));
            },
        };
        let dst_port = match self.dst_port {
            Some(v) => v,
            None => {
                return Err(FlowError::MissingField("dst_port".to_owned()));
            },
        };
        Ok(Tuple { src_addr, dst_addr, src_port, dst_port })
    }

    /// The builder after one attribute of an address group.
    pub open spec fn with_ip(self, a: IpAttr) -> TupleBuilder {
        match a {
            IpAttr::Src(addr) => TupleBuilder { src_addr: Some(addr), ..self },
            IpAttr::Dst(addr) => TupleBuilder { dst_addr: Some(addr), ..self },
            IpAttr::Other => self,
        }
    }

    /// The builder after the attributes of an address group, taken in their
    /// order.
    pub open spec fn with_ips(self, s: Seq<IpAttr>) -> TupleBuilder
        decreases s.len(),
    {
        if s.len() == 0 {
            self
        } else {
            self.with_ip(s[0]).with_ips(s.skip(1))
        }
    }

    /// The builder after one attribute of a protocol group; the protocol
    /// number is no part of a tuple.
    pub open spec fn with_proto(self, a: ProtoAttr) -> TupleBuilder {
        match a {
            ProtoAttr::SrcPort(p) => TupleBuilder { src_port: Some(p), ..self },
            ProtoAttr::DstPort(p) => TupleBuilder { dst_port: Some(p), ..self },
            _ => self,
        }
    }

    /// The builder after the attributes of a protocol group, taken in their
    /// order.
    pub open spec fn with_protos(self, s: Seq<ProtoAttr>) -> TupleBuilder
        decreases s.len(),
    {
        if s.len() == 0 {
            self
        } else {
            self.with_proto(s[0]).with_protos(s.skip(1))
        }
    }

    /// The builder after one group of a tuple.
    pub open spec fn with_group(self, g: TupleAttrView) -> TupleBuilder {
        match g {
            TupleAttrView::Ip(s) => self.with_ips(s),
            TupleAttrView::Proto(s) => self.with_protos(s),
            TupleAttrView::Other => self,
        }
    }

    /// The builder after the groups of a tuple, taken in their order: of
    /// each part the value given last stands.
    pub open spec fn with_groups(self, s: Seq<TupleAttrView>) -> TupleBuilder
        decreases s.len(),
    {
        if s.len() == 0 {
            self
        } else {
            self.with_group(s[0]).with_groups(s.skip(1))
        }
    }

    fn absorb_ips(self, v: &Vec<IpAttr>) -> (r: TupleBuilder)
        ensures
            r == self.with_ips(v@),
    {
        let mut b = self;
        let mut i: usize = 0;
        assert(v@.skip(0) =~= v@);
        while i < v.len()
            invariant
                i <= v.len(),
                self.with_ips(v@) == b.with_ips(v@.skip(i as int)),
            decreases v.len() - i,
        {
            assert(v@.skip(i as int).skip(1) =~= v@.skip(i + 1));
            b = match v[i] {
                IpAttr::Src(addr) => b.src_addr(addr),
                IpAttr::Dst(addr) => b.dst_addr(addr),
                IpAttr::Other => b,
            };
            i = i + 1;
        }
        b
    }

    fn absorb_protos(self, v: &Vec<ProtoAttr>) -> (r: TupleBuilder)
        ensures
            r == self.with_protos(v@),
    {
        let mut b = self;
        let mut i: usize = 0;
        assert(v@.skip(0) =~= v@);
        while i < v.len()
            invariant
                i <= v.len(),
                self.with_protos(v@) == b.with_protos(v@.skip(i as int)),
            decreases v.len() - i,
        {
            assert(v@.skip(i as int).skip(1) =~= v@.skip(i + 1));
            b = match v[i] {
                ProtoAttr::SrcPort(p) => b.src_port(p),
                ProtoAttr::DstPort(p) => b.dst_port(p),
                _ => b,
            };
            i = i + 1;
        }
        b
    }

    /// The builder to which the groups of a tuple were given.
    pub fn from_groups(v: &Vec<TupleAttr>) -> (r: TupleBuilder)
        ensures
            r == TupleBuilder::empty().with_groups(tuple_views(v@)),
    {
        let mut b = TupleBuilder { src_addr: None, dst_addr: None, src_port: None, dst_port: None };
        let ghost s = tuple_views(v@);
        let mut i: usize = 0;
        assert(s.skip(0) =~= s);
        while i < v.len()
            invariant
                i <= v.len(),
                s == tuple_views(v@),
                TupleBuilder::empty().with_groups(s) == b.with_groups(s.skip(i as int)),
            decreases v.len() - i,
        {
            assert(s.skip(i as int).skip(1) =~= s.skip(i + 1));
            assert(s.skip(i as int)[0] == v@[i as int]@);
            b = match &v[i] {
                TupleAttr::Ip(ips) => b.absorb_ips(ips),
                TupleAttr::Proto(ps) => b.absorb_protos(ps),
                TupleAttr::Other => b,
            };
            i = i + 1;
        }
        b
    }
}

impl Default for TupleBuilder {
    fn default() -> (r: TupleBuilder)
        ensures
            r == TupleBuilder::empty(),
    {
        TupleBuilder { src_addr: None, dst_addr: None, src_port: None, dst_port: None }
    }
}

/// The protocol number after the attributes of a protocol group: the one
/// given last, or `n` where the group gives none.
pub open spec fn number_after(n: Option<u8>, s: Seq<ProtoAttr>) -> Option<u8>
    decreases s.len(),
{
    if s.len() == 0 {
        n
    } else {
        number_after(
            match s[0] {
                ProtoAttr::Number(v) => Some(v),
                _ => n,
            },
            s.skip(1),
        )
    }
}

/// The protocol number after the groups of a tuple.
pub open spec fn number_after_groups(n: Option<u8>, s: Seq<TupleAttrView>) -> Option<u8>
    decreases s.len(),
{
    if s.len() == 0 {
        n
    } else {
        number_after_groups(
            match s[0] {
                TupleAttrView::Proto(ps) => number_after(n, ps),
                _ => n,
            },
            s.skip(1),
        )
    }
}

fn protocol_number_in(n: Option<u8>, v: &Vec<ProtoAttr>) -> (r: Option<u8>)
    ensures
        r == number_after(n, v@),
{
    let mut cur = n;
    let mut i: usize = 0;
    assert(v@.skip(0) =~= v@);
    while i < v.len()
        invariant
            i <= v.len(),
            number_after(n, v@) == number_after(cur, v@.skip(i as int)),
        decreases v.len() - i,
    {
        assert(v@.skip(i as int).skip(1) =~= v@.skip(i + 1));
        cur = match v[i] {
            ProtoAttr::Number(x) => Some(x),
            _ => cur,
        };
        i = i + 1;
    }
    cur
}

/// The protocol number that the groups of a tuple give, if any: the one
/// given last.
pub fn protocol_number(v: &Vec<TupleAttr>) -> (r: Option<u8>)
    ensures
        r == number_after_groups(None, tuple_views(v@)),
{
    let mut cur: Option<u8> = None;
    let ghost s = tuple_views(v@);
    let mut i: usize = 0;
    assert(s.skip(0) =~= s);
    while i < v.len()
        invariant
            i <= v.len(),
            s == tuple_views(v@),
            number_after_groups(None, s) == number_after_groups(cur, s.skip(i as int)),
        decreases v.len() - i,
    {
        assert(s.skip(i as int).skip(1) =~= s.skip(i + 1));
        assert(s.skip(i as int)[0] == v@[i as int]@);
        cur = match &v[i] {
            TupleAttr::Proto(ps) => protocol_number_in(cur, ps),
            _ => cur,
        };
        i = i + 1;
    }
    cur
}

/// The TCP state after the attributes of the TCP part of the protocol
/// information: the state given last, or the error of the first state byte
/// that is no state.
pub open spec fn state_after(st: Option<TcpState>, s: Seq<TcpAttr>) -> Result<
    Option<TcpState>,
    FlowErrorView,
>
    decreases s.len(),
{
    if s.len() == 0 {
        Ok(st)
    } else {
        match s[0] {
            TcpAttr::State(n) => match TcpState::decoded(n) {
                Ok(t) => state_after(Some(t), s.skip(1)),
                Err(e) => Err(e),
            },
            TcpAttr::Other => state_after(st, s.skip(1)),
        }
    }
}

/// The TCP state after the groups of the protocol information.
pub open spec fn state_after_groups(st: Option<TcpState>, s: Seq<ProtoInfoAttrView>) -> Result<
    Option<TcpState>,
    FlowErrorView,
>
    decreases s.len(),
{
    if s.len() == 0 {
        Ok(st)
    } else {
        match s[0] {
            ProtoInfoAttrView::Tcp(ts) => match state_after(st, ts) {
                Ok(t) => state_after_groups(t, s.skip(1)),
                Err(e) => Err(e),
            },
            ProtoInfoAttrView::Other => state_after_groups(st, s.skip(1)),
        }
    }
}

fn tcp_state_in(st: Option<TcpState>, v: &Vec<TcpAttr>) -> (r: Result<Option<TcpState>, FlowError>)
    ensures
        agrees(r, state_after(st, v@)),
{
    let mut cur = st;
    let mut i: usize = 0;
    assert(v@.skip(0) =~= v@);
    while i < v.len()
        invariant
            i <= v.len(),
            state_after(st, v@) == state_after(cur, v@.skip(i as int)),
        decreases v.len() - i,
    {
        assert(v@.skip(i as int).skip(1) =~= v@.skip(i + 1));
        match v[i] {
            TcpAttr::State(n) => {
                match TcpState::from_number(n) {
                    Ok(t) => {
                        cur = Some(t);
                    },
                    Err(e) => {
                        return Err(e);
                    },
                }
            },
            TcpAttr::Other => {},
        }
        i = i + 1;
    }
    Ok(cur)
}

/// The TCP state that the protocol information gives, starting from `st`.
pub fn tcp_state_of(st: Option<TcpState>, v: &Vec<ProtoInfoAttr>) -> (r: Result<
    Option<TcpState>,
    FlowError,
>)
    ensures
        agrees(r, state_after_groups(st, proto_info_views(v@))),
{
    let mut cur = st;
    let ghost s = proto_info_views(v@);
    let mut i: usize = 0;
    assert(s.skip(0) =~= s);
    while i < v.len()
        invariant
            i <= v.len(),
            s == proto_info_views(v@),
            state_after_groups(st, s) == state_after_groups(cur, s.skip(i as int)),
        decreases v.len() - i,
    {
        assert(s.skip(i as int).skip(1) =~= s.skip(i + 1));
        assert(s.skip(i as int)[0] == v@[i as int]@);
        match &v[i] {
            ProtoInfoAttr::Tcp(ts) => {
                match tcp_state_in(cur, ts) {
                    Ok(t) => {
                        cur = t;
                    },
                    Err(e) => {
                        return Err(e);
                    },
                }
            },
            ProtoInfoAttr::Other => {},
        }
        i = i + 1;
    }
    Ok(cur)
}

/// A flow in the making: each field is there once it was given.
#[derive(Debug, Clone, Copy, PartialEq, Eq)]
pub struct FlowBuilder {
    pub event_type: Option<MessageType>,
    pub original: Option<Tuple>,
    pub reply: Option<Tuple>,
    pub protocol: Option<Protocol>,
    pub mark: Option<u32>,
    pub use_count: Option<u32>,
    pub tcp_state: Option<TcpState>,
    pub status: Option<Status>,
    pub timeout: Option<u32>,
}

impl FlowBuilder {
    /// The builder to which nothing was given.
    pub open spec fn empty() -> FlowBuilder {
        FlowBuilder {
            event_type: None,
            original: None,
            reply: None,
            protocol: None,
            mark: None,
            use_count: None,
            tcp_state: None,
            status: None,
            timeout: None,
        }
    }

    pub fn event_type(self, t: MessageType) -> (r: FlowBuilder)
        ensures
            r == (FlowBuilder { event_type: Some(t), ..self }),
    {
        FlowBuilder { event_type: Some(t), ..self }
    }

    pub fn original(self, tuple: Tuple) -> (r: FlowBuilder)
        ensures
            r == (FlowBuilder { original: Some(tuple), ..self }),
    {
        FlowBuilder { original: Some(tuple), ..self }
    }

    pub fn reply(self, tuple: Tuple) -> (r: FlowBuilder)
        ensures
            r == (FlowBuilder { reply: Some(tuple), ..self }),
    {
        FlowBuilder { reply: Some(tuple), ..self }
    }

    pub fn protocol(self, proto: Protocol) -> (r: FlowBuilder)
        ensures
            r == (FlowBuilder { protocol: Some(proto), ..self }),
    {
        FlowBuilder { protocol: Some(proto), ..self }
    }

    pub fn mark(self, v: u32) -> (r: FlowBuilder)
        ensures
            r == (FlowBuilder { mark: Some(v), ..self }),
    {
        FlowBuilder { mark: Some(v), ..self }
    }

    pub fn use_count(self, v: u32) -> (r: FlowBuilder)
        ensures
            r == (FlowBuilder { use_count: Some(v), ..self }),
    {
        FlowBuilder { use_count: Some(v), ..self }
    }

    pub fn tcp_state(self, state: TcpState) -> (r: FlowBuilder)
        ensures
            r == (FlowBuilder { tcp_state: Some(state), ..self }),
    {
        FlowBuilder { tcp_state: Some(state), ..self }
    }

    pub fn status(self, s: Status) -> (r: FlowBuilder)
        ensures
            r == (FlowBuilder { status: Some(s), ..self }),
    {
        FlowBuilder { status: Some(s), ..self }
    }

    pub fn timeout(self, t: u32) -> (r: FlowBuilder)
        ensures
            r == (FlowBuilder { timeout: Some(t), ..self }),
    {
        FlowBuilder { timeout: Some(t), ..self }
    }

    /// The name of the first field that the flow must have and that was not
    /// given, in the order original, reply, protocol, mark, use, TCP state,
    /// status, timeout, event type. Only a TCP flow must have a TCP state.
    pub open spec fn missing(&self) -> Option<Seq<char>> {
        if self.original is None {
            Some("original"@)
        } else if self.reply is None {
            Some("reply"@)
        } else if self.protocol is None {
            Some("protocol"@)
        } else if self.mark is None {
            Some("mark"@)
        } else if self.use_count is None {
            Some("use"@)
        } else if self.protocol == Some(Protocol::Tcp) && self.tcp_state is None {
            Some("tcp_state"@)
        } else if self.status is None {
            Some("status"@)
        } else if self.timeout is None {
            Some("timeout"@)
        } else if self.event_type is None {
            Some("event_type"@)
        } else {
            None
        }
    }

    /// The flow of the fields, where none is missing. A TCP state that was
    /// given stays with a TCP flow only.
    pub open spec fn assembled(&self) -> Flow {
        Flow {
            event_type: self.event_type->0,
            original: self.original->0,
            reply: self.reply->0,
            protocol: self.protocol->0,
            mark: self.mark->0,
            use_count: self.use_count->0,
            tcp_state: if self.protocol->0 == Protocol::Tcp {
                self.tcp_state
            } else {
                None
            },
            status: self.status->0,
            timeout: self.timeout->0,
        }
    }

    /// The flow of the fields; or the error that names the first missing
    /// field; or, where none is missing, the error for addresses that are
    /// not of one family.
    pub open spec fn built(&self) -> Result<Flow, FlowErrorView> {
        match self.missing() {
            Some(name) => Err(FlowErrorView::MissingField(name)),
            None => if self.assembled().one_family() {
                Ok(self.assembled())
            } else {
                Err(FlowErrorView::AddressFamilyMismatch)
            },
        }
    }

    /// The flow of the fields. It fails where a field that the flow must
    /// have is missing, and where the four addresses are not of one family:
    /// every flow that is built is well formed.
    pub fn build(&self) -> (r: Result<Flow, FlowError>)
        ensures
            agrees(r, self.built()),
            r matches Ok(f) ==> f.wf(),
    {
        let original = match self.original {
            Some(v) => v,
            None => {
                return Err(FlowError::MissingField("original".to_owned()));
            },
        };
        let reply = match self.reply {
            Some(v) => v,
            None => {
                return Err(FlowError::MissingField("reply".to_owned()));
            },
        };
        let protocol = match self.protocol {
            Some(v) => v,
            None => {
                return Err(FlowError::MissingField("protocol".to_owned()));
            },
        };
        let mark = match self.mark {
            Some(v) => v,
            None => {
                return Err(FlowError::MissingField("mark".to_owned()));
            },
        };
        let use_count = match self.use_count {
            Some(v) => v,
            None => {
                return Err(FlowError::MissingField("use".to_owned()));
            },
        };
        let tcp_state = match protocol {
            Protocol::Tcp => match self.tcp_state {
                Some(v) => Some(v),
                None => {
                    return Err(FlowError::MissingField("tcp_state".to_owned()));
                },
            },
            _ => None,
        };
        let status = match self.status {
            Some(v) => v,
            None => {
                return Err(FlowError::MissingField("status".to_owned()));
            },
        };
        let timeout = match self.timeout {
            Some(v) => v,
            None => {
                return Err(FlowError::MissingField("timeout".to_owned()));
            },
        };
        let event_type = match self.event_type {
            Some(v) => v,
            None => {
                return Err(FlowError::MissingField("event_type".to_owned()));
            },
        };
        let v4 = original.src_addr.is_ipv4();
        if original.dst_addr.is_ipv4() != v4 || reply.src_addr.is_ipv4() != v4
            || reply.dst_addr.is_ipv4() != v4 {
            return Err(FlowError::AddressFamilyMismatch);
        }
        proof {
            use_type_invariant(&status);
        }
        Ok(
            Flow {
                event_type,
                original,
                reply,
                protocol,
                mark,
                use_count,
                tcp_state,
                status,
                timeout,
            },
        )
    }

    /// The builder after one attribute of a message:
    /// - the original tuple, which must be complete;
    /// - the reply tuple, which must be complete, and with it the protocol
    ///   whose number its protocol group gives;
    /// - the TCP state of the protocol information, which must be one of the
    ///   ten states;
    /// - status, timeout and mark;
    /// - the use count, an attribute of number 11 with a value of four bytes.
    /// Every other attribute, the id among them, leaves the builder as it is.
    pub open spec fn with_attr(self, a: CtAttrView) -> Result<FlowBuilder, FlowErrorView> {
        match a {
            CtAttrView::TupleOrig(groups) => match TupleBuilder::empty().with_groups(
                groups,
            ).built() {
                Ok(t) => Ok(FlowBuilder { original: Some(t), ..self }),
                Err(e) => Err(e),
            },
            CtAttrView::TupleReply(groups) => match TupleBuilder::empty().with_groups(
                groups,
            ).built() {
                Ok(t) => Ok(
                    FlowBuilder {
                        reply: Some(t),
                        protocol: match number_after_groups(None, groups) {
                            Some(n) => Some(Protocol::of_number(n)),
                            None => self.protocol,
                        },
                        ..self
                    },
                ),
                Err(e) => Err(e),
            },
            CtAttrView::ProtoInfo(groups) => match state_after_groups(self.tcp_state, groups) {
                Ok(st) => Ok(FlowBuilder { tcp_state: st, ..self }),
                Err(e) => Err(e),
            },
            CtAttrView::Status(v) => Ok(FlowBuilder { status: Some(Status::of_wide(v)), ..self }),
            CtAttrView::Timeout(v) => Ok(FlowBuilder { timeout: Some(v), ..self }),
            CtAttrView::Mark(v) => Ok(FlowBuilder { mark: Some(v), ..self }),
            CtAttrView::Other(raw) => if raw.number() == ATTR_USE && raw.number_value() is Some {
                Ok(FlowBuilder { use_count: raw.number_value(), ..self })
            } else {
                Ok(self)
            },
        }
    }

    /// The builder after the attributes of a message, taken in their order,
    /// or the error of the first attribute that cannot be taken.
    pub open spec fn with_attrs(self, s: Seq<CtAttrView>) -> Result<FlowBuilder, FlowErrorView>
        decreases s.len(),
    {
        if s.len() == 0 {
            Ok(self)
        } else {
            match self.with_attr(s[0]) {
                Ok(b) => b.with_attrs(s.skip(1)),
                Err(e) => Err(e),
            }
        }
    }

    /// The builder after one attribute of a message.
    pub fn absorb(self, attr: &CtAttr) -> (r: Result<FlowBuilder, FlowError>)
        ensures
            agrees(r, self.with_attr(attr@)),
    {
        match attr {
            CtAttr::TupleOrig(groups) => {
                match TupleBuilder::from_groups(groups).build() {
                    Ok(t) => Ok(self.original(t)),
                    Err(e) => Err(e),
                }
            },
            CtAttr::TupleReply(groups) => {
                match TupleBuilder::from_groups(groups).build() {
                    Ok(t) => {
                        let b = match protocol_number(groups) {
                            Some(n) => self.protocol(Protocol::from(n)),
                            None => self,
                        };
                        Ok(b.reply(t))
                    },
                    Err(e) => Err(e),
                }
            },
            CtAttr::ProtoInfo(groups) => {
                match tcp_state_of(self.tcp_state, groups) {
                    Ok(st) => Ok(FlowBuilder { tcp_state: st, ..self }),
                    Err(e) => Err(e),
                }
            },
            CtAttr::Status(v) => Ok(self.status(Status::from_u32(*v))),
            CtAttr::Timeout(v) => Ok(self.timeout(*v)),
            CtAttr::Mark(v) => Ok(self.mark(*v)),
            CtAttr::Other(raw) => {
                if raw.number() == ATTR_USE {
                    match raw.number_value() {
                        Some(v) => Ok(self.use_count(v)),
                        None => Ok(self),
                    }
                } else {
                    Ok(self)
                }
            },
        }
    }

    /// The builder to which the attributes of a message were given.
    pub fn from_attrs(attrs: &Vec<CtAttr>) -> (r: Result<FlowBuilder, FlowError>)
        ensures
            agrees(r, FlowBuilder::empty().with_attrs(attr_views(attrs@))),
    {
        let mut b = FlowBuilder {
            event_type: None,
            original: None,
            reply: None,
            protocol: None,
            mark: None,
            use_count: None,
            tcp_state: None,
            status: None,
            timeout: None,
        };
        let ghost s = attr_views(attrs@);
        let mut i: usize = 0;
        assert(s.skip(0) =~= s);
        while i < attrs.len()
            invariant
                i <= attrs.len(),
                s == attr_views(attrs@),
                FlowBuilder::empty().with_attrs(s) == b.with_attrs(s.skip(i as int)),
            decreases attrs.len() - i,
        {
            assert(s.skip(i as int).skip(1) =~= s.skip(i + 1));
            assert(s.skip(i as int)[0] == attrs@[i as int]@);
            match b.absorb(&attrs[i]) {
                Ok(next) => {
                    b = next;
                },
                Err(e) => {
                    return Err(e);
                },
            }
            i = i + 1;
        }
        Ok(b)
    }
}

impl Default for FlowBuilder {
    fn default() -> (r: FlowBuilder)
        ensures
            r == FlowBuilder::empty(),
    {
        FlowBuilder {
            event_type: None,
            original: None,
            reply: None,
            protocol: None,
            mark: None,
            use_count: None,
            tcp_state: None,
            status: None,
            timeout: None,
        }
    }
}

impl Flow {
    /// The flow that the attributes of a message describe, as an event of
    /// the given kind.
    pub open spec fn decoded(attrs: Seq<CtAttrView>, event_type: MessageType) -> Result<
        Flow,
        FlowErrorView,
    > {
        match FlowBuilder::empty().with_attrs(attrs) {
            Ok(b) => (FlowBuilder { event_type: Some(event_type), ..b }).built(),
            Err(e) => Err(e),
        }
    }

    /// The flow that the attributes of a message describe. A message that
    /// gives no TCP state for a TCP flow, or addresses of two families, is
    /// refused: every flow that is decoded is well formed.
    pub fn decode(attrs: &Vec<CtAttr>, event_type: MessageType) -> (r: Result<Flow, FlowError>)
        ensures
            agrees(r, Flow::decoded(attr_views(attrs@), event_type)),
            r matches Ok(f) ==> f.event_type == event_type && f.wf(),
    {
        match FlowBuilder::from_attrs(attrs) {
            Ok(b) => b.event_type(event_type).build(),
            Err(e) => Err(e),
        }
    }
}

/// The groups that describe a tuple in a message: the address group with
/// source and destination first, the protocol group with number, source
/// port and destination port second.
pub open spec fn tuple_groups(protocol: Protocol, tuple: Tuple) -> Seq<TupleAttrView> {
    seq![
        TupleAttrView::Ip(seq![IpAttr::Src(tuple.src_addr), IpAttr::Dst(tuple.dst_addr)]),
        TupleAttrView::Proto(
            seq![
                ProtoAttr::Number(protocol.spec_number()),
                ProtoAttr::SrcPort(tuple.src_port),
                ProtoAttr::DstPort(tuple.dst_port),
            ],
        ),
    ]
}

pub(crate) fn groups_of(protocol: Protocol, tuple: &Tuple) -> (r: Vec<TupleAttr>)
    ensures
        tuple_views(r@) == tuple_groups(protocol, *tuple),
{
    let mut ips: Vec<IpAttr> = Vec::new();
    ips.push(IpAttr::Src(tuple.src_addr));
    ips.push(IpAttr::Dst(tuple.dst_addr));
    assert(ips@ =~= seq![IpAttr::Src(tuple.src_addr), IpAttr::Dst(tuple.dst_addr)]);
    let mut protos: Vec<ProtoAttr> = Vec::new();
    protos.push(ProtoAttr::Number(protocol.number()));
    protos.push(ProtoAttr::SrcPort(tuple.src_port));
    protos.push(ProtoAttr::DstPort(tuple.dst_port));
    assert(protos@ =~= seq![
        ProtoAttr::Number(protocol.spec_number()),
        ProtoAttr::SrcPort(tuple.src_port),
        ProtoAttr::DstPort(tuple.dst_port),
    ]);
    let mut groups: Vec<TupleAttr> = Vec::new();
    groups.push(TupleAttr::Ip(ips));
    groups.push(TupleAttr::Proto(protos));
    assert(tuple_views(groups@) =~= tuple_groups(protocol, *tuple));
    groups
}

impl Flow {
    /// The protocol information of the flow in a message: the state of a TCP
    /// flow, and one group without content for any other flow.
    pub open spec fn spec_proto_info(&self) -> Seq<ProtoInfoAttrView> {
        match (self.protocol, self.tcp_state) {
            (Protocol::Tcp, Some(st)) => seq![
                ProtoInfoAttrView::Tcp(seq![TcpAttr::State(st.spec_number())]),
            ],
            _ => seq![ProtoInfoAttrView::Other],
        }
    }

    /// The attributes of a message that describes the flow: the two tuples,
    /// the protocol information, mark, use count, timeout, status, and an id
    /// of zero.
    pub open spec fn spec_attrs(&self) -> Seq<CtAttrView> {
        seq![
            CtAttrView::TupleOrig(tuple_groups(self.protocol, self.original)),
            CtAttrView::TupleReply(tuple_groups(self.protocol, self.reply)),
            CtAttrView::ProtoInfo(self.spec_proto_info()),
            CtAttrView::Mark(self.mark),
            CtAttrView::Other(RawAttrView { kind: ATTR_USE, value: be32_bytes(self.use_count) }),
            CtAttrView::Timeout(self.timeout),
            CtAttrView::Status(self.status.bits() as u32),
            CtAttrView::Other(RawAttrView { kind: ATTR_ID, value: be32_bytes(0) }),
        ]
    }

    /// A message that describes the flow, as the kernel would send it for a
    /// new or changed flow. A TCP flow without a state has no such message:
    /// its state is named as missing.
    pub fn to_message(&self) -> (r: Result<CtMessage, FlowError>)
        ensures
            match r {
                Ok(m) => !(self.protocol == Protocol::Tcp && self.tcp_state is None) && m@
                    == CtMessageView::New(self.spec_attrs()),
                Err(e) => self.protocol == Protocol::Tcp && self.tcp_state is None && e@
                    == FlowErrorView::MissingField("tcp_state"@),
            },
    {
        let mut infos: Vec<ProtoInfoAttr> = Vec::new();
        match self.protocol {
            Protocol::Tcp => {
                match self.tcp_state {
                    Some(st) => {
                        let mut tcp: Vec<TcpAttr> = Vec::new();
                        tcp.push(TcpAttr::State(st.number()));
                        assert(tcp@ =~= seq![TcpAttr::State(st.spec_number())]);
                        infos.push(ProtoInfoAttr::Tcp(tcp));
                    },
                    None => {
                        return Err(FlowError::MissingField("tcp_state".to_owned()));
                    },
                }
            },
            _ => {
                infos.push(ProtoInfoAttr::Other);
            },
        }
        assert(proto_info_views(infos@) =~= self.spec_proto_info());
        let mut nlas: Vec<CtAttr> = Vec::new();
        nlas.push(CtAttr::TupleOrig(groups_of(self.protocol, &self.original)));
        nlas.push(CtAttr::TupleReply(groups_of(self.protocol, &self.reply)));
        nlas.push(CtAttr::ProtoInfo(infos));
        nlas.push(CtAttr::Mark(self.mark));
        nlas.push(CtAttr::Other(RawAttr::of_u32(ATTR_USE, self.use_count)));
        nlas.push(CtAttr::Timeout(self.timeout));
        let bits: u16 = self.status.to_u16();
        nlas.push(CtAttr::Status(bits as u32));
        nlas.push(CtAttr::Other(RawAttr::of_u32(ATTR_ID, 0)));
        assert(attr_views(nlas@) =~= self.spec_attrs());
        Ok(CtMessage::New(nlas))
    }

    /// Whether the message of the flow gives the flow back: the flow is well
    /// formed, and its protocol is the one that its number stands for.
    pub open spec fn round_trips(&self) -> bool {
        &&& self.one_family()
        &&& self.tcp_state_fits()
        &&& self.protocol == Protocol::of_number(self.protocol.spec_number())
        &&& self.status.bits() <= STATUS_MASK
    }
}

/// Decoding the message of a flow gives the flow back, as an event of the
/// kind that is asked for.
pub proof fn law_message_round_trip(f: Flow, event_type: MessageType)
    requires
        f.round_trips(),
    ensures
        Flow::decoded(f.spec_attrs(), event_type) == Ok::<Flow, FlowErrorView>(
            Flow { event_type, ..f },
        ),
{
    let s = f.spec_attrs();
    law_tuple_groups(f.protocol, f.original);
    law_tuple_groups(f.protocol, f.reply);
    crate::attr::law_be32_round_trip(f.use_count);
    let bits = f.status.bits();
    assert(bits <= 0x7fff ==> ((bits as u32) & 0x7fff) as u16 == bits) by (bit_vector);
    assert(Status::of_wide(bits as u32) == f.status);
    assert(ATTR_USE & crate::attr::KIND_MASK == ATTR_USE) by (bit_vector);
    assert(ATTR_ID & crate::attr::KIND_MASK == ATTR_ID) by (bit_vector);
    let b0 = FlowBuilder::empty();
    let b1 = FlowBuilder { original: Some(f.original), ..b0 };
    assert(b0.with_attr(s[0]) == Ok::<FlowBuilder, FlowErrorView>(b1));
    let b2 = FlowBuilder { reply: Some(f.reply), protocol: Some(f.protocol), ..b1 };
    assert(b1.with_attr(s[1]) == Ok::<FlowBuilder, FlowErrorView>(b2));
    let b3 = FlowBuilder { tcp_state: f.tcp_state, ..b2 };
    assert(b2.with_attr(s[2]) == Ok::<FlowBuilder, FlowErrorView>(b3)) by {
        let groups = f.spec_proto_info();
        assert(groups.skip(1) =~= Seq::<ProtoInfoAttrView>::empty());
        match (f.protocol, f.tcp_state) {
            (Protocol::Tcp, Some(st)) => {
                let ts = seq![TcpAttr::State(st.spec_number())];
                assert(ts.skip(1) =~= Seq::<TcpAttr>::empty());
                assert(state_after(Some(st), ts.skip(1)) == Ok::<Option<TcpState>, FlowErrorView>(
                    Some(st),
                ));
                assert(state_after(None, ts) == Ok::<Option<TcpState>, FlowErrorView>(Some(st)));
                assert(state_after_groups(Some(st), groups.skip(1)) == Ok::<
                    Option<TcpState>,
                    FlowErrorView,
                >(Some(st)));
            },
            _ => {
                assert(state_after_groups(None, groups.skip(1)) == Ok::<
                    Option<TcpState>,
                    FlowErrorView,
                >(None));
            },
        }
    }
    let b4 = FlowBuilder { mark: Some(f.mark), ..b3 };
    assert(b3.with_attr(s[3]) == Ok::<FlowBuilder, FlowErrorView>(b4));
    let b5 = FlowBuilder { use_count: Some(f.use_count), ..b4 };
    assert(b4.with_attr(s[4]) == Ok::<FlowBuilder, FlowErrorView>(b5));
    let b6 = FlowBuilder { timeout: Some(f.timeout), ..b5 };
    assert(b5.with_attr(s[5]) == Ok::<FlowBuilder, FlowErrorView>(b6));
    let b7 = FlowBuilder { status: Some(f.status), ..b6 };
    assert(b6.with_attr(s[6]) == Ok::<FlowBuilder, FlowErrorView>(b7));
    assert(b7.with_attr(s[7]) == Ok::<FlowBuilder, FlowErrorView>(b7));
    lemma_attrs_step(b0, s, b1);
    lemma_attrs_step(b1, s.skip(1), b2);
    lemma_attrs_step(b2, s.skip(1).skip(1), b3);
    lemma_attrs_step(b3, s.skip(1).skip(1).skip(1), b4);
    lemma_attrs_step(b4, s.skip(1).skip(1).skip(1).skip(1), b5);
    lemma_attrs_step(b5, s.skip(1).skip(1).skip(1).skip(1).skip(1), b6);
    lemma_attrs_step(b6, s.skip(1).skip(1).skip(1).skip(1).skip(1).skip(1), b7);
    lemma_attrs_step(b7, s.skip(1).skip(1).skip(1).skip(1).skip(1).skip(1).skip(1), b7);
    assert(s.skip(1).skip(1).skip(1).skip(1).skip(1).skip(1).skip(1).skip(1).len() == 0);
}

proof fn lemma_attrs_step(b: FlowBuilder, s: Seq<CtAttrView>, next: FlowBuilder)
    requires
        s.len() > 0,
        b.with_attr(s[0]) == Ok::<FlowBuilder, FlowErrorView>(next),
    ensures
        b.with_attrs(s) == next.with_attrs(s.skip(1)),
{
}

/// The groups that describe a tuple give the tuple back, and the number of
/// the protocol with it.
pub proof fn law_tuple_groups(protocol: Protocol, t: Tuple)
    ensures
        TupleBuilder::empty().with_groups(tuple_groups(protocol, t)).built() == Ok::<
            Tuple,
            FlowErrorView,
        >(t),
        number_after_groups(None, tuple_groups(protocol, t)) == Some(protocol.spec_number()),
{
    let g = tuple_groups(protocol, t);
    let ips = seq![IpAttr::Src(t.src_addr), IpAttr::Dst(t.dst_addr)];
    let ps = seq![
        ProtoAttr::Number(protocol.spec_number()),
        ProtoAttr::SrcPort(t.src_port),
        ProtoAttr::DstPort(t.dst_port),
    ];
    let e = TupleBuilder::empty();
    let e1 = TupleBuilder { src_addr: Some(t.src_addr), ..e };
    let e2 = TupleBuilder { dst_addr: Some(t.dst_addr), ..e1 };
    assert(ips.skip(1).skip(1) =~= Seq::<IpAttr>::empty());
    assert(e2.with_ips(ips.skip(1).skip(1)) == e2);
    assert(e1.with_ips(ips.skip(1)) == e2);
    assert(e.with_ips(ips) == e2);
    let e3 = TupleBuilder { src_port: Some(t.src_port), ..e2 };
    let e4 = TupleBuilder { dst_port: Some(t.dst_port), ..e3 };
    assert(ps.skip(1).skip(1).skip(1) =~= Seq::<ProtoAttr>::empty());
    assert(e4.with_protos(ps.skip(1).skip(1).skip(1)) == e4);
    assert(e3.with_protos(ps.skip(1).skip(1)) == e4);
    assert(e2.with_protos(ps.skip(1)) == e4);
    assert(e2.with_protos(ps) == e4);
    assert(g.skip(1).skip(1) =~= Seq::<TupleAttrView>::empty());
    assert(e4.with_groups(g.skip(1).skip(1)) == e4);
    assert(e2.with_groups(g.skip(1)) == e4);
    assert(e.with_groups(g) == e4);
    let n = Some(protocol.spec_number());
    assert(number_after(n, ps.skip(1).skip(1).skip(1)) == n);
    assert(number_after(n, ps.skip(1).skip(1)) == n);
    assert(number_after(n, ps.skip(1)) == n);
    assert(number_after(None, ps) == n);
    assert(number_after_groups(n, g.skip(1).skip(1)) == n);
    assert(number_after_groups(None, g.skip(1)) == n);
    assert(number_after_groups(None, g) == n);
}

/// Whether every address that the attributes of an address group give is
/// of one family: IPv4 where `v4` holds, else IPv6.
pub open spec fn ips_of_family(s: Seq<IpAttr>, v4: bool) -> bool {
    forall|i: int|
        0 <= i < s.len() ==> match #[trigger] s[i] {
            IpAttr::Src(a) => (a is V4) == v4,
            IpAttr::Dst(a) => (a is V4) == v4,
            IpAttr::Other => true,
        }
}

/// Whether every address that the groups of a tuple give is of one family.
pub open spec fn groups_of_family(s: Seq<TupleAttrView>, v4: bool) -> bool {
    forall|i: int|
        0 <= i < s.len() ==> match #[trigger] s[i] {
            TupleAttrView::Ip(ips) => ips_of_family(ips, v4),
            _ => true,
        }
}

/// Whether every address that the attributes of a message give is of one
/// family.
pub open spec fn attrs_of_family(s: Seq<CtAttrView>, v4: bool) -> bool {
    forall|i: int|
        0 <= i < s.len() ==> match #[trigger] s[i] {
            CtAttrView::TupleOrig(groups) => groups_of_family(groups, v4),
            CtAttrView::TupleReply(groups) => groups_of_family(groups, v4),
            _ => true,
        }
}

spec fn tuple_builder_of_family(b: TupleBuilder, v4: bool) -> bool {
    &&& b.src_addr matches Some(a) ==> (a is V4) == v4
    &&& b.dst_addr matches Some(a) ==> (a is V4) == v4
}

spec fn tuple_of_family(t: Tuple, v4: bool) -> bool {
    (t.src_addr is V4) == v4 && (t.dst_addr is V4) == v4
}

spec fn flow_builder_of_family(b: FlowBuilder, v4: bool) -> bool {
    &&& b.original matches Some(t) ==> tuple_of_family(t, v4)
    &&& b.reply matches Some(t) ==> tuple_of_family(t, v4)
}

proof fn lemma_ips_family(b: TupleBuilder, s: Seq<IpAttr>, v4: bool)
    requires
        tuple_builder_of_family(b, v4),
        ips_of_family(s, v4),
    ensures
        tuple_builder_of_family(b.with_ips(s), v4),
    decreases s.len(),
{
    if s.len() > 0 {
        assert(s[0] == s[0]);
        assert forall|i: int| 0 <= i < s.skip(1).len() implies match #[trigger] s.skip(1)[i] {
            IpAttr::Src(a) => (a is V4) == v4,
            IpAttr::Dst(a) => (a is V4) == v4,
            IpAttr::Other => true,
        } by {
            assert(s.skip(1)[i] == s[i + 1]);
        }
        lemma_ips_family(b.with_ip(s[0]), s.skip(1), v4);
    }
}

proof fn lemma_protos_family(b: TupleBuilder, s: Seq<ProtoAttr>, v4: bool)
    requires
        tuple_builder_of_family(b, v4),
    ensures
        tuple_builder_of_family(b.with_protos(s), v4),
    decreases s.len(),
{
    if s.len() > 0 {
        lemma_protos_family(b.with_proto(s[0]), s.skip(1), v4);
    }
}

proof fn lemma_groups_family(b: TupleBuilder, s: Seq<TupleAttrView>, v4: bool)
    requires
        tuple_builder_of_family(b, v4),
        groups_of_family(s, v4),
    ensures
        tuple_builder_of_family(b.with_groups(s), v4),
    decreases s.len(),
{
    if s.len() > 0 {
        assert(s[0] == s[0]);
        match s[0] {
            TupleAttrView::Ip(ips) => {
                lemma_ips_family(b, ips, v4);
            },
            TupleAttrView::Proto(ps) => {
                lemma_protos_family(b, ps, v4);
            },
            TupleAttrView::Other => {},
        }
        assert forall|i: int| 0 <= i < s.skip(1).len() implies match #[trigger] s.skip(1)[i] {
            TupleAttrView::Ip(ips) => ips_of_family(ips, v4),
            _ => true,
        } by {
            assert(s.skip(1)[i] == s[i + 1]);
        }
        lemma_groups_family(b.with_group(s[0]), s.skip(1), v4);
    }
}

proof fn lemma_attrs_family(b: FlowBuilder, s: Seq<CtAttrView>, v4: bool)
    requires
        flow_builder_of_family(b, v4),
        attrs_of_family(s, v4),
    ensures
        b.with_attrs(s) matches Ok(r) ==> flow_builder_of_family(r, v4),
    decreases s.len(),
{
    if s.len() > 0 {
        assert(s[0] == s[0]);
        match s[0] {
            CtAttrView::TupleOrig(groups) => {
                lemma_groups_family(TupleBuilder::empty(), groups, v4);
            },
            CtAttrView::TupleReply(groups) => {
                lemma_groups_family(TupleBuilder::empty(), groups, v4);
            },
            _ => {},
        }
        match b.with_attr(s[0]) {
            Ok(next) => {
                assert forall|i: int| 0 <= i < s.skip(1).len() implies match #[trigger] s.skip(
                    1,
                )[i] {
                    CtAttrView::TupleOrig(groups) => groups_of_family(groups, v4),
                    CtAttrView::TupleReply(groups) => groups_of_family(groups, v4),
                    _ => true,
                } by {
                    assert(s.skip(1)[i] == s[i + 1]);
                }
                lemma_attrs_family(next, s.skip(1), v4);
            },
            Err(_) => {},
        }
    }
}

proof fn lemma_state_never_mismatch(st: Option<TcpState>, s: Seq<TcpAttr>)
    ensures
        !(state_after(st, s) matches Err(FlowErrorView::AddressFamilyMismatch)),
    decreases s.len(),
{
    if s.len() > 0 {
        match s[0] {
            TcpAttr::State(n) => match TcpState::decoded(n) {
                Ok(t) => {
                    lemma_state_never_mismatch(Some(t), s.skip(1));
                },
                Err(_) => {},
            },
            TcpAttr::Other => {
                lemma_state_never_mismatch(st, s.skip(1));
            },
        }
    }
}

proof fn lemma_states_never_mismatch(st: Option<TcpState>, s: Seq<ProtoInfoAttrView>)
    ensures
        !(state_after_groups(st, s) matches Err(FlowErrorView::AddressFamilyMismatch)),
    decreases s.len(),
{
    if s.len() > 0 {
        match s[0] {
            ProtoInfoAttrView::Tcp(ts) => {
                lemma_state_never_mismatch(st, ts);
                match state_after(st, ts) {
                    Ok(t) => {
                        lemma_states_never_mismatch(t, s.skip(1));
                    },
                    Err(_) => {},
                }
            },
            ProtoInfoAttrView::Other => {
                lemma_states_never_mismatch(st, s.skip(1));
            },
        }
    }
}

proof fn lemma_attrs_never_mismatch(b: FlowBuilder, s: Seq<CtAttrView>)
    ensures
        !(b.with_attrs(s) matches Err(FlowErrorView::AddressFamilyMismatch)),
    decreases s.len(),
{
    if s.len() > 0 {
        match s[0] {
            CtAttrView::ProtoInfo(groups) => {
                lemma_states_never_mismatch(b.tcp_state, groups);
            },
            _ => {},
        }
        match b.with_attr(s[0]) {
            Ok(next) => {
                lemma_attrs_never_mismatch(next, s.skip(1));
            },
            Err(_) => {},
        }
    }
}

/// The four addresses of a flow that is decoded from a message are of one
/// family. A message is never refused for its families where its addresses
/// are all of one family, and the flow is then of this family.
pub proof fn law_one_family(attrs: Seq<CtAttrView>, event_type: MessageType, v4: bool)
    ensures
        Flow::decoded(attrs, event_type) matches Ok(f) ==> f.one_family(),
        attrs_of_family(attrs, v4) ==> !(Flow::decoded(attrs, event_type) matches Err(
            FlowErrorView::AddressFamilyMismatch,
        )),
        attrs_of_family(attrs, v4) ==> (Flow::decoded(attrs, event_type) matches Ok(f) ==> (
        f.original.src_addr is V4) == v4),
{
    if attrs_of_family(attrs, v4) {
        lemma_attrs_family(FlowBuilder::empty(), attrs, v4);
        lemma_attrs_never_mismatch(FlowBuilder::empty(), attrs);
        match FlowBuilder::empty().with_attrs(attrs) {
            Ok(b) => {
                let c = FlowBuilder { event_type: Some(event_type), ..b };
                assert(flow_builder_of_family(b, v4));
                if c.missing() is None {
                    assert(tuple_of_family(c.original->0, v4));
                    assert(tuple_of_family(c.reply->0, v4));
                    assert(c.assembled().one_family());
                }
            },
            Err(_) => {},
        }
    }
}

spec fn status_holds_flags(b: FlowBuilder) -> bool {
    b.status matches Some(st) ==> st.bits() <= STATUS_MASK
}

proof fn lemma_attrs_status(b: FlowBuilder, s: Seq<CtAttrView>)
    requires
        status_holds_flags(b),
    ensures
        b.with_attrs(s) matches Ok(r) ==> status_holds_flags(r),
    decreases s.len(),
{
    if s.len() > 0 {
        match s[0] {
            CtAttrView::Status(v) => {
                assert((v & 0x7fff) as u16 <= 0x7fff) by (bit_vector);
            },
            _ => {},
        }
        match b.with_attr(s[0]) {
            Ok(next) => {
                lemma_attrs_status(next, s.skip(1));
            },
            Err(_) => {},
        }
    }
}

/// Every flow that is decoded from a message is well formed: its
/// addresses are of one family, it has a TCP state exactly if it is a TCP
/// flow, and its status holds flags only.
pub proof fn law_decoded_well_formed(attrs: Seq<CtAttrView>, event_type: MessageType)
    ensures
        Flow::decoded(attrs, event_type) matches Ok(f) ==> f.wf(),
{
    lemma_attrs_status(FlowBuilder::empty(), attrs);
}

/// A flow that is built has a TCP state exactly if it is a TCP flow, a TCP
/// flow has the state that was given, and the four addresses are of one
/// family. A TCP flow without a state is not built: the state is missing.
pub proof fn law_tcp_state(b: FlowBuilder)
    ensures
        b.built() matches Ok(f) ==> f.tcp_state_fits() && f.one_family() && (f.protocol
            == Protocol::Tcp ==> f.tcp_state == b.tcp_state),
        b.protocol == Some(Protocol::Tcp) && b.tcp_state is None ==> b.built() is Err,
{
}

/// A flow that is decoded from a message has a TCP state exactly if it is
/// a TCP flow.
pub proof fn law_decoded_tcp_state(attrs: Seq<CtAttrView>, event_type: MessageType)
    ensures
        Flow::decoded(attrs, event_type) matches Ok(f) ==> (f.tcp_state is Some <==> f.protocol
            == Protocol::Tcp),
{
}

/// Every state has a number from 0 to 9, the number gives the state back, and
/// the states are ordered as their numbers are.
pub proof fn law_tcp_state_numbers(s: TcpState, n: u8)
    ensures
        s.spec_number() <= 9,
        TcpState::of_number(s.spec_number()) == Some(s),
        TcpState::of_number(n) is Some <==> n <= 9,
        TcpState::of_number(n) matches Some(t) ==> t.spec_number() == n,
{
}

/// The number of a protocol gives the protocol back, but for `Other(6)` and
/// `Other(17)`, which no number gives.
pub proof fn law_protocol_numbers(p: Protocol, n: u8)
    ensures
        Protocol::of_number(n).spec_number() == n,
        p != Protocol::Other(6) && p != Protocol::Other(17) ==> Protocol::of_number(
            p.spec_number(),
        ) == p,
{
}

} // verus!

//! Event kinds, the multicast groups that carry them, and the envelope of
//! one decoded message.

use crate::attr::CtMessage;
use crate::attr::CtMessageView;
use crate::request::GetParams;
use crate::Family;
use crate::Table;
use vstd::prelude::*;

verus! {

/// The flag of a frame that tells a new flow from a changed one.
pub const FLAG_CREATE: u16 = 0x400;

/// One decoded message with what its frame said of it: the flag word of the
/// frame and the resource id of the header.
#[derive(Debug, Clone, PartialEq, Eq)]
pub struct Message {
    pub flag: u16,
    pub res_id: u16,
    pub msg: CtMessage,
}

/// A message with what its frame said of it, with sequences in place of
/// vectors.
pub struct MessageView {
    pub flag: u16,
    pub res_id: u16,
    pub msg: CtMessageView,
}

impl View for Message {
    type V = MessageView;

    open spec fn view(&self) -> MessageView {
        MessageView { flag: self.flag, res_id: self.res_id, msg: self.msg@ }
    }
}

/// The views of the messages, in their order.
pub open spec fn message_views(s: Seq<Message>) -> Seq<MessageView> {
    Seq::new(s.len(), |i: int| s[i]@)
}

impl Message {
    pub fn new(msg: CtMessage, flag: u16, res_id: u16) -> (r: Message)
        ensures
            r.msg == msg,
            r.flag == flag,
            r.res_id == res_id,
    {
        Message { flag, res_id, msg }
    }

    /// A message with the same content.
    pub fn copy(&self) -> (r: Message)
        ensures
            r@ == self@,
    {
        Message { flag: self.flag, res_id: self.res_id, msg: self.msg.copy() }
    }
}

/// The kind of change that a flow event reports.
#[derive(Debug, Clone, Copy, PartialEq, Eq, Structural)]
pub enum MessageType {
    New,
    Update,
    Destroy,
}

impl MessageType {
    /// The bit of the kind in a group mask.
    pub open spec fn spec_bit(&self) -> u32 {
        match self {
            MessageType::New => 1,
            MessageType::Update => 2,
            MessageType::Destroy => 4,
        }
    }

    #[verifier::when_used_as_spec(spec_bit)]
    pub fn bit(&self) -> (r: u32)
        ensures
            r == self.spec_bit(),
    {
        match self {
            MessageType::New => 1,
            MessageType::Update => 2,
            MessageType::Destroy => 4,
        }
    }

    /// The name of the kind, as it is shown.
    pub open spec fn spec_name(&self) -> Seq<char> {
        match self {
            MessageType::New => "New"@,
            MessageType::Update => "Update"@,
            MessageType::Destroy => "Destroy"@,
        }
    }

    /// The name of the kind in capital letters.
    pub open spec fn spec_upper_name(&self) -> Seq<char> {
        match self {
            MessageType::New => "NEW"@,
            MessageType::Update => "UPDATE"@,
            MessageType::Destroy => "DESTROY"@,
        }
    }

    pub fn upper_name(&self) -> (r: String)
        ensures
            r@ == self.spec_upper_name(),
    {
        match self {
            MessageType::New => "NEW".to_owned(),
            MessageType::Update => "UPDATE".to_owned(),
            MessageType::Destroy => "DESTROY".to_owned(),
        }
    }

    pub fn name(&self) -> (r: String)
        ensures
            r@ == self.spec_name(),
    {
        match self {
            MessageType::New => "New".to_owned(),
            MessageType::Update => "Update".to_owned(),
            MessageType::Destroy => "Destroy".to_owned(),
        }
    }
}

/// A set of multicast groups, as the mask that a socket is bound with.
#[derive(Debug, Clone, Copy, PartialEq, Eq, Structural)]
pub struct MessageGroup {
    inner: u32,
}

impl MessageGroup {
    /// The mask.
    pub closed spec fn mask(&self) -> u32 {
        self.inner
    }

    /// The group with the bit of `t` added.
    pub fn set(self, t: MessageType) -> (r: MessageGroup)
        ensures
            r.mask() == self.mask() | t.spec_bit(),
    {
        MessageGroup { inner: self.inner | t.bit() }
    }

    /// Whether events of kind `t` are in the group.
    pub open spec fn spec_has(&self, t: MessageType) -> bool {
        self.mask() & t.spec_bit() != 0
    }

    #[verifier::when_used_as_spec(spec_has)]
    pub fn has(&self, t: MessageType) -> (r: bool)
        ensures
            r == self.spec_has(t),
    {
        self.inner & t.bit() != 0
    }

    /// The mask, for binding a socket.
    pub fn bits(&self) -> (r: u32)
        ensures
            r == self.mask(),
    {
        self.inner
    }

    /// The group with exactly this mask.
    pub fn from_bits(g: u32) -> (r: MessageGroup)
        ensures
            r.mask() == g,
    {
        MessageGroup { inner: g }
    }
}

impl Default for MessageGroup {
    /// The group that carries new flows only.
    fn default() -> (r: MessageGroup)
        ensures
            r.mask() == 1,
    {
        MessageGroup { inner: 1 }
    }
}

/// Setting a kind puts it into the group, keeps what was in it and adds
/// nothing else.
pub proof fn law_group_set(g: MessageGroup, r: MessageGroup, t: MessageType, u: MessageType)
    requires
        r.mask() == g.mask() | t.spec_bit(),
    ensures
        r.spec_has(t),
        g.spec_has(u) ==> r.spec_has(u),
        r.spec_has(u) ==> g.spec_has(u) || u == t,
{
    let a = g.mask();
    assert((a | 1u32) & 1u32 != 0) by (bit_vector);
    assert((a | 2u32) & 2u32 != 0) by (bit_vector);
    assert((a | 4u32) & 4u32 != 0) by (bit_vector);
    let b = t.spec_bit();
    let c = u.spec_bit();
    assert(a & c != 0 ==> (a | b) & c != 0) by (bit_vector);
    assert((b == 1 || b == 2 || b == 4) && (c == 1 || c == 2 || c == 4) && (a | b) & c != 0 ==> a
        & c != 0 || b == c) by (bit_vector);
}

/// The flag that every request has.
pub const FLAG_REQUEST: u16 = 0x001;

/// The flag that asks for the whole table.
pub const FLAG_ROOT: u16 = 0x100;

/// The flag that asks for every entry that matches.
pub const FLAG_MATCH: u16 = 0x200;

/// The flags of a dump: root and match together.
pub const FLAG_DUMP: u16 = 0x300;

/// What a request asks the kernel for.
#[derive(Debug, Clone, Copy, PartialEq, Eq)]
pub enum Query {
    /// The entries of the connection-tracking table, or the one entry that
    /// the parameters name.
    Get(Option<GetParams>),
    /// The entries of the connection-tracking table, with their counters set
    /// to zero as they are read.
    GetWithReset,
    /// The entries that are being deleted.
    GetDying,
    /// The entries that are not confirmed yet.
    GetUnconfirmed,
    /// The count of tracked entries.
    GetStats,
    /// The statistics of each CPU.
    GetStatsCpu,
}

/// A request frame before it is put into bytes: the flag word of the outer
/// header, the family and resource id of the inner header, and the query.
#[derive(Debug, Clone, Copy, PartialEq, Eq)]
pub struct RequestFrame {
    pub flags: u16,
    pub family: Family,
    pub res_id: u16,
    pub query: Query,
}

/// Builds request frames.
#[derive(Debug, Clone, Copy)]
pub struct MessageBuilder {
    pub family: Family,
    pub table: Table,
    pub res_id: u16,
    pub flag: u16,
    pub zero: bool,
}

impl MessageBuilder {
    /// A builder for the table of a family, with the request flag.
    pub fn new(family: Family, table: Table) -> (r: MessageBuilder)
        ensures
            r == (MessageBuilder { family, table, res_id: 0, flag: FLAG_REQUEST, zero: false }),
    {
        MessageBuilder { family, table, res_id: 0, flag: FLAG_REQUEST, zero: false }
    }

    /// The builder with more flags.
    pub fn flags(self, flag: u16) -> (r: MessageBuilder)
        ensures
            r == (MessageBuilder { flag: self.flag | flag, ..self }),
    {
        MessageBuilder { flag: self.flag | flag, ..self }
    }

    /// The builder of requests that set counters to zero.
    pub fn zero(self) -> (r: MessageBuilder)
        ensures
            r == (MessageBuilder { zero: true, ..self }),
    {
        MessageBuilder { zero: true, ..self }
    }

    pub fn res_id(self, id: u16) -> (r: MessageBuilder)
        ensures
            r == (MessageBuilder { res_id: id, ..self }),
    {
        MessageBuilder { res_id: id, ..self }
    }

    /// What a list request asks for: with the zero flag the table with a
    /// reset of the counters, else the table that the builder is for.
    pub open spec fn list_query(&self) -> Query {
        if self.zero {
            Query::GetWithReset
        } else {
            match self.table {
                Table::Conntrack => Query::Get(None),
                Table::Dying => Query::GetDying,
                Table::Unconfirmed => Query::GetUnconfirmed,
            }
        }
    }

    /// The frame that asks for a dump of the table.
    pub fn list(&self) -> (r: RequestFrame)
        ensures
            r == (RequestFrame {
                flags: self.flag | FLAG_REQUEST | FLAG_DUMP,
                family: self.family,
                res_id: self.res_id,
                query: self.list_query(),
            }),
            r.flags & FLAG_REQUEST != 0,
            r.flags & FLAG_DUMP == FLAG_DUMP,
    {
        let f = self.flag;
        assert((f | 0x001 | 0x300) & 0x001 != 0 && (f | 0x001 | 0x300) & 0x300 == 0x300)
            by (bit_vector);
        let query = if self.zero {
            Query::GetWithReset
        } else {
            match self.table {
                Table::Conntrack => Query::Get(None),
                Table::Dying => Query::GetDying,
                Table::Unconfirmed => Query::GetUnconfirmed,
            }
        };
        RequestFrame {
            flags: self.flag | FLAG_REQUEST | FLAG_DUMP,
            family: self.family,
            res_id: self.res_id,
            query,
        }
    }

    /// The frame that asks for the one entry that the parameters name.
    pub fn get(&self, param: &GetParams) -> (r: RequestFrame)
        ensures
            r == (RequestFrame {
                flags: self.flag | FLAG_REQUEST,
                family: self.family,
                res_id: self.res_id,
                query: Query::Get(Some(*param)),
            }),
            r.flags & FLAG_REQUEST != 0,
    {
        let f = self.flag;
        assert((f | 0x001) & 0x001 != 0) by (bit_vector);
        RequestFrame {
            flags: self.flag | FLAG_REQUEST,
            family: self.family,
            res_id: self.res_id,
            query: Query::Get(Some(*param)),
        }
    }

    /// The frame that asks for the count of tracked entries.
    pub fn count(&self) -> (r: RequestFrame)
        ensures
            r == (RequestFrame {
                flags: self.flag | FLAG_REQUEST,
                family: self.family,
                res_id: 0,
                query: Query::GetStats,
            }),
            r.flags & FLAG_REQUEST != 0,
    {
        let f = self.flag;
        assert((f | 0x001) & 0x001 != 0) by (bit_vector);
        RequestFrame {
            flags: self.flag | FLAG_REQUEST,
            family: self.family,
            res_id: 0,
            query: Query::GetStats,
        }
    }

    /// The frame that asks for the statistics of each CPU.
    pub fn stat(&self) -> (r: RequestFrame)
        ensures
            r == (RequestFrame {
                flags: self.flag | FLAG_REQUEST | FLAG_ROOT | FLAG_MATCH,
                family: self.family,
                res_id: 0,
                query: Query::GetStatsCpu,
            }),
            r.flags & FLAG_REQUEST != 0,
            r.flags & FLAG_ROOT != 0,
            r.flags & FLAG_MATCH != 0,
    {
        let f = self.flag;
        assert((f | 0x001 | 0x100 | 0x200) & 0x001 != 0 && (f | 0x001 | 0x100 | 0x200) & 0x100 != 0
            && (f | 0x001 | 0x100 | 0x200) & 0x200 != 0) by (bit_vector);
        RequestFrame {
            flags: self.flag | FLAG_REQUEST | FLAG_ROOT | FLAG_MATCH,
            family: self.family,
            res_id: 0,
            query: Query::GetStatsCpu,
        }
    }
}

impl Default for MessageBuilder {
    /// A builder for the connection-tracking table of IPv4.
    fn default() -> (r: MessageBuilder)
        ensures
            r == (MessageBuilder {
                family: Family::Ipv4,
                table: Table::Conntrack,
                res_id: 0,
                flag: FLAG_REQUEST,
                zero: false,
            }),
    {
        MessageBuilder {
            family: Family::Ipv4,
            table: Table::Conntrack,
            res_id: 0,
            flag: FLAG_REQUEST,
            zero: false,
        }
    }
}

} // verus!

//! Observing and querying the kernel's connection-tracking table: the flow
//! model, the filter over flows, the decoding of netlink datagrams into
//! events and the building of request frames.

use crate::addr::IpAddress;
use crate::error::Error;
use crate::error::ErrorView;
use crate::event::Event;
use crate::message::message_views;
use crate::message::Message;
use crate::message::MessageView;
use crate::request::Filter;
use crate::request::Request;
use crate::socket::ConntrackSocket;
use crate::message::MessageGroup;
use crate::text::decimal;
use crate::text::decimal_u8;
use crate::text::lowercase;
use crate::text::same_text;
use crate::text::to_lowercase;
use vstd::prelude::*;

pub mod addr;
pub mod attr;
pub mod command;
pub mod config;
pub mod display;
pub mod error;
pub mod event;
pub mod flow;
pub mod message;
pub mod request;
pub mod socket;
pub mod stats;
pub mod text;
pub mod wire;

verus! {

/// What a connection-tracking handle is opened with.
#[derive(Debug, Clone, Copy)]
pub struct ConntrackOption {
    flow_event_group: MessageGroup,
}

impl ConntrackOption {
    /// The groups that the socket will be subscribed to.
    pub closed spec fn group(&self) -> MessageGroup {
        self.flow_event_group
    }

    pub fn flow_event_group(&self) -> (r: MessageGroup)
        ensures
            r == self.group(),
    {
        self.flow_event_group
    }

    pub fn set_flow_event_group(self, group: MessageGroup) -> (r: ConntrackOption)
        ensures
            r.group() == group,
    {
        ConntrackOption { flow_event_group: group }
    }
}

impl Default for ConntrackOption {
    /// The option that subscribes to new flows only.
    fn default() -> (r: ConntrackOption)
        ensures
            r.group().mask() == 1,
    {
        ConntrackOption { flow_event_group: MessageGroup::default() }
    }
}

/// Whether an event passes the filter of a request. Without a filter every
/// event passes; with one a flow passes where it meets the filter, and
/// nothing else passes: a filter is about flows only.
pub open spec fn passes(filter: Option<Filter>, e: Event) -> bool {
    match filter {
        None => true,
        Some(f) => match e {
            Event::Flow(flow) => f.matches(&flow),
            _ => false,
        },
    }
}

/// The events that pass the filter, in their order.
pub open spec fn kept(filter: Option<Filter>, s: Seq<Event>) -> Seq<Event>
    decreases s.len(),
{
    if s.len() == 0 {
        Seq::empty()
    } else if passes(filter, s[0]) {
        seq![s[0]] + kept(filter, s.skip(1))
    } else {
        kept(filter, s.skip(1))
    }
}

/// The events that pass the filter, in their order.
pub fn select(filter: &Option<Filter>, events: Vec<Event>) -> (r: Vec<Event>)
    ensures
        r@ == kept(*filter, events@),
{
    let mut out: Vec<Event> = Vec::new();
    let ghost s = events@;
    let mut i: usize = 0;
    assert(s.skip(0) =~= s);
    while i < events.len()
        invariant
            i <= events.len(),
            s == events@,
            kept(*filter, s) == out@ + kept(*filter, s.skip(i as int)),
        decreases events.len() - i,
    {
        assert(s.skip(i as int).skip(1) =~= s.skip(i + 1));
        let e = events[i];
        let pass = match filter {
            None => true,
            Some(f) => match e {
                Event::Flow(flow) => f.apply(&flow),
                _ => false,
            },
        };
        let ghost before = out@;
        if pass {
            out.push(e);
            assert(out@ + kept(*filter, s.skip(i + 1)) =~= before + (seq![e] + kept(
                *filter,
                s.skip(i + 1),
            )));
        }
        i = i + 1;
    }
    assert(out@ + Seq::<Event>::empty() =~= out@);
    out
}

/// The events that the messages of a batch mean, in their order. One
/// message that means none fails the whole batch.
pub fn events_of(msgs: &Vec<Message>) -> (r: Result<Vec<Event>, Error>)
    ensures
        result_view(r) == Event::of_messages(message_views(msgs@)),
{
    let mut out: Vec<Event> = Vec::new();
    let ghost s = message_views(msgs@);
    let mut i: usize = 0;
    assert(s.skip(0) =~= s);
    while i < msgs.len()
        invariant
            i <= msgs.len(),
            s == message_views(msgs@),
            match Event::of_messages(s.skip(i as int)) {
                Ok(rest) => Event::of_messages(s) == Ok::<Seq<Event>, ErrorView>(out@ + rest),
                Err(e) => Event::of_messages(s) == Err::<Seq<Event>, ErrorView>(e),
            },
        decreases msgs.len() - i,
    {
        assert(s.skip(i as int).skip(1) =~= s.skip(i + 1));
        assert(s.skip(i as int)[0] == msgs@[i as int]@);
        let ghost before = out@;
        match Event::from_message(&msgs[i]) {
            Ok(ev) => {
                out.push(ev);
                proof {
                    match Event::of_messages(s.skip(i + 1)) {
                        Ok(rest) => {
                            assert(out@ + rest =~= before + (seq![ev] + rest));
                        },
                        Err(e) => {},
                    }
                }
            },
            Err(e) => {
                return Err(e);
            },
        }
        i = i + 1;
    }
    assert(out@ + Seq::<Event>::empty() =~= out@);
    Ok(out)
}

/// What the caller gets for an item of the transport's lazy sequence: the
/// end for the end, an error for an error, and for a batch of messages the
/// events that they mean and that pass the filter, or the error of the
/// first message that means none.
pub open spec fn delivered(
    filter: Option<Filter>,
    item: Option<Result<Seq<MessageView>, ErrorView>>,
) -> Option<Result<Seq<Event>, ErrorView>> {
    match item {
        None => None,
        Some(Err(e)) => Some(Err(e)),
        Some(Ok(msgs)) => match Event::of_messages(msgs) {
            Ok(events) => Some(Ok(kept(filter, events))),
            Err(e) => Some(Err(e)),
        },
    }
}

/// The view of a result with a batch of events.
pub open spec fn result_view(r: Result<Vec<Event>, Error>) -> Result<Seq<Event>, ErrorView> {
    match r {
        Ok(v) => Ok(v@),
        Err(e) => Err(e@),
    }
}

/// The view of an item of the caller's lazy sequence.
pub open spec fn events_view(item: Option<Result<Vec<Event>, Error>>) -> Option<
    Result<Seq<Event>, ErrorView>,
> {
    match item {
        None => None,
        Some(r) => Some(result_view(r)),
    }
}

/// What the caller gets for an item of the transport's lazy sequence.
pub fn deliver(filter: &Option<Filter>, item: Option<Result<Vec<Message>, Error>>) -> (r: Option<
    Result<Vec<Event>, Error>,
>)
    ensures
        events_view(r) == delivered(*filter, crate::socket::item_view(item)),
{
    match item {
        None => None,
        Some(Err(e)) => Some(Err(e)),
        Some(Ok(msgs)) => {
            match events_of(&msgs) {
                Ok(events) => Some(Ok(select(filter, events))),
                Err(e) => Some(Err(e)),
            }
        },
    }
}

/// A handle on the connection tracking of the kernel: a transport and the
/// filter of the request that is being answered.
pub struct Conntrack<S> {
    socket: S,
    filter: Option<Filter>,
}

impl<S: ConntrackSocket> Conntrack<S> {
    /// The filter that is applied to the flows of the lazy sequence.
    pub closed spec fn spec_filter(&self) -> Option<Filter> {
        self.filter
    }

    /// The transport.
    pub closed spec fn spec_socket(&self) -> S {
        self.socket
    }

    /// A handle on this transport, without a filter.
    pub fn with_socket(socket: S) -> (r: Conntrack<S>)
        ensures
            r.spec_filter() is None,
            r.spec_socket() == socket,
    {
        Conntrack { socket, filter: None }
    }

    /// The filter that is applied to the flows of the lazy sequence.
    pub fn filter(&self) -> (r: Option<Filter>)
        ensures
            r == self.spec_filter(),
    {
        self.filter
    }

    /// Remembers the filter of the request and sends its frame: the result
    /// is that of the sending. A request without a frame sends nothing and
    /// succeeds.
    pub fn request(&mut self, req: Request) -> (r: Result<(), Error>)
        ensures
            final(self).spec_filter() == req.op.spec_filter(),
            match req.frame() {
                Some(frame) => old(self).spec_socket().sends(
                    frame,
                    final(self).spec_socket(),
                    crate::socket::sent_view(r),
                ),
                None => r is Ok && final(self).spec_socket() == old(self).spec_socket(),
            },
    {
        self.filter = req.filter();
        match req.message() {
            Ok(Some(frame)) => self.socket.send(frame),
            Ok(None) => Ok(()),
            Err(e) => Err(e),
        }
    }

    /// The events of exactly one datagram: those that the messages mean
    /// which the transport read, in their order. No filter is applied.
    pub fn recv_once(&mut self) -> (r: Result<Vec<Event>, Error>)
        ensures
            final(self).spec_filter() == old(self).spec_filter(),
            exists|batch: Result<Seq<MessageView>, ErrorView>|
                #[trigger] old(self).spec_socket().receives_once(final(self).spec_socket(), batch)
                    && result_view(r) == match batch {
                    Ok(msgs) => Event::of_messages(msgs),
                    Err(e) => Err(e),
                },
    {
        match self.socket.recv_once() {
            Ok(msgs) => {
                let r = events_of(&msgs);
                proof {
                    let batch = Ok::<Seq<MessageView>, ErrorView>(message_views(msgs@));
                    assert(old(self).spec_socket().receives_once(self.spec_socket(), batch));
                    assert(result_view(r) == Event::of_messages(message_views(msgs@)));
                }
                r
            },
            Err(e) => {
                let r = Err(e);
                proof {
                    let batch = Err::<Seq<MessageView>, ErrorView>(e@);
                    assert(old(self).spec_socket().receives_once(self.spec_socket(), batch));
                    assert(result_view(r) == Err::<Seq<Event>, ErrorView>(e@));
                }
                r
            },
        }
    }

    /// The next batch of events of the lazy sequence, or `None` where it has
    /// ended: what the caller gets for the item that the transport gave.
    pub fn poll_next(&mut self) -> (r: Option<Result<Vec<Event>, Error>>)
        ensures
            final(self).spec_filter() == old(self).spec_filter(),
            exists|item: Option<Result<Seq<MessageView>, ErrorView>>|
                #[trigger] old(self).spec_socket().polls(final(self).spec_socket(), item)
                    && events_view(r) == delivered(old(self).spec_filter(), item),
    {
        let item = self.socket.poll_next();
        let ghost given = crate::socket::item_view(item);
        let r = deliver(&self.filter, item);
        proof {
            assert(old(self).spec_socket().polls(self.spec_socket(), given));
            assert(events_view(r) == delivered(old(self).spec_filter(), given));
        }
        r
    }
}

/// The address family that a request or a filter is about.
#[derive(Debug, Clone, Copy, PartialEq, Eq, Structural)]
pub enum Family {
    Unspec,
    Ipv4,
    Ipv6,
}

impl Family {
    /// Whether an address is of the family; every address is of `Unspec`.
    pub open spec fn spec_is_matched(&self, addr: IpAddress) -> bool {
        match self {
            Family::Unspec => true,
            Family::Ipv4 => addr is V4,
            Family::Ipv6 => addr is V6,
        }
    }

    #[verifier::when_used_as_spec(spec_is_matched)]
    pub fn is_matched(&self, addr: IpAddress) -> (r: bool)
        ensures
            r == self.spec_is_matched(addr),
    {
        match self {
            Family::Unspec => true,
            Family::Ipv4 => addr.is_ipv4(),
            Family::Ipv6 => addr.is_ipv6(),
        }
    }

    /// The kernel's code of the family: 0 for unspecified, 2 for IPv4 and 10
    /// for IPv6.
    pub open spec fn spec_code(&self) -> u8 {
        match self {
            Family::Unspec => 0,
            Family::Ipv4 => 2,
            Family::Ipv6 => 10,
        }
    }

    #[verifier::when_used_as_spec(spec_code)]
    pub fn code(&self) -> (r: u8)
        ensures
            r == self.spec_code(),
    {
        match self {
            Family::Unspec => 0,
            Family::Ipv4 => 2,
            Family::Ipv6 => 10,
        }
    }

    /// The family with this code, if it is one of the three.
    pub open spec fn of_code(code: u8) -> Option<Family> {
        if code == 2 {
            Some(Family::Ipv4)
        } else if code == 10 {
            Some(Family::Ipv6)
        } else if code == 0 {
            Some(Family::Unspec)
        } else {
            None
        }
    }

    /// The family with this code; any other code is refused, with its
    /// decimal notation in the error.
    pub fn from_code(code: u8) -> (r: Result<Family, Error>)
        ensures
            match r {
                Ok(f) => Family::of_code(code) == Some(f),
                Err(e) => Family::of_code(code) is None && e@ == ErrorView::InvalidFamily(
                    decimal(code as nat),
                ),
            },
    {
        if code == 2 {
            Ok(Family::Ipv4)
        } else if code == 10 {
            Ok(Family::Ipv6)
        } else if code == 0 {
            Ok(Family::Unspec)
        } else {
            Err(Error::InvalidFamily(decimal_u8(code)))
        }
    }

    /// The family that a lowercase name stands for.
    pub open spec fn named(name: Seq<char>) -> Option<Family> {
        if name == "ipv4"@ {
            Some(Family::Ipv4)
        } else if name == "ipv6"@ {
            Some(Family::Ipv6)
        } else if name == "unspec"@ {
            Some(Family::Unspec)
        } else {
            None
        }
    }

    /// The family that a lowercase name stands for.
    pub fn from_lowercase(name: &str) -> (r: Option<Family>)
        ensures
            r == Family::named(name@),
    {
        if same_text(name, "ipv4") {
            Some(Family::Ipv4)
        } else if same_text(name, "ipv6") {
            Some(Family::Ipv6)
        } else if same_text(name, "unspec") {
            Some(Family::Unspec)
        } else {
            None
        }
    }

    /// The family that a name stands for, whatever its case; any other text
    /// is refused and handed back in the error.
    pub fn from_name(family: &str) -> (r: Result<Family, Error>)
        ensures
            match r {
                Ok(f) => Family::named(lowercase(family@)) == Some(f),
                Err(e) => Family::named(lowercase(family@)) is None && e@
                    == ErrorView::InvalidFamily(family@),
            },
    {
        let lower = to_lowercase(family);
        match Family::from_lowercase(lower.as_str()) {
            Some(f) => Ok(f),
            None => Err(Error::InvalidFamily(family.to_owned())),
        }
    }
}

impl Default for Family {
    fn default() -> (r: Family)
        ensures
            r == Family::Ipv4,
    {
        Family::Ipv4
    }
}

/// The kernel table that a request reads.
#[derive(Debug, Clone, Copy, PartialEq, Eq, Structural)]
pub enum Table {
    Conntrack,
    Dying,
    Unconfirmed,
}

impl Table {
    /// The table that a lowercase name stands for. The expectation table has
    /// no name here: it cannot be read.
    pub open spec fn named(name: Seq<char>) -> Option<Table> {
        if name == "conntrack"@ {
            Some(Table::Conntrack)
        } else if name == "dying"@ {
            Some(Table::Dying)
        } else if name == "unconfirmed"@ {
            Some(Table::Unconfirmed)
        } else {
            None
        }
    }

    /// The table that a lowercase name stands for.
    pub fn from_lowercase(name: &str) -> (r: Option<Table>)
        ensures
            r == Table::named(name@),
    {
        if same_text(name, "conntrack") {
            Some(Table::Conntrack)
        } else if same_text(name, "dying") {
            Some(Table::Dying)
        } else if same_text(name, "unconfirmed") {
            Some(Table::Unconfirmed)
        } else {
            None
        }
    }

    /// The table that a name stands for, whatever its case; any other text
    /// is refused and handed back in the error.
    pub fn from_name(table: &str) -> (r: Result<Table, Error>)
        ensures
            match r {
                Ok(t) => Table::named(lowercase(table@)) == Some(t),
                Err(e) => Table::named(lowercase(table@)) is None && e@ == ErrorView::InvalidTable(
                    table@,
                ),
            },
    {
        let lower = to_lowercase(table);
        match Table::from_lowercase(lower.as_str()) {
            Some(t) => Ok(t),
            None => Err(Error::InvalidTable(table.to_owned())),
        }
    }
}

impl Default for Table {
    fn default() -> (r: Table)
        ensures
            r == Table::Conntrack,
    {
        Table::Conntrack
    }
}

/// Where the transport that plays back flows gives the next flow of its
/// IPv4 list, the caller gets this flow, as a changed one, if it passes the
/// filter of the request, and an empty batch if it does not.
pub proof fn law_played_back_flow(
    state: crate::socket::MockState,
    flows: Seq<crate::flow::Flow>,
    filter: Option<Filter>,
)
    requires
        state.ipv4 == crate::socket::flow_messages(flows),
        state.gives_ipv4(),
        flows[state.ipv4_index as int].round_trips(),
    ensures
        delivered(filter, state.polled().0) == Some(
            Ok::<Seq<Event>, ErrorView>(
                kept(
                    filter,
                    seq![
                        Event::Flow(
                            crate::flow::Flow {
                                event_type: crate::message::MessageType::Update,
                                ..flows[state.ipv4_index as int]
                            },
                        ),
                    ],
                ),
            ),
        ),
{
    let f = flows[state.ipv4_index as int];
    let m = state.ipv4[state.ipv4_index as int];
    let update = crate::message::MessageType::Update;
    crate::flow::law_message_round_trip(f, update);
    assert(0u16 & 0x400u16 == 0) by (bit_vector);
    assert(crate::event::event_kind(false, 0) == update);
    let ev = Event::Flow(crate::flow::Flow { event_type: update, ..f });
    assert(Event::of_message(m) == Ok::<Event, ErrorView>(ev));
    let batch = seq![m];
    assert(batch.skip(1) =~= Seq::<MessageView>::empty());
    assert(Event::of_messages(batch.skip(1)) == Ok::<Seq<Event>, ErrorView>(Seq::empty()));
    assert(seq![ev] + Seq::<Event>::empty() =~= seq![ev]);
    assert(Event::of_messages(batch) == Ok::<Seq<Event>, ErrorView>(seq![ev]));
}

/// The code of a family gives the family back, and no other code gives one.
pub proof fn law_family_codes(f: Family, code: u8)
    ensures
        Family::of_code(f.spec_code()) == Some(f),
        Family::of_code(code) matches Some(g) ==> g.spec_code() == code,
        Family::of_code(code) is Some <==> code == 0 || code == 2 || code == 10,
{
}

} // verus!

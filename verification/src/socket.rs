//! What a transport is to the library, what the frames of one datagram come
//! to, and a transport that plays back what it was given.

use crate::error::Error;
use crate::error::ErrorView;
use crate::error::NetlinkError;
use crate::flow::Flow;
use crate::message::message_views;
use crate::message::Message;
use crate::message::MessageView;
use crate::message::RequestFrame;
use crate::Family;
use netlink_packet_core::DecodeError;
use vstd::prelude::*;

verus! {

/// What one position of a datagram holds, as the library sees it.
pub enum FrameStep {
    /// A frame with a connection-tracking message.
    Message(MessageView),
    /// A frame that carries nothing for the library: it is passed over.
    Skip,
    /// The frame that ends a dump.
    Done,
    /// A frame with an error payload and its code.
    Error(i32),
    /// Bytes that are no frame.
    Broken(DecodeError),
}

/// How the reading of a datagram ended.
#[derive(Debug)]
pub enum ScanEnd {
    /// Every byte was read.
    Exhausted,
    /// The frame that ends a dump was met; what follows it was not read.
    Done,
    /// A frame with an error payload was met.
    Failed(i32),
    /// Bytes that are no frame were met.
    Broken(DecodeError),
}

/// What the frames of one datagram came to: the messages before the frame
/// that ended the reading, in their order, and how it ended.
#[derive(Debug)]
pub struct Scan {
    pub messages: Vec<Message>,
    pub end: ScanEnd,
}

/// What the frames of a datagram came to, with the messages as a sequence.
pub struct ScanView {
    pub messages: Seq<MessageView>,
    pub end: ScanEnd,
}

impl View for Scan {
    type V = ScanView;

    open spec fn view(&self) -> ScanView {
        ScanView { messages: message_views(self.messages@), end: self.end }
    }
}

/// What the positions of a datagram come to, taken in their order: the
/// messages up to the first position that ends the reading, and how it
/// ended.
pub open spec fn scan(steps: Seq<FrameStep>) -> ScanView
    decreases steps.len(),
{
    if steps.len() == 0 {
        ScanView { messages: Seq::empty(), end: ScanEnd::Exhausted }
    } else {
        match steps[0] {
            FrameStep::Message(m) => {
                let rest = scan(steps.skip(1));
                ScanView { messages: seq![m] + rest.messages, end: rest.end }
            },
            FrameStep::Skip => scan(steps.skip(1)),
            FrameStep::Done => ScanView { messages: Seq::empty(), end: ScanEnd::Done },
            FrameStep::Error(code) => ScanView {
                messages: Seq::empty(),
                end: ScanEnd::Failed(code),
            },
            FrameStep::Broken(e) => ScanView { messages: Seq::empty(), end: ScanEnd::Broken(e) },
        }
    }
}

/// Whether every position holds a message.
pub open spec fn all_messages(steps: Seq<FrameStep>) -> bool {
    forall|i: int| 0 <= i < steps.len() ==> (#[trigger] steps[i]) is Message
}

/// The messages that the positions hold, in the order of the positions.
pub open spec fn held_messages(steps: Seq<FrameStep>) -> Seq<MessageView>
    recommends
        all_messages(steps),
{
    Seq::new(steps.len(), |i: int| steps[i]->Message_0)
}

/// What a poll of a lazy sequence of batches gives: the next item, if there
/// is one, and whether the sequence has ended with it.
#[derive(Debug)]
pub struct Polled {
    pub item: Option<Result<Vec<Message>, Error>>,
    pub finished: bool,
}

/// The view of a result with a batch of messages.
pub open spec fn batch_view(r: Result<Vec<Message>, Error>) -> Result<
    Seq<MessageView>,
    ErrorView,
> {
    match r {
        Ok(v) => Ok(message_views(v@)),
        Err(e) => Err(e@),
    }
}

/// The view of an item of a lazy sequence.
pub open spec fn item_view(item: Option<Result<Vec<Message>, Error>>) -> Option<
    Result<Seq<MessageView>, ErrorView>,
> {
    match item {
        Some(r) => Some(batch_view(r)),
        None => None,
    }
}

/// What a poll gives for a datagram that came to `s`.
/// - Read to the end: the batch, and the sequence goes on.
/// - Ended by the end of a dump: the batch of what came before it, unless
///   there is none, and the sequence has ended.
/// - An error payload: the error of its code, and the sequence goes on.
/// - Bytes that are no frame: the decoder's error, and the sequence goes on.
pub open spec fn poll_item(s: ScanView) -> Option<Result<Seq<MessageView>, ErrorView>> {
    match s.end {
        ScanEnd::Exhausted => Some(Ok(s.messages)),
        ScanEnd::Done => if s.messages.len() == 0 {
            None
        } else {
            Some(Ok(s.messages))
        },
        ScanEnd::Failed(code) => Some(Err(ErrorView::NetlinkMessage(NetlinkError::of_code(code)))),
        ScanEnd::Broken(e) => Some(Err(ErrorView::Netfilter(e))),
    }
}

/// What a poll gives for what a datagram came to.
pub fn poll_outcome(scan: Scan) -> (r: Polled)
    ensures
        item_view(r.item) == poll_item(scan@),
        r.finished == (scan.end is Done),
{
    match scan.end {
        ScanEnd::Exhausted => Polled { item: Some(Ok(scan.messages)), finished: false },
        ScanEnd::Done => {
            if scan.messages.len() == 0 {
                Polled { item: None, finished: true }
            } else {
                Polled { item: Some(Ok(scan.messages)), finished: true }
            }
        },
        ScanEnd::Failed(code) => Polled {
            item: Some(Err(Error::NetlinkMessage(NetlinkError::from(code)))),
            finished: false,
        },
        ScanEnd::Broken(e) => Polled { item: Some(Err(Error::Netfilter(e))), finished: false },
    }
}

/// What reading exactly one datagram gives: the messages up to its end or
/// to the end of a dump, or the error that ended the reading.
pub open spec fn once_result(s: ScanView) -> Result<Seq<MessageView>, ErrorView> {
    match s.end {
        ScanEnd::Exhausted => Ok(s.messages),
        ScanEnd::Done => Ok(s.messages),
        ScanEnd::Failed(code) => Err(ErrorView::NetlinkMessage(NetlinkError::of_code(code))),
        ScanEnd::Broken(e) => Err(ErrorView::Netfilter(e)),
    }
}

/// What reading exactly one datagram gives.
pub fn once_outcome(scan: Scan) -> (r: Result<Vec<Message>, Error>)
    ensures
        batch_view(r) == once_result(scan@),
{
    match scan.end {
        ScanEnd::Exhausted => Ok(scan.messages),
        ScanEnd::Done => Ok(scan.messages),
        ScanEnd::Failed(code) => Err(Error::NetlinkMessage(NetlinkError::from(code))),
        ScanEnd::Broken(e) => Err(Error::Netfilter(e)),
    }
}

/// Where the reading of a whole dump stands after a datagram.
#[derive(Debug)]
pub enum Dump {
    /// More datagrams are to be read; these are the messages so far.
    More(Vec<Message>),
    /// The dump is over, with this result.
    Finished(Result<Vec<Message>, Error>),
}

/// Where the reading of a dump stands, with the messages as a sequence.
pub enum DumpView {
    More(Seq<MessageView>),
    Finished(Result<Seq<MessageView>, ErrorView>),
}

impl View for Dump {
    type V = DumpView;

    open spec fn view(&self) -> DumpView {
        match self {
            Dump::More(v) => DumpView::More(message_views(v@)),
            Dump::Finished(r) => DumpView::Finished(batch_view(*r)),
        }
    }
}

/// Where the reading of a whole dump stands after a datagram that came to
/// `s`, with the messages `sofar` of the datagrams before it.
/// - Read to the end: the dump goes on.
/// - The end of the dump: all messages.
/// - An error payload: all messages if there are any, else the error of its
///   code.
/// - Bytes that are no frame: the decoder's error.
pub open spec fn dump_after(sofar: Seq<MessageView>, s: ScanView) -> DumpView {
    match s.end {
        ScanEnd::Exhausted => DumpView::More(sofar + s.messages),
        ScanEnd::Done => DumpView::Finished(Ok(sofar + s.messages)),
        ScanEnd::Failed(code) => if (sofar + s.messages).len() > 0 {
            DumpView::Finished(Ok(sofar + s.messages))
        } else {
            DumpView::Finished(Err(ErrorView::NetlinkMessage(NetlinkError::of_code(code))))
        },
        ScanEnd::Broken(e) => DumpView::Finished(Err(ErrorView::Netfilter(e))),
    }
}

/// Where the reading of a whole dump stands after one more datagram.
pub fn dump_step(sofar: Vec<Message>, scan: Scan) -> (r: Dump)
    ensures
        r@ == dump_after(message_views(sofar@), scan@),
{
    let mut all = sofar;
    let mut batch = scan.messages;
    let ghost a = all@;
    let ghost b = batch@;
    all.append(&mut batch);
    assert(message_views(all@) =~= message_views(a) + message_views(b));
    match scan.end {
        ScanEnd::Exhausted => Dump::More(all),
        ScanEnd::Done => Dump::Finished(Ok(all)),
        ScanEnd::Failed(code) => {
            if all.len() > 0 {
                Dump::Finished(Ok(all))
            } else {
                Dump::Finished(Err(Error::NetlinkMessage(NetlinkError::from(code))))
            }
        },
        ScanEnd::Broken(e) => Dump::Finished(Err(Error::Netfilter(e))),
    }
}

/// The receiving side of a socket to the kernel: where its lazy sequence of
/// batches stands. The sequence goes on until the end of a dump was met, and
/// never starts again. The datagrams are read by the owner of the socket and
/// handed in one by one.
#[derive(Debug, Clone, Copy, PartialEq, Eq, Structural)]
pub struct NfConntrackSocket {
    finished: bool,
}

impl NfConntrackSocket {
    /// Whether the sequence has ended.
    pub closed spec fn ended(&self) -> bool {
        self.finished
    }

    /// A sequence at its start.
    pub fn new() -> (r: NfConntrackSocket)
        ensures
            !r.ended(),
    {
        NfConntrackSocket { finished: false }
    }

    /// Whether there is something to wait for: the sequence has not ended.
    pub fn is_open(&self) -> (r: bool)
        ensures
            r == !self.ended(),
    {
        !self.finished
    }

    /// The next item of the sequence, given the datagram that was received.
    /// - The messages of the datagram are one batch, in the order of their
    ///   frames.
    /// - Messages that are followed by the end of a dump are given as a
    ///   batch, and the sequence ends with it; the end of a dump alone ends
    ///   the sequence at once.
    /// - An error payload gives the error of its code, bytes that are no
    ///   frame give the decoder's error, and the sequence goes on.
    /// - After the end there is no item, whatever was received.
    pub fn poll_next(&mut self, data: &[u8]) -> (r: Option<Result<Vec<Message>, Error>>)
        ensures
            old(self).ended() ==> r is None && final(self).ended(),
            !old(self).ended() ==> item_view(r) == poll_item(scan(crate::wire::steps(data@)))
                && final(self).ended() == (scan(crate::wire::steps(data@)).end is Done),
            !old(self).ended() && 0 < data@.len() < 16 ==> r matches Some(Err(Error::Netfilter(_))),
            !old(self).ended() && all_messages(crate::wire::steps(data@)) ==> item_view(r) == Some(
                Ok::<Seq<MessageView>, ErrorView>(held_messages(crate::wire::steps(data@))),
            ) && !final(self).ended(),
            forall|k: int|
                !old(self).ended() && 0 < k < crate::wire::steps(data@).len() && (
                #[trigger] crate::wire::steps(data@)[k]) is Done && all_messages(
                    crate::wire::steps(data@).take(k),
                ) ==> item_view(r) == Some(
                    Ok::<Seq<MessageView>, ErrorView>(
                        held_messages(crate::wire::steps(data@).take(k)),
                    ),
                ) && final(self).ended(),
            !old(self).ended() && crate::wire::steps(data@).len() > 0 ==> (crate::wire::steps(
                data@,
            )[0] matches FrameStep::Error(code) ==> item_view(r) == Some(
                Err::<Seq<MessageView>, ErrorView>(
                    ErrorView::NetlinkMessage(NetlinkError::of_code(code)),
                ),
            ) && !final(self).ended()),
    {
        if self.finished {
            return None;
        }
        proof {
            let steps = crate::wire::steps(data@);
            if all_messages(steps) {
                law_batch_order(steps);
                assert(scan(steps).messages =~= held_messages(steps));
            }
            assert forall|k: int|
                0 < k < steps.len() && (#[trigger] steps[k]) is Done && all_messages(
                    steps.take(k),
                ) implies scan(steps).end is Done && scan(steps).messages == held_messages(
                steps.take(k),
            ) && scan(steps).messages.len() > 0 by {
                let before = steps.take(k);
                let after = steps.skip(k + 1);
                assert(steps =~= before + seq![FrameStep::Done] + after);
                law_end_of_dump(before, after);
                law_batch_order(before);
                assert(scan(before).messages =~= held_messages(before));
            }
            if steps.len() > 0 {
                match steps[0] {
                    FrameStep::Error(code) => {
                        assert(steps =~= seq![FrameStep::Error(code)] + steps.skip(1));
                        law_error_passthrough(code, steps.skip(1));
                    },
                    _ => {},
                }
            }
        }
        let polled = poll_outcome(crate::wire::scan_datagram(data));
        self.finished = polled.finished;
        polled.item
    }
}

/// The messages of exactly one datagram.
pub fn recv_once_datagram(data: &[u8]) -> (r: Result<Vec<Message>, Error>)
    ensures
        batch_view(r) == once_result(scan(crate::wire::steps(data@))),
        0 < data@.len() < 16 ==> r matches Err(Error::Netfilter(_)),
{
    once_outcome(crate::wire::scan_datagram(data))
}

/// Where the reading of a whole dump stands after one more datagram.
pub fn recv_datagram(sofar: Vec<Message>, data: &[u8]) -> (r: Dump)
    ensures
        r@ == dump_after(message_views(sofar@), scan(crate::wire::steps(data@))),
{
    dump_step(sofar, crate::wire::scan_datagram(data))
}

/// The view of the result of sending.
pub open spec fn sent_view(r: Result<(), Error>) -> Result<(), ErrorView> {
    match r {
        Ok(()) => Ok(()),
        Err(e) => Err(e@),
    }
}

/// A transport to the kernel, or what stands for one. What a transport
/// does is its own affair: each kind of transport says which outcomes its
/// calls can have, and the callers of a transport are held to these.
pub trait ConntrackSocket: Sized {
    /// Whether sending `frame` can change the transport into `after` and
    /// have the result `r`.
    spec fn sends(&self, frame: RequestFrame, after: Self, r: Result<(), ErrorView>) -> bool;

    /// Whether reading a whole dump can change the transport into `after`
    /// and have the result `r`.
    spec fn receives(&self, after: Self, r: Result<Seq<MessageView>, ErrorView>) -> bool;

    /// Whether reading one datagram can change the transport into `after`
    /// and have the result `r`.
    spec fn receives_once(&self, after: Self, r: Result<Seq<MessageView>, ErrorView>) -> bool;

    /// Whether a poll can change the transport into `after` and give
    /// `item`.
    spec fn polls(&self, after: Self, item: Option<Result<Seq<MessageView>, ErrorView>>) -> bool;

    /// Sends one request frame.
    fn send(&mut self, frame: RequestFrame) -> (r: Result<(), Error>)
        ensures
            old(self).sends(frame, *final(self), sent_view(r)),
    ;

    /// Reads datagrams until a dump is over.
    fn recv(&mut self) -> (r: Result<Vec<Message>, Error>)
        ensures
            old(self).receives(*final(self), batch_view(r)),
    ;

    /// Reads exactly one datagram.
    fn recv_once(&mut self) -> (r: Result<Vec<Message>, Error>)
        ensures
            old(self).receives_once(*final(self), batch_view(r)),
    ;

    /// The next batch of the lazy sequence, or `None` where it has ended.
    fn poll_next(&mut self) -> (r: Option<Result<Vec<Message>, Error>>)
        ensures
            old(self).polls(*final(self), item_view(r)),
    ;
}

/// A transport that plays back messages it was given: those of its IPv4
/// list to a request about IPv4, those of its IPv6 list to a request about
/// IPv6, and both lists, IPv4 first, to a request about no family in
/// particular. Each poll gives one message.
#[derive(Debug)]
pub struct MockConntrackSocket {
    request: Option<RequestFrame>,
    ipv4_data: Vec<Message>,
    ipv6_data: Vec<Message>,
    ipv4_index: usize,
    ipv6_index: usize,
}

/// The state of the transport that plays back.
pub struct MockState {
    /// The request that is being answered, if any.
    pub request: Option<RequestFrame>,
    pub ipv4: Seq<MessageView>,
    pub ipv6: Seq<MessageView>,
    /// How many messages of the IPv4 list were given to this request.
    pub ipv4_index: nat,
    /// How many messages of the IPv6 list were given to this request.
    pub ipv6_index: nat,
}

impl MockState {
    /// The state between two requests: no request, nothing given.
    pub open spec fn cleared(self) -> MockState {
        MockState { request: None, ipv4_index: 0, ipv6_index: 0, ..self }
    }

    /// What sending a frame gives, and the state after it: a second request
    /// before the first was answered to its end is refused.
    pub open spec fn sent(self, frame: RequestFrame) -> (Result<(), ErrorView>, MockState) {
        if self.request is Some {
            (Err(ErrorView::Recv("request is already received"@)), self)
        } else {
            (Ok(()), MockState { request: Some(frame), ..self })
        }
    }

    /// Whether the next message is one of the IPv4 list.
    pub open spec fn gives_ipv4(self) -> bool {
        &&& self.request matches Some(f)
        &&& f.family != Family::Ipv6
        &&& self.ipv4_index < self.ipv4.len()
    }

    /// Whether the next message is one of the IPv6 list.
    pub open spec fn gives_ipv6(self) -> bool {
        &&& self.request matches Some(f)
        &&& f.family != Family::Ipv4
        &&& !self.gives_ipv4()
        &&& self.ipv6_index < self.ipv6.len()
    }

    /// Whether the lists that the request is about are both empty.
    pub open spec fn has_nothing(self) -> bool {
        self.request matches Some(f) && match f.family {
            Family::Ipv4 => self.ipv4.len() == 0,
            Family::Ipv6 => self.ipv6.len() == 0,
            Family::Unspec => self.ipv4.len() == 0 && self.ipv6.len() == 0,
        }
    }

    /// What a poll gives, and the state after it.
    /// - Before a request: an error.
    /// - Where the lists that the request is about are empty: an error.
    /// - While a message is left: a batch of the next one.
    /// - After the last: the end of the sequence, and the state is cleared.
    pub open spec fn polled(self) -> (Option<Result<Seq<MessageView>, ErrorView>>, MockState) {
        if self.request is None {
            (Some(Err(ErrorView::Recv("request is not received yet"@))), self)
        } else if self.has_nothing() {
            (Some(Err(ErrorView::Poll("empty"@))), self)
        } else if self.gives_ipv4() {
            (
                Some(Ok(seq![self.ipv4[self.ipv4_index as int]])),
                MockState { ipv4_index: self.ipv4_index + 1, ..self },
            )
        } else if self.gives_ipv6() {
            (
                Some(Ok(seq![self.ipv6[self.ipv6_index as int]])),
                MockState { ipv6_index: self.ipv6_index + 1, ..self },
            )
        } else {
            (None, self.cleared())
        }
    }
}

impl View for MockConntrackSocket {
    type V = MockState;

    closed spec fn view(&self) -> MockState {
        MockState {
            request: self.request,
            ipv4: message_views(self.ipv4_data@),
            ipv6: message_views(self.ipv6_data@),
            ipv4_index: self.ipv4_index as nat,
            ipv6_index: self.ipv6_index as nat,
        }
    }
}

/// The message of each flow, in the order of the flows.
pub open spec fn flow_messages(flows: Seq<Flow>) -> Seq<MessageView> {
    Seq::new(
        flows.len(),
        |i: int|
            MessageView {
                flag: 0,
                res_id: 0,
                msg: crate::attr::CtMessageView::New(flows[i].spec_attrs()),
            },
    )
}

/// Whether each flow has a message: none is a TCP flow without a state.
pub open spec fn all_have_messages(flows: Seq<Flow>) -> bool {
    forall|i: int|
        0 <= i < flows.len() ==> !(#[trigger] flows[i].protocol == crate::flow::Protocol::Tcp
            && flows[i].tcp_state is None)
}

fn messages_of(flows: &Vec<Flow>) -> (r: Result<Vec<Message>, Error>)
    ensures
        match r {
            Ok(v) => all_have_messages(flows@) && message_views(v@) == flow_messages(flows@),
            Err(e) => !all_have_messages(flows@) && e@ == ErrorView::Flow(
                crate::flow::FlowErrorView::MissingField("tcp_state"@),
            ),
        },
{
    let mut out: Vec<Message> = Vec::new();
    let mut i: usize = 0;
    while i < flows.len()
        invariant
            i <= flows.len(),
            out@.len() == i,
            forall|j: int|
                0 <= j < i ==> !(#[trigger] flows@[j].protocol == crate::flow::Protocol::Tcp
                    && flows@[j].tcp_state is None),
            forall|j: int| 0 <= j < i ==> #[trigger] out@[j]@ == flow_messages(flows@)[j],
        decreases flows.len() - i,
    {
        match flows[i].to_message() {
            Ok(m) => {
                out.push(Message::new(m, 0, 0));
            },
            Err(e) => {
                return Err(Error::Flow(e));
            },
        }
        i = i + 1;
    }
    assert(message_views(out@) =~= flow_messages(flows@));
    Ok(out)
}

impl MockConntrackSocket {
    /// A transport with nothing to play back.
    pub fn new() -> (r: MockConntrackSocket)
        ensures
            r@ == (MockState {
                request: None,
                ipv4: Seq::empty(),
                ipv6: Seq::empty(),
                ipv4_index: 0,
                ipv6_index: 0,
            }),
    {
        let r = MockConntrackSocket {
            request: None,
            ipv4_data: Vec::new(),
            ipv6_data: Vec::new(),
            ipv4_index: 0,
            ipv6_index: 0,
        };
        assert(message_views(r.ipv4_data@) =~= Seq::empty());
        assert(message_views(r.ipv6_data@) =~= Seq::empty());
        r
    }

    /// A transport that plays back the messages of these flows. It fails
    /// where a flow has no message: a TCP flow without a state.
    pub fn with_flow(ipv4_flows: Vec<Flow>, ipv6_flows: Vec<Flow>) -> (r: Result<
        MockConntrackSocket,
        Error,
    >)
        ensures
            match r {
                Ok(m) => all_have_messages(ipv4_flows@) && all_have_messages(ipv6_flows@) && m@
                    == (MockState {
                    request: None,
                    ipv4: flow_messages(ipv4_flows@),
                    ipv6: flow_messages(ipv6_flows@),
                    ipv4_index: 0,
                    ipv6_index: 0,
                }),
                Err(e) => !(all_have_messages(ipv4_flows@) && all_have_messages(ipv6_flows@))
                    && e@ == ErrorView::Flow(
                    crate::flow::FlowErrorView::MissingField("tcp_state"@),
                ),
            },
    {
        let ipv4_data = match messages_of(&ipv4_flows) {
            Ok(v) => v,
            Err(e) => {
                return Err(e);
            },
        };
        let ipv6_data = match messages_of(&ipv6_flows) {
            Ok(v) => v,
            Err(e) => {
                return Err(e);
            },
        };
        Ok(
            MockConntrackSocket {
                request: None,
                ipv4_data,
                ipv6_data,
                ipv4_index: 0,
                ipv6_index: 0,
            },
        )
    }

    /// A transport that plays back these messages.
    pub fn with_event(ipv4_event: Vec<Message>, ipv6_event: Vec<Message>) -> (r:
        MockConntrackSocket)
        ensures
            r@ == (MockState {
                request: None,
                ipv4: message_views(ipv4_event@),
                ipv6: message_views(ipv6_event@),
                ipv4_index: 0,
                ipv6_index: 0,
            }),
    {
        MockConntrackSocket {
            request: None,
            ipv4_data: ipv4_event,
            ipv6_data: ipv6_event,
            ipv4_index: 0,
            ipv6_index: 0,
        }
    }

    fn clear(&mut self)
        ensures
            final(self)@ == old(self)@.cleared(),
    {
        self.request = None;
        self.ipv4_index = 0;
        self.ipv6_index = 0;
    }

    /// Takes a request.
    pub fn submit(&mut self, frame: RequestFrame) -> (r: Result<(), Error>)
        ensures
            sent_view(r) == old(self)@.sent(frame).0,
            final(self)@ == old(self)@.sent(frame).1,
    {
        if self.request.is_some() {
            return Err(Error::Recv("request is already received".to_owned()));
        }
        self.request = Some(frame);
        Ok(())
    }

    fn give_ipv4(&mut self) -> (r: Vec<Message>)
        requires
            old(self).ipv4_index < old(self).ipv4_data.len(),
        ensures
            message_views(r@) == seq![old(self)@.ipv4[old(self)@.ipv4_index as int]],
            final(self)@ == (MockState { ipv4_index: old(self)@.ipv4_index + 1, ..old(self)@ }),
    {
        let mut data: Vec<Message> = Vec::new();
        data.push(self.ipv4_data[self.ipv4_index].copy());
        self.ipv4_index = self.ipv4_index + 1;
        assert(message_views(data@) =~= seq![old(self)@.ipv4[old(self)@.ipv4_index as int]]);
        data
    }

    fn give_ipv6(&mut self) -> (r: Vec<Message>)
        requires
            old(self).ipv6_index < old(self).ipv6_data.len(),
        ensures
            message_views(r@) == seq![old(self)@.ipv6[old(self)@.ipv6_index as int]],
            final(self)@ == (MockState { ipv6_index: old(self)@.ipv6_index + 1, ..old(self)@ }),
    {
        let mut data: Vec<Message> = Vec::new();
        data.push(self.ipv6_data[self.ipv6_index].copy());
        self.ipv6_index = self.ipv6_index + 1;
        assert(message_views(data@) =~= seq![old(self)@.ipv6[old(self)@.ipv6_index as int]]);
        data
    }

    /// The next batch.
    pub fn poll(&mut self) -> (r: Option<Result<Vec<Message>, Error>>)
        ensures
            item_view(r) == old(self)@.polled().0,
            final(self)@ == old(self)@.polled().1,
    {
        let family = match self.request {
            Some(f) => f.family,
            None => {
                return Some(Err(Error::Recv("request is not received yet".to_owned())));
            },
        };
        match family {
            Family::Ipv4 => {
                if self.ipv4_data.len() == 0 {
                    return Some(Err(Error::Poll("empty".to_owned())));
                }
                if self.ipv4_data.len() > self.ipv4_index {
                    Some(Ok(self.give_ipv4()))
                } else {
                    self.clear();
                    None
                }
            },
            Family::Ipv6 => {
                if self.ipv6_data.len() == 0 {
                    return Some(Err(Error::Poll("empty".to_owned())));
                }
                if self.ipv6_data.len() > self.ipv6_index {
                    Some(Ok(self.give_ipv6()))
                } else {
                    self.clear();
                    None
                }
            },
            Family::Unspec => {
                if self.ipv4_data.len() == 0 && self.ipv6_data.len() == 0 {
                    return Some(Err(Error::Poll("empty".to_owned())));
                }
                if self.ipv4_data.len() > self.ipv4_index {
                    return Some(Ok(self.give_ipv4()));
                }
                if self.ipv6_data.len() > self.ipv6_index {
                    Some(Ok(self.give_ipv6()))
                } else {
                    self.clear();
                    None
                }
            },
        }
    }
}

impl ConntrackSocket for MockConntrackSocket {
    open spec fn sends(&self, frame: RequestFrame, after: Self, r: Result<(), ErrorView>) -> bool {
        (r, after@) == self@.sent(frame)
    }

    /// Reading gives nothing and changes nothing: only polls play back.
    open spec fn receives(&self, after: Self, r: Result<Seq<MessageView>, ErrorView>) -> bool {
        after@ == self@ && r == Ok::<Seq<MessageView>, ErrorView>(Seq::empty())
    }

    open spec fn receives_once(&self, after: Self, r: Result<Seq<MessageView>, ErrorView>) -> bool {
        after@ == self@ && r == Ok::<Seq<MessageView>, ErrorView>(Seq::empty())
    }

    open spec fn polls(
        &self,
        after: Self,
        item: Option<Result<Seq<MessageView>, ErrorView>>,
    ) -> bool {
        (item, after@) == self@.polled()
    }

    fn send(&mut self, frame: RequestFrame) -> (r: Result<(), Error>) {
        self.submit(frame)
    }

    fn recv(&mut self) -> (r: Result<Vec<Message>, Error>) {
        let out: Vec<Message> = Vec::new();
        assert(message_views(out@) =~= Seq::empty());
        Ok(out)
    }

    fn recv_once(&mut self) -> (r: Result<Vec<Message>, Error>) {
        let out: Vec<Message> = Vec::new();
        assert(message_views(out@) =~= Seq::empty());
        Ok(out)
    }

    fn poll_next(&mut self) -> (r: Option<Result<Vec<Message>, Error>>) {
        self.poll()
    }
}

/// A datagram whose positions all hold messages comes to these messages, in
/// the order of the positions.
pub proof fn law_batch_order(steps: Seq<FrameStep>)
    requires
        forall|i: int| 0 <= i < steps.len() ==> steps[i] is Message,
    ensures
        scan(steps).end is Exhausted,
        scan(steps).messages.len() == steps.len(),
        forall|i: int|
            0 <= i < steps.len() ==> steps[i] == FrameStep::Message(
                #[trigger] scan(steps).messages[i],
            ),
        poll_item(scan(steps)) == Some(
            Ok::<Seq<MessageView>, ErrorView>(scan(steps).messages),
        ),
    decreases steps.len(),
{
    if steps.len() > 0 {
        law_batch_order(steps.skip(1));
        let rest = scan(steps.skip(1));
        assert forall|i: int| 0 <= i < steps.len() implies steps[i] == FrameStep::Message(
            #[trigger] scan(steps).messages[i],
        ) by {
            if i > 0 {
                assert(steps.skip(1)[i - 1] == steps[i]);
                assert(scan(steps).messages[i] == rest.messages[i - 1]);
            }
        }
    }
}

/// Messages that are followed by the end of a dump are given as one batch,
/// in their order, and the sequence ends with it, whatever follows the end
/// of the dump in the datagram.
pub proof fn law_end_of_dump(before: Seq<FrameStep>, after: Seq<FrameStep>)
    requires
        forall|i: int| 0 <= i < before.len() ==> before[i] is Message,
    ensures
        scan(before + seq![FrameStep::Done] + after).end is Done,
        scan(before + seq![FrameStep::Done] + after).messages == scan(before).messages,
        scan(before + seq![FrameStep::Done] + after).messages.len() == before.len(),
        poll_item(scan(before + seq![FrameStep::Done] + after)) == if before.len() == 0 {
            None
        } else {
            Some(Ok::<Seq<MessageView>, ErrorView>(scan(before).messages))
        },
    decreases before.len(),
{
    let all = before + seq![FrameStep::Done] + after;
    law_batch_order(before);
    if before.len() == 0 {
        assert(all[0] == FrameStep::Done);
    } else {
        assert(all[0] == before[0]);
        assert(all.skip(1) =~= before.skip(1) + seq![FrameStep::Done] + after);
        law_end_of_dump(before.skip(1), after);
        law_batch_order(before.skip(1));
        assert(scan(all).messages =~= scan(before).messages);
    }
}

/// A datagram that begins with an error payload gives the error of its code
/// as the next item, and the sequence goes on.
pub proof fn law_error_passthrough(code: i32, after: Seq<FrameStep>)
    ensures
        scan(seq![FrameStep::Error(code)] + after).end == ScanEnd::Failed(code),
        poll_item(scan(seq![FrameStep::Error(code)] + after)) == Some(
            Err::<Seq<MessageView>, ErrorView>(
                ErrorView::NetlinkMessage(NetlinkError::of_code(code)),
            ),
        ),
        code == -1 ==> NetlinkError::of_code(code) == NetlinkError::OperationNotPermitted,
{
    assert((seq![FrameStep::Error(code)] + after)[0] == FrameStep::Error(code));
}

} // verus!

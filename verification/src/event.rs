//! What a message from the kernel means to the caller.

use crate::attr::CtMessage;
use crate::attr::CtMessageView;
use crate::error::agrees;
use crate::error::Error;
use crate::error::ErrorView;
use crate::flow::Flow;
use crate::flow::FlowError;
use crate::flow::FlowErrorView;
use crate::message::Message;
use crate::message::MessageType;
use crate::message::MessageView;
use crate::message::FLAG_CREATE;
use crate::stats::counter;
use crate::stats::first_count;
use crate::stats::Stats;
use crate::text::decimal;
use crate::text::with_number;
use vstd::prelude::*;

verus! {

/// The type of the message that answers a request for the statistics of each
/// CPU.
pub const TYPE_STATS_CPU: u8 = 4;

/// The type of the message that answers a request for the count of tracked
/// entries.
pub const TYPE_STATS: u8 = 5;

/// One thing that the kernel told: a flow, the count of tracked entries, or
/// the statistics of a CPU.
#[derive(Debug, Clone, Copy, PartialEq, Eq)]
pub enum Event {
    Flow(Flow),
    Count(u32),
    Stats(Stats),
}

/// The kind of event that a message about a flow reports: a deleted flow is
/// destroyed whatever the flags say; another one is new where the frame has
/// the create flag, and updated where it has not.
pub open spec fn event_kind(deleted: bool, flag: u16) -> MessageType {
    if deleted {
        MessageType::Destroy
    } else if flag & FLAG_CREATE != 0 {
        MessageType::New
    } else {
        MessageType::Update
    }
}

/// The text of the error for a message of a type that means nothing here.
pub open spec fn unknown_type_text(t: u8) -> Seq<char> {
    "unknown message type: "@ + decimal(t as nat)
}

/// The flow that a message carries: a message of a new, changed or deleted
/// flow carries the flow that its attributes describe, and a message of any
/// other type carries none.
pub open spec fn flow_of_message(m: MessageView) -> Result<Flow, FlowErrorView> {
    match m.msg {
        CtMessageView::New(attrs) => Flow::decoded(attrs, event_kind(false, m.flag)),
        CtMessageView::Delete(attrs) => Flow::decoded(attrs, event_kind(true, m.flag)),
        _ => Err(FlowErrorView::InvalidMessageType(m.msg.type_number())),
    }
}

/// The flow that a message carries.
pub fn flow_from_message(msg: &Message) -> (r: Result<Flow, FlowError>)
    ensures
        crate::flow::agrees(r, flow_of_message(msg@)),
{
    match &msg.msg {
        CtMessage::New(attrs) => {
            let kind = if msg.flag & FLAG_CREATE != 0 {
                MessageType::New
            } else {
                MessageType::Update
            };
            Flow::decode(attrs, kind)
        },
        CtMessage::Delete(attrs) => Flow::decode(attrs, MessageType::Destroy),
        _ => Err(FlowError::InvalidMessageType(msg.msg.type_number())),
    }
}

impl Event {
    /// The event that a message means, or why it means none.
    /// - A message of a new, changed or deleted flow means the flow.
    /// - A message of type 5 with attributes means the count that they
    ///   give, and it is an error where they give none.
    /// - A message of type 4 with attributes means the statistics of the
    ///   CPU that the resource id names.
    /// - Every other message is of an unknown type: a query, a message of
    ///   another type, and a message of type 4 or 5 without attributes,
    ///   which is a request and no answer.
    pub open spec fn of_message(m: MessageView) -> Result<Event, ErrorView> {
        match m.msg {
            CtMessageView::New(_) => match flow_of_message(m) {
                Ok(f) => Ok(Event::Flow(f)),
                Err(e) => Err(ErrorView::Flow(e)),
            },
            CtMessageView::Delete(_) => match flow_of_message(m) {
                Ok(f) => Ok(Event::Flow(f)),
                Err(e) => Err(ErrorView::Flow(e)),
            },
            CtMessageView::Other { message_type, attributes } => if message_type == TYPE_STATS
                && attributes.len() > 0 {
                match first_count(attributes) {
                    Some(c) => Ok(Event::Count(c)),
                    None => Err(ErrorView::Message("failed to get the counter"@)),
                }
            } else if message_type == TYPE_STATS_CPU && attributes.len() > 0 {
                Ok(Event::Stats(Stats::zero(m.res_id).with_attrs(attributes)))
            } else {
                Err(ErrorView::Message(unknown_type_text(message_type)))
            },
            CtMessageView::Get(_) => Err(ErrorView::Message(unknown_type_text(1))),
        }
    }

    /// The event that a message means.
    pub fn from_message(msg: &Message) -> (r: Result<Event, Error>)
        ensures
            agrees(r, Event::of_message(msg@)),
    {
        match &msg.msg {
            CtMessage::New(_) => {
                match flow_from_message(msg) {
                    Ok(f) => Ok(Event::Flow(f)),
                    Err(e) => Err(Error::Flow(e)),
                }
            },
            CtMessage::Delete(_) => {
                match flow_from_message(msg) {
                    Ok(f) => Ok(Event::Flow(f)),
                    Err(e) => Err(Error::Flow(e)),
                }
            },
            CtMessage::Other { message_type, attributes } => {
                if *message_type == TYPE_STATS && attributes.len() > 0 {
                    match counter(attributes) {
                        Some(c) => Ok(Event::Count(c)),
                        None => Err(Error::Message("failed to get the counter".to_owned())),
                    }
                } else if *message_type == TYPE_STATS_CPU && attributes.len() > 0 {
                    Ok(Event::Stats(Stats::from_nlas(msg.res_id, attributes)))
                } else {
                    Err(Error::Message(with_number("unknown message type: ", *message_type)))
                }
            },
            CtMessage::Get(_) => Err(Error::Message(with_number("unknown message type: ", 1))),
        }
    }

    /// The events that the messages mean, in their order, or the error of
    /// the first message that means none.
    pub open spec fn of_messages(s: Seq<MessageView>) -> Result<Seq<Event>, ErrorView>
        decreases s.len(),
    {
        if s.len() == 0 {
            Ok(Seq::empty())
        } else {
            match Event::of_message(s[0]) {
                Err(e) => Err(e),
                Ok(ev) => match Event::of_messages(s.skip(1)) {
                    Err(e) => Err(e),
                    Ok(rest) => Ok(seq![ev] + rest),
                },
            }
        }
    }
}

/// Only four kinds of messages mean an event: those of a new or changed
/// flow, those of a deleted flow, and those of type 4 and of type 5 that
/// have attributes. Every other message gives the error that tells its
/// type.
pub proof fn law_unknown_types(m: MessageView)
    ensures
        !(m.msg is New || m.msg is Delete || (m.msg matches CtMessageView::Other {
            message_type,
            attributes,
        } && (message_type == TYPE_STATS || message_type == TYPE_STATS_CPU) && attributes.len()
            > 0)) ==> Event::of_message(m) == Err::<Event, ErrorView>(
            ErrorView::Message(unknown_type_text(m.msg.type_number())),
        ),
{
}

/// A message of a new or changed flow with the create flag means a new flow,
/// without it a changed one, and a message of a deleted flow means a
/// destroyed one whatever its flags are.
pub proof fn law_event_classification(m: MessageView)
    ensures
        m.msg is New ==> (Event::of_message(m) matches Ok(e) ==> (e matches Event::Flow(f)
            && f.event_type == if m.flag & FLAG_CREATE != 0 {
            MessageType::New
        } else {
            MessageType::Update
        })),
        m.msg is Delete ==> (Event::of_message(m) matches Ok(e) ==> (e matches Event::Flow(f)
            && f.event_type == MessageType::Destroy)),
{
}

} // verus!

//! The errors of the library.

use crate::flow::FlowError;
use crate::flow::FlowErrorView;
use netlink_packet_core::DecodeError;
use vstd::prelude::*;

verus! {

/// The kind of failure that the kernel reports in an error payload.
#[derive(Debug, Clone, Copy, PartialEq, Eq, Structural)]
pub enum NetlinkError {
    OperationNotPermitted,
    NoEntry,
    IO,
    AlreadyExists,
    InvalidArgument,
    Other(i32),
}

impl NetlinkError {
    /// The kind that an error code stands for.
    pub open spec fn of_code(e: i32) -> NetlinkError {
        if e == -1 {
            NetlinkError::OperationNotPermitted
        } else if e == -2 {
            NetlinkError::NoEntry
        } else if e == -5 {
            NetlinkError::IO
        } else if e == -17 {
            NetlinkError::AlreadyExists
        } else if e == -22 {
            NetlinkError::InvalidArgument
        } else {
            NetlinkError::Other(e)
        }
    }
}

impl From<i32> for NetlinkError {
    fn from(e: i32) -> (r: NetlinkError) {
        match e {
            -1 => NetlinkError::OperationNotPermitted,
            -2 => NetlinkError::NoEntry,
            -5 => NetlinkError::IO,
            -17 => NetlinkError::AlreadyExists,
            -22 => NetlinkError::InvalidArgument,
            _ => NetlinkError::Other(e),
        }
    }
}

impl vstd::std_specs::convert::FromSpecImpl<i32> for NetlinkError {
    open spec fn obeys_from_spec() -> bool {
        true
    }

    open spec fn from_spec(e: i32) -> NetlinkError {
        NetlinkError::of_code(e)
    }
}

/// What can go wrong in the library and around it.
#[derive(Debug)]
pub enum Error {
    /// The socket could not be made or bound; the text is the cause.
    Socket(String),
    /// The text or the number stands for no family.
    InvalidFamily(String),
    /// The text stands for no table.
    InvalidTable(String),
    /// A request could not be sent; the text is the cause.
    Send(String),
    /// No datagram could be received; the text is the cause.
    Recv(String),
    /// The socket could not be polled; the text is the cause.
    Poll(String),
    /// A frame could not be decoded.
    Netfilter(DecodeError),
    /// The kernel answered with an error payload.
    NetlinkMessage(NetlinkError),
    /// A message describes no flow.
    Flow(FlowError),
    /// A message means nothing here; the text says why.
    Message(String),
}

/// An error with its texts as sequences of characters.
pub enum ErrorView {
    Socket(Seq<char>),
    InvalidFamily(Seq<char>),
    InvalidTable(Seq<char>),
    Send(Seq<char>),
    Recv(Seq<char>),
    Poll(Seq<char>),
    Netfilter(DecodeError),
    NetlinkMessage(NetlinkError),
    Flow(FlowErrorView),
    Message(Seq<char>),
}

impl View for Error {
    type V = ErrorView;

    open spec fn view(&self) -> ErrorView {
        match self {
            Error::Socket(s) => ErrorView::Socket(s@),
            Error::InvalidFamily(s) => ErrorView::InvalidFamily(s@),
            Error::InvalidTable(s) => ErrorView::InvalidTable(s@),
            Error::Send(s) => ErrorView::Send(s@),
            Error::Recv(s) => ErrorView::Recv(s@),
            Error::Poll(s) => ErrorView::Poll(s@),
            Error::Netfilter(e) => ErrorView::Netfilter(*e),
            Error::NetlinkMessage(e) => ErrorView::NetlinkMessage(*e),
            Error::Flow(e) => ErrorView::Flow(e@),
            Error::Message(s) => ErrorView::Message(s@),
        }
    }
}

/// Whether a result is the one that a model gives: the same value, or
/// an error with the same view.
pub open spec fn agrees<T>(r: Result<T, Error>, s: Result<T, ErrorView>) -> bool {
    match (r, s) {
        (Ok(a), Ok(b)) => a == b,
        (Err(e), Err(v)) => e@ == v,
        _ => false,
    }
}

} // verus!

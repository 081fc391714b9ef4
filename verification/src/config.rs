//! The values that a command is given as texts: how the output is made, and
//! which table, family, protocol and status are asked for.

use crate::text::digits_value;
use crate::text::lowercase;
use crate::text::same_text;
use crate::text::to_lowercase;
use vstd::prelude::*;

verus! {

/// Why a text is no value.
#[derive(Debug)]
pub enum Error {
    /// The text stands for nothing; it is handed back.
    InvalidValue(String),
}

/// Whether a result is the value that a name stands for, or the error that
/// hands the text back.
pub open spec fn named_or_refused<T>(
    r: Result<T, Error>,
    named: Option<T>,
    text: Seq<char>,
) -> bool {
    match r {
        Ok(v) => named == Some(v),
        Err(Error::InvalidValue(t)) => named is None && t@ == text,
    }
}

/// How the output is made.
#[derive(Debug, Clone, Copy, PartialEq, Eq, Structural)]
pub enum Output {
    Table,
    Json,
}

impl Output {
    pub open spec fn named(name: Seq<char>) -> Option<Output> {
        if name == "json"@ {
            Some(Output::Json)
        } else if name == "table"@ {
            Some(Output::Table)
        } else {
            None
        }
    }

    /// The way of output that a lowercase name stands for.
    pub fn from_lowercase(name: &str) -> (r: Option<Output>)
        ensures
            r == Output::named(name@),
    {
        if same_text(name, "json") {
            Some(Output::Json)
        } else if same_text(name, "table") {
            Some(Output::Table)
        } else {
            None
        }
    }

    /// The way of output that a name stands for, whatever its case.
    pub fn from_name(s: &str) -> (r: Result<Output, Error>)
        ensures
            named_or_refused(r, Output::named(lowercase(s@)), s@),
    {
        let lower = to_lowercase(s);
        match Output::from_lowercase(lower.as_str()) {
            Some(v) => Ok(v),
            None => Err(Error::InvalidValue(s.to_owned())),
        }
    }
}

impl Default for Output {
    fn default() -> (r: Output)
        ensures
            r == Output::Table,
    {
        Output::Table
    }
}

/// The table that a command reads.
#[derive(Debug, Clone, Copy, PartialEq, Eq, Structural)]
pub enum Table {
    Conntrack,
    Dying,
    Unconfirmed,
}

impl Table {
    pub open spec fn named(name: Seq<char>) -> Option<Table> {
        if name == "conntrack"@ {
            Some(Table::Conntrack)
        } else if name == "dying"@ {
            Some(Table::Dying)
        } else if name == "unconfirmed"@ {
            Some(Table::Unconfirmed)
        } else {
            None
        }
    }

    /// The table that a lowercase name stands for.
    pub fn from_lowercase(name: &str) -> (r: Option<Table>)
        ensures
            r == Table::named(name@),
    {
        if same_text(name, "conntrack") {
            Some(Table::Conntrack)
        } else if same_text(name, "dying") {
            Some(Table::Dying)
        } else if same_text(name, "unconfirmed") {
            Some(Table::Unconfirmed)
        } else {
            None
        }
    }

    /// The table that a name stands for, whatever its case.
    pub fn from_name(s: &str) -> (r: Result<Table, Error>)
        ensures
            named_or_refused(r, Table::named(lowercase(s@)), s@),
    {
        let lower = to_lowercase(s);
        match Table::from_lowercase(lower.as_str()) {
            Some(v) => Ok(v),
            None => Err(Error::InvalidValue(s.to_owned())),
        }
    }

    /// The table of the library that this one is.
    pub open spec fn spec_table(&self) -> crate::Table {
        match self {
            Table::Conntrack => crate::Table::Conntrack,
            Table::Dying => crate::Table::Dying,
            Table::Unconfirmed => crate::Table::Unconfirmed,
        }
    }

    #[verifier::when_used_as_spec(spec_table)]
    pub fn table(&self) -> (r: crate::Table)
        ensures
            r == self.spec_table(),
    {
        match self {
            Table::Conntrack => crate::Table::Conntrack,
            Table::Dying => crate::Table::Dying,
            Table::Unconfirmed => crate::Table::Unconfirmed,
        }
    }
}

impl Default for Table {
    fn default() -> (r: Table)
        ensures
            r == Table::Conntrack,
    {
        Table::Conntrack
    }
}

/// The family that a command is about; `Any` is no family in particular.
#[derive(Debug, Clone, Copy, PartialEq, Eq, Structural)]
pub enum Family {
    Ipv4,
    Ipv6,
    Any,
}

impl Family {
    pub open spec fn named(name: Seq<char>) -> Option<Family> {
        if name == "ipv4"@ {
            Some(Family::Ipv4)
        } else if name == "ipv6"@ {
            Some(Family::Ipv6)
        } else if name == "any"@ {
            Some(Family::Any)
        } else {
            None
        }
    }

    /// The family that a lowercase name stands for.
    pub fn from_lowercase(name: &str) -> (r: Option<Family>)
        ensures
            r == Family::named(name@),
    {
        if same_text(name, "ipv4") {
            Some(Family::Ipv4)
        } else if same_text(name, "ipv6") {
            Some(Family::Ipv6)
        } else if same_text(name, "any") {
            Some(Family::Any)
        } else {
            None
        }
    }

    /// The family that a name stands for, whatever its case.
    pub fn from_name(s: &str) -> (r: Result<Family, Error>)
        ensures
            named_or_refused(r, Family::named(lowercase(s@)), s@),
    {
        let lower = to_lowercase(s);
        match Family::from_lowercase(lower.as_str()) {
            Some(v) => Ok(v),
            None => Err(Error::InvalidValue(s.to_owned())),
        }
    }

    /// The family of the library that this one is.
    pub open spec fn spec_family(&self) -> crate::Family {
        match self {
            Family::Ipv4 => crate::Family::Ipv4,
            Family::Ipv6 => crate::Family::Ipv6,
            Family::Any => crate::Family::Unspec,
        }
    }

    #[verifier::when_used_as_spec(spec_family)]
    pub fn family(&self) -> (r: crate::Family)
        ensures
            r == self.spec_family(),
    {
        match self {
            Family::Ipv4 => crate::Family::Ipv4,
            Family::Ipv6 => crate::Family::Ipv6,
            Family::Any => crate::Family::Unspec,
        }
    }
}

impl Default for Family {
    fn default() -> (r: Family)
        ensures
            r == Family::Ipv4,
    {
        Family::Ipv4
    }
}

/// The protocol that a command is about; `Any` is no protocol in
/// particular.
#[derive(Debug, Clone, Copy, PartialEq, Eq, Structural)]
pub enum Protocol {
    Any,
    Tcp,
    Udp,
}

impl Protocol {
    pub open spec fn named(name: Seq<char>) -> Option<Protocol> {
        if name == "any"@ {
            Some(Protocol::Any)
        } else if name == "tcp"@ {
            Some(Protocol::Tcp)
        } else if name == "udp"@ {
            Some(Protocol::Udp)
        } else {
            None
        }
    }

    /// The protocol that a lowercase name stands for.
    pub fn from_lowercase(name: &str) -> (r: Option<Protocol>)
        ensures
            r == Protocol::named(name@),
    {
        if same_text(name, "any") {
            Some(Protocol::Any)
        } else if same_text(name, "tcp") {
            Some(Protocol::Tcp)
        } else if same_text(name, "udp") {
            Some(Protocol::Udp)
        } else {
            None
        }
    }

    /// The protocol that a name stands for, whatever its case.
    pub fn from_name(s: &str) -> (r: Result<Protocol, Error>)
        ensures
            named_or_refused(r, Protocol::named(lowercase(s@)), s@),
    {
        let lower = to_lowercase(s);
        match Protocol::from_lowercase(lower.as_str()) {
            Some(v) => Ok(v),
            None => Err(Error::InvalidValue(s.to_owned())),
        }
    }

    /// The protocol of the library that a table is laid out for: TCP where
    /// no protocol in particular is asked for.
    pub open spec fn spec_protocol(&self) -> crate::flow::Protocol {
        match self {
            Protocol::Udp => crate::flow::Protocol::Udp,
            _ => crate::flow::Protocol::Tcp,
        }
    }

    #[verifier::when_used_as_spec(spec_protocol)]
    pub fn protocol(&self) -> (r: crate::flow::Protocol)
        ensures
            r == self.spec_protocol(),
    {
        match self {
            Protocol::Any => crate::flow::Protocol::Tcp,
            Protocol::Tcp => crate::flow::Protocol::Tcp,
            Protocol::Udp => crate::flow::Protocol::Udp,
        }
    }
}

impl Default for Protocol {
    fn default() -> (r: Protocol)
        ensures
            r == Protocol::Any,
    {
        Protocol::Any
    }
}

/// The status that a command asks for: one of the four flags that have a
/// name here, or the flags of a number.
#[derive(Debug, Clone, Copy, PartialEq, Eq, Structural)]
pub enum Status {
    Assured,
    SeenReply,
    FixedTimeout,
    Expected,
    Detailed(u16),
}

/// The number that a text stands for as a 16-bit number: the text is an
/// optional plus sign and then decimal digits only, at least one, and their
/// value is at most 65535. Zeros in front do not count.
pub open spec fn number_of_text(s: Seq<char>) -> Option<u16> {
    let digits = if s.len() > 0 && s[0] == '+' {
        s.skip(1)
    } else {
        s
    };
    if digits.len() == 0 {
        None
    } else {
        match digits_value(digits) {
            Some(v) => if v <= 65535 {
                Some(v as u16)
            } else {
                None
            },
            None => None,
        }
    }
}

/// `str::parse::<u16>`: the number that a text stands for, which is an
/// optional plus sign followed by decimal digits only; a text without a
/// digit, with any other character, or with a value above 65535 stands for
/// none.
#[verifier::external_body]
fn parse_u16(s: &str) -> (r: Option<u16>)
    ensures
        r == number_of_text(s@),
{
    s.parse::<u16>().ok()
}

impl Status {
    /// The status that a lowercase name stands for.
    pub open spec fn named(name: Seq<char>) -> Option<Status> {
        if name == "assured"@ {
            Some(Status::Assured)
        } else if name == "seen_reply"@ {
            Some(Status::SeenReply)
        } else if name == "fixed_timeout"@ {
            Some(Status::FixedTimeout)
        } else if name == "expected"@ {
            Some(Status::Expected)
        } else {
            None
        }
    }

    /// The status that a text stands for: the one that its lowercase form
    /// names, else the one of the number that it is.
    pub open spec fn of_text(s: Seq<char>) -> Option<Status> {
        match Status::named(lowercase(s)) {
            Some(v) => Some(v),
            None => match number_of_text(s) {
                Some(n) => Some(Status::Detailed(n)),
                None => None,
            },
        }
    }

    /// The status that a lowercase name stands for.
    pub fn from_lowercase(name: &str) -> (r: Option<Status>)
        ensures
            r == Status::named(name@),
    {
        if same_text(name, "assured") {
            Some(Status::Assured)
        } else if same_text(name, "seen_reply") {
            Some(Status::SeenReply)
        } else if same_text(name, "fixed_timeout") {
            Some(Status::FixedTimeout)
        } else if same_text(name, "expected") {
            Some(Status::Expected)
        } else {
            None
        }
    }

    /// The status that a name or a number stands for.
    pub fn from_name(s: &str) -> (r: Result<Status, Error>)
        ensures
            named_or_refused(r, Status::of_text(s@), s@),
    {
        let lower = to_lowercase(s);
        match Status::from_lowercase(lower.as_str()) {
            Some(v) => Ok(v),
            None => match parse_u16(s) {
                Some(n) => Ok(Status::Detailed(n)),
                None => Err(Error::InvalidValue(s.to_owned())),
            },
        }
    }

    /// The flags of the status, as a word.
    pub open spec fn spec_bits(&self) -> u16 {
        match self {
            Status::Assured => 0x0004,
            Status::SeenReply => 0x0002,
            Status::FixedTimeout => 0x0400,
            Status::Expected => 0x0001,
            Status::Detailed(v) => *v & crate::flow::STATUS_MASK,
        }
    }

    /// The status of the library that this one is.
    pub fn status(&self) -> (r: crate::flow::Status)
        ensures
            r.bits() == self.spec_bits(),
    {
        match self {
            Status::Assured => crate::flow::Status::assured(),
            Status::SeenReply => crate::flow::Status::seen_reply(),
            Status::FixedTimeout => crate::flow::Status::fixed_timeout(),
            Status::Expected => crate::flow::Status::expected(),
            Status::Detailed(v) => crate::flow::Status::from_u16(*v),
        }
    }
}

} // verus!

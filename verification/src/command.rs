//! The commands: what each is given, and the request that it makes.

use crate::addr::Cidr;
use crate::addr::IpAddress;
use crate::config;
use crate::flow::TcpState;
use crate::request::Direction;
use crate::request::Filter;
use crate::request::GetArgs;
use crate::request::GetParams;
use crate::request::Request;
use crate::request::RequestMeta;
use crate::request::RequestOperation;
use crate::request::ValidationError;
use vstd::prelude::*;

verus! {

/// Why a command was not carried out.
#[derive(Debug)]
pub enum CommandError {
    /// The text is neither an address nor a block.
    FailedToParseAddrOrCIDR(String),
    /// The parameters of a lookup name no entry.
    Validation(ValidationError),
}

/// The kind of a command.
#[derive(Debug, Clone, Copy, PartialEq, Eq, Structural)]
pub enum OperationType {
    Get,
    List,
    Event,
    Counter,
    Stats,
}

/// An address or a block as a command is given it: the text, and the
/// address that the text is, if it is a bare address.
#[derive(Debug)]
pub struct AddrText {
    pub text: String,
    pub bare: Option<IpAddress>,
}

/// The conditions on flows, as a command is given them.
#[derive(Debug)]
pub struct FilterArgs {
    pub table: config::Table,
    pub family: config::Family,
    pub zero: bool,
    pub protocol: config::Protocol,
    pub orig_src_addr: Option<AddrText>,
    pub orig_dst_addr: Option<AddrText>,
    pub reply_src_addr: Option<AddrText>,
    pub reply_dst_addr: Option<AddrText>,
    pub orig_src_port: Option<u16>,
    pub orig_dst_port: Option<u16>,
    pub reply_src_port: Option<u16>,
    pub reply_dst_port: Option<u16>,
    pub mark: Option<u32>,
    pub use_count: Option<u32>,
    pub tcp_state: Option<TcpState>,
    pub status: Option<config::Status>,
}

/// The block that a condition on an address stands for: none where there is
/// no condition, and an error where its text is neither address nor block.
pub open spec fn block_of(a: Option<AddrText>) -> Result<Option<Cidr>, Seq<char>> {
    match a {
        None => Ok(None),
        Some(t) => match Cidr::of_text(t.text@, t.bare) {
            Some(c) => Ok(Some(c)),
            None => Err(t.text@),
        },
    }
}

fn to_block(a: &Option<AddrText>) -> (r: Result<Option<Cidr>, CommandError>)
    ensures
        match r {
            Ok(c) => block_of(*a) == Ok::<Option<Cidr>, Seq<char>>(c),
            Err(CommandError::FailedToParseAddrOrCIDR(t)) => block_of(*a) == Err::<
                Option<Cidr>,
                Seq<char>,
            >(t@),
            Err(_) => false,
        },
{
    match a {
        None => Ok(None),
        Some(t) => match Cidr::parse_addr_or_cidr(t.text.as_str(), t.bare) {
            Ok(c) => Ok(Some(c)),
            Err(text) => Err(CommandError::FailedToParseAddrOrCIDR(text)),
        },
    }
}

impl FilterArgs {
    /// The text of the first condition on an address that is neither
    /// address nor block, in the order original source, original
    /// destination, reply source, reply destination.
    pub open spec fn unreadable(&self) -> Option<Seq<char>> {
        if block_of(self.orig_src_addr) is Err {
            Some(block_of(self.orig_src_addr)->Err_0)
        } else if block_of(self.orig_dst_addr) is Err {
            Some(block_of(self.orig_dst_addr)->Err_0)
        } else if block_of(self.reply_src_addr) is Err {
            Some(block_of(self.reply_src_addr)->Err_0)
        } else if block_of(self.reply_dst_addr) is Err {
            Some(block_of(self.reply_dst_addr)->Err_0)
        } else {
            None
        }
    }

    /// Whether a filter has the conditions that were given: always one on
    /// the family, one on the protocol unless any will do, and one for each
    /// of the other values that were given.
    pub open spec fn describes(&self, f: Filter) -> bool {
        &&& f.family == Some(self.family.spec_family())
        &&& f.protocol == match self.protocol {
            config::Protocol::Any => None,
            p => Some(p.spec_protocol()),
        }
        &&& block_of(self.orig_src_addr) == Ok::<Option<Cidr>, Seq<char>>(f.orig_src_addr)
        &&& block_of(self.orig_dst_addr) == Ok::<Option<Cidr>, Seq<char>>(f.orig_dst_addr)
        &&& block_of(self.reply_src_addr) == Ok::<Option<Cidr>, Seq<char>>(f.reply_src_addr)
        &&& block_of(self.reply_dst_addr) == Ok::<Option<Cidr>, Seq<char>>(f.reply_dst_addr)
        &&& f.orig_src_port == self.orig_src_port
        &&& f.orig_dst_port == self.orig_dst_port
        &&& f.reply_src_port == self.reply_src_port
        &&& f.reply_dst_port == self.reply_dst_port
        &&& f.mark == self.mark
        &&& f.use_count == self.use_count
        &&& f.tcp_state == self.tcp_state
        &&& match (f.status, self.status) {
            (Some(a), Some(b)) => a.bits() == b.spec_bits(),
            (None, None) => true,
            _ => false,
        }
    }

    /// The filter with the conditions that were given.
    pub fn to_filter(&self) -> (r: Result<Filter, CommandError>)
        ensures
            match r {
                Ok(f) => self.unreadable() is None && self.describes(f),
                Err(CommandError::FailedToParseAddrOrCIDR(t)) => self.unreadable() == Some(t@),
                Err(_) => false,
            },
    {
        let protocol = match self.protocol {
            config::Protocol::Any => None,
            p => Some(p.protocol()),
        };
        let orig_src_addr = match to_block(&self.orig_src_addr) {
            Ok(c) => c,
            Err(e) => {
                return Err(e);
            },
        };
        let orig_dst_addr = match to_block(&self.orig_dst_addr) {
            Ok(c) => c,
            Err(e) => {
                return Err(e);
            },
        };
        let reply_src_addr = match to_block(&self.reply_src_addr) {
            Ok(c) => c,
            Err(e) => {
                return Err(e);
            },
        };
        let reply_dst_addr = match to_block(&self.reply_dst_addr) {
            Ok(c) => c,
            Err(e) => {
                return Err(e);
            },
        };
        let status = match self.status {
            Some(s) => Some(s.status()),
            None => None,
        };
        let filter = Filter {
            family: Some(self.family.family()),
            protocol,
            orig_src_addr,
            orig_dst_addr,
            reply_src_addr,
            reply_dst_addr,
            orig_src_port: self.orig_src_port,
            orig_dst_port: self.orig_dst_port,
            reply_src_port: self.reply_src_port,
            reply_dst_port: self.reply_dst_port,
            mark: self.mark,
            use_count: self.use_count,
            tcp_state: self.tcp_state,
            status,
        };
        Ok(filter)
    }
}

/// What makes the request of a command.
pub trait Operation {
    /// The kind of the command.
    spec fn kind(&self) -> OperationType;

    /// Whether `r` is the request of the command, or the reason why it has
    /// none.
    spec fn requests(&self, r: Result<Request, CommandError>) -> bool;

    fn request(&self) -> (r: Result<Request, CommandError>)
        ensures
            self.requests(r),
    ;

    fn typ(&self) -> (r: OperationType)
        ensures
            r == self.kind(),
    ;
}

/// The listing of a table.
#[derive(Debug)]
pub struct ListOperation {
    pub filter: FilterArgs,
}

impl ListOperation {
    pub fn new(filter: FilterArgs) -> (r: ListOperation)
        ensures
            r.filter == filter,
    {
        ListOperation { filter }
    }

    /// Whether `r` is the request of the listing: a list of the table and
    /// the family that were given, with a reset of the counters if it was
    /// asked for, and with the filter of the conditions; or the text of the
    /// first condition on an address that cannot be read.
    pub open spec fn listed(&self, r: Result<Request, CommandError>) -> bool {
        match r {
            Ok(q) => self.filter.unreadable() is None && q.meta == (RequestMeta {
                family: self.filter.family.spec_family(),
                table: self.filter.table.spec_table(),
                res_id: 0,
                zero: self.filter.zero,
            }) && (q.op matches RequestOperation::List(Some(f)) && self.filter.describes(f)),
            Err(CommandError::FailedToParseAddrOrCIDR(t)) => self.filter.unreadable() == Some(t@),
            Err(_) => false,
        }
    }

    /// The request of the listing.
    pub fn to_request(&self) -> (r: Result<Request, CommandError>)
        ensures
            self.listed(r),
    {
        let mut meta = RequestMeta::default().table(self.filter.table.table()).family(
            self.filter.family.family(),
        );
        if self.filter.zero {
            meta = meta.zero();
        }
        match self.filter.to_filter() {
            Ok(f) => Ok(Request::new(meta, RequestOperation::List(Some(f)))),
            Err(e) => Err(e),
        }
    }
}

impl Operation for ListOperation {
    open spec fn kind(&self) -> OperationType {
        OperationType::List
    }

    open spec fn requests(&self, r: Result<Request, CommandError>) -> bool {
        self.listed(r)
    }

    fn request(&self) -> (r: Result<Request, CommandError>) {
        self.to_request()
    }

    fn typ(&self) -> (r: OperationType) {
        OperationType::List
    }
}

/// The subscription to events.
#[derive(Debug)]
pub struct EventOperation {
    pub filter: FilterArgs,
}

impl EventOperation {
    pub fn new(filter: FilterArgs) -> (r: EventOperation)
        ensures
            r.filter == filter,
    {
        EventOperation { filter }
    }

    /// Whether `r` is the request of the subscription: one about the table
    /// and the family that were given, with the filter of the conditions,
    /// and never with a reset of counters; or the text of the first
    /// condition on an address that cannot be read.
    pub open spec fn subscribed(&self, r: Result<Request, CommandError>) -> bool {
        match r {
            Ok(q) => self.filter.unreadable() is None && q.meta == (RequestMeta {
                family: self.filter.family.spec_family(),
                table: self.filter.table.spec_table(),
                res_id: 0,
                zero: false,
            }) && (q.op matches RequestOperation::Event(Some(f)) && self.filter.describes(f)),
            Err(CommandError::FailedToParseAddrOrCIDR(t)) => self.filter.unreadable() == Some(t@),
            Err(_) => false,
        }
    }

    /// The request of the subscription.
    pub fn to_request(&self) -> (r: Result<Request, CommandError>)
        ensures
            self.subscribed(r),
    {
        let meta = RequestMeta::default().table(self.filter.table.table()).family(
            self.filter.family.family(),
        );
        match self.filter.to_filter() {
            Ok(f) => Ok(Request::new(meta, RequestOperation::Event(Some(f)))),
            Err(e) => Err(e),
        }
    }
}

impl Operation for EventOperation {
    open spec fn kind(&self) -> OperationType {
        OperationType::Event
    }

    open spec fn requests(&self, r: Result<Request, CommandError>) -> bool {
        self.subscribed(r)
    }

    fn request(&self) -> (r: Result<Request, CommandError>) {
        self.to_request()
    }

    fn typ(&self) -> (r: OperationType) {
        OperationType::Event
    }
}

/// The lookup of one entry.
#[derive(Debug, Clone, Copy)]
pub struct GetOperation {
    pub table: config::Table,
    pub family: config::Family,
    pub protocol: config::Protocol,
    pub tuple: Direction,
}

impl GetOperation {
    pub fn new(
        table: config::Table,
        family: config::Family,
        protocol: config::Protocol,
        directed_tuple: Direction,
    ) -> (r: GetOperation)
        ensures
            r == (GetOperation { table, family, protocol, tuple: directed_tuple }),
    {
        GetOperation { table, family, protocol, tuple: directed_tuple }
    }

    /// Whether `r` is the request of the lookup: a lookup of the tuple in
    /// the table of the family.
    pub open spec fn looked_up(&self, r: Request) -> bool {
        &&& r.meta == (RequestMeta {
            family: self.family.spec_family(),
            table: self.table.spec_table(),
            res_id: 0,
            zero: false,
        })
        &&& r.op matches RequestOperation::Get(p) && p == (GetParams {
            protocol: self.protocol.spec_protocol(),
            directed_tuple: self.tuple,
        })
    }

    /// The request of the lookup.
    pub fn to_request(&self) -> (r: Request)
        ensures
            self.looked_up(r),
    {
        let meta = RequestMeta::default().table(self.table.table()).family(self.family.family());
        Request::new(
            meta,
            RequestOperation::Get(GetParams::new(self.protocol.protocol(), self.tuple)),
        )
    }
}

impl Operation for GetOperation {
    open spec fn kind(&self) -> OperationType {
        OperationType::Get
    }

    open spec fn requests(&self, r: Result<Request, CommandError>) -> bool {
        r matches Ok(q) && self.looked_up(q)
    }

    fn request(&self) -> (r: Result<Request, CommandError>) {
        Ok(self.to_request())
    }

    fn typ(&self) -> (r: OperationType) {
        OperationType::Get
    }
}

/// The count of tracked entries.
#[derive(Debug, Clone, Copy)]
pub struct CountOperation {
    pub table: config::Table,
}

impl CountOperation {
    pub fn new(table: config::Table) -> (r: CountOperation)
        ensures
            r.table == table,
    {
        CountOperation { table }
    }

    /// Whether `r` is the request of the count: a count over the table,
    /// for no family in particular.
    pub open spec fn counted(&self, r: Request) -> bool {
        r.meta == (RequestMeta {
            family: crate::Family::Unspec,
            table: self.table.spec_table(),
            res_id: 0,
            zero: false,
        }) && r.op is Count
    }

    /// The request of the count.
    pub fn to_request(&self) -> (r: Request)
        ensures
            self.counted(r),
    {
        let meta = RequestMeta::default().family(config::Family::Any.family()).table(
            self.table.table(),
        );
        Request::new(meta, RequestOperation::Count)
    }
}

impl Operation for CountOperation {
    open spec fn kind(&self) -> OperationType {
        OperationType::Counter
    }

    open spec fn requests(&self, r: Result<Request, CommandError>) -> bool {
        r matches Ok(q) && self.counted(q)
    }

    fn request(&self) -> (r: Result<Request, CommandError>) {
        Ok(self.to_request())
    }

    fn typ(&self) -> (r: OperationType) {
        OperationType::Counter
    }
}

/// The statistics of each CPU.
#[derive(Debug, Clone, Copy)]
pub struct StatsOperation {}

impl StatsOperation {
    pub fn new() -> (r: StatsOperation)
        ensures
            r == (StatsOperation {  }),
    {
        StatsOperation {  }
    }

    /// Whether `r` is the request of the statistics: one for no family in
    /// particular.
    pub open spec fn measured(r: Request) -> bool {
        r.meta == (RequestMeta {
            family: crate::Family::Unspec,
            table: crate::Table::Conntrack,
            res_id: 0,
            zero: false,
        }) && r.op is Stat
    }

    /// The request of the statistics.
    pub fn to_request(&self) -> (r: Request)
        ensures
            StatsOperation::measured(r),
    {
        let meta = RequestMeta::default().family(config::Family::Any.family());
        Request::new(meta, RequestOperation::Stat)
    }
}

impl Operation for StatsOperation {
    open spec fn kind(&self) -> OperationType {
        OperationType::Stats
    }

    open spec fn requests(&self, r: Result<Request, CommandError>) -> bool {
        r matches Ok(q) && StatsOperation::measured(q)
    }

    fn request(&self) -> (r: Result<Request, CommandError>) {
        Ok(self.to_request())
    }

    fn typ(&self) -> (r: OperationType) {
        OperationType::Stats
    }
}

/// The command that counts the tracked entries.
#[derive(Debug, Clone, Copy)]
pub struct CountCmd {
    pub table: config::Table,
}

impl CountCmd {
    pub fn operation(&self) -> (r: CountOperation)
        ensures
            r.table == self.table,
    {
        CountOperation::new(self.table)
    }
}

/// The command that shows the statistics.
#[derive(Debug, Clone, Copy)]
pub struct StatsCmd {
    pub output: config::Output,
    pub no_header: bool,
}

impl StatsCmd {
    pub fn operation(&self) -> (r: StatsOperation)
        ensures
            r == (StatsOperation {  }),
    {
        StatsOperation::new()
    }

    /// Whether a line of titles comes first: in a table, unless it is
    /// switched off.
    pub fn shows_header(&self) -> (r: bool)
        ensures
            r == (self.output != config::Output::Json && !self.no_header),
    {
        self.output != config::Output::Json && !self.no_header
    }
}

/// The command that looks one entry up.
#[derive(Debug, Clone, Copy)]
pub struct GetCmd {
    pub output: config::Output,
    pub table: config::Table,
    pub family: config::Family,
    pub protocol: config::Protocol,
    pub args: GetArgs,
    pub detailed_status: bool,
    pub no_header: bool,
}

impl GetCmd {
    /// The lookup that the command makes, or why its parameters name no
    /// entry.
    pub fn operation(&self) -> (r: Result<GetOperation, CommandError>)
        ensures
            match r {
                Ok(op) => self.args.directed() == Ok::<Direction, ValidationError>(op.tuple)
                    && op.table == self.table && op.family == self.family && op.protocol
                    == self.protocol,
                Err(CommandError::Validation(e)) => self.args.directed() == Err::<
                    Direction,
                    ValidationError,
                >(e),
                Err(_) => false,
            },
    {
        match self.args.get_tuples() {
            Ok(t) => Ok(GetOperation::new(self.table, self.family, self.protocol, t)),
            Err(e) => Err(CommandError::Validation(e)),
        }
    }

    /// Whether a line of titles comes first.
    pub fn shows_header(&self) -> (r: bool)
        ensures
            r == (self.output != config::Output::Json && !self.no_header),
    {
        self.output != config::Output::Json && !self.no_header
    }
}

/// The command that lists a table.
#[derive(Debug)]
pub struct ListCmd {
    pub output: config::Output,
    pub filter: FilterArgs,
    pub detailed_status: bool,
    pub no_header: bool,
}

impl ListCmd {
    /// Whether a line of titles comes first.
    pub fn shows_header(&self) -> (r: bool)
        ensures
            r == (self.output != config::Output::Json && !self.no_header),
    {
        self.output != config::Output::Json && !self.no_header
    }
}

/// The command that shows events as they come.
#[derive(Debug)]
pub struct EventCmd {
    pub output: config::Output,
    pub filter: FilterArgs,
    pub detailed_status: bool,
    pub no_header: bool,
}

impl EventCmd {
    /// Whether a line of titles comes first.
    pub fn shows_header(&self) -> (r: bool)
        ensures
            r == (self.output != config::Output::Json && !self.no_header),
    {
        self.output != config::Output::Json && !self.no_header
    }
}

} // verus!

//! What the library hands to the foreign runtime: the description of one call.
//!
//! The library performs no call itself. It describes each as a [`ForeignCall`]:
//! the function of the terminal's module, the positional arguments in order and
//! the keyword arguments in order. Whoever holds the runtime performs the call
//! as it is described, and brings back the reply and what the error channel
//! reports.

use crate::calendar::CalendarTime;
use crate::number::Double;
use vstd::prelude::*;

verus! {

/// A function of the terminal's module.
#[derive(Clone, Copy, Debug, PartialEq, Eq, Structural)]
pub enum Operation {
    Initialize,
    Login,
    Shutdown,
    LastError,
    AccountInfo,
    TerminalInfo,
    Version,
    SymbolsTotal,
    SymbolInfo,
    SymbolInfoTick,
    SymbolSelect,
    SymbolsGet,
    CopyRatesFrom,
    CopyRatesFromPos,
    CopyRatesRange,
    CopyTicksFrom,
    CopyTicksRange,
    OrdersTotal,
    OrdersGet,
    OrderCalcMargin,
    OrderCalcProfit,
    OrderCheck,
    OrderSend,
    PositionsTotal,
    PositionsGet,
    HistoryOrdersTotal,
    HistoryOrdersGet,
    HistoryDealsTotal,
    HistoryDealsGet,
}

impl Operation {
    /// The name of the function in the terminal's module.
    pub open spec fn spec_name(self) -> Seq<char> {
        match self {
            Operation::Initialize => "initialize"@,
            Operation::Login => "login"@,
            Operation::Shutdown => "shutdown"@,
            Operation::LastError => "last_error"@,
            Operation::AccountInfo => "account_info"@,
            Operation::TerminalInfo => "terminal_info"@,
            Operation::Version => "version"@,
            Operation::SymbolsTotal => "symbols_total"@,
            Operation::SymbolInfo => "symbol_info"@,
            Operation::SymbolInfoTick => "symbol_info_tick"@,
            Operation::SymbolSelect => "symbol_select"@,
            Operation::SymbolsGet => "symbols_get"@,
            Operation::CopyRatesFrom => "copy_rates_from"@,
            Operation::CopyRatesFromPos => "copy_rates_from_pos"@,
            Operation::CopyRatesRange => "copy_rates_range"@,
            Operation::CopyTicksFrom => "copy_ticks_from"@,
            Operation::CopyTicksRange => "copy_ticks_range"@,
            Operation::OrdersTotal => "orders_total"@,
            Operation::OrdersGet => "orders_get"@,
            Operation::OrderCalcMargin => "order_calc_margin"@,
            Operation::OrderCalcProfit => "order_calc_profit"@,
            Operation::OrderCheck => "order_check"@,
            Operation::OrderSend => "order_send"@,
            Operation::PositionsTotal => "positions_total"@,
            Operation::PositionsGet => "positions_get"@,
            Operation::HistoryOrdersTotal => "history_orders_total"@,
            Operation::HistoryOrdersGet => "history_orders_get"@,
            Operation::HistoryDealsTotal => "history_deals_total"@,
            Operation::HistoryDealsGet => "history_deals_get"@,
        }
    }

    pub fn name(self) -> (name: &'static str)
        ensures
            name@ == self.spec_name(),
    {
        match self {
            Operation::Initialize => "initialize",
            Operation::Login => "login",
            Operation::Shutdown => "shutdown",
            Operation::LastError => "last_error",
            Operation::AccountInfo => "account_info",
            Operation::TerminalInfo => "terminal_info",
            Operation::Version => "version",
            Operation::SymbolsTotal => "symbols_total",
            Operation::SymbolInfo => "symbol_info",
            Operation::SymbolInfoTick => "symbol_info_tick",
            Operation::SymbolSelect => "symbol_select",
            Operation::SymbolsGet => "symbols_get",
            Operation::CopyRatesFrom => "copy_rates_from",
            Operation::CopyRatesFromPos => "copy_rates_from_pos",
            Operation::CopyRatesRange => "copy_rates_range",
            Operation::CopyTicksFrom => "copy_ticks_from",
            Operation::CopyTicksRange => "copy_ticks_range",
            Operation::OrdersTotal => "orders_total",
            Operation::OrdersGet => "orders_get",
            Operation::OrderCalcMargin => "order_calc_margin",
            Operation::OrderCalcProfit => "order_calc_profit",
            Operation::OrderCheck => "order_check",
            Operation::OrderSend => "order_send",
            Operation::PositionsTotal => "positions_total",
            Operation::PositionsGet => "positions_get",
            Operation::HistoryOrdersTotal => "history_orders_total",
            Operation::HistoryOrdersGet => "history_orders_get",
            Operation::HistoryDealsTotal => "history_deals_total",
            Operation::HistoryDealsGet => "history_deals_get",
        }
    }
}
/// A keyword that an operation accepts beside its positional arguments.
#[derive(Clone, Copy, Debug, PartialEq, Eq, Structural)]
pub enum Keyword {
    Login,
    Password,
    Server,
    Timeout,
    Portable,
    Group,
}

impl Keyword {
    /// The keyword as the terminal spells it.
    pub open spec fn spec_name(self) -> Seq<char> {
        match self {
            Keyword::Login => "login"@,
            Keyword::Password => "password"@,
            Keyword::Server => "server"@,
            Keyword::Timeout => "timeout"@,
            Keyword::Portable => "portable"@,
            Keyword::Group => "group"@,
        }
    }

    pub fn name(self) -> (name: &'static str)
        ensures
            name@ == self.spec_name(),
    {
        match self {
            Keyword::Login => "login",
            Keyword::Password => "password",
            Keyword::Server => "server",
            Keyword::Timeout => "timeout",
            Keyword::Portable => "portable",
            Keyword::Group => "group",
        }
    }
}
/// A field of a trade request.
#[derive(Clone, Copy, Debug, PartialEq, Eq, Structural)]
pub enum RequestField {
    Action,
    Magic,
    Order,
    Symbol,
    Volume,
    Price,
    StopLimit,
    Sl,
    Tp,
    Deviation,
    Type,
    TypeFilling,
    TypeTime,
    Expiration,
    Comment,
    Position,
    PositionBy,
}

impl RequestField {
    /// The key of the field in the dictionary that the terminal reads.
    pub open spec fn spec_name(self) -> Seq<char> {
        match self {
            RequestField::Action => "action"@,
            RequestField::Magic => "magic"@,
            RequestField::Order => "order"@,
            RequestField::Symbol => "symbol"@,
            RequestField::Volume => "volume"@,
            RequestField::Price => "price"@,
            RequestField::StopLimit => "stoplimit"@,
            RequestField::Sl => "sl"@,
            RequestField::Tp => "tp"@,
            RequestField::Deviation => "deviation"@,
            RequestField::Type => "type"@,
            RequestField::TypeFilling => "type_filling"@,
            RequestField::TypeTime => "type_time"@,
            RequestField::Expiration => "expiration"@,
            RequestField::Comment => "comment"@,
            RequestField::Position => "position"@,
            RequestField::PositionBy => "position_by"@,
        }
    }

    pub fn name(self) -> (name: &'static str)
        ensures
            name@ == self.spec_name(),
    {
        match self {
            RequestField::Action => "action",
            RequestField::Magic => "magic",
            RequestField::Order => "order",
            RequestField::Symbol => "symbol",
            RequestField::Volume => "volume",
            RequestField::Price => "price",
            RequestField::StopLimit => "stoplimit",
            RequestField::Sl => "sl",
            RequestField::Tp => "tp",
            RequestField::Deviation => "deviation",
            RequestField::Type => "type",
            RequestField::TypeFilling => "type_filling",
            RequestField::TypeTime => "type_time",
            RequestField::Expiration => "expiration",
            RequestField::Comment => "comment",
            RequestField::Position => "position",
            RequestField::PositionBy => "position_by",
        }
    }

    /// The fields in the order in which a request lists them.
    pub open spec fn ordered() -> Seq<RequestField> {
        seq![
            RequestField::Action,
            RequestField::Magic,
            RequestField::Order,
            RequestField::Symbol,
            RequestField::Volume,
            RequestField::Price,
            RequestField::StopLimit,
            RequestField::Sl,
            RequestField::Tp,
            RequestField::Deviation,
            RequestField::Type,
            RequestField::TypeFilling,
            RequestField::TypeTime,
            RequestField::Expiration,
            RequestField::Comment,
            RequestField::Position,
            RequestField::PositionBy,
        ]
    }

    /// The field at place `index` of that order, if the order is that long.
    pub fn at(index: usize) -> (field: Option<RequestField>)
        ensures
            field == if index < Self::ordered().len() {
                Some(Self::ordered()[index as int])
            } else {
                None
            },
    {
        match index {
            0 => Some(RequestField::Action),
            1 => Some(RequestField::Magic),
            2 => Some(RequestField::Order),
            3 => Some(RequestField::Symbol),
            4 => Some(RequestField::Volume),
            5 => Some(RequestField::Price),
            6 => Some(RequestField::StopLimit),
            7 => Some(RequestField::Sl),
            8 => Some(RequestField::Tp),
            9 => Some(RequestField::Deviation),
            10 => Some(RequestField::Type),
            11 => Some(RequestField::TypeFilling),
            12 => Some(RequestField::TypeTime),
            13 => Some(RequestField::Expiration),
            14 => Some(RequestField::Comment),
            15 => Some(RequestField::Position),
            16 => Some(RequestField::PositionBy),
            _ => None,
        }
    }
}

/// A single value that crosses into the foreign runtime.
#[derive(Clone, Debug, PartialEq)]
pub enum Scalar {
    Integer(i64),
    Natural(usize),
    Boolean(bool),
    Double(Double),
    Text(String),
}

/// What the foreign runtime receives for a [`Scalar`]. Its integers have no
/// width, so a signed and an unsigned integer of the same value are one.
pub enum ScalarView {
    Integer(int),
    Boolean(bool),
    Double(Double),
    Text(Seq<char>),
}

impl View for Scalar {
    type V = ScalarView;

    open spec fn view(&self) -> ScalarView {
        match *self {
            Scalar::Integer(value) => ScalarView::Integer(value as int),
            Scalar::Natural(value) => ScalarView::Integer(value as int),
            Scalar::Boolean(value) => ScalarView::Boolean(value),
            Scalar::Double(value) => ScalarView::Double(value),
            Scalar::Text(value) => ScalarView::Text(value@),
        }
    }
}

/// What the foreign runtime receives for a list of the set fields of a trade
/// request: each key with its value, in order.
pub open spec fn entries_view(entries: Seq<(RequestField, Scalar)>) -> Seq<
    (RequestField, ScalarView),
> {
    Seq::new(entries.len(), |i: int| (entries[i].0, entries[i].1@))
}

/// What the foreign runtime receives for a list of keyword arguments.
pub open spec fn keywords_view(keywords: Seq<(Keyword, Scalar)>) -> Seq<(Keyword, ScalarView)> {
    Seq::new(keywords.len(), |i: int| (keywords[i].0, keywords[i].1@))
}

/// A positional argument of a call.
#[derive(Clone, Debug, PartialEq)]
pub enum Argument {
    /// A single value.
    Plain(Scalar),
    /// A date and time of the calendar, without a time zone.
    Moment(CalendarTime),
    /// A trade request: a dictionary that holds the fields that were set, and
    /// no others.
    Request(Vec<(RequestField, Scalar)>),
}

/// What the foreign runtime receives for an [`Argument`].
pub enum ArgumentView {
    Plain(ScalarView),
    Moment(CalendarTime),
    Request(Seq<(RequestField, ScalarView)>),
}

impl ArgumentView {
    /// An integer as a positional argument.
    pub open spec fn integer(value: int) -> ArgumentView {
        ArgumentView::Plain(ScalarView::Integer(value))
    }

    /// A truth value as a positional argument.
    pub open spec fn boolean(value: bool) -> ArgumentView {
        ArgumentView::Plain(ScalarView::Boolean(value))
    }

    /// A double precision number as a positional argument.
    pub open spec fn double(value: Double) -> ArgumentView {
        ArgumentView::Plain(ScalarView::Double(value))
    }

    /// A text as a positional argument.
    pub open spec fn text(value: Seq<char>) -> ArgumentView {
        ArgumentView::Plain(ScalarView::Text(value))
    }
}

impl View for Argument {
    type V = ArgumentView;

    open spec fn view(&self) -> ArgumentView {
        match *self {
            Argument::Plain(value) => ArgumentView::Plain(value@),
            Argument::Moment(value) => ArgumentView::Moment(value),
            Argument::Request(entries) => ArgumentView::Request(entries_view(entries@)),
        }
    }
}

/// What the foreign runtime receives for a list of positional arguments.
pub open spec fn arguments_view(arguments: Seq<Argument>) -> Seq<ArgumentView> {
    Seq::new(arguments.len(), |i: int| arguments[i]@)
}

/// One call of the foreign runtime, ready to be performed.
#[derive(Clone, Debug, PartialEq)]
pub struct ForeignCall {
    pub operation: Operation,
    pub positional: Vec<Argument>,
    pub keywords: Vec<(Keyword, Scalar)>,
}

/// What the foreign runtime sees of a [`ForeignCall`].
pub struct CallView {
    pub operation: Operation,
    pub positional: Seq<ArgumentView>,
    pub keywords: Seq<(Keyword, ScalarView)>,
}

impl View for ForeignCall {
    type V = CallView;

    open spec fn view(&self) -> CallView {
        CallView {
            operation: self.operation,
            positional: arguments_view(self.positional@),
            keywords: keywords_view(self.keywords@),
        }
    }
}

} // verus!

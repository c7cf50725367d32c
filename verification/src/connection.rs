//! The operations of the terminal, each in its two halves.
//!
//! Before the call, the function named after the operation marshals the typed
//! arguments into a [`ForeignCall`]. After it, one of the settling functions
//! decides what the caller gets from what came back: the reply of the call, and
//! what the error channel reports once the call has returned. The channel has
//! the last word: where it reports a failure the reply is thrown away, whatever
//! it holds. [`settle`] settles a reply that is a value, [`settle_accepted`] one
//! that is the terminal's yes or no, [`settle_initialize`] that of a connecting
//! operation, and [`settle_shutdown`] that of closing the connection.

use crate::calendar::CalendarTime;
use crate::call::{
    Argument, ArgumentView, CallView, ForeignCall, Keyword, Operation, RequestField, Scalar,
    ScalarView, arguments_view,
};
use crate::enums::{CopyTicksFlags, RuntimeError, Timeframe, TradeActionRequest};
use crate::number::Double;
use crate::prelude::{MQLError, MQLResult};
use crate::schemas::{AccountCredentials, TradeRequestBuilder};
use vstd::prelude::*;

verus! {

fn integer(value: i64) -> (argument: Argument)
    ensures
        argument@ == ArgumentView::integer(value as int),
{
    Argument::Plain(Scalar::Integer(value))
}

fn boolean(value: bool) -> (argument: Argument)
    ensures
        argument@ == ArgumentView::boolean(value),
{
    Argument::Plain(Scalar::Boolean(value))
}

fn double(value: Double) -> (argument: Argument)
    ensures
        argument@ == ArgumentView::double(value),
{
    Argument::Plain(Scalar::Double(value))
}

fn text(value: &str) -> (argument: Argument)
    ensures
        argument@ == ArgumentView::text(value@),
{
    Argument::Plain(Scalar::Text(value.to_owned()))
}

/// The call of `operation` without arguments.
fn bare(operation: Operation) -> (call: ForeignCall)
    ensures
        call@ == (CallView { operation, positional: seq![], keywords: seq![] }),
{
    let call = ForeignCall { operation, positional: Vec::new(), keywords: Vec::new() };
    assert(call@.positional =~= seq![]);
    assert(call@.keywords =~= seq![]);
    call
}

/// The call of `operation` with the positional arguments `positional` and no
/// keyword.
fn positional_only(operation: Operation, positional: Vec<Argument>) -> (call: ForeignCall)
    ensures
        call@ == (CallView {
            operation,
            positional: arguments_view(positional@),
            keywords: seq![],
        }),
{
    let call = ForeignCall { operation, positional, keywords: Vec::new() };
    assert(call@.keywords =~= seq![]);
    call
}

/// Connects the terminal that is installed at `path`.
pub fn initialize(path: &str) -> (call: ForeignCall)
    ensures
        call@ == (CallView {
            operation: Operation::Initialize,
            positional: seq![ArgumentView::text(path@)],
            keywords: seq![],
        }),
{
    let positional = vec![text(path)];
    assert(arguments_view(positional@) =~= seq![ArgumentView::text(path@)]);
    positional_only(Operation::Initialize, positional)
}

/// Connects the terminal that is installed at `path` and logs in to the
/// account of `credentials`, waiting at most `timeout` milliseconds. The
/// keyword `portable` goes along only where the caller gave it.
pub fn initialize_with_credentials(
    path: &str,
    credentials: AccountCredentials,
    timeout: i64,
    portable: Option<bool>,
) -> (call: ForeignCall)
    ensures
        call@ == (CallView {
            operation: Operation::Initialize,
            positional: seq![ArgumentView::text(path@)],
            keywords: seq![
                (Keyword::Login, ScalarView::Integer(credentials.login as int)),
                (Keyword::Password, ScalarView::Text(credentials.password@)),
                (Keyword::Server, ScalarView::Text(credentials.server@)),
                (Keyword::Timeout, ScalarView::Integer(timeout as int)),
            ] + match portable {
                Some(flag) => seq![(Keyword::Portable, ScalarView::Boolean(flag))],
                None => seq![],
            },
        }),
{
    let positional = vec![text(path)];
    let mut keywords = vec![
        (Keyword::Login, Scalar::Integer(credentials.login)),
        (Keyword::Password, Scalar::Text(credentials.password)),
        (Keyword::Server, Scalar::Text(credentials.server)),
        (Keyword::Timeout, Scalar::Integer(timeout)),
    ];
    if let Some(flag) = portable {
        keywords.push((Keyword::Portable, Scalar::Boolean(flag)));
    }
    let call = ForeignCall { operation: Operation::Initialize, positional, keywords };
    assert(call@.positional =~= seq![ArgumentView::text(path@)]);
    assert(call@.keywords =~= seq![
        (Keyword::Login, ScalarView::Integer(credentials.login as int)),
        (Keyword::Password, ScalarView::Text(credentials.password@)),
        (Keyword::Server, ScalarView::Text(credentials.server@)),
        (Keyword::Timeout, ScalarView::Integer(timeout as int)),
    ] + match portable {
        Some(flag) => seq![(Keyword::Portable, ScalarView::Boolean(flag))],
        None => seq![],
    });
    call
}

/// Logs in to the account of `credentials`. The account number is the one
/// positional argument; the keyword `timeout` goes along only where the caller
/// gave one. The reply is settled by [`settle_accepted`].
pub fn login(credentials: AccountCredentials, timeout: Option<i64>) -> (call: ForeignCall)
    ensures
        call@ == (CallView {
            operation: Operation::Login,
            positional: seq![ArgumentView::integer(credentials.login as int)],
            keywords: seq![
                (Keyword::Password, ScalarView::Text(credentials.password@)),
                (Keyword::Server, ScalarView::Text(credentials.server@)),
            ] + match timeout {
                Some(limit) => seq![(Keyword::Timeout, ScalarView::Integer(limit as int))],
                None => seq![],
            },
        }),
{
    let positional = vec![integer(credentials.login)];
    let mut keywords = vec![
        (Keyword::Password, Scalar::Text(credentials.password)),
        (Keyword::Server, Scalar::Text(credentials.server)),
    ];
    if let Some(limit) = timeout {
        keywords.push((Keyword::Timeout, Scalar::Integer(limit)));
    }
    let call = ForeignCall { operation: Operation::Login, positional, keywords };
    assert(call@.positional =~= seq![ArgumentView::integer(credentials.login as int)]);
    assert(call@.keywords =~= seq![
        (Keyword::Password, ScalarView::Text(credentials.password@)),
        (Keyword::Server, ScalarView::Text(credentials.server@)),
    ] + match timeout {
        Some(limit) => seq![(Keyword::Timeout, ScalarView::Integer(limit as int))],
        None => seq![],
    });
    call
}

/// Closes the connection to the terminal.
pub fn shutdown() -> (call: ForeignCall)
    ensures
        call@ == (CallView { operation: Operation::Shutdown, positional: seq![], keywords: seq![] }),
{
    bare(Operation::Shutdown)
}

/// Reads the error channel: the status of the last call and its message.
pub fn last_error() -> (call: ForeignCall)
    ensures
        call@ == (CallView { operation: Operation::LastError, positional: seq![], keywords: seq![] }),
{
    bare(Operation::LastError)
}

/// Asks for the record of the trading account.
pub fn account_info() -> (call: ForeignCall)
    ensures
        call@ == (CallView { operation: Operation::AccountInfo, positional: seq![], keywords: seq![] }),
{
    bare(Operation::AccountInfo)
}

/// Asks for the record of the terminal.
pub fn terminal_info() -> (call: ForeignCall)
    ensures
        call@ == (CallView { operation: Operation::TerminalInfo, positional: seq![], keywords: seq![] }),
{
    bare(Operation::TerminalInfo)
}

/// Asks for the version of the terminal.
pub fn version() -> (call: ForeignCall)
    ensures
        call@ == (CallView { operation: Operation::Version, positional: seq![], keywords: seq![] }),
{
    bare(Operation::Version)
}

/// Asks how many instruments the terminal knows.
pub fn symbols_total() -> (call: ForeignCall)
    ensures
        call@ == (CallView { operation: Operation::SymbolsTotal, positional: seq![], keywords: seq![] }),
{
    bare(Operation::SymbolsTotal)
}

/// Asks for the record of the instrument `symbol`.
pub fn symbol_info(symbol: &str) -> (call: ForeignCall)
    ensures
        call@ == (CallView {
            operation: Operation::SymbolInfo,
            positional: seq![
                ArgumentView::text(symbol@),
            ],
            keywords: seq![],
        }),
{
    let positional = vec![
        text(symbol),
    ];
    assert(arguments_view(positional@) =~= seq![
        ArgumentView::text(symbol@),
    ]);
    positional_only(Operation::SymbolInfo, positional)
}

/// Asks for the last tick of the instrument `symbol`.
pub fn symbol_info_tick(symbol: &str) -> (call: ForeignCall)
    ensures
        call@ == (CallView {
            operation: Operation::SymbolInfoTick,
            positional: seq![
                ArgumentView::text(symbol@),
            ],
            keywords: seq![],
        }),
{
    let positional = vec![
        text(symbol),
    ];
    assert(arguments_view(positional@) =~= seq![
        ArgumentView::text(symbol@),
    ]);
    positional_only(Operation::SymbolInfoTick, positional)
}

/// Shows the instrument `symbol` in the market watch, or hides it. Where the
/// caller says neither, it is shown. The reply is settled by
/// [`settle_accepted`].
pub fn symbol_select(symbol: &str, enable: Option<bool>) -> (call: ForeignCall)
    ensures
        call@ == (CallView {
            operation: Operation::SymbolSelect,
            positional: seq![
                ArgumentView::text(symbol@),
                ArgumentView::boolean(
                    match enable {
                        Some(flag) => flag,
                        None => true,
                    },
                ),
            ],
            keywords: seq![],
        }),
{
    let flag = match enable {
        Some(flag) => flag,
        None => true,
    };
    let positional = vec![text(symbol), boolean(flag)];
    assert(arguments_view(positional@) =~= seq![
        ArgumentView::text(symbol@),
        ArgumentView::boolean(
            match enable {
                Some(flag) => flag,
                None => true,
            },
        ),
    ]);
    positional_only(Operation::SymbolSelect, positional)
}

/// Asks for the records of the instruments, all of them or those that the
/// filter `group` lets through. The filter goes to the terminal as it is, under
/// the keyword `group`; the library does not read it.
pub fn symbols_get(group: Option<&str>) -> (call: ForeignCall)
    ensures
        call@ == (CallView {
            operation: Operation::SymbolsGet,
            positional: seq![],
            keywords: match group {
                Some(filter) => seq![(Keyword::Group, ScalarView::Text(filter@))],
                None => seq![],
            },
        }),
{
    let mut keywords: Vec<(Keyword, Scalar)> = Vec::new();
    if let Some(filter) = group {
        keywords.push((Keyword::Group, Scalar::Text(filter.to_owned())));
    }
    let call = ForeignCall { operation: Operation::SymbolsGet, positional: Vec::new(), keywords };
    assert(call@.positional =~= seq![]);
    assert(call@.keywords =~= match group {
        Some(filter) => seq![(Keyword::Group, ScalarView::Text(filter@))],
        None => seq![],
    });
    call
}

/// Asks for `count` bars of `symbol` that start at `date_from` or before. The
/// period goes to the terminal as its code, flag bits included.
pub fn copy_rates_from(
    symbol: &str,
    timeframe: Timeframe,
    date_from: CalendarTime,
    count: i32,
) -> (call: ForeignCall)
    ensures
        call@ == (CallView {
            operation: Operation::CopyRatesFrom,
            positional: seq![
                ArgumentView::text(symbol@),
                ArgumentView::integer(timeframe.code() as int),
                ArgumentView::Moment(date_from),
                ArgumentView::integer(count as int),
            ],
            keywords: seq![],
        }),
{
    let positional = vec![
        text(symbol),
        integer(timeframe.code()),
        Argument::Moment(date_from),
        integer(count as i64),
    ];
    assert(arguments_view(positional@) =~= seq![
        ArgumentView::text(symbol@),
        ArgumentView::integer(timeframe.code() as int),
        ArgumentView::Moment(date_from),
        ArgumentView::integer(count as int),
    ]);
    positional_only(Operation::CopyRatesFrom, positional)
}

/// Asks for `count` bars of `symbol`, from bar `start_pos` on, counted back from
/// the current bar.
pub fn copy_rates_from_pos(
    symbol: &str,
    timeframe: Timeframe,
    start_pos: i32,
    count: i32,
) -> (call: ForeignCall)
    ensures
        call@ == (CallView {
            operation: Operation::CopyRatesFromPos,
            positional: seq![
                ArgumentView::text(symbol@),
                ArgumentView::integer(timeframe.code() as int),
                ArgumentView::integer(start_pos as int),
                ArgumentView::integer(count as int),
            ],
            keywords: seq![],
        }),
{
    let positional = vec![
        text(symbol),
        integer(timeframe.code()),
        integer(start_pos as i64),
        integer(count as i64),
    ];
    assert(arguments_view(positional@) =~= seq![
        ArgumentView::text(symbol@),
        ArgumentView::integer(timeframe.code() as int),
        ArgumentView::integer(start_pos as int),
        ArgumentView::integer(count as int),
    ]);
    positional_only(Operation::CopyRatesFromPos, positional)
}

/// Asks for the bars of `symbol` between `date_from` and `date_to`.
pub fn copy_rates_range(
    symbol: &str,
    timeframe: Timeframe,
    date_from: CalendarTime,
    date_to: CalendarTime,
) -> (call: ForeignCall)
    ensures
        call@ == (CallView {
            operation: Operation::CopyRatesRange,
            positional: seq![
                ArgumentView::text(symbol@),
                ArgumentView::integer(timeframe.code() as int),
                ArgumentView::Moment(date_from),
                ArgumentView::Moment(date_to),
            ],
            keywords: seq![],
        }),
{
    let positional = vec![
        text(symbol),
        integer(timeframe.code()),
        Argument::Moment(date_from),
        Argument::Moment(date_to),
    ];
    assert(arguments_view(positional@) =~= seq![
        ArgumentView::text(symbol@),
        ArgumentView::integer(timeframe.code() as int),
        ArgumentView::Moment(date_from),
        ArgumentView::Moment(date_to),
    ]);
    positional_only(Operation::CopyRatesRange, positional)
}

/// Asks for `count` ticks of `symbol` from `date_from` on, of the kinds that
/// `flags` selects.
pub fn copy_ticks_from(
    symbol: &str,
    date_from: CalendarTime,
    count: i32,
    flags: CopyTicksFlags,
) -> (call: ForeignCall)
    ensures
        call@ == (CallView {
            operation: Operation::CopyTicksFrom,
            positional: seq![
                ArgumentView::text(symbol@),
                ArgumentView::Moment(date_from),
                ArgumentView::integer(count as int),
                ArgumentView::integer(flags.code() as int),
            ],
            keywords: seq![],
        }),
{
    let positional = vec![
        text(symbol),
        Argument::Moment(date_from),
        integer(count as i64),
        integer(flags.code()),
    ];
    assert(arguments_view(positional@) =~= seq![
        ArgumentView::text(symbol@),
        ArgumentView::Moment(date_from),
        ArgumentView::integer(count as int),
        ArgumentView::integer(flags.code() as int),
    ]);
    positional_only(Operation::CopyTicksFrom, positional)
}

/// Asks for the ticks of `symbol` between `date_from` and `date_to`, of the kinds
/// that `flags` selects.
pub fn copy_ticks_range(
    symbol: &str,
    date_from: CalendarTime,
    date_to: CalendarTime,
    flags: CopyTicksFlags,
) -> (call: ForeignCall)
    ensures
        call@ == (CallView {
            operation: Operation::CopyTicksRange,
            positional: seq![
                ArgumentView::text(symbol@),
                ArgumentView::Moment(date_from),
                ArgumentView::Moment(date_to),
                ArgumentView::integer(flags.code() as int),
            ],
            keywords: seq![],
        }),
{
    let positional = vec![
        text(symbol),
        Argument::Moment(date_from),
        Argument::Moment(date_to),
        integer(flags.code()),
    ];
    assert(arguments_view(positional@) =~= seq![
        ArgumentView::text(symbol@),
        ArgumentView::Moment(date_from),
        ArgumentView::Moment(date_to),
        ArgumentView::integer(flags.code() as int),
    ]);
    positional_only(Operation::CopyTicksRange, positional)
}

/// Asks how many orders are pending.
pub fn orders_total() -> (call: ForeignCall)
    ensures
        call@ == (CallView { operation: Operation::OrdersTotal, positional: seq![], keywords: seq![] }),
{
    bare(Operation::OrdersTotal)
}

/// Asks for the pending orders.
pub fn orders_get() -> (call: ForeignCall)
    ensures
        call@ == (CallView { operation: Operation::OrdersGet, positional: seq![], keywords: seq![] }),
{
    bare(Operation::OrdersGet)
}

/// Asks for the margin that a trade of `volume` lots of `symbol` at `price` would
/// need.
pub fn order_calc_margin(
    action: TradeActionRequest,
    symbol: &str,
    volume: Double,
    price: Double,
) -> (call: ForeignCall)
    ensures
        call@ == (CallView {
            operation: Operation::OrderCalcMargin,
            positional: seq![
                ArgumentView::integer(action.code() as int),
                ArgumentView::text(symbol@),
                ArgumentView::double(volume),
                ArgumentView::double(price),
            ],
            keywords: seq![],
        }),
{
    let positional = vec![
        integer(action.code()),
        text(symbol),
        double(volume),
        double(price),
    ];
    assert(arguments_view(positional@) =~= seq![
        ArgumentView::integer(action.code() as int),
        ArgumentView::text(symbol@),
        ArgumentView::double(volume),
        ArgumentView::double(price),
    ]);
    positional_only(Operation::OrderCalcMargin, positional)
}

/// Asks for the profit of a trade of `volume` lots of `symbol` that opens at
/// `price_open` and closes at `price_close`.
pub fn order_calc_profit(
    action: TradeActionRequest,
    symbol: &str,
    volume: Double,
    price_open: Double,
    price_close: Double,
) -> (call: ForeignCall)
    ensures
        call@ == (CallView {
            operation: Operation::OrderCalcProfit,
            positional: seq![
                ArgumentView::integer(action.code() as int),
                ArgumentView::text(symbol@),
                ArgumentView::double(volume),
                ArgumentView::double(price_open),
                ArgumentView::double(price_close),
            ],
            keywords: seq![],
        }),
{
    let positional = vec![
        integer(action.code()),
        text(symbol),
        double(volume),
        double(price_open),
        double(price_close),
    ];
    assert(arguments_view(positional@) =~= seq![
        ArgumentView::integer(action.code() as int),
        ArgumentView::text(symbol@),
        ArgumentView::double(volume),
        ArgumentView::double(price_open),
        ArgumentView::double(price_close),
    ]);
    positional_only(Operation::OrderCalcProfit, positional)
}

/// The call that hands `request` to `operation`: the one positional argument
/// is the dictionary of the fields that are set.
pub open spec fn request_call(operation: Operation, request: TradeRequestBuilder) -> CallView {
    CallView {
        operation,
        positional: seq![ArgumentView::Request(request.entries())],
        keywords: seq![],
    }
}

/// Asks the terminal whether it would accept `request`.
pub fn order_check(request: &TradeRequestBuilder) -> (call: ForeignCall)
    ensures
        call@ == request_call(Operation::OrderCheck, *request),
{
    let positional = vec![Argument::Request(request.fields())];
    assert(arguments_view(positional@) =~= seq![ArgumentView::Request(request.entries())]);
    positional_only(Operation::OrderCheck, positional)
}

/// Sends `request` to the trade server.
pub fn order_send(request: TradeRequestBuilder) -> (call: ForeignCall)
    ensures
        call@ == request_call(Operation::OrderSend, request),
{
    let positional = vec![Argument::Request(request.fields())];
    assert(arguments_view(positional@) =~= seq![ArgumentView::Request(request.entries())]);
    positional_only(Operation::OrderSend, positional)
}

/// A check and a send of one request put the same dictionary before the
/// terminal, and that dictionary holds the symbol and the volume as the caller
/// set them. (That the terminal's answer repeats them is the terminal's part.)
pub proof fn check_and_send_carry_the_request(
    request: TradeRequestBuilder,
    symbol: String,
    volume: Double,
)
    requires
        request.symbol == Some(symbol),
        request.volume == Some(volume),
    ensures
        request_call(Operation::OrderCheck, request).positional == request_call(
            Operation::OrderSend,
            request,
        ).positional,
        request.entries().contains((RequestField::Symbol, ScalarView::Text(symbol@))),
        request.entries().contains((RequestField::Volume, ScalarView::Double(volume))),
{
    request.forwards_exactly_what_is_set(RequestField::Symbol, ScalarView::Text(symbol@));
    request.forwards_exactly_what_is_set(RequestField::Volume, ScalarView::Double(volume));
}

/// Asks how many positions are open.
pub fn positions_total() -> (call: ForeignCall)
    ensures
        call@ == (CallView { operation: Operation::PositionsTotal, positional: seq![], keywords: seq![] }),
{
    bare(Operation::PositionsTotal)
}

/// Asks for the open positions.
pub fn positions_get() -> (call: ForeignCall)
    ensures
        call@ == (CallView { operation: Operation::PositionsGet, positional: seq![], keywords: seq![] }),
{
    bare(Operation::PositionsGet)
}

/// Asks how many orders the history holds between `date_from` and `date_to`.
pub fn history_orders_total(date_from: CalendarTime, date_to: CalendarTime) -> (call: ForeignCall)
    ensures
        call@ == (CallView {
            operation: Operation::HistoryOrdersTotal,
            positional: seq![
                ArgumentView::Moment(date_from),
                ArgumentView::Moment(date_to),
            ],
            keywords: seq![],
        }),
{
    let positional = vec![
        Argument::Moment(date_from),
        Argument::Moment(date_to),
    ];
    assert(arguments_view(positional@) =~= seq![
        ArgumentView::Moment(date_from),
        ArgumentView::Moment(date_to),
    ]);
    positional_only(Operation::HistoryOrdersTotal, positional)
}

/// Asks for the orders of the history between `date_from` and `date_to`.
pub fn history_orders_get(date_from: CalendarTime, date_to: CalendarTime) -> (call: ForeignCall)
    ensures
        call@ == (CallView {
            operation: Operation::HistoryOrdersGet,
            positional: seq![
                ArgumentView::Moment(date_from),
                ArgumentView::Moment(date_to),
            ],
            keywords: seq![],
        }),
{
    let positional = vec![
        Argument::Moment(date_from),
        Argument::Moment(date_to),
    ];
    assert(arguments_view(positional@) =~= seq![
        ArgumentView::Moment(date_from),
        ArgumentView::Moment(date_to),
    ]);
    positional_only(Operation::HistoryOrdersGet, positional)
}

/// Asks how many deals the history holds between `date_from` and `date_to`.
pub fn history_deals_total(date_from: CalendarTime, date_to: CalendarTime) -> (call: ForeignCall)
    ensures
        call@ == (CallView {
            operation: Operation::HistoryDealsTotal,
            positional: seq![
                ArgumentView::Moment(date_from),
                ArgumentView::Moment(date_to),
            ],
            keywords: seq![],
        }),
{
    let positional = vec![
        Argument::Moment(date_from),
        Argument::Moment(date_to),
    ];
    assert(arguments_view(positional@) =~= seq![
        ArgumentView::Moment(date_from),
        ArgumentView::Moment(date_to),
    ]);
    positional_only(Operation::HistoryDealsTotal, positional)
}

/// Asks for the deals of the history between `date_from` and `date_to`.
pub fn history_deals_get(date_from: CalendarTime, date_to: CalendarTime) -> (call: ForeignCall)
    ensures
        call@ == (CallView {
            operation: Operation::HistoryDealsGet,
            positional: seq![
                ArgumentView::Moment(date_from),
                ArgumentView::Moment(date_to),
            ],
            keywords: seq![],
        }),
{
    let positional = vec![
        Argument::Moment(date_from),
        Argument::Moment(date_to),
    ];
    assert(arguments_view(positional@) =~= seq![
        ArgumentView::Moment(date_from),
        ArgumentView::Moment(date_to),
    ]);
    positional_only(Operation::HistoryDealsGet, positional)
}

/// What the error channel reports, from the code and the message that the
/// terminal gave: the status of that code with the message as it is. `None`
/// where the code is none that the terminal is known to give.
pub fn report(code: i64, message: String) -> (report: Option<MQLError>)
    ensures
        report is Some <==> RuntimeError::is_code(code),
        report matches Some(reported) ==> reported.0.code() == code && reported.1 == message,
{
    match RuntimeError::from_code(code) {
        Some(status) => Some((status, message)),
        None => None,
    }
}

/// What an operation returns for the reply `reply`, where the error channel
/// reported `error` after the call: the report itself where it is a failure,
/// and the reply otherwise.
pub open spec fn settled<T>(reply: Option<T>, error: MQLError) -> MQLResult<T> {
    if error.0.is_failure() {
        Err(error)
    } else {
        Ok(reply->0)
    }
}

/// Decides what an operation returns.
///
/// `reply` is what the call gave, unmarshalled, or `None` where it gave nothing
/// that could be unmarshalled; `error` is what the error channel reported after
/// the call. Where the channel reports a failure the operation fails with
/// exactly that report, and the reply is dropped whatever it holds. Otherwise
/// the operation succeeds with the reply, unchanged.
///
/// This is the rule for a reply that is a value: a record, a list, a number.
/// A reply that is the terminal's yes or no is settled by [`settle_accepted`],
/// and that of a connecting operation by [`settle_initialize`]: there a no is
/// a failure of its own.
///
/// A call that gave nothing although the channel reports no failure is a
/// defect of the terminal, and no case of this function.
pub fn settle<T>(reply: Option<T>, error: MQLError) -> (result: MQLResult<T>)
    requires
        !error.0.is_failure() ==> reply is Some,
    ensures
        result == settled(reply, error),
{
    if error.0.is_failure() {
        Err(error)
    } else {
        Ok(reply.unwrap())
    }
}

/// Whatever holds of a reply holds of the result that it is settled into,
/// where the error channel reports no failure: the reply is handed on as it
/// is. So rows of which the terminal sent no more than were asked for, each
/// with its prices in the order that the terminal keeps them in, come out as
/// many and in that order.
pub proof fn settled_reply_is_unchanged<T>(reply: T, error: MQLError, holds: spec_fn(T) -> bool)
    requires
        !error.0.is_failure(),
        holds(reply),
    ensures
        settled(Some(reply), error) matches Ok(value) && holds(value),
{
}

/// Rows that number at most `count` in the reply number at most `count` in the
/// result.
pub proof fn settled_rows_keep_their_number<T>(rows: Vec<T>, error: MQLError, count: int)
    requires
        !error.0.is_failure(),
        rows@.len() <= count,
    ensures
        settled(Some(rows), error) matches Ok(returned) && returned@.len() <= count,
{
}

/// The message of the failure that [`settle_accepted`] reports where the
/// terminal answered no without saying why.
pub open spec fn refused() -> Seq<char> {
    "The terminal refused the operation"@
}

/// Decides what an operation returns whose reply is the terminal's yes or no:
/// a login, the selection of a symbol.
///
/// `accepted` is the truth value that the call gave. As in [`settle`], a
/// failure that the error channel reports comes first and is returned as it is.
/// Where the channel reports none, a yes is success, and a no is an
/// authorisation failure with the message [`refused`]: the operation never
/// succeeds with `false`.
pub fn settle_accepted(accepted: Option<bool>, error: MQLError) -> (result: MQLResult<bool>)
    requires
        !error.0.is_failure() ==> accepted is Some,
    ensures
        error.0.is_failure() ==> result == Err::<bool, MQLError>(error),
        !error.0.is_failure() && accepted == Some(true) ==> result == Ok::<bool, MQLError>(true),
        !error.0.is_failure() && accepted == Some(false) ==> (result matches Err(failure)
            && failure.0 == RuntimeError::AuthFailed && failure.1@ == refused()),
{
    if error.0.is_failure() {
        Err(error)
    } else if accepted.unwrap() {
        Ok(true)
    } else {
        Err((RuntimeError::AuthFailed, "The terminal refused the operation".to_owned()))
    }
}

/// The message of the failure that [`settle_initialize`] reports where the
/// terminal refused to connect without saying why.
pub open spec fn refusal() -> Seq<char> {
    "Failed to initialize MetaTrader5"@
}

/// Decides what a connecting operation returns.
///
/// `accepted` is the truth value that the call gave. As in [`settle`], a
/// failure that the error channel reports comes first and is returned as it is.
/// Where the channel reports none, the session is returned if the terminal
/// accepted, and an authorisation failure with the message [`refusal`] if it did
/// not.
pub fn settle_initialize<S>(session: S, accepted: Option<bool>, error: MQLError) -> (result:
    MQLResult<S>)
    requires
        !error.0.is_failure() ==> accepted is Some,
    ensures
        error.0.is_failure() ==> result == Err::<S, MQLError>(error),
        !error.0.is_failure() && accepted == Some(true) ==> result == Ok::<S, MQLError>(session),
        !error.0.is_failure() && accepted == Some(false) ==> (result matches Err(failure)
            && failure.0 == RuntimeError::AuthFailed && failure.1@ == refusal()),
{
    if error.0.is_failure() {
        Err(error)
    } else if accepted.unwrap() {
        Ok(session)
    } else {
        Err((RuntimeError::AuthFailed, "Failed to initialize MetaTrader5".to_owned()))
    }
}

/// Decides what closing the connection returns: success, whether or not the
/// terminal released its side. A caller has nothing left to do about a
/// connection that would not close.
pub fn settle_shutdown(released: bool) -> (result: MQLResult<()>)
    ensures
        result == Ok::<(), MQLError>(()),
{
    Ok(())
}

} // verus!

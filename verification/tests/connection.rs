use fishing_line::calendar::CalendarTime;
use fishing_line::call::{Argument, ForeignCall, Keyword, Operation, RequestField, Scalar};
use fishing_line::connection;
use fishing_line::enums::{
    CopyTicksFlags, OrderType, RuntimeError, Timeframe, TradeActionRequest,
};
use fishing_line::number::Double;
use fishing_line::schemas::{AccountCredentials, TradeRequestBuilder};

fn number(value: f64) -> Double {
    Double::from_bits(value.to_bits())
}

fn text(value: &str) -> Argument {
    Argument::Plain(Scalar::Text(value.to_string()))
}

fn integer(value: i64) -> Argument {
    Argument::Plain(Scalar::Integer(value))
}

fn credentials() -> AccountCredentials {
    AccountCredentials {
        login: 311981450,
        password: "hunter2".to_string(),
        server: "Demo-Server".to_string(),
    }
}

fn july(day: u8) -> CalendarTime {
    CalendarTime { year: 2024, month: 7, day, hour: 0, minute: 0, second: 0, microsecond: 0 }
}

fn plain(operation: Operation, positional: Vec<Argument>) -> ForeignCall {
    ForeignCall { operation, positional, keywords: vec![] }
}

#[test]
fn operations_without_arguments_carry_none() {
    let calls = [
        (connection::shutdown(), Operation::Shutdown, "shutdown"),
        (connection::last_error(), Operation::LastError, "last_error"),
        (connection::account_info(), Operation::AccountInfo, "account_info"),
        (connection::terminal_info(), Operation::TerminalInfo, "terminal_info"),
        (connection::version(), Operation::Version, "version"),
        (connection::symbols_total(), Operation::SymbolsTotal, "symbols_total"),
        (connection::orders_total(), Operation::OrdersTotal, "orders_total"),
        (connection::orders_get(), Operation::OrdersGet, "orders_get"),
        (connection::positions_total(), Operation::PositionsTotal, "positions_total"),
        (connection::positions_get(), Operation::PositionsGet, "positions_get"),
    ];
    for (call, operation, name) in calls {
        assert_eq!(call, plain(operation, vec![]));
        assert_eq!(call.operation.name(), name);
    }
}

#[test]
fn initialize_takes_the_path() {
    let call = connection::initialize("C:\\Program Files\\Terminal\\terminal64.exe");
    assert_eq!(
        call,
        plain(Operation::Initialize, vec![text("C:\\Program Files\\Terminal\\terminal64.exe")])
    );
    assert_eq!(call.operation.name(), "initialize");
}

#[test]
fn initialize_with_credentials_names_them_by_keyword() {
    let call = connection::initialize_with_credentials("terminal", credentials(), 1000, None);
    assert_eq!(
        call,
        ForeignCall {
            operation: Operation::Initialize,
            positional: vec![text("terminal")],
            keywords: vec![
                (Keyword::Login, Scalar::Integer(311981450)),
                (Keyword::Password, Scalar::Text("hunter2".to_string())),
                (Keyword::Server, Scalar::Text("Demo-Server".to_string())),
                (Keyword::Timeout, Scalar::Integer(1000)),
            ],
        }
    );
}

#[test]
fn portable_goes_along_only_when_given() {
    let call =
        connection::initialize_with_credentials("terminal", credentials(), 1000, Some(false));
    assert_eq!(call.keywords.len(), 5);
    assert_eq!(call.keywords[4], (Keyword::Portable, Scalar::Boolean(false)));
    let call = connection::initialize_with_credentials("terminal", credentials(), 1000, Some(true));
    assert_eq!(call.keywords[4], (Keyword::Portable, Scalar::Boolean(true)));
    assert_eq!(call.keywords[4].0.name(), "portable");
}

#[test]
fn login_takes_the_account_by_position() {
    let call = connection::login(credentials(), None);
    assert_eq!(
        call,
        ForeignCall {
            operation: Operation::Login,
            positional: vec![integer(311981450)],
            keywords: vec![
                (Keyword::Password, Scalar::Text("hunter2".to_string())),
                (Keyword::Server, Scalar::Text("Demo-Server".to_string())),
            ],
        }
    );
    let call = connection::login(credentials(), Some(0));
    assert_eq!(call.keywords.len(), 3);
    assert_eq!(call.keywords[2], (Keyword::Timeout, Scalar::Integer(0)));
}

#[test]
fn keywords_are_spelled_as_the_terminal_spells_them() {
    assert_eq!(Keyword::Login.name(), "login");
    assert_eq!(Keyword::Password.name(), "password");
    assert_eq!(Keyword::Server.name(), "server");
    assert_eq!(Keyword::Timeout.name(), "timeout");
    assert_eq!(Keyword::Portable.name(), "portable");
    assert_eq!(Keyword::Group.name(), "group");
}

#[test]
fn symbol_queries_take_the_symbol() {
    assert_eq!(connection::symbol_info("BTCUSD"), plain(Operation::SymbolInfo, vec![text("BTCUSD")]));
    assert_eq!(
        connection::symbol_info_tick("BTCUSD"),
        plain(Operation::SymbolInfoTick, vec![text("BTCUSD")])
    );
    assert_eq!(connection::symbol_info("").operation.name(), "symbol_info");
    assert_eq!(connection::symbol_info_tick("").operation.name(), "symbol_info_tick");
}

#[test]
fn a_symbol_is_shown_unless_the_caller_hides_it() {
    let shown = plain(
        Operation::SymbolSelect,
        vec![text("GBPUSD"), Argument::Plain(Scalar::Boolean(true))],
    );
    let hidden = plain(
        Operation::SymbolSelect,
        vec![text("GBPUSD"), Argument::Plain(Scalar::Boolean(false))],
    );
    assert_eq!(connection::symbol_select("GBPUSD", None), shown);
    assert_eq!(connection::symbol_select("GBPUSD", Some(true)), shown);
    assert_eq!(connection::symbol_select("GBPUSD", Some(false)), hidden);
}

#[test]
fn the_group_filter_goes_through_unread() {
    assert_eq!(connection::symbols_get(None), plain(Operation::SymbolsGet, vec![]));
    let filter = "*,!*USD*,!*EUR*,!*JPY*,!*GBP*";
    assert_eq!(
        connection::symbols_get(Some(filter)),
        ForeignCall {
            operation: Operation::SymbolsGet,
            positional: vec![],
            keywords: vec![(Keyword::Group, Scalar::Text(filter.to_string()))],
        }
    );
    assert_eq!(
        connection::symbols_get(Some("")).keywords,
        vec![(Keyword::Group, Scalar::Text(String::new()))]
    );
}

#[test]
fn the_hour_flag_reaches_the_terminal() {
    let call = connection::copy_rates_from("BTCUSD", Timeframe::H1, july(7), 20);
    assert_eq!(
        call,
        plain(
            Operation::CopyRatesFrom,
            vec![text("BTCUSD"), integer(16385), Argument::Moment(july(7)), integer(20)]
        )
    );
    assert_eq!(call.operation.name(), "copy_rates_from");
    let call = connection::copy_rates_from_pos("BTCUSD", Timeframe::H1, 0, 20);
    assert_eq!(
        call,
        plain(
            Operation::CopyRatesFromPos,
            vec![text("BTCUSD"), integer(16385), integer(0), integer(20)]
        )
    );
    let call = connection::copy_rates_range("EURUSD", Timeframe::D1, july(7), july(8));
    assert_eq!(
        call,
        plain(
            Operation::CopyRatesRange,
            vec![
                text("EURUSD"),
                integer(16408),
                Argument::Moment(july(7)),
                Argument::Moment(july(8))
            ]
        )
    );
    assert_eq!(call.operation.name(), "copy_rates_range");
}

#[test]
fn tick_queries_take_the_flags_as_a_code() {
    let call = connection::copy_ticks_from("BTCUSD", july(7), 20, CopyTicksFlags::ALL);
    assert_eq!(
        call,
        plain(
            Operation::CopyTicksFrom,
            vec![text("BTCUSD"), Argument::Moment(july(7)), integer(20), integer(-1)]
        )
    );
    let call = connection::copy_ticks_range("BTCUSD", july(7), july(8), CopyTicksFlags::TRADE);
    assert_eq!(
        call,
        plain(
            Operation::CopyTicksRange,
            vec![
                text("BTCUSD"),
                Argument::Moment(july(7)),
                Argument::Moment(july(8)),
                integer(2)
            ]
        )
    );
    assert_eq!(call.operation.name(), "copy_ticks_range");
}

#[test]
fn negative_counts_go_through_as_they_are() {
    let call = connection::copy_rates_from_pos("X", Timeframe::MN1, i32::MIN, i32::MAX);
    assert_eq!(
        call.positional,
        vec![text("X"), integer(49153), integer(i32::MIN as i64), integer(i32::MAX as i64)]
    );
}

#[test]
fn margin_and_profit_take_their_numbers_bit_for_bit() {
    let call =
        connection::order_calc_margin(TradeActionRequest::DEAL, "EURUSD", number(0.1), number(1.0825));
    assert_eq!(
        call,
        plain(
            Operation::OrderCalcMargin,
            vec![
                integer(1),
                text("EURUSD"),
                Argument::Plain(Scalar::Double(number(0.1))),
                Argument::Plain(Scalar::Double(number(1.0825))),
            ]
        )
    );
    let call = connection::order_calc_profit(
        TradeActionRequest::DEAL,
        "EURUSD",
        number(0.1),
        number(1.0825),
        number(1.0925),
    );
    assert_eq!(
        call,
        plain(
            Operation::OrderCalcProfit,
            vec![
                integer(1),
                text("EURUSD"),
                Argument::Plain(Scalar::Double(number(0.1))),
                Argument::Plain(Scalar::Double(number(1.0825))),
                Argument::Plain(Scalar::Double(number(1.0925))),
            ]
        )
    );
    match &call.positional[2] {
        Argument::Plain(Scalar::Double(volume)) => {
            assert_eq!(f64::from_bits(volume.to_bits()), 0.1)
        }
        other => panic!("unexpected argument {:?}", other),
    }
}

#[test]
fn a_check_and_a_send_forward_the_same_request() {
    let request = TradeRequestBuilder::new()
        .action(TradeActionRequest::DEAL)
        .symbol("BTCUSD".to_string())
        .volume(number(0.01))
        .price(number(64000.5))
        .order_type(OrderType::BUY);
    let dictionary = vec![
        (RequestField::Action, Scalar::Integer(1)),
        (RequestField::Symbol, Scalar::Text("BTCUSD".to_string())),
        (RequestField::Volume, Scalar::Double(number(0.01))),
        (RequestField::Price, Scalar::Double(number(64000.5))),
        (RequestField::Type, Scalar::Integer(0)),
    ];
    let checked = connection::order_check(&request);
    assert_eq!(
        checked,
        plain(Operation::OrderCheck, vec![Argument::Request(dictionary.clone())])
    );
    let sent = connection::order_send(request);
    assert_eq!(sent, plain(Operation::OrderSend, vec![Argument::Request(dictionary)]));
    assert_eq!(checked.positional, sent.positional);
    assert_eq!(checked.operation.name(), "order_check");
    assert_eq!(sent.operation.name(), "order_send");
}

#[test]
fn history_queries_take_both_ends() {
    let ends = vec![Argument::Moment(july(7)), Argument::Moment(july(9))];
    assert_eq!(
        connection::history_orders_total(july(7), july(9)),
        plain(Operation::HistoryOrdersTotal, ends.clone())
    );
    assert_eq!(
        connection::history_orders_get(july(7), july(9)),
        plain(Operation::HistoryOrdersGet, ends.clone())
    );
    assert_eq!(
        connection::history_deals_total(july(7), july(9)),
        plain(Operation::HistoryDealsTotal, ends.clone())
    );
    assert_eq!(
        connection::history_deals_get(july(7), july(9)),
        plain(Operation::HistoryDealsGet, ends)
    );
    assert_eq!(Operation::HistoryOrdersTotal.name(), "history_orders_total");
    assert_eq!(Operation::HistoryOrdersGet.name(), "history_orders_get");
    assert_eq!(Operation::HistoryDealsTotal.name(), "history_deals_total");
    assert_eq!(Operation::HistoryDealsGet.name(), "history_deals_get");
}

#[test]
fn a_reported_failure_is_returned_as_it_is() {
    let report = (RuntimeError::NotFound, "Symbol not found".to_string());
    assert_eq!(connection::settle(Some(7), report.clone()), Err(report.clone()));
    assert_eq!(connection::settle::<i64>(None, report.clone()), Err(report));
    let failures = [
        RuntimeError::Fail,
        RuntimeError::InvalidParams,
        RuntimeError::NoMemory,
        RuntimeError::NotFound,
        RuntimeError::InvalidVersion,
        RuntimeError::AuthFailed,
        RuntimeError::Unsupported,
        RuntimeError::AutoTradingDisabled,
        RuntimeError::InternalFail,
        RuntimeError::InternalFailSend,
        RuntimeError::InternalFailReceive,
        RuntimeError::InternalFailInit,
        RuntimeError::InternalFailTimeout,
    ];
    for status in failures {
        let report = (status, "no".to_string());
        assert_eq!(connection::settle(Some("partial"), report.clone()), Err(report));
    }
}

#[test]
fn without_a_failure_the_reply_is_returned() {
    let report = (RuntimeError::Success, "Success".to_string());
    assert_eq!(connection::settle(Some(7), report.clone()), Ok(7));
    assert_eq!(connection::settle(Some(false), report.clone()), Ok(false));
    assert_eq!(connection::settle(Some(vec![1, 2, 3]), report), Ok(vec![1, 2, 3]));
}

#[test]
fn a_session_is_returned_where_the_terminal_accepted() {
    let fine = (RuntimeError::Success, "Success".to_string());
    assert_eq!(connection::settle_initialize("session", Some(true), fine.clone()), Ok("session"));
    assert_eq!(
        connection::settle_initialize("session", Some(false), fine),
        Err((RuntimeError::AuthFailed, "Failed to initialize MetaTrader5".to_string()))
    );
}

#[test]
fn a_reported_failure_comes_before_the_answer_of_the_terminal() {
    let report = (RuntimeError::InternalFailTimeout, "IPC timeout".to_string());
    assert_eq!(
        connection::settle_initialize("session", Some(true), report.clone()),
        Err(report.clone())
    );
    assert_eq!(
        connection::settle_initialize("session", Some(false), report.clone()),
        Err(report.clone())
    );
    assert_eq!(connection::settle_initialize("session", None, report.clone()), Err(report));
}

#[test]
fn the_report_of_the_error_channel_keeps_code_and_message() {
    assert_eq!(
        connection::report(1, "Success".to_string()),
        Some((RuntimeError::Success, "Success".to_string()))
    );
    assert_eq!(
        connection::report(-10005, "IPC timeout".to_string()),
        Some((RuntimeError::InternalFailTimeout, "IPC timeout".to_string()))
    );
    assert_eq!(connection::report(0, "?".to_string()), None);
    assert_eq!(connection::report(-9, String::new()), None);
}

#[test]
fn closing_the_connection_always_succeeds() {
    assert_eq!(connection::settle_shutdown(true), Ok(()));
    assert_eq!(connection::settle_shutdown(false), Ok(()));
}

#[test]
fn a_login_that_the_terminal_refused_is_a_failure() {
    let fine = (RuntimeError::Success, "Success".to_string());
    assert_eq!(
        connection::settle_accepted(Some(false), fine.clone()),
        Err((RuntimeError::AuthFailed, "The terminal refused the operation".to_string()))
    );
    assert_eq!(connection::settle_accepted(Some(true), fine), Ok(true));
}

#[test]
fn a_yes_or_no_never_settles_into_a_successful_no() {
    let statuses = [
        RuntimeError::Success,
        RuntimeError::Fail,
        RuntimeError::InvalidParams,
        RuntimeError::NoMemory,
        RuntimeError::NotFound,
        RuntimeError::InvalidVersion,
        RuntimeError::AuthFailed,
        RuntimeError::Unsupported,
        RuntimeError::AutoTradingDisabled,
        RuntimeError::InternalFail,
        RuntimeError::InternalFailSend,
        RuntimeError::InternalFailReceive,
        RuntimeError::InternalFailInit,
        RuntimeError::InternalFailTimeout,
    ];
    for status in statuses {
        for accepted in [Some(true), Some(false)] {
            let result = connection::settle_accepted(accepted, (status, "said".to_string()));
            assert_ne!(result, Ok(false));
            if status.is_failure() {
                assert_eq!(result, Err((status, "said".to_string())));
            }
        }
    }
}

#[test]
fn a_reported_failure_comes_before_a_yes() {
    let report = (RuntimeError::InvalidParams, "Invalid params".to_string());
    assert_eq!(connection::settle_accepted(Some(true), report.clone()), Err(report.clone()));
    assert_eq!(connection::settle_accepted(Some(false), report.clone()), Err(report.clone()));
    assert_eq!(connection::settle_accepted(None, report.clone()), Err(report));
}

#[test]
fn rows_come_out_as_many_as_the_terminal_sent() {
    let fine = (RuntimeError::Success, "Success".to_string());
    let rows = vec![10, 20, 30];
    let settled = connection::settle(Some(rows.clone()), fine.clone()).unwrap();
    assert_eq!(settled, rows);
    assert!(settled.len() <= 20);
    let none: Vec<i64> = Vec::new();
    assert_eq!(connection::settle(Some(none.clone()), fine), Ok(none));
}

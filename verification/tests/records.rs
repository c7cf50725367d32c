use fishing_line::enums::{
    AccountInfoProperty, AccountMarginMode, AccountStopOutMode, AccountTradeMode, DayOfWeek,
    SymbolCalcMode, SymbolChartMode, SymbolExpirationMode, SymbolFillingMode, SymbolInfoProperty,
    SymbolOptionMode, SymbolOptionRight, SymbolOrderGtcMode, SymbolOrderMode, SymbolSwapMode,
    SymbolTradeExecution, SymbolTradeMode, TerminalInfoProperty,
};
use fishing_line::number::Double;
use fishing_line::schemas::{AccountInfo, SymbolInfo, TerminalInfo};
use fishing_line::traits::{InfoProperties, InfoTrait, ValueKind};

fn double(value: f64) -> Double {
    Double::from_bits(value.to_bits())
}

fn terminal() -> TerminalInfo {
    TerminalInfo {
        community_account: true,
        community_connection: false,
        connected: true,
        dlls_allowed: false,
        trade_allowed: true,
        tradeapi_disabled: true,
        email_enabled: false,
        ftp_enabled: true,
        notifications_enabled: false,
        mqid: true,
        build: 1010,
        maxbars: 1011,
        codepage: 1012,
        ping_last: 1013,
        community_balance: double(14.25),
        retransmission: double(15.25),
        company: "COMPANY".to_string(),
        name: "NAME".to_string(),
        language: "LANGUAGE".to_string(),
        path: "PATH".to_string(),
        data_path: "DATA_PATH".to_string(),
        commondata_path: "COMMONDATA_PATH".to_string(),
    }
}

fn account() -> AccountInfo {
    AccountInfo {
        login: 1001,
        trade_mode: AccountTradeMode::Real,
        leverage: 1003,
        limit_orders: 1004,
        margin_so_mode: AccountStopOutMode::MONEY,
        trade_allowed: false,
        trade_expert: true,
        margin_mode: AccountMarginMode::RetailHedging,
        currency_digits: 1009,
        fifo_close: false,
        balance: double(11.25),
        credit: double(12.25),
        profit: double(13.25),
        equity: double(14.25),
        margin: double(15.25),
        margin_free: double(16.25),
        margin_level: double(17.25),
        margin_so_call: double(18.25),
        margin_so_so: double(19.25),
        margin_initial: double(20.25),
        margin_maintenance: double(21.25),
        assets: double(22.25),
        liabilities: double(23.25),
        commission_blocked: double(24.25),
        name: "NAME".to_string(),
        server: "SERVER".to_string(),
        currency: "CURRENCY".to_string(),
        company: "COMPANY".to_string(),
    }
}

fn symbol() -> SymbolInfo {
    SymbolInfo {
        custom: true,
        chart_mode: SymbolChartMode::Last,
        select: true,
        visible: false,
        session_deals: 1005,
        session_buy_orders: 1006,
        session_sell_orders: 1007,
        volume: double(8.25),
        volumehigh: double(9.25),
        volumelow: double(10.25),
        time: 1011,
        digits: 1012,
        spread: 1013,
        spread_float: false,
        ticks_bookdepth: 1015,
        trade_calc_mode: SymbolCalcMode::CFD,
        trade_mode: SymbolTradeMode::SymbolTradeModeFull,
        start_time: 1018,
        expiration_time: 1019,
        trade_stops_level: 1020,
        trade_freeze_level: 1021,
        trade_exemode: SymbolTradeExecution::Market,
        swap_mode: SymbolSwapMode::Points,
        swap_rollover3days: DayOfWeek::Wednesday,
        margin_hedged_use_leg: true,
        expiration_mode: SymbolExpirationMode::All,
        filling_mode: SymbolFillingMode::Ioc,
        order_mode: SymbolOrderMode::All,
        order_gtc_mode: SymbolOrderGtcMode::Gtc,
        option_mode: SymbolOptionMode::European,
        option_right: SymbolOptionRight::Call,
        bid: double(32.25),
        bidhigh: double(33.25),
        bidlow: double(34.25),
        ask: double(35.25),
        askhigh: double(36.25),
        asklow: double(37.25),
        last: double(38.25),
        lasthigh: double(39.25),
        lastlow: double(40.25),
        volume_real: double(41.25),
        volumehigh_real: double(42.25),
        volumelow_real: double(43.25),
        option_strike: double(44.25),
        point: double(45.25),
        trade_tick_value: double(46.25),
        trade_tick_value_profit: double(47.25),
        trade_tick_value_loss: double(48.25),
        trade_tick_size: double(49.25),
        trade_contract_size: double(50.25),
        trade_accrued_interest: double(51.25),
        trade_face_value: double(52.25),
        trade_liquidity_rate: double(53.25),
        volume_min: double(54.25),
        volume_max: double(55.25),
        volume_step: double(56.25),
        volume_limit: double(57.25),
        swap_long: double(58.25),
        swap_short: double(59.25),
        margin_initial: double(60.25),
        margin_maintenance: double(61.25),
        session_volume: double(62.25),
        session_turnover: double(63.25),
        session_interest: double(64.25),
        session_buy_orders_volume: double(65.25),
        session_sell_orders_volume: double(66.25),
        session_open: double(67.25),
        session_close: double(68.25),
        session_aw: double(69.25),
        session_price_settlement: double(70.25),
        session_price_limit_min: double(71.25),
        session_price_limit_max: double(72.25),
        margin_hedged: double(73.25),
        price_change: double(74.25),
        price_volatility: double(75.25),
        price_theoretical: double(76.25),
        price_greeks_delta: double(77.25),
        price_greeks_theta: double(78.25),
        price_greeks_gamma: double(79.25),
        price_greeks_vega: double(80.25),
        price_greeks_rho: double(81.25),
        price_greeks_omega: double(82.25),
        price_sensitivity: double(83.25),
        basis: "BASIS".to_string(),
        category: "CATEGORY".to_string(),
        currency_base: "CURRENCY_BASE".to_string(),
        currency_profit: "CURRENCY_PROFIT".to_string(),
        currency_margin: "CURRENCY_MARGIN".to_string(),
        bank: "BANK".to_string(),
        description: "DESCRIPTION".to_string(),
        exchange: "EXCHANGE".to_string(),
        formula: "FORMULA".to_string(),
        isin: "ISIN".to_string(),
        name: "NAME".to_string(),
        page: "PAGE".to_string(),
        path: "PATH".to_string(),
    }
}

#[test]
fn terminal_double_properties_read_their_fields() {
    let record = terminal();
    let table = [
        (TerminalInfoProperty::CommunityBalance, record.community_balance),
        (TerminalInfoProperty::Retransmission, record.retransmission),
    ];
    for (property, field) in table {
        let property = InfoProperties::TerminalInfoProperty(property);
        assert!(record.answers(property, ValueKind::Double));
        assert_eq!(record.get_info_float(property), Ok(field));
    }
}

#[test]
fn terminal_integer_properties_read_their_fields() {
    let record = terminal();
    let table = [
        (TerminalInfoProperty::Build, record.build),
        (TerminalInfoProperty::MaxBars, record.maxbars),
        (TerminalInfoProperty::CodePage, record.codepage),
        (TerminalInfoProperty::PingLast, record.ping_last),
    ];
    for (property, field) in table {
        let property = InfoProperties::TerminalInfoProperty(property);
        assert!(record.answers(property, ValueKind::Integer));
        assert_eq!(record.get_info_integer(property), Ok(field));
    }
}

#[test]
fn terminal_text_properties_read_their_fields() {
    let record = terminal();
    let table = [
        (TerminalInfoProperty::Company, record.company.clone()),
        (TerminalInfoProperty::Name, record.name.clone()),
        (TerminalInfoProperty::Language, record.language.clone()),
        (TerminalInfoProperty::Path, record.path.clone()),
        (TerminalInfoProperty::DataPath, record.data_path.clone()),
        (TerminalInfoProperty::CommonDataPath, record.commondata_path.clone()),
    ];
    for (property, field) in table {
        let property = InfoProperties::TerminalInfoProperty(property);
        assert!(record.answers(property, ValueKind::Text));
        assert_eq!(record.get_info_string(property), Ok(field));
    }
}

#[test]
fn terminal_boolean_properties_read_their_fields() {
    let record = terminal();
    let table = [
        (TerminalInfoProperty::CommunityAccount, record.community_account),
        (TerminalInfoProperty::CommunityConnection, record.community_connection),
        (TerminalInfoProperty::Connected, record.connected),
        (TerminalInfoProperty::DllsAllowed, record.dlls_allowed),
        (TerminalInfoProperty::TradeAllowed, record.trade_allowed),
        (TerminalInfoProperty::TradeApiDisabled, record.tradeapi_disabled),
        (TerminalInfoProperty::EmailEnabled, record.email_enabled),
        (TerminalInfoProperty::FtpEnabled, record.ftp_enabled),
        (TerminalInfoProperty::NotificationsEnabled, record.notifications_enabled),
        (TerminalInfoProperty::MqId, record.mqid),
    ];
    for (property, field) in table {
        let property = InfoProperties::TerminalInfoProperty(property);
        assert!(record.answers(property, ValueKind::Boolean));
        assert_eq!(record.get_info_boolean(property), Ok(field));
    }
}

#[test]
fn terminal_answers_no_property_of_another_record() {
    let record = terminal();
    let kinds = [ValueKind::Double, ValueKind::Integer, ValueKind::Text, ValueKind::Boolean];
    for kind in kinds {
        assert!(!record.answers(InfoProperties::AccountInfoProperty(AccountInfoProperty::Name), kind));
    }
}

#[test]
fn account_double_properties_read_their_fields() {
    let record = account();
    let table = [
        (AccountInfoProperty::Balance, record.balance),
        (AccountInfoProperty::Credit, record.credit),
        (AccountInfoProperty::Profit, record.profit),
        (AccountInfoProperty::Equity, record.equity),
        (AccountInfoProperty::Margin, record.margin),
        (AccountInfoProperty::MarginFree, record.margin_free),
        (AccountInfoProperty::MarginLevel, record.margin_level),
        (AccountInfoProperty::MarginSoCall, record.margin_so_call),
        (AccountInfoProperty::MarginSoSo, record.margin_so_so),
        (AccountInfoProperty::MarginInitial, record.margin_initial),
        (AccountInfoProperty::MarginMaintenance, record.margin_maintenance),
        (AccountInfoProperty::Assets, record.assets),
        (AccountInfoProperty::Liabilities, record.liabilities),
        (AccountInfoProperty::CommissionBlocked, record.commission_blocked),
    ];
    for (property, field) in table {
        let property = InfoProperties::AccountInfoProperty(property);
        assert!(record.answers(property, ValueKind::Double));
        assert_eq!(record.get_info_float(property), Ok(field));
    }
}

#[test]
fn account_integer_properties_read_their_fields() {
    let record = account();
    let table = [
        (AccountInfoProperty::Login, record.login),
        (AccountInfoProperty::TradeMode, record.trade_mode.code() as i64),
        (AccountInfoProperty::Leverage, record.leverage),
        (AccountInfoProperty::LimitOrders, record.limit_orders),
        (AccountInfoProperty::MarginSoMode, record.margin_so_mode.code() as i64),
        (AccountInfoProperty::MarginMode, record.margin_mode.code() as i64),
        (AccountInfoProperty::CurrencyDigits, record.currency_digits),
    ];
    for (property, field) in table {
        let property = InfoProperties::AccountInfoProperty(property);
        assert!(record.answers(property, ValueKind::Integer));
        assert_eq!(record.get_info_integer(property), Ok(field));
    }
}

#[test]
fn account_text_properties_read_their_fields() {
    let record = account();
    let table = [
        (AccountInfoProperty::Currency, record.currency.clone()),
        (AccountInfoProperty::Company, record.company.clone()),
        (AccountInfoProperty::Name, record.name.clone()),
        (AccountInfoProperty::Server, record.server.clone()),
    ];
    for (property, field) in table {
        let property = InfoProperties::AccountInfoProperty(property);
        assert!(record.answers(property, ValueKind::Text));
        assert_eq!(record.get_info_string(property), Ok(field));
    }
}

#[test]
fn account_boolean_properties_read_their_fields() {
    let record = account();
    let table = [
        (AccountInfoProperty::TradeAllowed, record.trade_allowed),
        (AccountInfoProperty::TradeExpert, record.trade_expert),
        (AccountInfoProperty::FifoClose, record.fifo_close),
    ];
    for (property, field) in table {
        let property = InfoProperties::AccountInfoProperty(property);
        assert!(record.answers(property, ValueKind::Boolean));
        assert_eq!(record.get_info_boolean(property), Ok(field));
    }
}

#[test]
fn account_answers_no_property_of_another_record() {
    let record = account();
    let kinds = [ValueKind::Double, ValueKind::Integer, ValueKind::Text, ValueKind::Boolean];
    for kind in kinds {
        assert!(!record.answers(InfoProperties::SymbolInfoProperty(SymbolInfoProperty::Name), kind));
    }
}

#[test]
fn symbol_double_properties_read_their_fields() {
    let record = symbol();
    let table = [
        (SymbolInfoProperty::Volume, record.volume),
        (SymbolInfoProperty::VolumeHigh, record.volumehigh),
        (SymbolInfoProperty::VolumeLow, record.volumelow),
        (SymbolInfoProperty::Bid, record.bid),
        (SymbolInfoProperty::BidHigh, record.bidhigh),
        (SymbolInfoProperty::BidLow, record.bidlow),
        (SymbolInfoProperty::Ask, record.ask),
        (SymbolInfoProperty::AskHigh, record.askhigh),
        (SymbolInfoProperty::AskLow, record.asklow),
        (SymbolInfoProperty::Last, record.last),
        (SymbolInfoProperty::LastHigh, record.lasthigh),
        (SymbolInfoProperty::LastLow, record.lastlow),
        (SymbolInfoProperty::VolumeReal, record.volume_real),
        (SymbolInfoProperty::VolumeHighReal, record.volumehigh_real),
        (SymbolInfoProperty::VolumeLowReal, record.volumelow_real),
        (SymbolInfoProperty::OptionStrike, record.option_strike),
        (SymbolInfoProperty::Point, record.point),
        (SymbolInfoProperty::TradeTickValue, record.trade_tick_value),
        (SymbolInfoProperty::TradeTickValueProfit, record.trade_tick_value_profit),
        (SymbolInfoProperty::TradeTickValueLoss, record.trade_tick_value_loss),
        (SymbolInfoProperty::TradeTickSize, record.trade_tick_size),
        (SymbolInfoProperty::TradeContractSize, record.trade_contract_size),
        (SymbolInfoProperty::TradeAccruedInterest, record.trade_accrued_interest),
        (SymbolInfoProperty::TradeFaceValue, record.trade_face_value),
        (SymbolInfoProperty::TradeLiquidityRate, record.trade_liquidity_rate),
        (SymbolInfoProperty::VolumeMin, record.volume_min),
        (SymbolInfoProperty::VolumeMax, record.volume_max),
        (SymbolInfoProperty::VolumeStep, record.volume_step),
        (SymbolInfoProperty::VolumeLimit, record.volume_limit),
        (SymbolInfoProperty::SwapLong, record.swap_long),
        (SymbolInfoProperty::SwapShort, record.swap_short),
        (SymbolInfoProperty::MarginInitial, record.margin_initial),
        (SymbolInfoProperty::MarginMaintenance, record.margin_maintenance),
        (SymbolInfoProperty::SessionVolume, record.session_volume),
        (SymbolInfoProperty::SessionTurnover, record.session_turnover),
        (SymbolInfoProperty::SessionInterest, record.session_interest),
        (SymbolInfoProperty::SessionBuyOrdersVolume, record.session_buy_orders_volume),
        (SymbolInfoProperty::SessionSellOrdersVolume, record.session_sell_orders_volume),
        (SymbolInfoProperty::SessionOpen, record.session_open),
        (SymbolInfoProperty::SessionClose, record.session_close),
        (SymbolInfoProperty::SessionAw, record.session_aw),
        (SymbolInfoProperty::SessionPriceSettlement, record.session_price_settlement),
        (SymbolInfoProperty::SessionPriceLimitMin, record.session_price_limit_min),
        (SymbolInfoProperty::SessionPriceLimitMax, record.session_price_limit_max),
        (SymbolInfoProperty::MarginHedged, record.margin_hedged),
        (SymbolInfoProperty::PriceChange, record.price_change),
        (SymbolInfoProperty::PriceVolatility, record.price_volatility),
        (SymbolInfoProperty::PriceTheoretical, record.price_theoretical),
        (SymbolInfoProperty::PriceGreeksDelta, record.price_greeks_delta),
        (SymbolInfoProperty::PriceGreeksTheta, record.price_greeks_theta),
        (SymbolInfoProperty::PriceGreeksGamma, record.price_greeks_gamma),
        (SymbolInfoProperty::PriceGreeksVega, record.price_greeks_vega),
        (SymbolInfoProperty::PriceGreeksRho, record.price_greeks_rho),
        (SymbolInfoProperty::PriceGreeksOmega, record.price_greeks_omega),
        (SymbolInfoProperty::PriceSensitivity, record.price_sensitivity),
    ];
    for (property, field) in table {
        let property = InfoProperties::SymbolInfoProperty(property);
        assert!(record.answers(property, ValueKind::Double));
        assert_eq!(record.get_info_float(property), Ok(field));
    }
}

#[test]
fn symbol_integer_properties_read_their_fields() {
    let record = symbol();
    let table = [
        (SymbolInfoProperty::SessionDeals, record.session_deals),
        (SymbolInfoProperty::SessionBuyOrders, record.session_buy_orders),
        (SymbolInfoProperty::SessionSellOrders, record.session_sell_orders),
        (SymbolInfoProperty::Time, record.time),
        (SymbolInfoProperty::Digits, record.digits),
        (SymbolInfoProperty::Spread, record.spread),
        (SymbolInfoProperty::TicksBookDepth, record.ticks_bookdepth),
        (SymbolInfoProperty::StartTime, record.start_time),
        (SymbolInfoProperty::ExpirationTime, record.expiration_time),
        (SymbolInfoProperty::TradeStopsLevel, record.trade_stops_level),
        (SymbolInfoProperty::TradeFreezeLevel, record.trade_freeze_level),
    ];
    for (property, field) in table {
        let property = InfoProperties::SymbolInfoProperty(property);
        assert!(record.answers(property, ValueKind::Integer));
        assert_eq!(record.get_info_integer(property), Ok(field));
    }
}

#[test]
fn symbol_text_properties_read_their_fields() {
    let record = symbol();
    let table = [
        (SymbolInfoProperty::Basis, record.basis.clone()),
        (SymbolInfoProperty::Category, record.category.clone()),
        (SymbolInfoProperty::CurrencyBase, record.currency_base.clone()),
        (SymbolInfoProperty::CurrencyMargin, record.currency_margin.clone()),
        (SymbolInfoProperty::CurrencyProfit, record.currency_profit.clone()),
        (SymbolInfoProperty::Bank, record.bank.clone()),
        (SymbolInfoProperty::Description, record.description.clone()),
        (SymbolInfoProperty::Exchange, record.exchange.clone()),
        (SymbolInfoProperty::Formula, record.formula.clone()),
        (SymbolInfoProperty::Isin, record.isin.clone()),
        (SymbolInfoProperty::Name, record.name.clone()),
        (SymbolInfoProperty::Page, record.page.clone()),
        (SymbolInfoProperty::Path, record.path.clone()),
    ];
    for (property, field) in table {
        let property = InfoProperties::SymbolInfoProperty(property);
        assert!(record.answers(property, ValueKind::Text));
        assert_eq!(record.get_info_string(property), Ok(field));
    }
}

#[test]
fn symbol_boolean_properties_read_their_fields() {
    let record = symbol();
    let table = [
        (SymbolInfoProperty::Custom, record.custom),
        (SymbolInfoProperty::Select, record.select),
        (SymbolInfoProperty::Visible, record.visible),
        (SymbolInfoProperty::SpreadFloat, record.spread_float),
        (SymbolInfoProperty::MarginHedgedUseLeg, record.margin_hedged_use_leg),
    ];
    for (property, field) in table {
        let property = InfoProperties::SymbolInfoProperty(property);
        assert!(record.answers(property, ValueKind::Boolean));
        assert_eq!(record.get_info_boolean(property), Ok(field));
    }
}

#[test]
fn symbol_answers_no_other_property() {
    let record = symbol();
    let kinds = [ValueKind::Double, ValueKind::Integer, ValueKind::Text, ValueKind::Boolean];
    let unmapped = [
        SymbolInfoProperty::ChartMode,
        SymbolInfoProperty::TradeCalcMode,
        SymbolInfoProperty::TradeMode,
        SymbolInfoProperty::TradeExeMode,
        SymbolInfoProperty::SwapMode,
        SymbolInfoProperty::SwapRollover3Days,
        SymbolInfoProperty::ExpirationMode,
        SymbolInfoProperty::FillingMode,
        SymbolInfoProperty::OrderMode,
        SymbolInfoProperty::OrderGtcMode,
        SymbolInfoProperty::OptionMode,
        SymbolInfoProperty::OptionRight,
    ];
    for property in unmapped {
        for kind in kinds {
            assert!(!record.answers(InfoProperties::SymbolInfoProperty(property), kind));
        }
    }
    for kind in kinds {
        assert!(!record.answers(InfoProperties::TerminalInfoProperty(TerminalInfoProperty::Name), kind));
    }
}

#[test]
fn a_property_answers_under_one_kind_only() {
    let record = symbol();
    let point = InfoProperties::SymbolInfoProperty(SymbolInfoProperty::Point);
    assert!(record.answers(point, ValueKind::Double));
    assert!(!record.answers(point, ValueKind::Integer));
    assert!(!record.answers(point, ValueKind::Text));
    assert!(!record.answers(point, ValueKind::Boolean));
    assert_eq!(record.get_info_float(point), Ok(record.point));
    assert_eq!(record.get_info_float(point).unwrap().to_bits(), 45.25f64.to_bits());
}

#[test]
fn coded_fields_of_an_account_read_as_their_codes() {
    let record = account();
    let read = |property| {
        record.get_info_integer(InfoProperties::AccountInfoProperty(property)).unwrap()
    };
    assert_eq!(read(AccountInfoProperty::TradeMode), 2);
    assert_eq!(read(AccountInfoProperty::MarginSoMode), 1);
    assert_eq!(read(AccountInfoProperty::MarginMode), 2);
    assert_eq!(read(AccountInfoProperty::Login), 1001);
}

#[test]
fn the_terminal_says_whether_the_trade_interface_is_disabled() {
    let mut record = terminal();
    let property = InfoProperties::TerminalInfoProperty(TerminalInfoProperty::TradeApiDisabled);
    assert!(record.answers(property, ValueKind::Boolean));
    assert!(!record.answers(property, ValueKind::Integer));
    record.tradeapi_disabled = false;
    record.trade_allowed = true;
    assert_eq!(record.get_info_boolean(property), Ok(false));
    record.tradeapi_disabled = true;
    record.trade_allowed = false;
    assert_eq!(record.get_info_boolean(property), Ok(true));
}

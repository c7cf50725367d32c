//! The records that the terminal hands out, and the request that it takes.
//!
//! A record mirrors one structure of the terminal field for field. It is made
//! from a reply, handed to the caller and never changed. Prices, volumes and
//! amounts of money are [`Double`]s.

use crate::call::{RequestField, Scalar, ScalarView, entries_view};
use crate::enums::{
    AccountInfoProperty, AccountMarginMode, AccountStopOutMode, AccountTradeMode, DayOfWeek,
    DealEntry, DealReason, DealType, OrderReason, OrderState, OrderType, OrderTypeFilling,
    OrderTypeTime, PositionReason, PositionType, ReturnCode, SymbolCalcMode, SymbolChartMode,
    SymbolExpirationMode, SymbolFillingMode, SymbolInfoProperty, SymbolOptionMode,
    SymbolOptionRight, SymbolOrderGtcMode, SymbolOrderMode, SymbolSwapMode, SymbolTradeExecution,
    SymbolTradeMode, TerminalInfoProperty, TradeActionRequest,
};
use crate::number::Double;
use crate::prelude::MQLResult;
use crate::traits::{InfoProperties, InfoTrait, ValueKind};
use vstd::prelude::*;

verus! {

/// The version of the terminal: its number, its build and the day of the build.
#[derive(Clone, Debug, PartialEq)]
pub struct TerminalVersion {
    pub terminal_version: i64,
    pub build: i64,
    pub build_date: String,
}

/// The state and the settings of the terminal.
#[derive(Clone, Debug, PartialEq)]
pub struct TerminalInfo {
    pub community_account: bool,
    pub community_connection: bool,
    pub connected: bool,
    pub dlls_allowed: bool,
    pub trade_allowed: bool,
    pub tradeapi_disabled: bool,
    pub email_enabled: bool,
    pub ftp_enabled: bool,
    pub notifications_enabled: bool,
    pub mqid: bool,
    pub build: i64,
    pub maxbars: i64,
    pub codepage: i64,
    pub ping_last: i64,
    pub community_balance: Double,
    pub retransmission: Double,
    pub company: String,
    pub name: String,
    pub language: String,
    pub path: String,
    pub data_path: String,
    pub commondata_path: String,
}

impl TerminalInfo {
    fn find_double(&self, info_property: InfoProperties) -> (found: Option<Double>)
        ensures
            found == self.double_field(info_property),
    {
        match info_property {
            InfoProperties::TerminalInfoProperty(property) => match property {
                TerminalInfoProperty::CommunityBalance => Some(self.community_balance),
                TerminalInfoProperty::Retransmission => Some(self.retransmission),
                _ => None,
            },
            _ => None,
        }
    }

    fn find_integer(&self, info_property: InfoProperties) -> (found: Option<i64>)
        ensures
            found == self.integer_field(info_property),
    {
        match info_property {
            InfoProperties::TerminalInfoProperty(property) => match property {
                TerminalInfoProperty::Build => Some(self.build),
                TerminalInfoProperty::MaxBars => Some(self.maxbars),
                TerminalInfoProperty::CodePage => Some(self.codepage),
                TerminalInfoProperty::PingLast => Some(self.ping_last),
                _ => None,
            },
            _ => None,
        }
    }

    fn find_text(&self, info_property: InfoProperties) -> (found: Option<&String>)
        ensures
            found is Some <==> self.text_field(info_property) is Some,
            found is Some ==> *found->0 == self.text_field(info_property)->0,
    {
        match info_property {
            InfoProperties::TerminalInfoProperty(property) => match property {
                TerminalInfoProperty::Company => Some(&self.company),
                TerminalInfoProperty::Name => Some(&self.name),
                TerminalInfoProperty::Language => Some(&self.language),
                TerminalInfoProperty::Path => Some(&self.path),
                TerminalInfoProperty::DataPath => Some(&self.data_path),
                TerminalInfoProperty::CommonDataPath => Some(&self.commondata_path),
                _ => None,
            },
            _ => None,
        }
    }

    fn find_boolean(&self, info_property: InfoProperties) -> (found: Option<bool>)
        ensures
            found == self.boolean_field(info_property),
    {
        match info_property {
            InfoProperties::TerminalInfoProperty(property) => match property {
                TerminalInfoProperty::CommunityAccount => Some(self.community_account),
                TerminalInfoProperty::CommunityConnection => Some(self.community_connection),
                TerminalInfoProperty::Connected => Some(self.connected),
                TerminalInfoProperty::DllsAllowed => Some(self.dlls_allowed),
                TerminalInfoProperty::TradeAllowed => Some(self.trade_allowed),
                TerminalInfoProperty::TradeApiDisabled => Some(self.tradeapi_disabled),
                TerminalInfoProperty::EmailEnabled => Some(self.email_enabled),
                TerminalInfoProperty::FtpEnabled => Some(self.ftp_enabled),
                TerminalInfoProperty::NotificationsEnabled => Some(self.notifications_enabled),
                TerminalInfoProperty::MqId => Some(self.mqid),
                _ => None,
            },
            _ => None,
        }
    }
}

impl InfoTrait for TerminalInfo {
    open spec fn double_field(&self, info_property: InfoProperties) -> Option<Double> {
        match info_property {
            InfoProperties::TerminalInfoProperty(property) => match property {
                TerminalInfoProperty::CommunityBalance => Some(self.community_balance),
                TerminalInfoProperty::Retransmission => Some(self.retransmission),
                _ => None,
            },
            _ => None,
        }
    }

    open spec fn integer_field(&self, info_property: InfoProperties) -> Option<i64> {
        match info_property {
            InfoProperties::TerminalInfoProperty(property) => match property {
                TerminalInfoProperty::Build => Some(self.build),
                TerminalInfoProperty::MaxBars => Some(self.maxbars),
                TerminalInfoProperty::CodePage => Some(self.codepage),
                TerminalInfoProperty::PingLast => Some(self.ping_last),
                _ => None,
            },
            _ => None,
        }
    }

    open spec fn text_field(&self, info_property: InfoProperties) -> Option<String> {
        match info_property {
            InfoProperties::TerminalInfoProperty(property) => match property {
                TerminalInfoProperty::Company => Some(self.company),
                TerminalInfoProperty::Name => Some(self.name),
                TerminalInfoProperty::Language => Some(self.language),
                TerminalInfoProperty::Path => Some(self.path),
                TerminalInfoProperty::DataPath => Some(self.data_path),
                TerminalInfoProperty::CommonDataPath => Some(self.commondata_path),
                _ => None,
            },
            _ => None,
        }
    }

    open spec fn boolean_field(&self, info_property: InfoProperties) -> Option<bool> {
        match info_property {
            InfoProperties::TerminalInfoProperty(property) => match property {
                TerminalInfoProperty::CommunityAccount => Some(self.community_account),
                TerminalInfoProperty::CommunityConnection => Some(self.community_connection),
                TerminalInfoProperty::Connected => Some(self.connected),
                TerminalInfoProperty::DllsAllowed => Some(self.dlls_allowed),
                TerminalInfoProperty::TradeAllowed => Some(self.trade_allowed),
                TerminalInfoProperty::TradeApiDisabled => Some(self.tradeapi_disabled),
                TerminalInfoProperty::EmailEnabled => Some(self.email_enabled),
                TerminalInfoProperty::FtpEnabled => Some(self.ftp_enabled),
                TerminalInfoProperty::NotificationsEnabled => Some(self.notifications_enabled),
                TerminalInfoProperty::MqId => Some(self.mqid),
                _ => None,
            },
            _ => None,
        }
    }

    fn answers(&self, info_property: InfoProperties, kind: ValueKind) -> (held: bool) {
        match kind {
            ValueKind::Double => self.find_double(info_property).is_some(),
            ValueKind::Integer => self.find_integer(info_property).is_some(),
            ValueKind::Text => self.find_text(info_property).is_some(),
            ValueKind::Boolean => self.find_boolean(info_property).is_some(),
        }
    }

    fn get_info_float(&self, info_property: InfoProperties) -> (value: MQLResult<Double>) {
        Ok(self.find_double(info_property).unwrap())
    }

    fn get_info_integer(&self, info_property: InfoProperties) -> (value: MQLResult<i64>) {
        Ok(self.find_integer(info_property).unwrap())
    }

    fn get_info_string(&self, info_property: InfoProperties) -> (value: MQLResult<String>) {
        Ok(self.find_text(info_property).unwrap().clone())
    }

    fn get_info_boolean(&self, info_property: InfoProperties) -> (value: MQLResult<bool>) {
        Ok(self.find_boolean(info_property).unwrap())
    }
}

/// The trading account that the terminal is connected to.
#[derive(Clone, Debug, PartialEq)]
pub struct AccountInfo {
    pub login: i64,
    pub trade_mode: AccountTradeMode,
    pub leverage: i64,
    pub limit_orders: i64,
    pub margin_so_mode: AccountStopOutMode,
    pub trade_allowed: bool,
    pub trade_expert: bool,
    pub margin_mode: AccountMarginMode,
    pub currency_digits: i64,
    pub fifo_close: bool,
    pub balance: Double,
    pub credit: Double,
    pub profit: Double,
    pub equity: Double,
    pub margin: Double,
    pub margin_free: Double,
    pub margin_level: Double,
    pub margin_so_call: Double,
    pub margin_so_so: Double,
    pub margin_initial: Double,
    pub margin_maintenance: Double,
    pub assets: Double,
    pub liabilities: Double,
    pub commission_blocked: Double,
    pub name: String,
    pub server: String,
    pub currency: String,
    pub company: String,
}

impl AccountInfo {
    fn find_double(&self, info_property: InfoProperties) -> (found: Option<Double>)
        ensures
            found == self.double_field(info_property),
    {
        match info_property {
            InfoProperties::AccountInfoProperty(property) => match property {
                AccountInfoProperty::Balance => Some(self.balance),
                AccountInfoProperty::Credit => Some(self.credit),
                AccountInfoProperty::Profit => Some(self.profit),
                AccountInfoProperty::Equity => Some(self.equity),
                AccountInfoProperty::Margin => Some(self.margin),
                AccountInfoProperty::MarginFree => Some(self.margin_free),
                AccountInfoProperty::MarginLevel => Some(self.margin_level),
                AccountInfoProperty::MarginSoCall => Some(self.margin_so_call),
                AccountInfoProperty::MarginSoSo => Some(self.margin_so_so),
                AccountInfoProperty::MarginInitial => Some(self.margin_initial),
                AccountInfoProperty::MarginMaintenance => Some(self.margin_maintenance),
                AccountInfoProperty::Assets => Some(self.assets),
                AccountInfoProperty::Liabilities => Some(self.liabilities),
                AccountInfoProperty::CommissionBlocked => Some(self.commission_blocked),
                _ => None,
            },
            _ => None,
        }
    }

    fn find_integer(&self, info_property: InfoProperties) -> (found: Option<i64>)
        ensures
            found == self.integer_field(info_property),
    {
        match info_property {
            InfoProperties::AccountInfoProperty(property) => match property {
                AccountInfoProperty::Login => Some(self.login),
                AccountInfoProperty::TradeMode => Some(self.trade_mode.code() as i64),
                AccountInfoProperty::Leverage => Some(self.leverage),
                AccountInfoProperty::LimitOrders => Some(self.limit_orders),
                AccountInfoProperty::MarginSoMode => Some(self.margin_so_mode.code() as i64),
                AccountInfoProperty::MarginMode => Some(self.margin_mode.code() as i64),
                AccountInfoProperty::CurrencyDigits => Some(self.currency_digits),
                _ => None,
            },
            _ => None,
        }
    }

    fn find_text(&self, info_property: InfoProperties) -> (found: Option<&String>)
        ensures
            found is Some <==> self.text_field(info_property) is Some,
            found is Some ==> *found->0 == self.text_field(info_property)->0,
    {
        match info_property {
            InfoProperties::AccountInfoProperty(property) => match property {
                AccountInfoProperty::Currency => Some(&self.currency),
                AccountInfoProperty::Company => Some(&self.company),
                AccountInfoProperty::Name => Some(&self.name),
                AccountInfoProperty::Server => Some(&self.server),
                _ => None,
            },
            _ => None,
        }
    }

    fn find_boolean(&self, info_property: InfoProperties) -> (found: Option<bool>)
        ensures
            found == self.boolean_field(info_property),
    {
        match info_property {
            InfoProperties::AccountInfoProperty(property) => match property {
                AccountInfoProperty::TradeAllowed => Some(self.trade_allowed),
                AccountInfoProperty::TradeExpert => Some(self.trade_expert),
                AccountInfoProperty::FifoClose => Some(self.fifo_close),
                _ => None,
            },
            _ => None,
        }
    }
}

impl InfoTrait for AccountInfo {
    open spec fn double_field(&self, info_property: InfoProperties) -> Option<Double> {
        match info_property {
            InfoProperties::AccountInfoProperty(property) => match property {
                AccountInfoProperty::Balance => Some(self.balance),
                AccountInfoProperty::Credit => Some(self.credit),
                AccountInfoProperty::Profit => Some(self.profit),
                AccountInfoProperty::Equity => Some(self.equity),
                AccountInfoProperty::Margin => Some(self.margin),
                AccountInfoProperty::MarginFree => Some(self.margin_free),
                AccountInfoProperty::MarginLevel => Some(self.margin_level),
                AccountInfoProperty::MarginSoCall => Some(self.margin_so_call),
                AccountInfoProperty::MarginSoSo => Some(self.margin_so_so),
                AccountInfoProperty::MarginInitial => Some(self.margin_initial),
                AccountInfoProperty::MarginMaintenance => Some(self.margin_maintenance),
                AccountInfoProperty::Assets => Some(self.assets),
                AccountInfoProperty::Liabilities => Some(self.liabilities),
                AccountInfoProperty::CommissionBlocked => Some(self.commission_blocked),
                _ => None,
            },
            _ => None,
        }
    }

    open spec fn integer_field(&self, info_property: InfoProperties) -> Option<i64> {
        match info_property {
            InfoProperties::AccountInfoProperty(property) => match property {
                AccountInfoProperty::Login => Some(self.login),
                AccountInfoProperty::TradeMode => Some(self.trade_mode.code() as i64),
                AccountInfoProperty::Leverage => Some(self.leverage),
                AccountInfoProperty::LimitOrders => Some(self.limit_orders),
                AccountInfoProperty::MarginSoMode => Some(self.margin_so_mode.code() as i64),
                AccountInfoProperty::MarginMode => Some(self.margin_mode.code() as i64),
                AccountInfoProperty::CurrencyDigits => Some(self.currency_digits),
                _ => None,
            },
            _ => None,
        }
    }

    open spec fn text_field(&self, info_property: InfoProperties) -> Option<String> {
        match info_property {
            InfoProperties::AccountInfoProperty(property) => match property {
                AccountInfoProperty::Currency => Some(self.currency),
                AccountInfoProperty::Company => Some(self.company),
                AccountInfoProperty::Name => Some(self.name),
                AccountInfoProperty::Server => Some(self.server),
                _ => None,
            },
            _ => None,
        }
    }

    open spec fn boolean_field(&self, info_property: InfoProperties) -> Option<bool> {
        match info_property {
            InfoProperties::AccountInfoProperty(property) => match property {
                AccountInfoProperty::TradeAllowed => Some(self.trade_allowed),
                AccountInfoProperty::TradeExpert => Some(self.trade_expert),
                AccountInfoProperty::FifoClose => Some(self.fifo_close),
                _ => None,
            },
            _ => None,
        }
    }

    fn answers(&self, info_property: InfoProperties, kind: ValueKind) -> (held: bool) {
        match kind {
            ValueKind::Double => self.find_double(info_property).is_some(),
            ValueKind::Integer => self.find_integer(info_property).is_some(),
            ValueKind::Text => self.find_text(info_property).is_some(),
            ValueKind::Boolean => self.find_boolean(info_property).is_some(),
        }
    }

    fn get_info_float(&self, info_property: InfoProperties) -> (value: MQLResult<Double>) {
        Ok(self.find_double(info_property).unwrap())
    }

    fn get_info_integer(&self, info_property: InfoProperties) -> (value: MQLResult<i64>) {
        Ok(self.find_integer(info_property).unwrap())
    }

    fn get_info_string(&self, info_property: InfoProperties) -> (value: MQLResult<String>) {
        Ok(self.find_text(info_property).unwrap().clone())
    }

    fn get_info_boolean(&self, info_property: InfoProperties) -> (value: MQLResult<bool>) {
        Ok(self.find_boolean(info_property).unwrap())
    }
}

/// What a login needs: the account, its password and the trade server.
#[derive(Clone, Debug, PartialEq)]
pub struct AccountCredentials {
    pub login: i64,
    pub password: String,
    pub server: String,
}

/// What the terminal knows of one financial instrument.
#[derive(Clone, Debug, PartialEq)]
pub struct SymbolInfo {
    pub custom: bool,
    pub chart_mode: SymbolChartMode,
    pub select: bool,
    pub visible: bool,
    pub session_deals: i64,
    pub session_buy_orders: i64,
    pub session_sell_orders: i64,
    pub volume: Double,
    pub volumehigh: Double,
    pub volumelow: Double,
    pub time: i64,
    pub digits: i64,
    pub spread: i64,
    pub spread_float: bool,
    pub ticks_bookdepth: i64,
    pub trade_calc_mode: SymbolCalcMode,
    pub trade_mode: SymbolTradeMode,
    pub start_time: i64,
    pub expiration_time: i64,
    pub trade_stops_level: i64,
    pub trade_freeze_level: i64,
    pub trade_exemode: SymbolTradeExecution,
    pub swap_mode: SymbolSwapMode,
    pub swap_rollover3days: DayOfWeek,
    pub margin_hedged_use_leg: bool,
    pub expiration_mode: SymbolExpirationMode,
    pub filling_mode: SymbolFillingMode,
    pub order_mode: SymbolOrderMode,
    pub order_gtc_mode: SymbolOrderGtcMode,
    pub option_mode: SymbolOptionMode,
    pub option_right: SymbolOptionRight,
    pub bid: Double,
    pub bidhigh: Double,
    pub bidlow: Double,
    pub ask: Double,
    pub askhigh: Double,
    pub asklow: Double,
    pub last: Double,
    pub lasthigh: Double,
    pub lastlow: Double,
    pub volume_real: Double,
    pub volumehigh_real: Double,
    pub volumelow_real: Double,
    pub option_strike: Double,
    pub point: Double,
    pub trade_tick_value: Double,
    pub trade_tick_value_profit: Double,
    pub trade_tick_value_loss: Double,
    pub trade_tick_size: Double,
    pub trade_contract_size: Double,
    pub trade_accrued_interest: Double,
    pub trade_face_value: Double,
    pub trade_liquidity_rate: Double,
    pub volume_min: Double,
    pub volume_max: Double,
    pub volume_step: Double,
    pub volume_limit: Double,
    pub swap_long: Double,
    pub swap_short: Double,
    pub margin_initial: Double,
    pub margin_maintenance: Double,
    pub session_volume: Double,
    pub session_turnover: Double,
    pub session_interest: Double,
    pub session_buy_orders_volume: Double,
    pub session_sell_orders_volume: Double,
    pub session_open: Double,
    pub session_close: Double,
    pub session_aw: Double,
    pub session_price_settlement: Double,
    pub session_price_limit_min: Double,
    pub session_price_limit_max: Double,
    pub margin_hedged: Double,
    pub price_change: Double,
    pub price_volatility: Double,
    pub price_theoretical: Double,
    pub price_greeks_delta: Double,
    pub price_greeks_theta: Double,
    pub price_greeks_gamma: Double,
    pub price_greeks_vega: Double,
    pub price_greeks_rho: Double,
    pub price_greeks_omega: Double,
    pub price_sensitivity: Double,
    pub basis: String,
    pub category: String,
    pub currency_base: String,
    pub currency_profit: String,
    pub currency_margin: String,
    pub bank: String,
    pub description: String,
    pub exchange: String,
    pub formula: String,
    pub isin: String,
    pub name: String,
    pub page: String,
    pub path: String,
}

impl SymbolInfo {
    fn find_double(&self, info_property: InfoProperties) -> (found: Option<Double>)
        ensures
            found == self.double_field(info_property),
    {
        match info_property {
            InfoProperties::SymbolInfoProperty(property) => match property {
                SymbolInfoProperty::Volume => Some(self.volume),
                SymbolInfoProperty::VolumeHigh => Some(self.volumehigh),
                SymbolInfoProperty::VolumeLow => Some(self.volumelow),
                SymbolInfoProperty::Bid => Some(self.bid),
                SymbolInfoProperty::BidHigh => Some(self.bidhigh),
                SymbolInfoProperty::BidLow => Some(self.bidlow),
                SymbolInfoProperty::Ask => Some(self.ask),
                SymbolInfoProperty::AskHigh => Some(self.askhigh),
                SymbolInfoProperty::AskLow => Some(self.asklow),
                SymbolInfoProperty::Last => Some(self.last),
                SymbolInfoProperty::LastHigh => Some(self.lasthigh),
                SymbolInfoProperty::LastLow => Some(self.lastlow),
                SymbolInfoProperty::VolumeReal => Some(self.volume_real),
                SymbolInfoProperty::VolumeHighReal => Some(self.volumehigh_real),
                SymbolInfoProperty::VolumeLowReal => Some(self.volumelow_real),
                SymbolInfoProperty::OptionStrike => Some(self.option_strike),
                SymbolInfoProperty::Point => Some(self.point),
                SymbolInfoProperty::TradeTickValue => Some(self.trade_tick_value),
                SymbolInfoProperty::TradeTickValueProfit => Some(self.trade_tick_value_profit),
                SymbolInfoProperty::TradeTickValueLoss => Some(self.trade_tick_value_loss),
                SymbolInfoProperty::TradeTickSize => Some(self.trade_tick_size),
                SymbolInfoProperty::TradeContractSize => Some(self.trade_contract_size),
                SymbolInfoProperty::TradeAccruedInterest => Some(self.trade_accrued_interest),
                SymbolInfoProperty::TradeFaceValue => Some(self.trade_face_value),
                SymbolInfoProperty::TradeLiquidityRate => Some(self.trade_liquidity_rate),
                SymbolInfoProperty::VolumeMin => Some(self.volume_min),
                SymbolInfoProperty::VolumeMax => Some(self.volume_max),
                SymbolInfoProperty::VolumeStep => Some(self.volume_step),
                SymbolInfoProperty::VolumeLimit => Some(self.volume_limit),
                SymbolInfoProperty::SwapLong => Some(self.swap_long),
                SymbolInfoProperty::SwapShort => Some(self.swap_short),
                SymbolInfoProperty::MarginInitial => Some(self.margin_initial),
                SymbolInfoProperty::MarginMaintenance => Some(self.margin_maintenance),
                SymbolInfoProperty::SessionVolume => Some(self.session_volume),
                SymbolInfoProperty::SessionTurnover => Some(self.session_turnover),
                SymbolInfoProperty::SessionInterest => Some(self.session_interest),
                SymbolInfoProperty::SessionBuyOrdersVolume => Some(self.session_buy_orders_volume),
                SymbolInfoProperty::SessionSellOrdersVolume => Some(self.session_sell_orders_volume),
                SymbolInfoProperty::SessionOpen => Some(self.session_open),
                SymbolInfoProperty::SessionClose => Some(self.session_close),
                SymbolInfoProperty::SessionAw => Some(self.session_aw),
                SymbolInfoProperty::SessionPriceSettlement => Some(self.session_price_settlement),
                SymbolInfoProperty::SessionPriceLimitMin => Some(self.session_price_limit_min),
                SymbolInfoProperty::SessionPriceLimitMax => Some(self.session_price_limit_max),
                SymbolInfoProperty::MarginHedged => Some(self.margin_hedged),
                SymbolInfoProperty::PriceChange => Some(self.price_change),
                SymbolInfoProperty::PriceVolatility => Some(self.price_volatility),
                SymbolInfoProperty::PriceTheoretical => Some(self.price_theoretical),
                SymbolInfoProperty::PriceGreeksDelta => Some(self.price_greeks_delta),
                SymbolInfoProperty::PriceGreeksTheta => Some(self.price_greeks_theta),
                SymbolInfoProperty::PriceGreeksGamma => Some(self.price_greeks_gamma),
                SymbolInfoProperty::PriceGreeksVega => Some(self.price_greeks_vega),
                SymbolInfoProperty::PriceGreeksRho => Some(self.price_greeks_rho),
                SymbolInfoProperty::PriceGreeksOmega => Some(self.price_greeks_omega),
                SymbolInfoProperty::PriceSensitivity => Some(self.price_sensitivity),
                _ => None,
            },
            _ => None,
        }
    }

    fn find_integer(&self, info_property: InfoProperties) -> (found: Option<i64>)
        ensures
            found == self.integer_field(info_property),
    {
        match info_property {
            InfoProperties::SymbolInfoProperty(property) => match property {
                SymbolInfoProperty::SessionDeals => Some(self.session_deals),
                SymbolInfoProperty::SessionBuyOrders => Some(self.session_buy_orders),
                SymbolInfoProperty::SessionSellOrders => Some(self.session_sell_orders),
                SymbolInfoProperty::Time => Some(self.time),
                SymbolInfoProperty::Digits => Some(self.digits),
                SymbolInfoProperty::Spread => Some(self.spread),
                SymbolInfoProperty::TicksBookDepth => Some(self.ticks_bookdepth),
                SymbolInfoProperty::StartTime => Some(self.start_time),
                SymbolInfoProperty::ExpirationTime => Some(self.expiration_time),
                SymbolInfoProperty::TradeStopsLevel => Some(self.trade_stops_level),
                SymbolInfoProperty::TradeFreezeLevel => Some(self.trade_freeze_level),
                _ => None,
            },
            _ => None,
        }
    }

    fn find_text(&self, info_property: InfoProperties) -> (found: Option<&String>)
        ensures
            found is Some <==> self.text_field(info_property) is Some,
            found is Some ==> *found->0 == self.text_field(info_property)->0,
    {
        match info_property {
            InfoProperties::SymbolInfoProperty(property) => match property {
                SymbolInfoProperty::Basis => Some(&self.basis),
                SymbolInfoProperty::Category => Some(&self.category),
                SymbolInfoProperty::CurrencyBase => Some(&self.currency_base),
                SymbolInfoProperty::CurrencyMargin => Some(&self.currency_margin),
                SymbolInfoProperty::CurrencyProfit => Some(&self.currency_profit),
                SymbolInfoProperty::Bank => Some(&self.bank),
                SymbolInfoProperty::Description => Some(&self.description),
                SymbolInfoProperty::Exchange => Some(&self.exchange),
                SymbolInfoProperty::Formula => Some(&self.formula),
                SymbolInfoProperty::Isin => Some(&self.isin),
                SymbolInfoProperty::Name => Some(&self.name),
                SymbolInfoProperty::Page => Some(&self.page),
                SymbolInfoProperty::Path => Some(&self.path),
                _ => None,
            },
            _ => None,
        }
    }

    fn find_boolean(&self, info_property: InfoProperties) -> (found: Option<bool>)
        ensures
            found == self.boolean_field(info_property),
    {
        match info_property {
            InfoProperties::SymbolInfoProperty(property) => match property {
                SymbolInfoProperty::Custom => Some(self.custom),
                SymbolInfoProperty::Select => Some(self.select),
                SymbolInfoProperty::Visible => Some(self.visible),
                SymbolInfoProperty::SpreadFloat => Some(self.spread_float),
                SymbolInfoProperty::MarginHedgedUseLeg => Some(self.margin_hedged_use_leg),
                _ => None,
            },
            _ => None,
        }
    }
}

impl InfoTrait for SymbolInfo {
    open spec fn double_field(&self, info_property: InfoProperties) -> Option<Double> {
        match info_property {
            InfoProperties::SymbolInfoProperty(property) => match property {
                SymbolInfoProperty::Volume => Some(self.volume),
                SymbolInfoProperty::VolumeHigh => Some(self.volumehigh),
                SymbolInfoProperty::VolumeLow => Some(self.volumelow),
                SymbolInfoProperty::Bid => Some(self.bid),
                SymbolInfoProperty::BidHigh => Some(self.bidhigh),
                SymbolInfoProperty::BidLow => Some(self.bidlow),
                SymbolInfoProperty::Ask => Some(self.ask),
                SymbolInfoProperty::AskHigh => Some(self.askhigh),
                SymbolInfoProperty::AskLow => Some(self.asklow),
                SymbolInfoProperty::Last => Some(self.last),
                SymbolInfoProperty::LastHigh => Some(self.lasthigh),
                SymbolInfoProperty::LastLow => Some(self.lastlow),
                SymbolInfoProperty::VolumeReal => Some(self.volume_real),
                SymbolInfoProperty::VolumeHighReal => Some(self.volumehigh_real),
                SymbolInfoProperty::VolumeLowReal => Some(self.volumelow_real),
                SymbolInfoProperty::OptionStrike => Some(self.option_strike),
                SymbolInfoProperty::Point => Some(self.point),
                SymbolInfoProperty::TradeTickValue => Some(self.trade_tick_value),
                SymbolInfoProperty::TradeTickValueProfit => Some(self.trade_tick_value_profit),
                SymbolInfoProperty::TradeTickValueLoss => Some(self.trade_tick_value_loss),
                SymbolInfoProperty::TradeTickSize => Some(self.trade_tick_size),
                SymbolInfoProperty::TradeContractSize => Some(self.trade_contract_size),
                SymbolInfoProperty::TradeAccruedInterest => Some(self.trade_accrued_interest),
                SymbolInfoProperty::TradeFaceValue => Some(self.trade_face_value),
                SymbolInfoProperty::TradeLiquidityRate => Some(self.trade_liquidity_rate),
                SymbolInfoProperty::VolumeMin => Some(self.volume_min),
                SymbolInfoProperty::VolumeMax => Some(self.volume_max),
                SymbolInfoProperty::VolumeStep => Some(self.volume_step),
                SymbolInfoProperty::VolumeLimit => Some(self.volume_limit),
                SymbolInfoProperty::SwapLong => Some(self.swap_long),
                SymbolInfoProperty::SwapShort => Some(self.swap_short),
                SymbolInfoProperty::MarginInitial => Some(self.margin_initial),
                SymbolInfoProperty::MarginMaintenance => Some(self.margin_maintenance),
                SymbolInfoProperty::SessionVolume => Some(self.session_volume),
                SymbolInfoProperty::SessionTurnover => Some(self.session_turnover),
                SymbolInfoProperty::SessionInterest => Some(self.session_interest),
                SymbolInfoProperty::SessionBuyOrdersVolume => Some(self.session_buy_orders_volume),
                SymbolInfoProperty::SessionSellOrdersVolume => Some(self.session_sell_orders_volume),
                SymbolInfoProperty::SessionOpen => Some(self.session_open),
                SymbolInfoProperty::SessionClose => Some(self.session_close),
                SymbolInfoProperty::SessionAw => Some(self.session_aw),
                SymbolInfoProperty::SessionPriceSettlement => Some(self.session_price_settlement),
                SymbolInfoProperty::SessionPriceLimitMin => Some(self.session_price_limit_min),
                SymbolInfoProperty::SessionPriceLimitMax => Some(self.session_price_limit_max),
                SymbolInfoProperty::MarginHedged => Some(self.margin_hedged),
                SymbolInfoProperty::PriceChange => Some(self.price_change),
                SymbolInfoProperty::PriceVolatility => Some(self.price_volatility),
                SymbolInfoProperty::PriceTheoretical => Some(self.price_theoretical),
                SymbolInfoProperty::PriceGreeksDelta => Some(self.price_greeks_delta),
                SymbolInfoProperty::PriceGreeksTheta => Some(self.price_greeks_theta),
                SymbolInfoProperty::PriceGreeksGamma => Some(self.price_greeks_gamma),
                SymbolInfoProperty::PriceGreeksVega => Some(self.price_greeks_vega),
                SymbolInfoProperty::PriceGreeksRho => Some(self.price_greeks_rho),
                SymbolInfoProperty::PriceGreeksOmega => Some(self.price_greeks_omega),
                SymbolInfoProperty::PriceSensitivity => Some(self.price_sensitivity),
                _ => None,
            },
            _ => None,
        }
    }

    open spec fn integer_field(&self, info_property: InfoProperties) -> Option<i64> {
        match info_property {
            InfoProperties::SymbolInfoProperty(property) => match property {
                SymbolInfoProperty::SessionDeals => Some(self.session_deals),
                SymbolInfoProperty::SessionBuyOrders => Some(self.session_buy_orders),
                SymbolInfoProperty::SessionSellOrders => Some(self.session_sell_orders),
                SymbolInfoProperty::Time => Some(self.time),
                SymbolInfoProperty::Digits => Some(self.digits),
                SymbolInfoProperty::Spread => Some(self.spread),
                SymbolInfoProperty::TicksBookDepth => Some(self.ticks_bookdepth),
                SymbolInfoProperty::StartTime => Some(self.start_time),
                SymbolInfoProperty::ExpirationTime => Some(self.expiration_time),
                SymbolInfoProperty::TradeStopsLevel => Some(self.trade_stops_level),
                SymbolInfoProperty::TradeFreezeLevel => Some(self.trade_freeze_level),
                _ => None,
            },
            _ => None,
        }
    }

    open spec fn text_field(&self, info_property: InfoProperties) -> Option<String> {
        match info_property {
            InfoProperties::SymbolInfoProperty(property) => match property {
                SymbolInfoProperty::Basis => Some(self.basis),
                SymbolInfoProperty::Category => Some(self.category),
                SymbolInfoProperty::CurrencyBase => Some(self.currency_base),
                SymbolInfoProperty::CurrencyMargin => Some(self.currency_margin),
                SymbolInfoProperty::CurrencyProfit => Some(self.currency_profit),
                SymbolInfoProperty::Bank => Some(self.bank),
                SymbolInfoProperty::Description => Some(self.description),
                SymbolInfoProperty::Exchange => Some(self.exchange),
                SymbolInfoProperty::Formula => Some(self.formula),
                SymbolInfoProperty::Isin => Some(self.isin),
                SymbolInfoProperty::Name => Some(self.name),
                SymbolInfoProperty::Page => Some(self.page),
                SymbolInfoProperty::Path => Some(self.path),
                _ => None,
            },
            _ => None,
        }
    }

    open spec fn boolean_field(&self, info_property: InfoProperties) -> Option<bool> {
        match info_property {
            InfoProperties::SymbolInfoProperty(property) => match property {
                SymbolInfoProperty::Custom => Some(self.custom),
                SymbolInfoProperty::Select => Some(self.select),
                SymbolInfoProperty::Visible => Some(self.visible),
                SymbolInfoProperty::SpreadFloat => Some(self.spread_float),
                SymbolInfoProperty::MarginHedgedUseLeg => Some(self.margin_hedged_use_leg),
                _ => None,
            },
            _ => None,
        }
    }

    fn answers(&self, info_property: InfoProperties, kind: ValueKind) -> (held: bool) {
        match kind {
            ValueKind::Double => self.find_double(info_property).is_some(),
            ValueKind::Integer => self.find_integer(info_property).is_some(),
            ValueKind::Text => self.find_text(info_property).is_some(),
            ValueKind::Boolean => self.find_boolean(info_property).is_some(),
        }
    }

    fn get_info_float(&self, info_property: InfoProperties) -> (value: MQLResult<Double>) {
        Ok(self.find_double(info_property).unwrap())
    }

    fn get_info_integer(&self, info_property: InfoProperties) -> (value: MQLResult<i64>) {
        Ok(self.find_integer(info_property).unwrap())
    }

    fn get_info_string(&self, info_property: InfoProperties) -> (value: MQLResult<String>) {
        Ok(self.find_text(info_property).unwrap().clone())
    }

    fn get_info_boolean(&self, info_property: InfoProperties) -> (value: MQLResult<bool>) {
        Ok(self.find_boolean(info_property).unwrap())
    }
}

/// One tick: the prices of an instrument at one moment.
///
/// `time` counts seconds and `time_msc` milliseconds since the epoch; `flags` holds
/// bits of [`TicksFlag`](crate::enums::TicksFlag).
#[derive(Clone, Debug, PartialEq)]
pub struct SymbolTick {
    pub time: i64,
    pub bid: Double,
    pub ask: Double,
    pub last: Double,
    pub volume: Double,
    pub time_msc: i64,
    pub flags: i64,
    pub volume_real: Double,
}

/// One bar of a price series. `time` is the opening time, in seconds since the
/// epoch.
#[derive(Clone, Debug, PartialEq)]
pub struct SymbolRates {
    pub time: i64,
    pub open: Double,
    pub high: Double,
    pub low: Double,
    pub close: Double,
    pub tick_volume: isize,
    pub spread: Double,
    pub real_volume: isize,
}

/// A pending or a historical order. Times are in seconds, and those ending in
/// `_msc` in milliseconds, since the epoch.
#[derive(Clone, Debug, PartialEq)]
pub struct Order {
    pub ticket: isize,
    pub time_setup: i64,
    pub order_type: OrderType,
    pub state: OrderState,
    pub time_expiration: i64,
    pub time_done: i64,
    pub time_setup_msc: isize,
    pub time_done_msc: isize,
    pub type_filling: OrderTypeFilling,
    pub type_time: OrderTypeTime,
    pub magic: isize,
    pub reason: OrderReason,
    pub position_id: isize,
    pub position_by_id: isize,
    pub volume_initial: Double,
    pub volume_current: Double,
    pub price_open: Double,
    pub sl: Double,
    pub tp: Double,
    pub price_current: Double,
    pub price_stoplimit: Double,
    pub symbol: String,
    pub comment: String,
    pub external_id: String,
}

/// An open position.
#[derive(Clone, Debug, PartialEq)]
pub struct Position {
    pub ticket: isize,
    pub time: i64,
    pub time_msc: isize,
    pub time_update: i64,
    pub time_update_msc: isize,
    pub position_type: PositionType,
    pub magic: isize,
    pub identifier: isize,
    pub reason: PositionReason,
    pub volume: Double,
    pub price_open: Double,
    pub sl: Double,
    pub tp: Double,
    pub price_current: Double,
    pub swap: Double,
    pub profit: Double,
    pub symbol: String,
    pub comment: String,
    pub external_id: String,
}

/// A deal of the account's history.
#[derive(Clone, Debug, PartialEq)]
pub struct Deals {
    pub ticket: isize,
    pub order: isize,
    pub time: i64,
    pub time_msc: i64,
    pub deal_type: DealType,
    pub entry: DealEntry,
    pub magic: isize,
    pub reason: DealReason,
    pub position_id: isize,
    pub volume: Double,
    pub price: Double,
    pub commission: Double,
    pub swap: Double,
    pub profit: Double,
    pub fee: Double,
    pub symbol: String,
    pub comment: String,
    pub external_id: String,
}

/// A trade request as the terminal echoes it: every field present, those that
/// the sender left out at their zero.
#[derive(Clone, Debug, PartialEq)]
pub struct TradeRequest {
    pub action: TradeActionRequest,
    pub magic: usize,
    pub order: usize,
    pub symbol: String,
    pub volume: Double,
    pub price: Double,
    pub stoplimit: Double,
    pub sl: Double,
    pub tp: Double,
    pub deviation: usize,
    pub order_type: OrderType,
    pub type_filling: OrderTypeFilling,
    pub type_time: OrderTypeTime,
    pub expiration: i64,
    pub comment: String,
    pub position: usize,
    pub position_by: usize,
}

/// A trade request in the making.
///
/// Every field starts out unset. A field goes to the terminal exactly where it
/// was set: the terminal tells a field that is absent from one that is zero.
#[derive(Clone, Debug, PartialEq)]
pub struct TradeRequestBuilder {
    pub action: Option<TradeActionRequest>,
    pub magic: Option<i64>,
    pub order: Option<usize>,
    pub symbol: Option<String>,
    pub volume: Option<Double>,
    pub price: Option<Double>,
    pub stoplimit: Option<Double>,
    pub sl: Option<Double>,
    pub tp: Option<Double>,
    pub deviation: Option<usize>,
    pub order_type: Option<OrderType>,
    pub type_filling: Option<OrderTypeFilling>,
    pub type_time: Option<OrderTypeTime>,
    pub expiration: Option<i64>,
    pub comment: Option<String>,
    pub position: Option<usize>,
    pub position_by: Option<usize>,
}

impl Default for TradeRequestBuilder {
    fn default() -> (builder: TradeRequestBuilder)
        ensures
            builder == TradeRequestBuilder::blank(),
    {
        TradeRequestBuilder::new()
    }
}

impl TradeRequestBuilder {
    /// The request with no field set.
    pub open spec fn blank() -> TradeRequestBuilder {
        TradeRequestBuilder {
            action: None,
            magic: None,
            order: None,
            symbol: None,
            volume: None,
            price: None,
            stoplimit: None,
            sl: None,
            tp: None,
            deviation: None,
            order_type: None,
            type_filling: None,
            type_time: None,
            expiration: None,
            comment: None,
            position: None,
            position_by: None,
        }
    }

    pub fn new() -> (builder: TradeRequestBuilder)
        ensures
            builder == TradeRequestBuilder::blank(),
    {
        TradeRequestBuilder {
            action: None,
            magic: None,
            order: None,
            symbol: None,
            volume: None,
            price: None,
            stoplimit: None,
            sl: None,
            tp: None,
            deviation: None,
            order_type: None,
            type_filling: None,
            type_time: None,
            expiration: None,
            comment: None,
            position: None,
            position_by: None,
        }
    }

    /// What the terminal is asked to do.
    pub fn action(self, action: TradeActionRequest) -> (builder: TradeRequestBuilder)
        ensures
            builder == (TradeRequestBuilder { action: Some(action), ..self }),
    {
        TradeRequestBuilder { action: Some(action), ..self }
    }

    /// The number by which an expert advisor marks its orders.
    pub fn magic(self, magic: i64) -> (builder: TradeRequestBuilder)
        ensures
            builder == (TradeRequestBuilder { magic: Some(magic), ..self }),
    {
        TradeRequestBuilder { magic: Some(magic), ..self }
    }

    /// The ticket of the order that the request is about.
    pub fn order(self, order: usize) -> (builder: TradeRequestBuilder)
        ensures
            builder == (TradeRequestBuilder { order: Some(order), ..self }),
    {
        TradeRequestBuilder { order: Some(order), ..self }
    }

    /// The instrument.
    pub fn symbol(self, symbol: String) -> (builder: TradeRequestBuilder)
        ensures
            builder == (TradeRequestBuilder { symbol: Some(symbol), ..self }),
    {
        TradeRequestBuilder { symbol: Some(symbol), ..self }
    }

    /// The volume, in lots.
    pub fn volume(self, volume: Double) -> (builder: TradeRequestBuilder)
        ensures
            builder == (TradeRequestBuilder { volume: Some(volume), ..self }),
    {
        TradeRequestBuilder { volume: Some(volume), ..self }
    }

    /// The price.
    pub fn price(self, price: Double) -> (builder: TradeRequestBuilder)
        ensures
            builder == (TradeRequestBuilder { price: Some(price), ..self }),
    {
        TradeRequestBuilder { price: Some(price), ..self }
    }

    /// The price at which a stop limit order places its limit order.
    pub fn stoplimit(self, stoplimit: Double) -> (builder: TradeRequestBuilder)
        ensures
            builder == (TradeRequestBuilder { stoplimit: Some(stoplimit), ..self }),
    {
        TradeRequestBuilder { stoplimit: Some(stoplimit), ..self }
    }

    /// The stop loss price.
    pub fn sl(self, sl: Double) -> (builder: TradeRequestBuilder)
        ensures
            builder == (TradeRequestBuilder { sl: Some(sl), ..self }),
    {
        TradeRequestBuilder { sl: Some(sl), ..self }
    }

    /// The take profit price.
    pub fn tp(self, tp: Double) -> (builder: TradeRequestBuilder)
        ensures
            builder == (TradeRequestBuilder { tp: Some(tp), ..self }),
    {
        TradeRequestBuilder { tp: Some(tp), ..self }
    }

    /// The largest deviation from the price that is accepted, in points.
    pub fn deviation(self, deviation: usize) -> (builder: TradeRequestBuilder)
        ensures
            builder == (TradeRequestBuilder { deviation: Some(deviation), ..self }),
    {
        TradeRequestBuilder { deviation: Some(deviation), ..self }
    }

    /// The kind of order.
    pub fn order_type(self, order_type: OrderType) -> (builder: TradeRequestBuilder)
        ensures
            builder == (TradeRequestBuilder { order_type: Some(order_type), ..self }),
    {
        TradeRequestBuilder { order_type: Some(order_type), ..self }
    }

    /// The filling policy.
    pub fn type_filling(self, type_filling: OrderTypeFilling) -> (builder: TradeRequestBuilder)
        ensures
            builder == (TradeRequestBuilder { type_filling: Some(type_filling), ..self }),
    {
        TradeRequestBuilder { type_filling: Some(type_filling), ..self }
    }

    /// The lifetime policy.
    pub fn type_time(self, type_time: OrderTypeTime) -> (builder: TradeRequestBuilder)
        ensures
            builder == (TradeRequestBuilder { type_time: Some(type_time), ..self }),
    {
        TradeRequestBuilder { type_time: Some(type_time), ..self }
    }

    /// When the order expires, in seconds since the epoch.
    pub fn expiration(self, expiration: i64) -> (builder: TradeRequestBuilder)
        ensures
            builder == (TradeRequestBuilder { expiration: Some(expiration), ..self }),
    {
        TradeRequestBuilder { expiration: Some(expiration), ..self }
    }

    /// A comment.
    pub fn comment(self, comment: String) -> (builder: TradeRequestBuilder)
        ensures
            builder == (TradeRequestBuilder { comment: Some(comment), ..self }),
    {
        TradeRequestBuilder { comment: Some(comment), ..self }
    }

    /// The ticket of the position that the request is about.
    pub fn position(self, position: usize) -> (builder: TradeRequestBuilder)
        ensures
            builder == (TradeRequestBuilder { position: Some(position), ..self }),
    {
        TradeRequestBuilder { position: Some(position), ..self }
    }

    /// The ticket of the opposite position, for a close by.
    pub fn position_by(self, position_by: usize) -> (builder: TradeRequestBuilder)
        ensures
            builder == (TradeRequestBuilder { position_by: Some(position_by), ..self }),
    {
        TradeRequestBuilder { position_by: Some(position_by), ..self }
    }

    /// What the terminal receives for a field: the code of an enum, a number or a
    /// text as it is, the ticket of `order` as a signed integer of 64 bits. `None`
    /// where the field is not set.
    pub open spec fn value_of(self, field: RequestField) -> Option<ScalarView> {
        match field {
            RequestField::Action => match self.action {
                Some(action) => Some(ScalarView::Integer(action.code() as int)),
                None => None,
            },
            RequestField::Magic => match self.magic {
                Some(magic) => Some(ScalarView::Integer(magic as int)),
                None => None,
            },
            RequestField::Order => match self.order {
                Some(order) => Some(ScalarView::Integer((order as i64) as int)),
                None => None,
            },
            RequestField::Symbol => match self.symbol {
                Some(symbol) => Some(ScalarView::Text(symbol@)),
                None => None,
            },
            RequestField::Volume => match self.volume {
                Some(volume) => Some(ScalarView::Double(volume)),
                None => None,
            },
            RequestField::Price => match self.price {
                Some(price) => Some(ScalarView::Double(price)),
                None => None,
            },
            RequestField::StopLimit => match self.stoplimit {
                Some(stoplimit) => Some(ScalarView::Double(stoplimit)),
                None => None,
            },
            RequestField::Sl => match self.sl {
                Some(sl) => Some(ScalarView::Double(sl)),
                None => None,
            },
            RequestField::Tp => match self.tp {
                Some(tp) => Some(ScalarView::Double(tp)),
                None => None,
            },
            RequestField::Deviation => match self.deviation {
                Some(deviation) => Some(ScalarView::Integer(deviation as int)),
                None => None,
            },
            RequestField::Type => match self.order_type {
                Some(order_type) => Some(ScalarView::Integer(order_type.code() as int)),
                None => None,
            },
            RequestField::TypeFilling => match self.type_filling {
                Some(type_filling) => Some(ScalarView::Integer(type_filling.code() as int)),
                None => None,
            },
            RequestField::TypeTime => match self.type_time {
                Some(type_time) => Some(ScalarView::Integer(type_time.code() as int)),
                None => None,
            },
            RequestField::Expiration => match self.expiration {
                Some(expiration) => Some(ScalarView::Integer(expiration as int)),
                None => None,
            },
            RequestField::Comment => match self.comment {
                Some(comment) => Some(ScalarView::Text(comment@)),
                None => None,
            },
            RequestField::Position => match self.position {
                Some(position) => Some(ScalarView::Integer(position as int)),
                None => None,
            },
            RequestField::PositionBy => match self.position_by {
                Some(position_by) => Some(ScalarView::Integer(position_by as int)),
                None => None,
            },
        }
    }

    /// The value to forward for a field, or `None` where the field is not set.
    pub fn value(&self, field: RequestField) -> (value: Option<Scalar>)
        ensures
            match value {
                Some(scalar) => self.value_of(field) == Some(scalar@),
                None => self.value_of(field) is None,
            },
    {
        match field {
            RequestField::Action => match self.action {
                Some(action) => Some(Scalar::Integer(action.code())),
                None => None,
            },
            RequestField::Magic => match self.magic {
                Some(magic) => Some(Scalar::Integer(magic)),
                None => None,
            },
            RequestField::Order => match self.order {
                Some(order) => Some(Scalar::Integer(#[verifier::truncate] (order as i64))),
                None => None,
            },
            RequestField::Symbol => match &self.symbol {
                Some(symbol) => Some(Scalar::Text(symbol.clone())),
                None => None,
            },
            RequestField::Volume => match self.volume {
                Some(volume) => Some(Scalar::Double(volume)),
                None => None,
            },
            RequestField::Price => match self.price {
                Some(price) => Some(Scalar::Double(price)),
                None => None,
            },
            RequestField::StopLimit => match self.stoplimit {
                Some(stoplimit) => Some(Scalar::Double(stoplimit)),
                None => None,
            },
            RequestField::Sl => match self.sl {
                Some(sl) => Some(Scalar::Double(sl)),
                None => None,
            },
            RequestField::Tp => match self.tp {
                Some(tp) => Some(Scalar::Double(tp)),
                None => None,
            },
            RequestField::Deviation => match self.deviation {
                Some(deviation) => Some(Scalar::Natural(deviation)),
                None => None,
            },
            RequestField::Type => match self.order_type {
                Some(order_type) => Some(Scalar::Integer(order_type.code())),
                None => None,
            },
            RequestField::TypeFilling => match self.type_filling {
                Some(type_filling) => Some(Scalar::Integer(type_filling.code())),
                None => None,
            },
            RequestField::TypeTime => match self.type_time {
                Some(type_time) => Some(Scalar::Integer(type_time.code())),
                None => None,
            },
            RequestField::Expiration => match self.expiration {
                Some(expiration) => Some(Scalar::Integer(expiration)),
                None => None,
            },
            RequestField::Comment => match &self.comment {
                Some(comment) => Some(Scalar::Text(comment.clone())),
                None => None,
            },
            RequestField::Position => match self.position {
                Some(position) => Some(Scalar::Natural(position)),
                None => None,
            },
            RequestField::PositionBy => match self.position_by {
                Some(position_by) => Some(Scalar::Natural(position_by)),
                None => None,
            },
        }
    }

    /// The entries that the fields `fields` contribute, in their order: each set
    /// field with its value, and nothing for a field that is not set.
    pub open spec fn entries_of(self, fields: Seq<RequestField>) -> Seq<
        (RequestField, ScalarView),
    >
        decreases fields.len(),
    {
        if fields.len() == 0 {
            Seq::empty()
        } else {
            let before = self.entries_of(fields.drop_last());
            match self.value_of(fields.last()) {
                Some(value) => before.push((fields.last(), value)),
                None => before,
            }
        }
    }

    /// The dictionary that the terminal receives for the request.
    pub open spec fn entries(self) -> Seq<(RequestField, ScalarView)> {
        self.entries_of(RequestField::ordered())
    }

    /// The set fields with their values, in the order of
    /// [`RequestField::ordered`].
    pub fn fields(&self) -> (entries: Vec<(RequestField, Scalar)>)
        ensures
            entries_view(entries@) == self.entries(),
    {
        let mut entries: Vec<(RequestField, Scalar)> = Vec::new();
        let mut index: usize = 0;
        while index < 17
            invariant
                index <= 17,
                RequestField::ordered().len() == 17,
                entries_view(entries@) == self.entries_of(
                    RequestField::ordered().take(index as int),
                ),
            decreases 17 - index,
        {
            let ghost before = entries@;
            let ghost taken = RequestField::ordered().take(index as int + 1);
            assert(taken.drop_last() == RequestField::ordered().take(index as int));
            if let Some(field) = RequestField::at(index) {
                if let Some(value) = self.value(field) {
                    entries.push((field, value));
                    assert(entries_view(entries@) == entries_view(before).push((field, value@)));
                }
            }
            index = index + 1;
        }
        assert(RequestField::ordered().take(17) == RequestField::ordered());
        entries
    }

    proof fn entries_of_hold_what_is_set(
        self,
        fields: Seq<RequestField>,
        field: RequestField,
        value: ScalarView,
    )
        ensures
            self.entries_of(fields).contains((field, value)) <==> fields.contains(field)
                && self.value_of(field) == Some(value),
        decreases fields.len(),
    {
        if fields.len() > 0 {
            let rest = fields.drop_last();
            let last = fields.last();
            let before = self.entries_of(rest);
            let all = self.entries_of(fields);
            self.entries_of_hold_what_is_set(rest, field, value);
            if fields.contains(field) && self.value_of(field) == Some(value) {
                let place = choose|i: int| 0 <= i < fields.len() && fields[i] == field;
                if place == fields.len() - 1 {
                    assert(all[all.len() - 1] == (field, value));
                } else {
                    assert(rest[place] == field);
                    let at = choose|i: int| 0 <= i < before.len() && before[i] == (field, value);
                    assert(all[at] == (field, value));
                }
            }
            if all.contains((field, value)) {
                let at = choose|i: int| 0 <= i < all.len() && all[i] == (field, value);
                if at < before.len() {
                    assert(before[at] == (field, value));
                    let place = choose|i: int| 0 <= i < rest.len() && rest[i] == field;
                    assert(fields[place] == field);
                } else {
                    assert(fields[fields.len() - 1] == field);
                }
            }
        }
    }

    /// The terminal receives a field with a value exactly where the request has
    /// that field set to that value. So a field that was never set is absent
    /// from the dictionary, under any value.
    pub proof fn forwards_exactly_what_is_set(self, field: RequestField, value: ScalarView)
        ensures
            self.entries().contains((field, value)) <==> self.value_of(field) == Some(value),
    {
        let ordered = RequestField::ordered();
        let place: int = match field {
            RequestField::Action => 0,
            RequestField::Magic => 1,
            RequestField::Order => 2,
            RequestField::Symbol => 3,
            RequestField::Volume => 4,
            RequestField::Price => 5,
            RequestField::StopLimit => 6,
            RequestField::Sl => 7,
            RequestField::Tp => 8,
            RequestField::Deviation => 9,
            RequestField::Type => 10,
            RequestField::TypeFilling => 11,
            RequestField::TypeTime => 12,
            RequestField::Expiration => 13,
            RequestField::Comment => 14,
            RequestField::Position => 15,
            RequestField::PositionBy => 16,
        };
        assert(ordered[place] == field);
        self.entries_of_hold_what_is_set(ordered, field, value);
    }

    /// A field that was never set is not forwarded at all: no entry of the
    /// dictionary has its key.
    pub proof fn unset_field_is_absent(self, field: RequestField)
        requires
            self.value_of(field) is None,
        ensures
            forall|i: int| 0 <= i < self.entries().len() ==> (#[trigger] self.entries()[i]).0 != field,
    {
        assert forall|i: int| 0 <= i < self.entries().len() implies (#[trigger] self.entries()[
            i
        ]).0 != field by {
            let entry = self.entries()[i];
            if entry.0 == field {
                assert(self.entries().contains((field, entry.1)));
                self.forwards_exactly_what_is_set(field, entry.1);
            }
        }
    }
}

/// The terminal's answer to the check of a trade request, with the request it
/// checked.
#[derive(Clone, Debug, PartialEq)]
pub struct CheckResult {
    pub retcode: ReturnCode,
    pub balance: Double,
    pub equity: Double,
    pub profit: Double,
    pub margin: Double,
    pub margin_free: Double,
    pub margin_level: Double,
    pub comment: String,
    pub request: TradeRequest,
}

/// The trade server's answer to a trade request, with the request it answers.
#[derive(Clone, Debug, PartialEq)]
pub struct TradeResult {
    pub retcode: ReturnCode,
    pub deal: usize,
    pub order: usize,
    pub volume: Double,
    pub price: Double,
    pub bid: Double,
    pub ask: Double,
    pub comment: String,
    pub request_id: u64,
    pub retcode_external: i64,
    pub request: TradeRequest,
}

} // verus!

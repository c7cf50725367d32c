//! The names that most callers need, in one place.

use vstd::prelude::*;

pub use crate::calendar::CalendarTime;
pub use crate::call::{Argument, ForeignCall, Keyword, Operation, RequestField, Scalar};
pub use crate::enums::{
    AccountInfoProperty, AccountMarginMode, AccountStopOutMode, AccountTradeMode, CopyTicksFlags,
    DayOfWeek, DealEntry, DealReason, DealType, OrderReason, OrderState, OrderType,
    OrderTypeFilling, OrderTypeTime, PeriodUnit, PositionReason, PositionType, ReturnCode,
    RuntimeError, SymbolCalcMode, SymbolChartMode, SymbolExpirationMode, SymbolFillingMode,
    SymbolInfoProperty, SymbolOptionMode, SymbolOptionRight, SymbolOrderGtcMode, SymbolOrderMode,
    SymbolSwapMode, SymbolTradeExecution, SymbolTradeMode, TerminalInfoProperty, TicksFlag,
    Timeframe, TradeActionRequest,
};
pub use crate::number::Double;
pub use crate::schemas::{
    AccountCredentials, AccountInfo, CheckResult, Deals, Order, Position, SymbolInfo, SymbolRates,
    SymbolTick, TerminalInfo, TerminalVersion, TradeRequest, TradeRequestBuilder, TradeResult,
};
pub use crate::traits::{InfoProperties, InfoTrait, ValueKind};

verus! {

/// What the error channel reports: a status and the terminal's message.
pub type MQLError = (RuntimeError, String);

/// What an operation gives back: its value, or what the error channel reported.
pub type MQLResult<T> = Result<T, MQLError>;

} // verus!

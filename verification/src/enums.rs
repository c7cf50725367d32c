//! Code tables: the named variants behind the integer codes that the terminal
//! uses for order kinds, chart periods, server answers and the like.
//!
//! Every coded enum has `code`, the integer that the terminal knows the variant
//! by. Those that the terminal also hands back have `from_code`, which finds
//! the variant of a code, and `from`, the same for a code that is known to be
//! in the table.

use vstd::prelude::*;

verus! {

/// Unit in which a chart period is counted.
#[derive(Clone, Copy, Debug, PartialEq, Eq, Structural)]
pub enum PeriodUnit {
    Minutes,
    Hours,
    Weeks,
    Months,
}

impl PeriodUnit {
    /// The bits that mark the unit in a period's code.
    pub open spec fn flag(self) -> i64 {
        match self {
            PeriodUnit::Minutes => 0,
            PeriodUnit::Hours => 0x4000,
            PeriodUnit::Weeks => 0x8000,
            PeriodUnit::Months => 0xC000,
        }
    }
}

/// Chart period of a bar series.
#[derive(Clone, Copy, Debug, PartialEq, Eq, Structural)]
pub enum Timeframe {
    M1,
    M2,
    M3,
    M4,
    M5,
    M6,
    M10,
    M12,
    M15,
    M20,
    M30,
    H1,
    H2,
    H3,
    H4,
    H6,
    H8,
    H12,
    D1,
    W1,
    MN1,
}

impl Timeframe {
    /// The integer that the terminal uses for this variant.
    pub open spec fn spec_code(self) -> i64 {
        match self {
            Timeframe::M1 => 1,
            Timeframe::M2 => 2,
            Timeframe::M3 => 3,
            Timeframe::M4 => 4,
            Timeframe::M5 => 5,
            Timeframe::M6 => 6,
            Timeframe::M10 => 10,
            Timeframe::M12 => 12,
            Timeframe::M15 => 15,
            Timeframe::M20 => 20,
            Timeframe::M30 => 30,
            Timeframe::H1 => 16385,
            Timeframe::H2 => 16386,
            Timeframe::H3 => 16387,
            Timeframe::H4 => 16388,
            Timeframe::H6 => 16390,
            Timeframe::H8 => 16392,
            Timeframe::H12 => 16396,
            Timeframe::D1 => 16408,
            Timeframe::W1 => 32769,
            Timeframe::MN1 => 49153,
        }
    }

    #[verifier::when_used_as_spec(spec_code)]
    pub fn code(self) -> (code: i64)
        ensures
            code == self.spec_code(),
    {
        match self {
            Timeframe::M1 => 1,
            Timeframe::M2 => 2,
            Timeframe::M3 => 3,
            Timeframe::M4 => 4,
            Timeframe::M5 => 5,
            Timeframe::M6 => 6,
            Timeframe::M10 => 10,
            Timeframe::M12 => 12,
            Timeframe::M15 => 15,
            Timeframe::M20 => 20,
            Timeframe::M30 => 30,
            Timeframe::H1 => 16385,
            Timeframe::H2 => 16386,
            Timeframe::H3 => 16387,
            Timeframe::H4 => 16388,
            Timeframe::H6 => 16390,
            Timeframe::H8 => 16392,
            Timeframe::H12 => 16396,
            Timeframe::D1 => 16408,
            Timeframe::W1 => 32769,
            Timeframe::MN1 => 49153,
        }
    }

    /// The unit in which the period is counted.
    pub open spec fn unit(self) -> PeriodUnit {
        match self {
            Timeframe::M1
            | Timeframe::M2
            | Timeframe::M3
            | Timeframe::M4
            | Timeframe::M5
            | Timeframe::M6
            | Timeframe::M10
            | Timeframe::M12
            | Timeframe::M15
            | Timeframe::M20
            | Timeframe::M30 => PeriodUnit::Minutes,
            Timeframe::H1
            | Timeframe::H2
            | Timeframe::H3
            | Timeframe::H4
            | Timeframe::H6
            | Timeframe::H8
            | Timeframe::H12
            | Timeframe::D1 => PeriodUnit::Hours,
            Timeframe::W1 => PeriodUnit::Weeks,
            Timeframe::MN1 => PeriodUnit::Months,
        }
    }

    /// How many units the period spans; a day counts as 24 hours.
    pub open spec fn count(self) -> i64 {
        match self {
            Timeframe::M1 | Timeframe::H1 | Timeframe::W1 | Timeframe::MN1 => 1,
            Timeframe::M2 | Timeframe::H2 => 2,
            Timeframe::M3 | Timeframe::H3 => 3,
            Timeframe::M4 | Timeframe::H4 => 4,
            Timeframe::M5 => 5,
            Timeframe::M6 | Timeframe::H6 => 6,
            Timeframe::H8 => 8,
            Timeframe::M10 => 10,
            Timeframe::M12 | Timeframe::H12 => 12,
            Timeframe::M15 => 15,
            Timeframe::M20 => 20,
            Timeframe::D1 => 24,
            Timeframe::M30 => 30,
        }
    }

    /// A period's code is its count with the flag of its unit set: minutes carry
    /// no flag, hours `0x4000`, weeks `0x8000` and months `0xC000`.
    pub proof fn code_is_flagged_count(self)
        ensures
            self.code() == self.count() | self.unit().flag(),
    {
        assert(1i64 | 0 == 1 && 2i64 | 0 == 2 && 3i64 | 0 == 3 && 4i64 | 0 == 4 && 5i64 | 0 == 5
            && 6i64 | 0 == 6 && 10i64 | 0 == 10 && 12i64 | 0 == 12 && 15i64 | 0 == 15 && 20i64 | 0
            == 20 && 30i64 | 0 == 30) by (bit_vector);
        assert(1i64 | 0x4000 == 16385 && 2i64 | 0x4000 == 16386 && 3i64 | 0x4000 == 16387 && 4i64
            | 0x4000 == 16388 && 6i64 | 0x4000 == 16390 && 8i64 | 0x4000 == 16392 && 12i64 | 0x4000
            == 16396 && 24i64 | 0x4000 == 16408 && 1i64 | 0x8000 == 32769 && 1i64 | 0xC000
            == 49153) by (bit_vector);
    }
}

/// Selects which ticks a tick query returns.
#[derive(Clone, Copy, Debug, PartialEq, Eq, Structural)]
pub enum CopyTicksFlags {
    ALL,
    INFO,
    TRADE,
}

impl CopyTicksFlags {
    /// The integer that the terminal uses for this variant.
    pub open spec fn spec_code(self) -> i64 {
        match self {
            CopyTicksFlags::ALL => (-1) as i64,
            CopyTicksFlags::INFO => 1,
            CopyTicksFlags::TRADE => 2,
        }
    }

    #[verifier::when_used_as_spec(spec_code)]
    pub fn code(self) -> (code: i64)
        ensures
            code == self.spec_code(),
    {
        match self {
            CopyTicksFlags::ALL => -1,
            CopyTicksFlags::INFO => 1,
            CopyTicksFlags::TRADE => 2,
        }
    }
}

/// Bits of a tick's `flags` field, one per quantity that the tick changed.
#[derive(Clone, Copy, Debug, PartialEq, Eq, Structural)]
pub enum TicksFlag {
    BID,
    ASK,
    LAST,
    VOLUME,
    BUY,
    SELL,
}

impl TicksFlag {
    /// The integer that the terminal uses for this variant.
    pub open spec fn spec_code(self) -> i64 {
        match self {
            TicksFlag::BID => 2,
            TicksFlag::ASK => 4,
            TicksFlag::LAST => 8,
            TicksFlag::VOLUME => 16,
            TicksFlag::BUY => 32,
            TicksFlag::SELL => 64,
        }
    }

    #[verifier::when_used_as_spec(spec_code)]
    pub fn code(self) -> (code: i64)
        ensures
            code == self.spec_code(),
    {
        match self {
            TicksFlag::BID => 2,
            TicksFlag::ASK => 4,
            TicksFlag::LAST => 8,
            TicksFlag::VOLUME => 16,
            TicksFlag::BUY => 32,
            TicksFlag::SELL => 64,
        }
    }
}

/// Kind of an order.
#[derive(Clone, Copy, Debug, PartialEq, Eq, Structural)]
pub enum OrderType {
    BUY,
    SELL,
    BuyLimit,
    SellLimit,
    BuyStop,
    SellStop,
    BuyStopLimit,
    SellStopLimit,
    CloseBy,
}

impl OrderType {
    /// The integer that the terminal uses for this variant.
    pub open spec fn spec_code(self) -> i64 {
        match self {
            OrderType::BUY => 0,
            OrderType::SELL => 1,
            OrderType::BuyLimit => 2,
            OrderType::SellLimit => 3,
            OrderType::BuyStop => 4,
            OrderType::SellStop => 5,
            OrderType::BuyStopLimit => 6,
            OrderType::SellStopLimit => 7,
            OrderType::CloseBy => 8,
        }
    }

    #[verifier::when_used_as_spec(spec_code)]
    pub fn code(self) -> (code: i64)
        ensures
            code == self.spec_code(),
    {
        match self {
            OrderType::BUY => 0,
            OrderType::SELL => 1,
            OrderType::BuyLimit => 2,
            OrderType::SellLimit => 3,
            OrderType::BuyStop => 4,
            OrderType::SellStop => 5,
            OrderType::BuyStopLimit => 6,
            OrderType::SellStopLimit => 7,
            OrderType::CloseBy => 8,
        }
    }

    /// Whether some variant has the code `value`.
    pub open spec fn is_code(value: i64) -> bool {
        exists|known: OrderType| known.code() == value
    }

    /// The variant whose code is `value`, or `None` where the table has no such
    /// code.
    pub fn from_code(value: i64) -> (found: Option<OrderType>)
        ensures
            match found {
                Some(variant) => variant.code() == value && forall|other: OrderType|
                    other.code() == value ==> other == variant,
                None => !Self::is_code(value),
            },
    {
        match value {
            0 => Some(OrderType::BUY),
            1 => Some(OrderType::SELL),
            2 => Some(OrderType::BuyLimit),
            3 => Some(OrderType::SellLimit),
            4 => Some(OrderType::BuyStop),
            5 => Some(OrderType::SellStop),
            6 => Some(OrderType::BuyStopLimit),
            7 => Some(OrderType::SellStopLimit),
            8 => Some(OrderType::CloseBy),
            _ => None,
        }
    }

    /// The variant whose code is `value`, for a code of the table.
    pub fn from(value: i64) -> (variant: OrderType)
        requires
            Self::is_code(value),
        ensures
            variant.code() == value,
            forall|other: OrderType| other.code() == value ==> other == variant,
    {
        Self::from_code(value).unwrap()
    }
}

/// What a trade request asks the terminal to do.
#[derive(Clone, Copy, Debug, PartialEq, Eq, Structural)]
pub enum TradeActionRequest {
    DEAL,
    PENDING,
    SLTP,
    MODIFY,
    REMOVE,
    CloseBy,
}

impl TradeActionRequest {
    /// The integer that the terminal uses for this variant.
    pub open spec fn spec_code(self) -> i64 {
        match self {
            TradeActionRequest::DEAL => 1,
            TradeActionRequest::PENDING => 5,
            TradeActionRequest::SLTP => 6,
            TradeActionRequest::MODIFY => 7,
            TradeActionRequest::REMOVE => 8,
            TradeActionRequest::CloseBy => 10,
        }
    }

    #[verifier::when_used_as_spec(spec_code)]
    pub fn code(self) -> (code: i64)
        ensures
            code == self.spec_code(),
    {
        match self {
            TradeActionRequest::DEAL => 1,
            TradeActionRequest::PENDING => 5,
            TradeActionRequest::SLTP => 6,
            TradeActionRequest::MODIFY => 7,
            TradeActionRequest::REMOVE => 8,
            TradeActionRequest::CloseBy => 10,
        }
    }

    /// Whether some variant has the code `value`.
    pub open spec fn is_code(value: i64) -> bool {
        exists|known: TradeActionRequest| known.code() == value
    }

    /// The variant whose code is `value`, or `None` where the table has no such
    /// code.
    pub fn from_code(value: i64) -> (found: Option<TradeActionRequest>)
        ensures
            match found {
                Some(variant) => variant.code() == value && forall|other: TradeActionRequest|
                    other.code() == value ==> other == variant,
                None => !Self::is_code(value),
            },
    {
        match value {
            1 => Some(TradeActionRequest::DEAL),
            5 => Some(TradeActionRequest::PENDING),
            6 => Some(TradeActionRequest::SLTP),
            7 => Some(TradeActionRequest::MODIFY),
            8 => Some(TradeActionRequest::REMOVE),
            10 => Some(TradeActionRequest::CloseBy),
            _ => None,
        }
    }

    /// The variant whose code is `value`, for a code of the table.
    pub fn from(value: i64) -> (variant: TradeActionRequest)
        requires
            Self::is_code(value),
        ensures
            variant.code() == value,
            forall|other: TradeActionRequest| other.code() == value ==> other == variant,
    {
        Self::from_code(value).unwrap()
    }
}

/// Filling policy of an order.
#[derive(Clone, Copy, Debug, PartialEq, Eq, Structural)]
pub enum OrderTypeFilling {
    FOK,
    IOC,
    RETURN,
}

impl OrderTypeFilling {
    /// The integer that the terminal uses for this variant.
    pub open spec fn spec_code(self) -> i64 {
        match self {
            OrderTypeFilling::FOK => 0,
            OrderTypeFilling::IOC => 1,
            OrderTypeFilling::RETURN => 2,
        }
    }

    #[verifier::when_used_as_spec(spec_code)]
    pub fn code(self) -> (code: i64)
        ensures
            code == self.spec_code(),
    {
        match self {
            OrderTypeFilling::FOK => 0,
            OrderTypeFilling::IOC => 1,
            OrderTypeFilling::RETURN => 2,
        }
    }

    /// Whether some variant has the code `value`.
    pub open spec fn is_code(value: i64) -> bool {
        exists|known: OrderTypeFilling| known.code() == value
    }

    /// The variant whose code is `value`, or `None` where the table has no such
    /// code.
    pub fn from_code(value: i64) -> (found: Option<OrderTypeFilling>)
        ensures
            match found {
                Some(variant) => variant.code() == value && forall|other: OrderTypeFilling|
                    other.code() == value ==> other == variant,
                None => !Self::is_code(value),
            },
    {
        match value {
            0 => Some(OrderTypeFilling::FOK),
            1 => Some(OrderTypeFilling::IOC),
            2 => Some(OrderTypeFilling::RETURN),
            _ => None,
        }
    }

    /// The variant whose code is `value`, for a code of the table.
    pub fn from(value: i64) -> (variant: OrderTypeFilling)
        requires
            Self::is_code(value),
        ensures
            variant.code() == value,
            forall|other: OrderTypeFilling| other.code() == value ==> other == variant,
    {
        Self::from_code(value).unwrap()
    }
}

/// Lifetime policy of an order.
#[derive(Clone, Copy, Debug, PartialEq, Eq, Structural)]
pub enum OrderTypeTime {
    GTC,
    DAY,
    SPECIFIED,
    SpecifiedDay,
}

impl OrderTypeTime {
    /// The integer that the terminal uses for this variant.
    pub open spec fn spec_code(self) -> i64 {
        match self {
            OrderTypeTime::GTC => 0,
            OrderTypeTime::DAY => 1,
            OrderTypeTime::SPECIFIED => 2,
            OrderTypeTime::SpecifiedDay => 3,
        }
    }

    #[verifier::when_used_as_spec(spec_code)]
    pub fn code(self) -> (code: i64)
        ensures
            code == self.spec_code(),
    {
        match self {
            OrderTypeTime::GTC => 0,
            OrderTypeTime::DAY => 1,
            OrderTypeTime::SPECIFIED => 2,
            OrderTypeTime::SpecifiedDay => 3,
        }
    }

    /// Whether some variant has the code `value`.
    pub open spec fn is_code(value: i64) -> bool {
        exists|known: OrderTypeTime| known.code() == value
    }

    /// The variant whose code is `value`, or `None` where the table has no such
    /// code.
    pub fn from_code(value: i64) -> (found: Option<OrderTypeTime>)
        ensures
            match found {
                Some(variant) => variant.code() == value && forall|other: OrderTypeTime|
                    other.code() == value ==> other == variant,
                None => !Self::is_code(value),
            },
    {
        match value {
            0 => Some(OrderTypeTime::GTC),
            1 => Some(OrderTypeTime::DAY),
            2 => Some(OrderTypeTime::SPECIFIED),
            3 => Some(OrderTypeTime::SpecifiedDay),
            _ => None,
        }
    }

    /// The variant whose code is `value`, for a code of the table.
    pub fn from(value: i64) -> (variant: OrderTypeTime)
        requires
            Self::is_code(value),
        ensures
            variant.code() == value,
            forall|other: OrderTypeTime| other.code() == value ==> other == variant,
    {
        Self::from_code(value).unwrap()
    }
}

/// Answer of the trade server to a checked or sent request.
#[derive(Clone, Copy, Debug, PartialEq, Eq, Structural)]
pub enum ReturnCode {
    CHECKED,
    REQUOTE,
    REJECT,
    CANCELLED,
    PLACED,
    DONE,
    DonePartial,
    ERROR,
    TIMEOUT,
    INVALID,
    InvalidVolume,
    InvalidPrice,
    InvalidStops,
    TradeDisabled,
    MarketClosed,
    NoMoney,
    PriceChanged,
    PriceOff,
    InvalidExpiration,
    OrderChanged,
    TooManyRequest,
    NoChanges,
    ServerDisablesAt,
    ClientDisablesAt,
    LOCKED,
    FROZEN,
    InvalidFill,
    CONNECTION,
    OnlyReal,
    LimitOrders,
    LimitVolumes,
    InvalidOrders,
    PostionClosed,
    InvalideCloseVolume,
    CloseOrderExist,
    LimitPositions,
    RejectCancel,
    LongOnly,
    ShortOnly,
    CloseOnly,
    FifoClose,
    HedgeProhibited,
}

impl ReturnCode {
    /// The integer that the terminal uses for this variant.
    pub open spec fn spec_code(self) -> u64 {
        match self {
            ReturnCode::CHECKED => 0,
            ReturnCode::REQUOTE => 10004,
            ReturnCode::REJECT => 10006,
            ReturnCode::CANCELLED => 10007,
            ReturnCode::PLACED => 10008,
            ReturnCode::DONE => 10009,
            ReturnCode::DonePartial => 10010,
            ReturnCode::ERROR => 10011,
            ReturnCode::TIMEOUT => 10012,
            ReturnCode::INVALID => 10013,
            ReturnCode::InvalidVolume => 10014,
            ReturnCode::InvalidPrice => 10015,
            ReturnCode::InvalidStops => 10016,
            ReturnCode::TradeDisabled => 10017,
            ReturnCode::MarketClosed => 10018,
            ReturnCode::NoMoney => 10019,
            ReturnCode::PriceChanged => 10020,
            ReturnCode::PriceOff => 10021,
            ReturnCode::InvalidExpiration => 10022,
            ReturnCode::OrderChanged => 10023,
            ReturnCode::TooManyRequest => 10024,
            ReturnCode::NoChanges => 10025,
            ReturnCode::ServerDisablesAt => 10026,
            ReturnCode::ClientDisablesAt => 10027,
            ReturnCode::LOCKED => 10028,
            ReturnCode::FROZEN => 10029,
            ReturnCode::InvalidFill => 10030,
            ReturnCode::CONNECTION => 10031,
            ReturnCode::OnlyReal => 10032,
            ReturnCode::LimitOrders => 10033,
            ReturnCode::LimitVolumes => 10034,
            ReturnCode::InvalidOrders => 10035,
            ReturnCode::PostionClosed => 10036,
            ReturnCode::InvalideCloseVolume => 10038,
            ReturnCode::CloseOrderExist => 10039,
            ReturnCode::LimitPositions => 10040,
            ReturnCode::RejectCancel => 10041,
            ReturnCode::LongOnly => 10042,
            ReturnCode::ShortOnly => 10043,
            ReturnCode::CloseOnly => 10044,
            ReturnCode::FifoClose => 10045,
            ReturnCode::HedgeProhibited => 10046,
        }
    }

    #[verifier::when_used_as_spec(spec_code)]
    pub fn code(self) -> (code: u64)
        ensures
            code == self.spec_code(),
    {
        match self {
            ReturnCode::CHECKED => 0,
            ReturnCode::REQUOTE => 10004,
            ReturnCode::REJECT => 10006,
            ReturnCode::CANCELLED => 10007,
            ReturnCode::PLACED => 10008,
            ReturnCode::DONE => 10009,
            ReturnCode::DonePartial => 10010,
            ReturnCode::ERROR => 10011,
            ReturnCode::TIMEOUT => 10012,
            ReturnCode::INVALID => 10013,
            ReturnCode::InvalidVolume => 10014,
            ReturnCode::InvalidPrice => 10015,
            ReturnCode::InvalidStops => 10016,
            ReturnCode::TradeDisabled => 10017,
            ReturnCode::MarketClosed => 10018,
            ReturnCode::NoMoney => 10019,
            ReturnCode::PriceChanged => 10020,
            ReturnCode::PriceOff => 10021,
            ReturnCode::InvalidExpiration => 10022,
            ReturnCode::OrderChanged => 10023,
            ReturnCode::TooManyRequest => 10024,
            ReturnCode::NoChanges => 10025,
            ReturnCode::ServerDisablesAt => 10026,
            ReturnCode::ClientDisablesAt => 10027,
            ReturnCode::LOCKED => 10028,
            ReturnCode::FROZEN => 10029,
            ReturnCode::InvalidFill => 10030,
            ReturnCode::CONNECTION => 10031,
            ReturnCode::OnlyReal => 10032,
            ReturnCode::LimitOrders => 10033,
            ReturnCode::LimitVolumes => 10034,
            ReturnCode::InvalidOrders => 10035,
            ReturnCode::PostionClosed => 10036,
            ReturnCode::InvalideCloseVolume => 10038,
            ReturnCode::CloseOrderExist => 10039,
            ReturnCode::LimitPositions => 10040,
            ReturnCode::RejectCancel => 10041,
            ReturnCode::LongOnly => 10042,
            ReturnCode::ShortOnly => 10043,
            ReturnCode::CloseOnly => 10044,
            ReturnCode::FifoClose => 10045,
            ReturnCode::HedgeProhibited => 10046,
        }
    }

    /// Whether some variant has the code `value`.
    pub open spec fn is_code(value: u64) -> bool {
        exists|known: ReturnCode| known.code() == value
    }

    /// The variant whose code is `value`, or `None` where the table has no such
    /// code.
    pub fn from_code(value: u64) -> (found: Option<ReturnCode>)
        ensures
            match found {
                Some(variant) => variant.code() == value && forall|other: ReturnCode|
                    other.code() == value ==> other == variant,
                None => !Self::is_code(value),
            },
    {
        match value {
            0 => Some(ReturnCode::CHECKED),
            10004 => Some(ReturnCode::REQUOTE),
            10006 => Some(ReturnCode::REJECT),
            10007 => Some(ReturnCode::CANCELLED),
            10008 => Some(ReturnCode::PLACED),
            10009 => Some(ReturnCode::DONE),
            10010 => Some(ReturnCode::DonePartial),
            10011 => Some(ReturnCode::ERROR),
            10012 => Some(ReturnCode::TIMEOUT),
            10013 => Some(ReturnCode::INVALID),
            10014 => Some(ReturnCode::InvalidVolume),
            10015 => Some(ReturnCode::InvalidPrice),
            10016 => Some(ReturnCode::InvalidStops),
            10017 => Some(ReturnCode::TradeDisabled),
            10018 => Some(ReturnCode::MarketClosed),
            10019 => Some(ReturnCode::NoMoney),
            10020 => Some(ReturnCode::PriceChanged),
            10021 => Some(ReturnCode::PriceOff),
            10022 => Some(ReturnCode::InvalidExpiration),
            10023 => Some(ReturnCode::OrderChanged),
            10024 => Some(ReturnCode::TooManyRequest),
            10025 => Some(ReturnCode::NoChanges),
            10026 => Some(ReturnCode::ServerDisablesAt),
            10027 => Some(ReturnCode::ClientDisablesAt),
            10028 => Some(ReturnCode::LOCKED),
            10029 => Some(ReturnCode::FROZEN),
            10030 => Some(ReturnCode::InvalidFill),
            10031 => Some(ReturnCode::CONNECTION),
            10032 => Some(ReturnCode::OnlyReal),
            10033 => Some(ReturnCode::LimitOrders),
            10034 => Some(ReturnCode::LimitVolumes),
            10035 => Some(ReturnCode::InvalidOrders),
            10036 => Some(ReturnCode::PostionClosed),
            10038 => Some(ReturnCode::InvalideCloseVolume),
            10039 => Some(ReturnCode::CloseOrderExist),
            10040 => Some(ReturnCode::LimitPositions),
            10041 => Some(ReturnCode::RejectCancel),
            10042 => Some(ReturnCode::LongOnly),
            10043 => Some(ReturnCode::ShortOnly),
            10044 => Some(ReturnCode::CloseOnly),
            10045 => Some(ReturnCode::FifoClose),
            10046 => Some(ReturnCode::HedgeProhibited),
            _ => None,
        }
    }

    /// The variant whose code is `value`, for a code of the table.
    pub fn from(value: u64) -> (variant: ReturnCode)
        requires
            Self::is_code(value),
        ensures
            variant.code() == value,
            forall|other: ReturnCode| other.code() == value ==> other == variant,
    {
        Self::from_code(value).unwrap()
    }
}

/// Direction of an open position.
#[derive(Clone, Copy, Debug, PartialEq, Eq, Structural)]
pub enum PositionType {
    BUY,
    SELL,
}

impl PositionType {
    /// The integer that the terminal uses for this variant.
    pub open spec fn spec_code(self) -> u64 {
        match self {
            PositionType::BUY => 0,
            PositionType::SELL => 1,
        }
    }

    #[verifier::when_used_as_spec(spec_code)]
    pub fn code(self) -> (code: u64)
        ensures
            code == self.spec_code(),
    {
        match self {
            PositionType::BUY => 0,
            PositionType::SELL => 1,
        }
    }

    /// Whether some variant has the code `value`.
    pub open spec fn is_code(value: u64) -> bool {
        exists|known: PositionType| known.code() == value
    }

    /// The variant whose code is `value`, or `None` where the table has no such
    /// code.
    pub fn from_code(value: u64) -> (found: Option<PositionType>)
        ensures
            match found {
                Some(variant) => variant.code() == value && forall|other: PositionType|
                    other.code() == value ==> other == variant,
                None => !Self::is_code(value),
            },
    {
        match value {
            0 => Some(PositionType::BUY),
            1 => Some(PositionType::SELL),
            _ => None,
        }
    }

    /// The variant whose code is `value`, for a code of the table.
    pub fn from(value: u64) -> (variant: PositionType)
        requires
            Self::is_code(value),
        ensures
            variant.code() == value,
            forall|other: PositionType| other.code() == value ==> other == variant,
    {
        Self::from_code(value).unwrap()
    }
}

/// Where the order that opened a position was placed.
#[derive(Clone, Copy, Debug, PartialEq, Eq, Structural)]
pub enum PositionReason {
    CLIENT,
    MOBILE,
    WEB,
    EXPERT,
}

impl PositionReason {
    /// The integer that the terminal uses for this variant.
    pub open spec fn spec_code(self) -> u64 {
        match self {
            PositionReason::CLIENT => 0,
            PositionReason::MOBILE => 1,
            PositionReason::WEB => 2,
            PositionReason::EXPERT => 3,
        }
    }

    #[verifier::when_used_as_spec(spec_code)]
    pub fn code(self) -> (code: u64)
        ensures
            code == self.spec_code(),
    {
        match self {
            PositionReason::CLIENT => 0,
            PositionReason::MOBILE => 1,
            PositionReason::WEB => 2,
            PositionReason::EXPERT => 3,
        }
    }

    /// Whether some variant has the code `value`.
    pub open spec fn is_code(value: u64) -> bool {
        exists|known: PositionReason| known.code() == value
    }

    /// The variant whose code is `value`, or `None` where the table has no such
    /// code.
    pub fn from_code(value: u64) -> (found: Option<PositionReason>)
        ensures
            match found {
                Some(variant) => variant.code() == value && forall|other: PositionReason|
                    other.code() == value ==> other == variant,
                None => !Self::is_code(value),
            },
    {
        match value {
            0 => Some(PositionReason::CLIENT),
            1 => Some(PositionReason::MOBILE),
            2 => Some(PositionReason::WEB),
            3 => Some(PositionReason::EXPERT),
            _ => None,
        }
    }

    /// The variant whose code is `value`, for a code of the table.
    pub fn from(value: u64) -> (variant: PositionReason)
        requires
            Self::is_code(value),
        ensures
            variant.code() == value,
            forall|other: PositionReason| other.code() == value ==> other == variant,
    {
        Self::from_code(value).unwrap()
    }
}

/// Kind of a deal.
#[derive(Clone, Copy, Debug, PartialEq, Eq, Structural)]
pub enum DealType {
    BUY,
    SELL,
    BALANCE,
    CREDIT,
    CHARGE,
    CORRECTION,
    BONUS,
    COMMISSION,
    CommissionDaily,
    CommissionMontly,
    ComissionAgentDaily,
    CommisionAgentMontly,
    INTEREST,
    BuyCanceled,
    SellCanceled,
    DIVIDEND,
    DividentFranked,
    TAX,
}

impl DealType {
    /// The integer that the terminal uses for this variant.
    pub open spec fn spec_code(self) -> u64 {
        match self {
            DealType::BUY => 0,
            DealType::SELL => 1,
            DealType::BALANCE => 2,
            DealType::CREDIT => 3,
            DealType::CHARGE => 4,
            DealType::CORRECTION => 5,
            DealType::BONUS => 6,
            DealType::COMMISSION => 7,
            DealType::CommissionDaily => 8,
            DealType::CommissionMontly => 9,
            DealType::ComissionAgentDaily => 10,
            DealType::CommisionAgentMontly => 11,
            DealType::INTEREST => 12,
            DealType::BuyCanceled => 13,
            DealType::SellCanceled => 14,
            DealType::DIVIDEND => 15,
            DealType::DividentFranked => 16,
            DealType::TAX => 17,
        }
    }

    #[verifier::when_used_as_spec(spec_code)]
    pub fn code(self) -> (code: u64)
        ensures
            code == self.spec_code(),
    {
        match self {
            DealType::BUY => 0,
            DealType::SELL => 1,
            DealType::BALANCE => 2,
            DealType::CREDIT => 3,
            DealType::CHARGE => 4,
            DealType::CORRECTION => 5,
            DealType::BONUS => 6,
            DealType::COMMISSION => 7,
            DealType::CommissionDaily => 8,
            DealType::CommissionMontly => 9,
            DealType::ComissionAgentDaily => 10,
            DealType::CommisionAgentMontly => 11,
            DealType::INTEREST => 12,
            DealType::BuyCanceled => 13,
            DealType::SellCanceled => 14,
            DealType::DIVIDEND => 15,
            DealType::DividentFranked => 16,
            DealType::TAX => 17,
        }
    }

    /// Whether some variant has the code `value`.
    pub open spec fn is_code(value: u64) -> bool {
        exists|known: DealType| known.code() == value
    }

    /// The variant whose code is `value`, or `None` where the table has no such
    /// code.
    pub fn from_code(value: u64) -> (found: Option<DealType>)
        ensures
            match found {
                Some(variant) => variant.code() == value && forall|other: DealType|
                    other.code() == value ==> other == variant,
                None => !Self::is_code(value),
            },
    {
        match value {
            0 => Some(DealType::BUY),
            1 => Some(DealType::SELL),
            2 => Some(DealType::BALANCE),
            3 => Some(DealType::CREDIT),
            4 => Some(DealType::CHARGE),
            5 => Some(DealType::CORRECTION),
            6 => Some(DealType::BONUS),
            7 => Some(DealType::COMMISSION),
            8 => Some(DealType::CommissionDaily),
            9 => Some(DealType::CommissionMontly),
            10 => Some(DealType::ComissionAgentDaily),
            11 => Some(DealType::CommisionAgentMontly),
            12 => Some(DealType::INTEREST),
            13 => Some(DealType::BuyCanceled),
            14 => Some(DealType::SellCanceled),
            15 => Some(DealType::DIVIDEND),
            16 => Some(DealType::DividentFranked),
            17 => Some(DealType::TAX),
            _ => None,
        }
    }

    /// The variant whose code is `value`, for a code of the table.
    pub fn from(value: u64) -> (variant: DealType)
        requires
            Self::is_code(value),
        ensures
            variant.code() == value,
            forall|other: DealType| other.code() == value ==> other == variant,
    {
        Self::from_code(value).unwrap()
    }
}

/// How a deal changed its position.
#[derive(Clone, Copy, Debug, PartialEq, Eq, Structural)]
pub enum DealEntry {
    IN,
    OUT,
    INOUT,
    OutBy,
}

impl DealEntry {
    /// The integer that the terminal uses for this variant.
    pub open spec fn spec_code(self) -> u64 {
        match self {
            DealEntry::IN => 0,
            DealEntry::OUT => 1,
            DealEntry::INOUT => 2,
            DealEntry::OutBy => 3,
        }
    }

    #[verifier::when_used_as_spec(spec_code)]
    pub fn code(self) -> (code: u64)
        ensures
            code == self.spec_code(),
    {
        match self {
            DealEntry::IN => 0,
            DealEntry::OUT => 1,
            DealEntry::INOUT => 2,
            DealEntry::OutBy => 3,
        }
    }

    /// Whether some variant has the code `value`.
    pub open spec fn is_code(value: u64) -> bool {
        exists|known: DealEntry| known.code() == value
    }

    /// The variant whose code is `value`, or `None` where the table has no such
    /// code.
    pub fn from_code(value: u64) -> (found: Option<DealEntry>)
        ensures
            match found {
                Some(variant) => variant.code() == value && forall|other: DealEntry|
                    other.code() == value ==> other == variant,
                None => !Self::is_code(value),
            },
    {
        match value {
            0 => Some(DealEntry::IN),
            1 => Some(DealEntry::OUT),
            2 => Some(DealEntry::INOUT),
            3 => Some(DealEntry::OutBy),
            _ => None,
        }
    }

    /// The variant whose code is `value`, for a code of the table.
    pub fn from(value: u64) -> (variant: DealEntry)
        requires
            Self::is_code(value),
        ensures
            variant.code() == value,
            forall|other: DealEntry| other.code() == value ==> other == variant,
    {
        Self::from_code(value).unwrap()
    }
}

/// Why a deal was executed.
#[derive(Clone, Copy, Debug, PartialEq, Eq, Structural)]
pub enum DealReason {
    CLIENT,
    MOBILE,
    WEB,
    EXPERT,
    SL,
    TP,
    SO,
    ROLLOVER,
    VMARGIN,
    SPLIT,
}

impl DealReason {
    /// The integer that the terminal uses for this variant.
    pub open spec fn spec_code(self) -> u64 {
        match self {
            DealReason::CLIENT => 0,
            DealReason::MOBILE => 1,
            DealReason::WEB => 2,
            DealReason::EXPERT => 3,
            DealReason::SL => 4,
            DealReason::TP => 5,
            DealReason::SO => 6,
            DealReason::ROLLOVER => 7,
            DealReason::VMARGIN => 8,
            DealReason::SPLIT => 9,
        }
    }

    #[verifier::when_used_as_spec(spec_code)]
    pub fn code(self) -> (code: u64)
        ensures
            code == self.spec_code(),
    {
        match self {
            DealReason::CLIENT => 0,
            DealReason::MOBILE => 1,
            DealReason::WEB => 2,
            DealReason::EXPERT => 3,
            DealReason::SL => 4,
            DealReason::TP => 5,
            DealReason::SO => 6,
            DealReason::ROLLOVER => 7,
            DealReason::VMARGIN => 8,
            DealReason::SPLIT => 9,
        }
    }

    /// Whether some variant has the code `value`.
    pub open spec fn is_code(value: u64) -> bool {
        exists|known: DealReason| known.code() == value
    }

    /// The variant whose code is `value`, or `None` where the table has no such
    /// code.
    pub fn from_code(value: u64) -> (found: Option<DealReason>)
        ensures
            match found {
                Some(variant) => variant.code() == value && forall|other: DealReason|
                    other.code() == value ==> other == variant,
                None => !Self::is_code(value),
            },
    {
        match value {
            0 => Some(DealReason::CLIENT),
            1 => Some(DealReason::MOBILE),
            2 => Some(DealReason::WEB),
            3 => Some(DealReason::EXPERT),
            4 => Some(DealReason::SL),
            5 => Some(DealReason::TP),
            6 => Some(DealReason::SO),
            7 => Some(DealReason::ROLLOVER),
            8 => Some(DealReason::VMARGIN),
            9 => Some(DealReason::SPLIT),
            _ => None,
        }
    }

    /// The variant whose code is `value`, for a code of the table.
    pub fn from(value: u64) -> (variant: DealReason)
        requires
            Self::is_code(value),
        ensures
            variant.code() == value,
            forall|other: DealReason| other.code() == value ==> other == variant,
    {
        Self::from_code(value).unwrap()
    }
}

/// Stage of an order's life.
#[derive(Clone, Copy, Debug, PartialEq, Eq, Structural)]
pub enum OrderState {
    STARTED,
    PLACED,
    CANCELED,
    PARTIAL,
    FILLED,
    REJECTED,
    EXPIRED,
    RequestAdd,
    RequestModify,
    RequestCancel,
}

impl OrderState {
    /// The integer that the terminal uses for this variant.
    pub open spec fn spec_code(self) -> u64 {
        match self {
            OrderState::STARTED => 0,
            OrderState::PLACED => 1,
            OrderState::CANCELED => 2,
            OrderState::PARTIAL => 3,
            OrderState::FILLED => 4,
            OrderState::REJECTED => 5,
            OrderState::EXPIRED => 6,
            OrderState::RequestAdd => 7,
            OrderState::RequestModify => 8,
            OrderState::RequestCancel => 9,
        }
    }

    #[verifier::when_used_as_spec(spec_code)]
    pub fn code(self) -> (code: u64)
        ensures
            code == self.spec_code(),
    {
        match self {
            OrderState::STARTED => 0,
            OrderState::PLACED => 1,
            OrderState::CANCELED => 2,
            OrderState::PARTIAL => 3,
            OrderState::FILLED => 4,
            OrderState::REJECTED => 5,
            OrderState::EXPIRED => 6,
            OrderState::RequestAdd => 7,
            OrderState::RequestModify => 8,
            OrderState::RequestCancel => 9,
        }
    }

    /// Whether some variant has the code `value`.
    pub open spec fn is_code(value: u64) -> bool {
        exists|known: OrderState| known.code() == value
    }

    /// The variant whose code is `value`, or `None` where the table has no such
    /// code.
    pub fn from_code(value: u64) -> (found: Option<OrderState>)
        ensures
            match found {
                Some(variant) => variant.code() == value && forall|other: OrderState|
                    other.code() == value ==> other == variant,
                None => !Self::is_code(value),
            },
    {
        match value {
            0 => Some(OrderState::STARTED),
            1 => Some(OrderState::PLACED),
            2 => Some(OrderState::CANCELED),
            3 => Some(OrderState::PARTIAL),
            4 => Some(OrderState::FILLED),
            5 => Some(OrderState::REJECTED),
            6 => Some(OrderState::EXPIRED),
            7 => Some(OrderState::RequestAdd),
            8 => Some(OrderState::RequestModify),
            9 => Some(OrderState::RequestCancel),
            _ => None,
        }
    }

    /// The variant whose code is `value`, for a code of the table.
    pub fn from(value: u64) -> (variant: OrderState)
        requires
            Self::is_code(value),
        ensures
            variant.code() == value,
            forall|other: OrderState| other.code() == value ==> other == variant,
    {
        Self::from_code(value).unwrap()
    }
}

/// Where or why an order was placed.
#[derive(Clone, Copy, Debug, PartialEq, Eq, Structural)]
pub enum OrderReason {
    CLIENT,
    MOBILE,
    WEB,
    EXPERT,
    SL,
    TP,
    SO,
}

impl OrderReason {
    /// The integer that the terminal uses for this variant.
    pub open spec fn spec_code(self) -> u64 {
        match self {
            OrderReason::CLIENT => 0,
            OrderReason::MOBILE => 1,
            OrderReason::WEB => 2,
            OrderReason::EXPERT => 3,
            OrderReason::SL => 4,
            OrderReason::TP => 5,
            OrderReason::SO => 6,
        }
    }

    #[verifier::when_used_as_spec(spec_code)]
    pub fn code(self) -> (code: u64)
        ensures
            code == self.spec_code(),
    {
        match self {
            OrderReason::CLIENT => 0,
            OrderReason::MOBILE => 1,
            OrderReason::WEB => 2,
            OrderReason::EXPERT => 3,
            OrderReason::SL => 4,
            OrderReason::TP => 5,
            OrderReason::SO => 6,
        }
    }

    /// Whether some variant has the code `value`.
    pub open spec fn is_code(value: u64) -> bool {
        exists|known: OrderReason| known.code() == value
    }

    /// The variant whose code is `value`, or `None` where the table has no such
    /// code.
    pub fn from_code(value: u64) -> (found: Option<OrderReason>)
        ensures
            match found {
                Some(variant) => variant.code() == value && forall|other: OrderReason|
                    other.code() == value ==> other == variant,
                None => !Self::is_code(value),
            },
    {
        match value {
            0 => Some(OrderReason::CLIENT),
            1 => Some(OrderReason::MOBILE),
            2 => Some(OrderReason::WEB),
            3 => Some(OrderReason::EXPERT),
            4 => Some(OrderReason::SL),
            5 => Some(OrderReason::TP),
            6 => Some(OrderReason::SO),
            _ => None,
        }
    }

    /// The variant whose code is `value`, for a code of the table.
    pub fn from(value: u64) -> (variant: OrderReason)
        requires
            Self::is_code(value),
        ensures
            variant.code() == value,
            forall|other: OrderReason| other.code() == value ==> other == variant,
    {
        Self::from_code(value).unwrap()
    }
}

/// Names the fields of an account record.
#[derive(Clone, Copy, Debug, PartialEq, Eq, Structural)]
pub enum AccountInfoProperty {
    Login,
    TradeMode,
    Leverage,
    LimitOrders,
    MarginSoMode,
    TradeAllowed,
    TradeExpert,
    MarginMode,
    CurrencyDigits,
    FifoClose,
    Balance,
    Credit,
    Profit,
    Equity,
    Margin,
    MarginFree,
    MarginLevel,
    MarginSoCall,
    MarginSoSo,
    MarginInitial,
    MarginMaintenance,
    Assets,
    Liabilities,
    CommissionBlocked,
    Name,
    Server,
    Currency,
    Company,
}

/// Names the fields of a terminal record.
#[derive(Clone, Copy, Debug, PartialEq, Eq, Structural)]
pub enum TerminalInfoProperty {
    CommunityAccount,
    CommunityConnection,
    Connected,
    DllsAllowed,
    TradeAllowed,
    TradeApiDisabled,
    EmailEnabled,
    FtpEnabled,
    NotificationsEnabled,
    MqId,
    Build,
    MaxBars,
    CodePage,
    PingLast,
    CommunityBalance,
    Retransmission,
    Company,
    Name,
    Language,
    Path,
    DataPath,
    CommonDataPath,
}

/// Names the fields of a symbol record.
#[derive(Clone, Copy, Debug, PartialEq, Eq, Structural)]
pub enum SymbolInfoProperty {
    Custom,
    ChartMode,
    Select,
    Visible,
    SessionDeals,
    SessionBuyOrders,
    SessionSellOrders,
    Volume,
    VolumeHigh,
    VolumeLow,
    Time,
    Digits,
    Spread,
    SpreadFloat,
    TicksBookDepth,
    TradeCalcMode,
    TradeMode,
    StartTime,
    ExpirationTime,
    TradeStopsLevel,
    TradeFreezeLevel,
    TradeExeMode,
    SwapMode,
    SwapRollover3Days,
    MarginHedgedUseLeg,
    ExpirationMode,
    FillingMode,
    OrderMode,
    OrderGtcMode,
    OptionMode,
    OptionRight,
    Bid,
    BidHigh,
    BidLow,
    Ask,
    AskHigh,
    AskLow,
    Last,
    LastHigh,
    LastLow,
    VolumeReal,
    VolumeHighReal,
    VolumeLowReal,
    OptionStrike,
    Point,
    TradeTickValue,
    TradeTickValueProfit,
    TradeTickValueLoss,
    TradeTickSize,
    TradeContractSize,
    TradeAccruedInterest,
    TradeFaceValue,
    TradeLiquidityRate,
    VolumeMin,
    VolumeMax,
    VolumeStep,
    VolumeLimit,
    SwapLong,
    SwapShort,
    MarginInitial,
    MarginMaintenance,
    SessionVolume,
    SessionTurnover,
    SessionInterest,
    SessionBuyOrdersVolume,
    SessionSellOrdersVolume,
    SessionOpen,
    SessionClose,
    SessionAw,
    SessionPriceSettlement,
    SessionPriceLimitMin,
    SessionPriceLimitMax,
    MarginHedged,
    PriceChange,
    PriceVolatility,
    PriceTheoretical,
    PriceGreeksDelta,
    PriceGreeksTheta,
    PriceGreeksGamma,
    PriceGreeksVega,
    PriceGreeksRho,
    PriceGreeksOmega,
    PriceSensitivity,
    Basis,
    Category,
    CurrencyBase,
    CurrencyProfit,
    CurrencyMargin,
    Bank,
    Description,
    Exchange,
    Formula,
    Isin,
    Name,
    Page,
    Path,
}

/// Kind of a trading account.
#[derive(Clone, Copy, Debug, PartialEq, Eq, Structural)]
pub enum AccountTradeMode {
    Demo,
    Contest,
    Real,
}

impl AccountTradeMode {
    /// The integer that the terminal uses for this variant.
    pub open spec fn spec_code(self) -> u64 {
        match self {
            AccountTradeMode::Demo => 0,
            AccountTradeMode::Contest => 1,
            AccountTradeMode::Real => 2,
        }
    }

    #[verifier::when_used_as_spec(spec_code)]
    pub fn code(self) -> (code: u64)
        ensures
            code == self.spec_code(),
    {
        match self {
            AccountTradeMode::Demo => 0,
            AccountTradeMode::Contest => 1,
            AccountTradeMode::Real => 2,
        }
    }

    /// Whether some variant has the code `value`.
    pub open spec fn is_code(value: u64) -> bool {
        exists|known: AccountTradeMode| known.code() == value
    }

    /// The variant whose code is `value`, or `None` where the table has no such
    /// code.
    pub fn from_code(value: u64) -> (found: Option<AccountTradeMode>)
        ensures
            match found {
                Some(variant) => variant.code() == value && forall|other: AccountTradeMode|
                    other.code() == value ==> other == variant,
                None => !Self::is_code(value),
            },
    {
        match value {
            0 => Some(AccountTradeMode::Demo),
            1 => Some(AccountTradeMode::Contest),
            2 => Some(AccountTradeMode::Real),
            _ => None,
        }
    }

    /// The variant whose code is `value`, for a code of the table.
    pub fn from(value: u64) -> (variant: AccountTradeMode)
        requires
            Self::is_code(value),
        ensures
            variant.code() == value,
            forall|other: AccountTradeMode| other.code() == value ==> other == variant,
    {
        Self::from_code(value).unwrap()
    }
}

/// Unit of an account's stop-out level.
#[derive(Clone, Copy, Debug, PartialEq, Eq, Structural)]
pub enum AccountStopOutMode {
    PERCENT,
    MONEY,
}

impl AccountStopOutMode {
    /// The integer that the terminal uses for this variant.
    pub open spec fn spec_code(self) -> u64 {
        match self {
            AccountStopOutMode::PERCENT => 0,
            AccountStopOutMode::MONEY => 1,
        }
    }

    #[verifier::when_used_as_spec(spec_code)]
    pub fn code(self) -> (code: u64)
        ensures
            code == self.spec_code(),
    {
        match self {
            AccountStopOutMode::PERCENT => 0,
            AccountStopOutMode::MONEY => 1,
        }
    }

    /// Whether some variant has the code `value`.
    pub open spec fn is_code(value: u64) -> bool {
        exists|known: AccountStopOutMode| known.code() == value
    }

    /// The variant whose code is `value`, or `None` where the table has no such
    /// code.
    pub fn from_code(value: u64) -> (found: Option<AccountStopOutMode>)
        ensures
            match found {
                Some(variant) => variant.code() == value && forall|other: AccountStopOutMode|
                    other.code() == value ==> other == variant,
                None => !Self::is_code(value),
            },
    {
        match value {
            0 => Some(AccountStopOutMode::PERCENT),
            1 => Some(AccountStopOutMode::MONEY),
            _ => None,
        }
    }

    /// The variant whose code is `value`, for a code of the table.
    pub fn from(value: u64) -> (variant: AccountStopOutMode)
        requires
            Self::is_code(value),
        ensures
            variant.code() == value,
            forall|other: AccountStopOutMode| other.code() == value ==> other == variant,
    {
        Self::from_code(value).unwrap()
    }
}

/// How an account computes margin.
#[derive(Clone, Copy, Debug, PartialEq, Eq, Structural)]
pub enum AccountMarginMode {
    RetailNetting,
    Exchange,
    RetailHedging,
}

impl AccountMarginMode {
    /// The integer that the terminal uses for this variant.
    pub open spec fn spec_code(self) -> u64 {
        match self {
            AccountMarginMode::RetailNetting => 0,
            AccountMarginMode::Exchange => 1,
            AccountMarginMode::RetailHedging => 2,
        }
    }

    #[verifier::when_used_as_spec(spec_code)]
    pub fn code(self) -> (code: u64)
        ensures
            code == self.spec_code(),
    {
        match self {
            AccountMarginMode::RetailNetting => 0,
            AccountMarginMode::Exchange => 1,
            AccountMarginMode::RetailHedging => 2,
        }
    }

    /// Whether some variant has the code `value`.
    pub open spec fn is_code(value: u64) -> bool {
        exists|known: AccountMarginMode| known.code() == value
    }

    /// The variant whose code is `value`, or `None` where the table has no such
    /// code.
    pub fn from_code(value: u64) -> (found: Option<AccountMarginMode>)
        ensures
            match found {
                Some(variant) => variant.code() == value && forall|other: AccountMarginMode|
                    other.code() == value ==> other == variant,
                None => !Self::is_code(value),
            },
    {
        match value {
            0 => Some(AccountMarginMode::RetailNetting),
            1 => Some(AccountMarginMode::Exchange),
            2 => Some(AccountMarginMode::RetailHedging),
            _ => None,
        }
    }

    /// The variant whose code is `value`, for a code of the table.
    pub fn from(value: u64) -> (variant: AccountMarginMode)
        requires
            Self::is_code(value),
        ensures
            variant.code() == value,
            forall|other: AccountMarginMode| other.code() == value ==> other == variant,
    {
        Self::from_code(value).unwrap()
    }
}

/// Price from which a symbol's bars are built.
#[derive(Clone, Copy, Debug, PartialEq, Eq, Structural)]
pub enum SymbolChartMode {
    Bid,
    Last,
}

impl SymbolChartMode {
    /// The integer that the terminal uses for this variant.
    pub open spec fn spec_code(self) -> u64 {
        match self {
            SymbolChartMode::Bid => 0,
            SymbolChartMode::Last => 1,
        }
    }

    #[verifier::when_used_as_spec(spec_code)]
    pub fn code(self) -> (code: u64)
        ensures
            code == self.spec_code(),
    {
        match self {
            SymbolChartMode::Bid => 0,
            SymbolChartMode::Last => 1,
        }
    }

    /// Whether some variant has the code `value`.
    pub open spec fn is_code(value: u64) -> bool {
        exists|known: SymbolChartMode| known.code() == value
    }

    /// The variant whose code is `value`, or `None` where the table has no such
    /// code.
    pub fn from_code(value: u64) -> (found: Option<SymbolChartMode>)
        ensures
            match found {
                Some(variant) => variant.code() == value && forall|other: SymbolChartMode|
                    other.code() == value ==> other == variant,
                None => !Self::is_code(value),
            },
    {
        match value {
            0 => Some(SymbolChartMode::Bid),
            1 => Some(SymbolChartMode::Last),
            _ => None,
        }
    }

    /// The variant whose code is `value`, for a code of the table.
    pub fn from(value: u64) -> (variant: SymbolChartMode)
        requires
            Self::is_code(value),
        ensures
            variant.code() == value,
            forall|other: SymbolChartMode| other.code() == value ==> other == variant,
    {
        Self::from_code(value).unwrap()
    }
}

/// How margin and profit of a symbol are computed.
#[derive(Clone, Copy, Debug, PartialEq, Eq, Structural)]
pub enum SymbolCalcMode {
    FOREX,
    FUTURES,
    CFD,
    CFDINDEX,
    CFDLEVERAGE,
    ForexNoLeverage,
    ExchStocks,
    ExchFutures,
    ExchOptions,
    ExchOptionsMargin,
    ExchBonds,
    ExchStocksMoex,
    ExchBondsMoex,
    ServCollateral,
}

impl SymbolCalcMode {
    /// The integer that the terminal uses for this variant.
    pub open spec fn spec_code(self) -> u64 {
        match self {
            SymbolCalcMode::FOREX => 0,
            SymbolCalcMode::FUTURES => 1,
            SymbolCalcMode::CFD => 2,
            SymbolCalcMode::CFDINDEX => 3,
            SymbolCalcMode::CFDLEVERAGE => 4,
            SymbolCalcMode::ForexNoLeverage => 5,
            SymbolCalcMode::ExchStocks => 32,
            SymbolCalcMode::ExchFutures => 33,
            SymbolCalcMode::ExchOptions => 34,
            SymbolCalcMode::ExchOptionsMargin => 36,
            SymbolCalcMode::ExchBonds => 37,
            SymbolCalcMode::ExchStocksMoex => 38,
            SymbolCalcMode::ExchBondsMoex => 39,
            SymbolCalcMode::ServCollateral => 64,
        }
    }

    #[verifier::when_used_as_spec(spec_code)]
    pub fn code(self) -> (code: u64)
        ensures
            code == self.spec_code(),
    {
        match self {
            SymbolCalcMode::FOREX => 0,
            SymbolCalcMode::FUTURES => 1,
            SymbolCalcMode::CFD => 2,
            SymbolCalcMode::CFDINDEX => 3,
            SymbolCalcMode::CFDLEVERAGE => 4,
            SymbolCalcMode::ForexNoLeverage => 5,
            SymbolCalcMode::ExchStocks => 32,
            SymbolCalcMode::ExchFutures => 33,
            SymbolCalcMode::ExchOptions => 34,
            SymbolCalcMode::ExchOptionsMargin => 36,
            SymbolCalcMode::ExchBonds => 37,
            SymbolCalcMode::ExchStocksMoex => 38,
            SymbolCalcMode::ExchBondsMoex => 39,
            SymbolCalcMode::ServCollateral => 64,
        }
    }

    /// Whether some variant has the code `value`.
    pub open spec fn is_code(value: u64) -> bool {
        exists|known: SymbolCalcMode| known.code() == value
    }

    /// The variant whose code is `value`, or `None` where the table has no such
    /// code.
    pub fn from_code(value: u64) -> (found: Option<SymbolCalcMode>)
        ensures
            match found {
                Some(variant) => variant.code() == value && forall|other: SymbolCalcMode|
                    other.code() == value ==> other == variant,
                None => !Self::is_code(value),
            },
    {
        match value {
            0 => Some(SymbolCalcMode::FOREX),
            1 => Some(SymbolCalcMode::FUTURES),
            2 => Some(SymbolCalcMode::CFD),
            3 => Some(SymbolCalcMode::CFDINDEX),
            4 => Some(SymbolCalcMode::CFDLEVERAGE),
            5 => Some(SymbolCalcMode::ForexNoLeverage),
            32 => Some(SymbolCalcMode::ExchStocks),
            33 => Some(SymbolCalcMode::ExchFutures),
            34 => Some(SymbolCalcMode::ExchOptions),
            36 => Some(SymbolCalcMode::ExchOptionsMargin),
            37 => Some(SymbolCalcMode::ExchBonds),
            38 => Some(SymbolCalcMode::ExchStocksMoex),
            39 => Some(SymbolCalcMode::ExchBondsMoex),
            64 => Some(SymbolCalcMode::ServCollateral),
            _ => None,
        }
    }

    /// The variant whose code is `value`, for a code of the table.
    pub fn from(value: u64) -> (variant: SymbolCalcMode)
        requires
            Self::is_code(value),
        ensures
            variant.code() == value,
            forall|other: SymbolCalcMode| other.code() == value ==> other == variant,
    {
        Self::from_code(value).unwrap()
    }
}

/// Which trades a symbol admits.
#[derive(Clone, Copy, Debug, PartialEq, Eq, Structural)]
pub enum SymbolTradeMode {
    SymbolTradeModeDisabled,
    SymbolTradeModeLongonly,
    SymbolTradeModeShortonly,
    SymbolTradeModeCloseonly,
    SymbolTradeModeFull,
}

impl SymbolTradeMode {
    /// The integer that the terminal uses for this variant.
    pub open spec fn spec_code(self) -> u64 {
        match self {
            SymbolTradeMode::SymbolTradeModeDisabled => 0,
            SymbolTradeMode::SymbolTradeModeLongonly => 1,
            SymbolTradeMode::SymbolTradeModeShortonly => 2,
            SymbolTradeMode::SymbolTradeModeCloseonly => 3,
            SymbolTradeMode::SymbolTradeModeFull => 4,
        }
    }

    #[verifier::when_used_as_spec(spec_code)]
    pub fn code(self) -> (code: u64)
        ensures
            code == self.spec_code(),
    {
        match self {
            SymbolTradeMode::SymbolTradeModeDisabled => 0,
            SymbolTradeMode::SymbolTradeModeLongonly => 1,
            SymbolTradeMode::SymbolTradeModeShortonly => 2,
            SymbolTradeMode::SymbolTradeModeCloseonly => 3,
            SymbolTradeMode::SymbolTradeModeFull => 4,
        }
    }

    /// Whether some variant has the code `value`.
    pub open spec fn is_code(value: u64) -> bool {
        exists|known: SymbolTradeMode| known.code() == value
    }

    /// The variant whose code is `value`, or `None` where the table has no such
    /// code.
    pub fn from_code(value: u64) -> (found: Option<SymbolTradeMode>)
        ensures
            match found {
                Some(variant) => variant.code() == value && forall|other: SymbolTradeMode|
                    other.code() == value ==> other == variant,
                None => !Self::is_code(value),
            },
    {
        match value {
            0 => Some(SymbolTradeMode::SymbolTradeModeDisabled),
            1 => Some(SymbolTradeMode::SymbolTradeModeLongonly),
            2 => Some(SymbolTradeMode::SymbolTradeModeShortonly),
            3 => Some(SymbolTradeMode::SymbolTradeModeCloseonly),
            4 => Some(SymbolTradeMode::SymbolTradeModeFull),
            _ => None,
        }
    }

    /// The variant whose code is `value`, for a code of the table.
    pub fn from(value: u64) -> (variant: SymbolTradeMode)
        requires
            Self::is_code(value),
        ensures
            variant.code() == value,
            forall|other: SymbolTradeMode| other.code() == value ==> other == variant,
    {
        Self::from_code(value).unwrap()
    }
}

/// How deals on a symbol are executed.
#[derive(Clone, Copy, Debug, PartialEq, Eq, Structural)]
pub enum SymbolTradeExecution {
    Request,
    Instant,
    Market,
    Exchange,
}

impl SymbolTradeExecution {
    /// The integer that the terminal uses for this variant.
    pub open spec fn spec_code(self) -> u64 {
        match self {
            SymbolTradeExecution::Request => 0,
            SymbolTradeExecution::Instant => 1,
            SymbolTradeExecution::Market => 2,
            SymbolTradeExecution::Exchange => 3,
        }
    }

    #[verifier::when_used_as_spec(spec_code)]
    pub fn code(self) -> (code: u64)
        ensures
            code == self.spec_code(),
    {
        match self {
            SymbolTradeExecution::Request => 0,
            SymbolTradeExecution::Instant => 1,
            SymbolTradeExecution::Market => 2,
            SymbolTradeExecution::Exchange => 3,
        }
    }

    /// Whether some variant has the code `value`.
    pub open spec fn is_code(value: u64) -> bool {
        exists|known: SymbolTradeExecution| known.code() == value
    }

    /// The variant whose code is `value`, or `None` where the table has no such
    /// code.
    pub fn from_code(value: u64) -> (found: Option<SymbolTradeExecution>)
        ensures
            match found {
                Some(variant) => variant.code() == value && forall|other: SymbolTradeExecution|
                    other.code() == value ==> other == variant,
                None => !Self::is_code(value),
            },
    {
        match value {
            0 => Some(SymbolTradeExecution::Request),
            1 => Some(SymbolTradeExecution::Instant),
            2 => Some(SymbolTradeExecution::Market),
            3 => Some(SymbolTradeExecution::Exchange),
            _ => None,
        }
    }

    /// The variant whose code is `value`, for a code of the table.
    pub fn from(value: u64) -> (variant: SymbolTradeExecution)
        requires
            Self::is_code(value),
        ensures
            variant.code() == value,
            forall|other: SymbolTradeExecution| other.code() == value ==> other == variant,
    {
        Self::from_code(value).unwrap()
    }
}

/// How swap is charged on a symbol.
#[derive(Clone, Copy, Debug, PartialEq, Eq, Structural)]
pub enum SymbolSwapMode {
    Disabled,
    Points,
    CurrencySymbol,
    CurrencyMargin,
    CurrencyDeposit,
    InterestCurrent,
    InterestOpen,
    ReopenCurrent,
    ReopenBid,
}

impl SymbolSwapMode {
    /// The integer that the terminal uses for this variant.
    pub open spec fn spec_code(self) -> u64 {
        match self {
            SymbolSwapMode::Disabled => 0,
            SymbolSwapMode::Points => 1,
            SymbolSwapMode::CurrencySymbol => 2,
            SymbolSwapMode::CurrencyMargin => 3,
            SymbolSwapMode::CurrencyDeposit => 4,
            SymbolSwapMode::InterestCurrent => 5,
            SymbolSwapMode::InterestOpen => 6,
            SymbolSwapMode::ReopenCurrent => 7,
            SymbolSwapMode::ReopenBid => 8,
        }
    }

    #[verifier::when_used_as_spec(spec_code)]
    pub fn code(self) -> (code: u64)
        ensures
            code == self.spec_code(),
    {
        match self {
            SymbolSwapMode::Disabled => 0,
            SymbolSwapMode::Points => 1,
            SymbolSwapMode::CurrencySymbol => 2,
            SymbolSwapMode::CurrencyMargin => 3,
            SymbolSwapMode::CurrencyDeposit => 4,
            SymbolSwapMode::InterestCurrent => 5,
            SymbolSwapMode::InterestOpen => 6,
            SymbolSwapMode::ReopenCurrent => 7,
            SymbolSwapMode::ReopenBid => 8,
        }
    }

    /// Whether some variant has the code `value`.
    pub open spec fn is_code(value: u64) -> bool {
        exists|known: SymbolSwapMode| known.code() == value
    }

    /// The variant whose code is `value`, or `None` where the table has no such
    /// code.
    pub fn from_code(value: u64) -> (found: Option<SymbolSwapMode>)
        ensures
            match found {
                Some(variant) => variant.code() == value && forall|other: SymbolSwapMode|
                    other.code() == value ==> other == variant,
                None => !Self::is_code(value),
            },
    {
        match value {
            0 => Some(SymbolSwapMode::Disabled),
            1 => Some(SymbolSwapMode::Points),
            2 => Some(SymbolSwapMode::CurrencySymbol),
            3 => Some(SymbolSwapMode::CurrencyMargin),
            4 => Some(SymbolSwapMode::CurrencyDeposit),
            5 => Some(SymbolSwapMode::InterestCurrent),
            6 => Some(SymbolSwapMode::InterestOpen),
            7 => Some(SymbolSwapMode::ReopenCurrent),
            8 => Some(SymbolSwapMode::ReopenBid),
            _ => None,
        }
    }

    /// The variant whose code is `value`, for a code of the table.
    pub fn from(value: u64) -> (variant: SymbolSwapMode)
        requires
            Self::is_code(value),
        ensures
            variant.code() == value,
            forall|other: SymbolSwapMode| other.code() == value ==> other == variant,
    {
        Self::from_code(value).unwrap()
    }
}

/// Day of the week, with `All` for every day.
#[derive(Clone, Copy, Debug, PartialEq, Eq, Structural)]
pub enum DayOfWeek {
    Sunday,
    Monday,
    Tuesday,
    Wednesday,
    Thursday,
    Friday,
    Saturday,
    All,
}

impl DayOfWeek {
    /// The integer that the terminal uses for this variant.
    pub open spec fn spec_code(self) -> u64 {
        match self {
            DayOfWeek::Sunday => 0,
            DayOfWeek::Monday => 1,
            DayOfWeek::Tuesday => 2,
            DayOfWeek::Wednesday => 3,
            DayOfWeek::Thursday => 4,
            DayOfWeek::Friday => 5,
            DayOfWeek::Saturday => 6,
            DayOfWeek::All => 7,
        }
    }

    #[verifier::when_used_as_spec(spec_code)]
    pub fn code(self) -> (code: u64)
        ensures
            code == self.spec_code(),
    {
        match self {
            DayOfWeek::Sunday => 0,
            DayOfWeek::Monday => 1,
            DayOfWeek::Tuesday => 2,
            DayOfWeek::Wednesday => 3,
            DayOfWeek::Thursday => 4,
            DayOfWeek::Friday => 5,
            DayOfWeek::Saturday => 6,
            DayOfWeek::All => 7,
        }
    }

    /// Whether some variant has the code `value`.
    pub open spec fn is_code(value: u64) -> bool {
        exists|known: DayOfWeek| known.code() == value
    }

    /// The variant whose code is `value`, or `None` where the table has no such
    /// code.
    pub fn from_code(value: u64) -> (found: Option<DayOfWeek>)
        ensures
            match found {
                Some(variant) => variant.code() == value && forall|other: DayOfWeek|
                    other.code() == value ==> other == variant,
                None => !Self::is_code(value),
            },
    {
        match value {
            0 => Some(DayOfWeek::Sunday),
            1 => Some(DayOfWeek::Monday),
            2 => Some(DayOfWeek::Tuesday),
            3 => Some(DayOfWeek::Wednesday),
            4 => Some(DayOfWeek::Thursday),
            5 => Some(DayOfWeek::Friday),
            6 => Some(DayOfWeek::Saturday),
            7 => Some(DayOfWeek::All),
            _ => None,
        }
    }

    /// The variant whose code is `value`, for a code of the table.
    pub fn from(value: u64) -> (variant: DayOfWeek)
        requires
            Self::is_code(value),
        ensures
            variant.code() == value,
            forall|other: DayOfWeek| other.code() == value ==> other == variant,
    {
        Self::from_code(value).unwrap()
    }
}

/// When a symbol's pending orders and stop levels expire.
#[derive(Clone, Copy, Debug, PartialEq, Eq, Structural)]
pub enum SymbolOrderGtcMode {
    Gtc,
    Daily,
    DailyNoStops,
}

impl SymbolOrderGtcMode {
    /// The integer that the terminal uses for this variant.
    pub open spec fn spec_code(self) -> u64 {
        match self {
            SymbolOrderGtcMode::Gtc => 0,
            SymbolOrderGtcMode::Daily => 1,
            SymbolOrderGtcMode::DailyNoStops => 2,
        }
    }

    #[verifier::when_used_as_spec(spec_code)]
    pub fn code(self) -> (code: u64)
        ensures
            code == self.spec_code(),
    {
        match self {
            SymbolOrderGtcMode::Gtc => 0,
            SymbolOrderGtcMode::Daily => 1,
            SymbolOrderGtcMode::DailyNoStops => 2,
        }
    }

    /// Whether some variant has the code `value`.
    pub open spec fn is_code(value: u64) -> bool {
        exists|known: SymbolOrderGtcMode| known.code() == value
    }

    /// The variant whose code is `value`, or `None` where the table has no such
    /// code.
    pub fn from_code(value: u64) -> (found: Option<SymbolOrderGtcMode>)
        ensures
            match found {
                Some(variant) => variant.code() == value && forall|other: SymbolOrderGtcMode|
                    other.code() == value ==> other == variant,
                None => !Self::is_code(value),
            },
    {
        match value {
            0 => Some(SymbolOrderGtcMode::Gtc),
            1 => Some(SymbolOrderGtcMode::Daily),
            2 => Some(SymbolOrderGtcMode::DailyNoStops),
            _ => None,
        }
    }

    /// The variant whose code is `value`, for a code of the table.
    pub fn from(value: u64) -> (variant: SymbolOrderGtcMode)
        requires
            Self::is_code(value),
        ensures
            variant.code() == value,
            forall|other: SymbolOrderGtcMode| other.code() == value ==> other == variant,
    {
        Self::from_code(value).unwrap()
    }
}

/// Right that an option grants.
#[derive(Clone, Copy, Debug, PartialEq, Eq, Structural)]
pub enum SymbolOptionRight {
    Call,
    Put,
}

impl SymbolOptionRight {
    /// The integer that the terminal uses for this variant.
    pub open spec fn spec_code(self) -> u64 {
        match self {
            SymbolOptionRight::Call => 0,
            SymbolOptionRight::Put => 1,
        }
    }

    #[verifier::when_used_as_spec(spec_code)]
    pub fn code(self) -> (code: u64)
        ensures
            code == self.spec_code(),
    {
        match self {
            SymbolOptionRight::Call => 0,
            SymbolOptionRight::Put => 1,
        }
    }

    /// Whether some variant has the code `value`.
    pub open spec fn is_code(value: u64) -> bool {
        exists|known: SymbolOptionRight| known.code() == value
    }

    /// The variant whose code is `value`, or `None` where the table has no such
    /// code.
    pub fn from_code(value: u64) -> (found: Option<SymbolOptionRight>)
        ensures
            match found {
                Some(variant) => variant.code() == value && forall|other: SymbolOptionRight|
                    other.code() == value ==> other == variant,
                None => !Self::is_code(value),
            },
    {
        match value {
            0 => Some(SymbolOptionRight::Call),
            1 => Some(SymbolOptionRight::Put),
            _ => None,
        }
    }

    /// The variant whose code is `value`, for a code of the table.
    pub fn from(value: u64) -> (variant: SymbolOptionRight)
        requires
            Self::is_code(value),
        ensures
            variant.code() == value,
            forall|other: SymbolOptionRight| other.code() == value ==> other == variant,
    {
        Self::from_code(value).unwrap()
    }
}

/// Exercise style of an option.
#[derive(Clone, Copy, Debug, PartialEq, Eq, Structural)]
pub enum SymbolOptionMode {
    European,
    American,
}

impl SymbolOptionMode {
    /// The integer that the terminal uses for this variant.
    pub open spec fn spec_code(self) -> u64 {
        match self {
            SymbolOptionMode::European => 0,
            SymbolOptionMode::American => 1,
        }
    }

    #[verifier::when_used_as_spec(spec_code)]
    pub fn code(self) -> (code: u64)
        ensures
            code == self.spec_code(),
    {
        match self {
            SymbolOptionMode::European => 0,
            SymbolOptionMode::American => 1,
        }
    }

    /// Whether some variant has the code `value`.
    pub open spec fn is_code(value: u64) -> bool {
        exists|known: SymbolOptionMode| known.code() == value
    }

    /// The variant whose code is `value`, or `None` where the table has no such
    /// code.
    pub fn from_code(value: u64) -> (found: Option<SymbolOptionMode>)
        ensures
            match found {
                Some(variant) => variant.code() == value && forall|other: SymbolOptionMode|
                    other.code() == value ==> other == variant,
                None => !Self::is_code(value),
            },
    {
        match value {
            0 => Some(SymbolOptionMode::European),
            1 => Some(SymbolOptionMode::American),
            _ => None,
        }
    }

    /// The variant whose code is `value`, for a code of the table.
    pub fn from(value: u64) -> (variant: SymbolOptionMode)
        requires
            Self::is_code(value),
        ensures
            variant.code() == value,
            forall|other: SymbolOptionMode| other.code() == value ==> other == variant,
    {
        Self::from_code(value).unwrap()
    }
}

/// Expiration policies that a symbol admits, as a bit set.
#[derive(Clone, Copy, Debug, PartialEq, Eq, Structural)]
pub enum SymbolExpirationMode {
    Gtc,
    Day,
    Specified,
    SpecifiedDay,
    All,
}

impl SymbolExpirationMode {
    /// The integer that the terminal uses for this variant.
    pub open spec fn spec_code(self) -> u64 {
        match self {
            SymbolExpirationMode::Gtc => 1,
            SymbolExpirationMode::Day => 2,
            SymbolExpirationMode::Specified => 4,
            SymbolExpirationMode::SpecifiedDay => 8,
            SymbolExpirationMode::All => 15,
        }
    }

    #[verifier::when_used_as_spec(spec_code)]
    pub fn code(self) -> (code: u64)
        ensures
            code == self.spec_code(),
    {
        match self {
            SymbolExpirationMode::Gtc => 1,
            SymbolExpirationMode::Day => 2,
            SymbolExpirationMode::Specified => 4,
            SymbolExpirationMode::SpecifiedDay => 8,
            SymbolExpirationMode::All => 15,
        }
    }

    /// Whether some variant has the code `value`.
    pub open spec fn is_code(value: u64) -> bool {
        exists|known: SymbolExpirationMode| known.code() == value
    }

    /// The variant whose code is `value`, or `None` where the table has no such
    /// code.
    pub fn from_code(value: u64) -> (found: Option<SymbolExpirationMode>)
        ensures
            match found {
                Some(variant) => variant.code() == value && forall|other: SymbolExpirationMode|
                    other.code() == value ==> other == variant,
                None => !Self::is_code(value),
            },
    {
        match value {
            1 => Some(SymbolExpirationMode::Gtc),
            2 => Some(SymbolExpirationMode::Day),
            4 => Some(SymbolExpirationMode::Specified),
            8 => Some(SymbolExpirationMode::SpecifiedDay),
            15 => Some(SymbolExpirationMode::All),
            _ => None,
        }
    }

    /// The variant whose code is `value`, for a code of the table.
    pub fn from(value: u64) -> (variant: SymbolExpirationMode)
        requires
            Self::is_code(value),
        ensures
            variant.code() == value,
            forall|other: SymbolExpirationMode| other.code() == value ==> other == variant,
    {
        Self::from_code(value).unwrap()
    }
}

/// Filling policies that a symbol admits.
#[derive(Clone, Copy, Debug, PartialEq, Eq, Structural)]
pub enum SymbolFillingMode {
    Fok,
    Ioc,
    Boc,
}

impl SymbolFillingMode {
    /// The integer that the terminal uses for this variant.
    pub open spec fn spec_code(self) -> u64 {
        match self {
            SymbolFillingMode::Fok => 1,
            SymbolFillingMode::Ioc => 2,
            SymbolFillingMode::Boc => 3,
        }
    }

    #[verifier::when_used_as_spec(spec_code)]
    pub fn code(self) -> (code: u64)
        ensures
            code == self.spec_code(),
    {
        match self {
            SymbolFillingMode::Fok => 1,
            SymbolFillingMode::Ioc => 2,
            SymbolFillingMode::Boc => 3,
        }
    }

    /// Whether some variant has the code `value`.
    pub open spec fn is_code(value: u64) -> bool {
        exists|known: SymbolFillingMode| known.code() == value
    }

    /// The variant whose code is `value`, or `None` where the table has no such
    /// code.
    pub fn from_code(value: u64) -> (found: Option<SymbolFillingMode>)
        ensures
            match found {
                Some(variant) => variant.code() == value && forall|other: SymbolFillingMode|
                    other.code() == value ==> other == variant,
                None => !Self::is_code(value),
            },
    {
        match value {
            1 => Some(SymbolFillingMode::Fok),
            2 => Some(SymbolFillingMode::Ioc),
            3 => Some(SymbolFillingMode::Boc),
            _ => None,
        }
    }

    /// The variant whose code is `value`, for a code of the table.
    pub fn from(value: u64) -> (variant: SymbolFillingMode)
        requires
            Self::is_code(value),
        ensures
            variant.code() == value,
            forall|other: SymbolFillingMode| other.code() == value ==> other == variant,
    {
        Self::from_code(value).unwrap()
    }
}

/// Order kinds that a symbol admits, as a bit set.
#[derive(Clone, Copy, Debug, PartialEq, Eq, Structural)]
pub enum SymbolOrderMode {
    Market,
    Limit,
    Stop,
    StopLimit,
    Sl,
    Tp,
    CloseBy,
    All,
}

impl SymbolOrderMode {
    /// The integer that the terminal uses for this variant.
    pub open spec fn spec_code(self) -> u64 {
        match self {
            SymbolOrderMode::Market => 1,
            SymbolOrderMode::Limit => 2,
            SymbolOrderMode::Stop => 4,
            SymbolOrderMode::StopLimit => 8,
            SymbolOrderMode::Sl => 16,
            SymbolOrderMode::Tp => 32,
            SymbolOrderMode::CloseBy => 64,
            SymbolOrderMode::All => 127,
        }
    }

    #[verifier::when_used_as_spec(spec_code)]
    pub fn code(self) -> (code: u64)
        ensures
            code == self.spec_code(),
    {
        match self {
            SymbolOrderMode::Market => 1,
            SymbolOrderMode::Limit => 2,
            SymbolOrderMode::Stop => 4,
            SymbolOrderMode::StopLimit => 8,
            SymbolOrderMode::Sl => 16,
            SymbolOrderMode::Tp => 32,
            SymbolOrderMode::CloseBy => 64,
            SymbolOrderMode::All => 127,
        }
    }

    /// Whether some variant has the code `value`.
    pub open spec fn is_code(value: u64) -> bool {
        exists|known: SymbolOrderMode| known.code() == value
    }

    /// The variant whose code is `value`, or `None` where the table has no such
    /// code.
    pub fn from_code(value: u64) -> (found: Option<SymbolOrderMode>)
        ensures
            match found {
                Some(variant) => variant.code() == value && forall|other: SymbolOrderMode|
                    other.code() == value ==> other == variant,
                None => !Self::is_code(value),
            },
    {
        match value {
            1 => Some(SymbolOrderMode::Market),
            2 => Some(SymbolOrderMode::Limit),
            4 => Some(SymbolOrderMode::Stop),
            8 => Some(SymbolOrderMode::StopLimit),
            16 => Some(SymbolOrderMode::Sl),
            32 => Some(SymbolOrderMode::Tp),
            64 => Some(SymbolOrderMode::CloseBy),
            127 => Some(SymbolOrderMode::All),
            _ => None,
        }
    }

    /// The variant whose code is `value`, for a code of the table.
    pub fn from(value: u64) -> (variant: SymbolOrderMode)
        requires
            Self::is_code(value),
        ensures
            variant.code() == value,
            forall|other: SymbolOrderMode| other.code() == value ==> other == variant,
    {
        Self::from_code(value).unwrap()
    }
}

/// Status that the terminal's error channel reports after a call.
#[derive(Clone, Copy, Debug, PartialEq, Eq, Structural)]
pub enum RuntimeError {
    Success,
    Fail,
    InvalidParams,
    NoMemory,
    NotFound,
    InvalidVersion,
    AuthFailed,
    Unsupported,
    AutoTradingDisabled,
    InternalFail,
    InternalFailSend,
    InternalFailReceive,
    InternalFailInit,
    InternalFailTimeout,
}

impl RuntimeError {
    /// The integer that the terminal uses for this variant.
    pub open spec fn spec_code(self) -> i64 {
        match self {
            RuntimeError::Success => 1,
            RuntimeError::Fail => (-1) as i64,
            RuntimeError::InvalidParams => (-2) as i64,
            RuntimeError::NoMemory => (-3) as i64,
            RuntimeError::NotFound => (-4) as i64,
            RuntimeError::InvalidVersion => (-5) as i64,
            RuntimeError::AuthFailed => (-6) as i64,
            RuntimeError::Unsupported => (-7) as i64,
            RuntimeError::AutoTradingDisabled => (-8) as i64,
            RuntimeError::InternalFail => (-10000) as i64,
            RuntimeError::InternalFailSend => (-10001) as i64,
            RuntimeError::InternalFailReceive => (-10002) as i64,
            RuntimeError::InternalFailInit => (-10003) as i64,
            RuntimeError::InternalFailTimeout => (-10005) as i64,
        }
    }

    #[verifier::when_used_as_spec(spec_code)]
    pub fn code(self) -> (code: i64)
        ensures
            code == self.spec_code(),
    {
        match self {
            RuntimeError::Success => 1,
            RuntimeError::Fail => -1,
            RuntimeError::InvalidParams => -2,
            RuntimeError::NoMemory => -3,
            RuntimeError::NotFound => -4,
            RuntimeError::InvalidVersion => -5,
            RuntimeError::AuthFailed => -6,
            RuntimeError::Unsupported => -7,
            RuntimeError::AutoTradingDisabled => -8,
            RuntimeError::InternalFail => -10000,
            RuntimeError::InternalFailSend => -10001,
            RuntimeError::InternalFailReceive => -10002,
            RuntimeError::InternalFailInit => -10003,
            RuntimeError::InternalFailTimeout => -10005,
        }
    }

    /// Whether some variant has the code `value`.
    pub open spec fn is_code(value: i64) -> bool {
        exists|known: RuntimeError| known.code() == value
    }

    /// The variant whose code is `value`, or `None` where the table has no such
    /// code.
    pub fn from_code(value: i64) -> (found: Option<RuntimeError>)
        ensures
            match found {
                Some(variant) => variant.code() == value && forall|other: RuntimeError|
                    other.code() == value ==> other == variant,
                None => !Self::is_code(value),
            },
    {
        match value {
            1 => Some(RuntimeError::Success),
            -1 => Some(RuntimeError::Fail),
            -2 => Some(RuntimeError::InvalidParams),
            -3 => Some(RuntimeError::NoMemory),
            -4 => Some(RuntimeError::NotFound),
            -5 => Some(RuntimeError::InvalidVersion),
            -6 => Some(RuntimeError::AuthFailed),
            -7 => Some(RuntimeError::Unsupported),
            -8 => Some(RuntimeError::AutoTradingDisabled),
            -10000 => Some(RuntimeError::InternalFail),
            -10001 => Some(RuntimeError::InternalFailSend),
            -10002 => Some(RuntimeError::InternalFailReceive),
            -10003 => Some(RuntimeError::InternalFailInit),
            -10005 => Some(RuntimeError::InternalFailTimeout),
            _ => None,
        }
    }

    /// The variant whose code is `value`, for a code of the table.
    pub fn from(value: i64) -> (variant: RuntimeError)
        requires
            Self::is_code(value),
        ensures
            variant.code() == value,
            forall|other: RuntimeError| other.code() == value ==> other == variant,
    {
        Self::from_code(value).unwrap()
    }

    /// Whether the status says that the call failed, which is the case exactly
    /// where its code is negative.
    pub open spec fn spec_is_failure(self) -> bool {
        self.code() < 0
    }

    #[verifier::when_used_as_spec(spec_is_failure)]
    pub fn is_failure(self) -> (failed: bool)
        ensures
            failed == (self.code() < 0),
    {
        self.code() < 0
    }
}

} // verus!

use fishing_line::enums::{
    AccountTradeMode, CopyTicksFlags, DealType, OrderType, OrderTypeFilling, OrderTypeTime,
    ReturnCode, RuntimeError, SymbolCalcMode, SymbolExpirationMode, SymbolOrderMode, TicksFlag,
    Timeframe, TradeActionRequest,
};

#[test]
fn hour_flag_is_part_of_the_code() {
    assert_eq!(Timeframe::H1.code(), 16385);
    assert_eq!(Timeframe::H1.code(), 1 | 0x4000);
    assert_eq!(Timeframe::M1.code(), 1);
}

#[test]
fn every_timeframe_has_its_flagged_code() {
    let minutes = [
        (Timeframe::M1, 1),
        (Timeframe::M2, 2),
        (Timeframe::M3, 3),
        (Timeframe::M4, 4),
        (Timeframe::M5, 5),
        (Timeframe::M6, 6),
        (Timeframe::M10, 10),
        (Timeframe::M12, 12),
        (Timeframe::M15, 15),
        (Timeframe::M20, 20),
        (Timeframe::M30, 30),
    ];
    for (timeframe, count) in minutes {
        assert_eq!(timeframe.code(), count);
    }
    let hours = [
        (Timeframe::H1, 1),
        (Timeframe::H2, 2),
        (Timeframe::H3, 3),
        (Timeframe::H4, 4),
        (Timeframe::H6, 6),
        (Timeframe::H8, 8),
        (Timeframe::H12, 12),
        (Timeframe::D1, 24),
    ];
    for (timeframe, count) in hours {
        assert_eq!(timeframe.code(), count | 0x4000);
    }
    assert_eq!(Timeframe::D1.code(), 16408);
    assert_eq!(Timeframe::W1.code(), 1 | 0x8000);
    assert_eq!(Timeframe::W1.code(), 32769);
    assert_eq!(Timeframe::MN1.code(), 1 | 0xC000);
    assert_eq!(Timeframe::MN1.code(), 49153);
}

#[test]
fn tick_flags_have_their_codes() {
    assert_eq!(CopyTicksFlags::ALL.code(), -1);
    assert_eq!(CopyTicksFlags::INFO.code(), 1);
    assert_eq!(CopyTicksFlags::TRADE.code(), 2);
    assert_eq!(TicksFlag::BID.code(), 0x02);
    assert_eq!(TicksFlag::ASK.code(), 0x04);
    assert_eq!(TicksFlag::LAST.code(), 0x08);
    assert_eq!(TicksFlag::VOLUME.code(), 0x10);
    assert_eq!(TicksFlag::BUY.code(), 0x20);
    assert_eq!(TicksFlag::SELL.code(), 0x40);
}

#[test]
fn order_type_codes_round_trip() {
    let all = [
        OrderType::BUY,
        OrderType::SELL,
        OrderType::BuyLimit,
        OrderType::SellLimit,
        OrderType::BuyStop,
        OrderType::SellStop,
        OrderType::BuyStopLimit,
        OrderType::SellStopLimit,
        OrderType::CloseBy,
    ];
    for (index, order_type) in all.iter().enumerate() {
        assert_eq!(order_type.code(), index as i64);
        assert_eq!(OrderType::from_code(index as i64), Some(*order_type));
        assert_eq!(OrderType::from(index as i64), *order_type);
    }
    assert_eq!(OrderType::from_code(9), None);
    assert_eq!(OrderType::from_code(-1), None);
}

#[test]
fn trade_actions_skip_the_codes_between() {
    assert_eq!(TradeActionRequest::from(1), TradeActionRequest::DEAL);
    assert_eq!(TradeActionRequest::from(5), TradeActionRequest::PENDING);
    assert_eq!(TradeActionRequest::from(6), TradeActionRequest::SLTP);
    assert_eq!(TradeActionRequest::from(7), TradeActionRequest::MODIFY);
    assert_eq!(TradeActionRequest::from(8), TradeActionRequest::REMOVE);
    assert_eq!(TradeActionRequest::from(10), TradeActionRequest::CloseBy);
    for unknown in [0, 2, 3, 4, 9, 11] {
        assert_eq!(TradeActionRequest::from_code(unknown), None);
    }
    assert_eq!(TradeActionRequest::CloseBy.code(), 10);
}

#[test]
fn filling_and_time_policies_decode() {
    assert_eq!(OrderTypeFilling::from(0), OrderTypeFilling::FOK);
    assert_eq!(OrderTypeFilling::from(1), OrderTypeFilling::IOC);
    assert_eq!(OrderTypeFilling::from(2), OrderTypeFilling::RETURN);
    assert_eq!(OrderTypeFilling::from_code(3), None);
    assert_eq!(OrderTypeTime::from(3), OrderTypeTime::SpecifiedDay);
    assert_eq!(OrderTypeTime::from_code(4), None);
}

#[test]
fn return_codes_decode() {
    assert_eq!(ReturnCode::from(0), ReturnCode::CHECKED);
    assert_eq!(ReturnCode::from(10004), ReturnCode::REQUOTE);
    assert_eq!(ReturnCode::from(10009), ReturnCode::DONE);
    assert_eq!(ReturnCode::from(10036), ReturnCode::PostionClosed);
    assert_eq!(ReturnCode::from(10038), ReturnCode::InvalideCloseVolume);
    assert_eq!(ReturnCode::from(10046), ReturnCode::HedgeProhibited);
    assert_eq!(ReturnCode::DONE.code(), 10009);
    assert_eq!(ReturnCode::CHECKED.code(), 0);
    for unknown in [1, 10003, 10005, 10037, 10047] {
        assert_eq!(ReturnCode::from_code(unknown), None);
    }
    for code in 10006..=10036u64 {
        assert_eq!(ReturnCode::from_code(code).map(|found| found.code()), Some(code));
    }
}

#[test]
fn sparse_tables_decode() {
    assert_eq!(SymbolCalcMode::from(5), SymbolCalcMode::ForexNoLeverage);
    assert_eq!(SymbolCalcMode::from(32), SymbolCalcMode::ExchStocks);
    assert_eq!(SymbolCalcMode::from(64), SymbolCalcMode::ServCollateral);
    assert_eq!(SymbolCalcMode::from_code(35), None);
    assert_eq!(SymbolCalcMode::from_code(6), None);
    assert_eq!(SymbolExpirationMode::from(15), SymbolExpirationMode::All);
    assert_eq!(SymbolExpirationMode::from_code(0), None);
    assert_eq!(SymbolExpirationMode::from_code(3), None);
    assert_eq!(SymbolOrderMode::from(127), SymbolOrderMode::All);
    assert_eq!(SymbolOrderMode::from(64), SymbolOrderMode::CloseBy);
    assert_eq!(SymbolOrderMode::from_code(3), None);
    assert_eq!(DealType::from(17), DealType::TAX);
    assert_eq!(DealType::from_code(18), None);
    assert_eq!(AccountTradeMode::from(2), AccountTradeMode::Real);
}

#[test]
fn a_status_is_a_failure_where_its_code_is_negative() {
    assert_eq!(RuntimeError::Success.code(), 1);
    assert!(!RuntimeError::Success.is_failure());
    let failures = [
        (RuntimeError::Fail, -1),
        (RuntimeError::InvalidParams, -2),
        (RuntimeError::NoMemory, -3),
        (RuntimeError::NotFound, -4),
        (RuntimeError::InvalidVersion, -5),
        (RuntimeError::AuthFailed, -6),
        (RuntimeError::Unsupported, -7),
        (RuntimeError::AutoTradingDisabled, -8),
        (RuntimeError::InternalFail, -10000),
        (RuntimeError::InternalFailSend, -10001),
        (RuntimeError::InternalFailReceive, -10002),
        (RuntimeError::InternalFailInit, -10003),
        (RuntimeError::InternalFailTimeout, -10005),
    ];
    for (status, code) in failures {
        assert_eq!(status.code(), code);
        assert!(status.is_failure());
        assert_eq!(RuntimeError::from_code(code), Some(status));
        assert_eq!(RuntimeError::from(code), status);
    }
    assert_eq!(RuntimeError::from(1), RuntimeError::Success);
    assert_eq!(RuntimeError::from_code(0), None);
    assert_eq!(RuntimeError::from_code(-9), None);
    assert_eq!(RuntimeError::from_code(-10004), None);
}

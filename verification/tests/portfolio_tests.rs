use trading_system::amount::Amount;
use trading_system::market::{Exchange, Instrument, InstrumentKind, Market};
use trading_system::portfolio::{BalanceHandler, MetaPortfolio, PortfolioError};

fn parts(a: &Amount) -> (i128, u32) {
    (a.mantissa(), a.scale())
}

fn market() -> Market {
    Market::new(
        Exchange::from("binance"),
        Instrument::from(("btc", "usdt", InstrumentKind::Future)),
    )
}

fn portfolio(open: i64) -> MetaPortfolio {
    MetaPortfolio::new(
        uuid::Uuid::nil(),
        market(),
        Amount::new(open, 0),
        Amount::zero(),
        Amount::zero(),
    )
}

#[test]
fn portfolio_keeps_identity() {
    let p = portfolio(10000);
    assert_eq!(p.engine_id(), &uuid::Uuid::nil());
    assert_eq!(p.market().exchange.name(), "binance");
    assert_eq!(p.market().instrument.symbol(), "btcusdt");
}

#[test]
fn set_then_get_balances() {
    let mut p = portfolio(10000);
    assert!(p.set_available_balance(Amount::new(25, 1)).is_ok());
    assert!(p.set_freezed_balance(Amount::new(3, 0)).is_ok());
    assert_eq!(parts(&p.get_available_balance()), (25, 1));
    assert_eq!(parts(&p.get_freezed_balance()), (3, 0));
    assert_eq!(parts(&p.get_exit_balance()), (0, 0));
}

#[test]
fn diff_available_inflow_and_outflow() {
    let mut p = portfolio(10000);
    assert!(p.diff_available_balance(Amount::new(5, 1)).is_ok());
    assert_eq!(parts(&p.get_available_balance()), (100005, 1));
    assert!(p.diff_available_balance(Amount::new(-100005, 1)).is_ok());
    assert_eq!(parts(&p.get_available_balance()), (0, 1));
}

#[test]
fn diff_available_refuses_overdraft() {
    let mut p = portfolio(10000);
    match p.diff_available_balance(Amount::new(-20000, 0)) {
        Err(PortfolioError::OpenBalanceInsufficient(available, asked)) => {
            assert_eq!(parts(&available), (10000, 0));
            assert_eq!(parts(&asked), (20000, 0));
        }
        other => panic!("unexpected result {:?}", other),
    }
    assert_eq!(parts(&p.get_available_balance()), (10000, 0));
}

#[test]
fn freeze_moves_funds_and_conserves_total() {
    let mut p = portfolio(10000);
    assert!(p.diff_open_freezed_balance(Amount::new(200, 0)).is_ok());
    assert_eq!(parts(&p.get_available_balance()), (9800, 0));
    assert_eq!(parts(&p.get_freezed_balance()), (200, 0));
    assert_eq!(parts(&p.get_total_balance()), (10000, 0));
}

#[test]
fn freeze_then_release_restores() {
    let mut p = portfolio(10000);
    assert!(p.diff_open_freezed_balance(Amount::new(1255, 1)).is_ok());
    assert!(p.diff_open_freezed_balance(Amount::new(-1255, 1)).is_ok());
    let open = p.get_available_balance();
    let freezed = p.get_freezed_balance();
    assert!(!open.lt(&Amount::new(10000, 0)) && !Amount::new(10000, 0).lt(&open));
    assert!(!freezed.lt(&Amount::zero()) && !Amount::zero().lt(&freezed));
}

#[test]
fn freeze_refuses_more_than_available() {
    let mut p = portfolio(100);
    match p.diff_open_freezed_balance(Amount::new(101, 0)) {
        Err(PortfolioError::OpenBalanceInsufficient(available, asked)) => {
            assert_eq!(parts(&available), (100, 0));
            assert_eq!(parts(&asked), (101, 0));
        }
        other => panic!("unexpected result {:?}", other),
    }
    assert_eq!(parts(&p.get_available_balance()), (100, 0));
    assert_eq!(parts(&p.get_freezed_balance()), (0, 0));
}

#[test]
fn release_refuses_more_than_frozen() {
    let mut p = portfolio(100);
    assert!(p.diff_open_freezed_balance(Amount::new(30, 0)).is_ok());
    match p.diff_open_freezed_balance(Amount::new(-31, 0)) {
        Err(PortfolioError::FreezedBalanceInsufficient(frozen, asked)) => {
            assert_eq!(parts(&frozen), (30, 0));
            assert_eq!(parts(&asked), (31, 0));
        }
        other => panic!("unexpected result {:?}", other),
    }
    assert_eq!(parts(&p.get_available_balance()), (70, 0));
}

#[test]
fn diff_freezed_refuses_overspend() {
    let mut p = portfolio(100);
    assert!(p.diff_open_freezed_balance(Amount::new(30, 0)).is_ok());
    match p.diff_freezed_balance(Amount::new(-40, 0)) {
        Err(PortfolioError::FreezedBalanceInsufficient(frozen, asked)) => {
            assert_eq!(parts(&frozen), (30, 0));
            assert_eq!(parts(&asked), (40, 0));
        }
        other => panic!("unexpected result {:?}", other),
    }
    assert!(p.diff_freezed_balance(Amount::new(-30, 0)).is_ok());
    assert_eq!(parts(&p.get_freezed_balance()), (0, 0));
}

#[test]
fn try_operations_report_overflow() {
    let max = Amount::from_parts(trading_system::amount::MAX_MANTISSA, 0).unwrap();
    let mut p = MetaPortfolio::new(uuid::Uuid::nil(), market(), max, max, Amount::zero());
    assert!(p.try_diff_available_balance(Amount::new(1, 0)).is_none());
    assert!(p.try_diff_freezed_balance(Amount::new(1, 0)).is_none());
    assert!(p.try_diff_open_freezed_balance(Amount::new(-1, 0)).is_none());
    assert!(p.try_get_total_balance().is_none());
    assert_eq!(parts(&p.get_available_balance()), (trading_system::amount::MAX_MANTISSA, 0));
    assert!(matches!(p.try_diff_available_balance(Amount::new(-1, 0)), Some(Ok(()))));
}

#[test]
fn portfolio_error_from_anyhow_keeps_text() {
    let e = PortfolioError::from(anyhow::Error::msg("boom"));
    match e {
        PortfolioError::Other(text) => assert_eq!(text, "boom"),
        other => panic!("unexpected error {:?}", other),
    }
}

#[test]
fn portfolio_error_messages() {
    let short = PortfolioError::OpenBalanceInsufficient(Amount::new(100, 2), Amount::new(5, 0));
    assert_eq!(short.message(), "可用资金不足, 可用1.00, 需要5.");
    let frozen = PortfolioError::FreezedBalanceInsufficient(Amount::new(-25, 1), Amount::new(3, 0));
    assert_eq!(frozen.message(), "冻结资金不足, 可用-2.5, 需要3.");
    assert_eq!(PortfolioError::Other("lost".to_string()).message(), "lost");
}

#[test]
fn amounts_are_written_as_decimals() {
    assert_eq!(Amount::new(150, 2).to_text(), "1.50");
    assert_eq!(Amount::new(-7, 0).to_text(), "-7");
    assert_eq!(Amount::zero().to_text(), "0");
}

#[test]
fn frozen_balance_stays_non_negative_when_rounding() {
    // 10000000000.000000000000000001 frozen, then half of its last digit spent:
    // the exact result needs 19 fractional digits and 30 significant ones, so it rounds.
    let frozen = Amount::from_parts(10_000_000_000_000_000_000_000_000_001, 18).unwrap();
    let mut p = MetaPortfolio::new(uuid::Uuid::nil(), market(), Amount::zero(), frozen, Amount::zero());
    let spent = Amount::from_parts(-5, 19).unwrap();
    assert!(matches!(p.try_diff_freezed_balance(spent), Some(Ok(()))));
    let after = p.get_freezed_balance();
    assert!(!after.lt(&Amount::zero()));
    assert_eq!(after.to_text(), "10000000000.000000000000000000");
}

#[test]
fn freezing_a_negative_amount_then_moving_it_back_restores() {
    let mut p = portfolio(10);
    assert!(p.set_freezed_balance(Amount::new(4, 0)).is_ok());
    assert!(matches!(p.try_diff_open_freezed_balance(Amount::new(-3, 0)), Some(Ok(()))));
    assert_eq!(parts(&p.get_available_balance()), (13, 0));
    assert_eq!(parts(&p.get_freezed_balance()), (1, 0));
    assert!(matches!(p.try_diff_open_freezed_balance(Amount::new(3, 0)), Some(Ok(()))));
    assert_eq!(parts(&p.get_available_balance()), (10, 0));
    assert_eq!(parts(&p.get_freezed_balance()), (4, 0));
}

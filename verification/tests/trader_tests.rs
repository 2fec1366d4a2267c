use trading_system::amount::Amount;
use trading_system::market::{Exchange, Instrument, InstrumentKind, Market};
use trading_system::portfolio::{BalanceHandler, MetaPortfolio, PortfolioError};
use trading_system::trader::{handle_trade_event, try_handle_trade_event, OrderResponse, TradeEvent, TraderAction};

fn parts(a: &Amount) -> (i128, u32) {
    (a.mantissa(), a.scale())
}

fn portfolio(open: i64) -> MetaPortfolio {
    MetaPortfolio::new(
        uuid::Uuid::nil(),
        Market::new(Exchange::from("binance"), Instrument::from(("btc", "usdt", InstrumentKind::Spot))),
        Amount::new(open, 0),
        Amount::zero(),
        Amount::zero(),
    )
}

#[test]
fn order_without_price_is_placed_without_lock() {
    let mut p = portfolio(1000);
    let r = handle_trade_event(&mut p, TradeEvent::OrderNew(None));
    assert!(matches!(r, Ok(TraderAction::PlaceOrder)));
    assert_eq!(parts(&p.get_available_balance()), (1000, 0));
    assert_eq!(parts(&p.get_freezed_balance()), (0, 0));
}

#[test]
fn new_order_locks_amount_then_fill_spends_it() {
    let mut p = portfolio(1000);
    let r = handle_trade_event(&mut p, TradeEvent::OrderNew(Some(Amount::new(200, 0))));
    assert!(matches!(r, Ok(TraderAction::PlaceOrder)));
    assert_eq!(parts(&p.get_available_balance()), (800, 0));
    assert_eq!(parts(&p.get_freezed_balance()), (200, 0));
    let r = handle_trade_event(&mut p, TradeEvent::OrderUpdate(OrderResponse::OrderSuccess(Amount::new(200, 0))));
    assert!(matches!(r, Ok(TraderAction::Done)));
    assert_eq!(parts(&p.get_available_balance()), (800, 0));
    assert_eq!(parts(&p.get_freezed_balance()), (0, 0));
}

#[test]
fn failed_order_returns_funds() {
    let mut p = portfolio(1000);
    assert!(handle_trade_event(&mut p, TradeEvent::OrderNew(Some(Amount::new(2505, 1)))).is_ok());
    let r = handle_trade_event(&mut p, TradeEvent::OrderUpdate(OrderResponse::OrderError(Amount::new(2505, 1))));
    assert!(matches!(r, Ok(TraderAction::Done)));
    let open = p.get_available_balance();
    assert!(!open.lt(&Amount::new(1000, 0)) && !Amount::new(1000, 0).lt(&open));
    assert!(!Amount::zero().lt(&p.get_freezed_balance()));
}

#[test]
fn unaffordable_order_is_refused_and_not_placed() {
    let mut p = portfolio(100);
    let r = handle_trade_event(&mut p, TradeEvent::OrderNew(Some(Amount::new(150, 0))));
    match r {
        Err(PortfolioError::OpenBalanceInsufficient(available, asked)) => {
            assert_eq!(parts(&available), (100, 0));
            assert_eq!(parts(&asked), (150, 0));
        }
        other => panic!("unexpected result {:?}", other),
    }
    assert_eq!(parts(&p.get_available_balance()), (100, 0));
}

#[test]
fn fill_beyond_frozen_is_refused() {
    let mut p = portfolio(100);
    let r = handle_trade_event(&mut p, TradeEvent::OrderUpdate(OrderResponse::OrderSuccess(Amount::new(10, 0))));
    assert!(matches!(r, Err(PortfolioError::FreezedBalanceInsufficient(_, _))));
}

#[test]
fn try_handle_reports_overflow() {
    let max = Amount::from_parts(trading_system::amount::MAX_MANTISSA, 0).unwrap();
    let mut p = MetaPortfolio::new(
        uuid::Uuid::nil(),
        Market::new(Exchange::from("binance"), Instrument::from(("btc", "usdt", InstrumentKind::Spot))),
        Amount::new(10, 0),
        max,
        Amount::zero(),
    );
    assert!(try_handle_trade_event(&mut p, TradeEvent::OrderNew(Some(Amount::new(1, 0)))).is_none());
    assert_eq!(parts(&p.get_available_balance()), (10, 0));
    assert!(matches!(
        try_handle_trade_event(&mut p, TradeEvent::OrderNew(None)),
        Some(Ok(TraderAction::PlaceOrder))
    ));
}

use trading_system::event::{feed_action, next_feed, Command, Feed, FeedAction, MarketFeedCommand, Polled};
use trading_system::execution::ExecutionError;
use trading_system::market::{Exchange, Instrument, InstrumentKind, Market};
use trading_system::strategy::{
    CloseError, PreValidError, RearValidError, StrategyError, StrategyExt,
};
use trading_system::trade::Side;

#[test]
fn exchange_name() {
    assert_eq!(Exchange::from("binance").name(), "binance");
}

#[test]
fn instrument_symbol_concatenates() {
    let i = Instrument::from(("btc", "usdt", InstrumentKind::Perpetual));
    assert_eq!(i.symbol(), "btcusdt");
    assert_eq!(i.kind, InstrumentKind::Perpetual);
}

#[test]
fn market_new_keeps_parts() {
    let m = Market::new(Exchange::from("okx"), Instrument::from(("eth", "usdt", InstrumentKind::Spot)));
    assert_eq!(m.exchange, Exchange::from("okx"));
    assert_eq!(m.instrument.base, "eth");
    assert_eq!(m.instrument.quote, "usdt");
}

#[test]
fn side_not_flips() {
    assert_eq!(!Side::Buy, Side::Sell);
    assert_eq!(!Side::Sell, Side::Buy);
    assert_eq!(!!Side::Buy, Side::Buy);
}

#[test]
fn next_feed_maps_polls() {
    assert!(matches!(next_feed(Polled::Received(7)), Some(Feed::Next(7))));
    assert!(next_feed::<i32>(Polled::Empty).is_none());
    assert!(matches!(next_feed::<i32>(Polled::Disconnected), Some(Feed::Finished)));
}

#[test]
fn commands_carry_payloads() {
    let c = Command::MarketFeed(MarketFeedCommand::LoadHistory);
    assert!(matches!(c, Command::MarketFeed(MarketFeedCommand::LoadHistory)));
    let t = Command::Terminate("stop".to_string());
    assert!(matches!(t, Command::Terminate(reason) if reason == "stop"));
}

#[test]
fn send_error_becomes_channel_error() {
    let e = ExecutionError::from(crossbeam::channel::SendError(5u8));
    match e {
        ExecutionError::ChannelError(text) => assert_eq!(text, "sending on a disconnected channel"),
        other => panic!("unexpected error {:?}", other),
    }
}

struct Scripted {
    close: Result<u32, CloseError>,
    open: Result<u32, &'static str>,
}

impl StrategyExt for Scripted {
    type Order = u32;
    type OpenError = &'static str;

    fn pre_valid(&self) -> Result<(), PreValidError> {
        Ok(())
    }

    fn rear_valid(&self) -> Result<(), RearValidError> {
        Ok(())
    }

    fn try_open(&self) -> Result<u32, &'static str> {
        self.open
    }

    fn try_close(&self) -> Result<u32, CloseError> {
        self.close
    }

    fn spec_pre_valid(&self) -> Result<(), PreValidError> {
        self.pre_valid()
    }

    fn spec_rear_valid(&self) -> Result<(), RearValidError> {
        self.rear_valid()
    }

    fn spec_try_open(&self) -> Result<u32, &'static str> {
        self.try_open()
    }

    fn spec_try_close(&self) -> Result<u32, CloseError> {
        self.try_close()
    }
}

#[test]
fn closing_takes_priority_over_opening() {
    let s = Scripted { close: Ok(1), open: Ok(2) };
    assert!(matches!(s.common_handler(), Ok(1)));
}

#[test]
fn opening_is_tried_when_closing_fails() {
    let s = Scripted { close: Err(CloseError::Test), open: Ok(2) };
    assert!(matches!(s.common_handler(), Ok(2)));
}

#[test]
fn open_failure_is_reported() {
    let s = Scripted { close: Err(CloseError::Test), open: Err("adx") };
    assert!(matches!(s.common_handler(), Err(StrategyError::Open("adx"))));
}

#[test]
fn parsed_rows_are_split_in_order() {
    let rows: Vec<Result<u32, String>> = vec![Ok(1), Err("bad".to_string()), Ok(3), Err("worse".to_string())];
    let (values, failures) = trading_system::history::collect_parsed_rows(rows);
    assert_eq!(values, vec![1, 3]);
    assert_eq!(failures, vec![1, 3]);
    let (none, no_failures) = trading_system::history::collect_parsed_rows::<u32, String>(Vec::new());
    assert!(none.is_empty() && no_failures.is_empty());
}

#[test]
fn exchange_from_owned_name() {
    let name = String::from("binance");
    assert_eq!(Exchange::from(name.clone()).name(), name);
    assert_eq!(Exchange::from(String::from("okx")), Exchange::from("okx"));
}

#[test]
fn execution_error_messages() {
    assert_eq!(ExecutionError::NewOrderError.message(), "创建委托失败");
    assert_eq!(ExecutionError::OtherError("venue closed".to_string()).message(), "venue closed");
    assert_eq!(ExecutionError::ChannelError("sending on a disconnected channel".to_string()).message(), "sending on a disconnected channel");
}

#[test]
fn market_feed_answers_commands() {
    assert_eq!(feed_action(&Command::MarketFeed(MarketFeedCommand::LoadHistory)), Some(FeedAction::LoadHistory));
    assert_eq!(feed_action(&Command::Terminate("done".to_string())), None);
}

# trading_system

The verified core of a crypto trading back-tester, written in Verus.

`src/` is the library; every function in it is verified:

- `market`, `trade`, `event`, `conf`, `monitor`: the exchange, instrument and
  market identities, order sides, bus commands, and the market feed's
  decisions on commands and on polling.
- `amount`: decimal amounts of money with exactly the values of
  `rust_decimal::Decimal`; additions, subtractions and comparisons are made by
  `rust_decimal` and specified over the amounts' values in units of 10^-28.
- `portfolio`: the balance ledger (available, frozen, exited funds) with the
  laws that refused operations change nothing, that moving funds between
  available and frozen conserves them where no rounding happens, that
  non-negative balances stay non-negative whatever `rust_decimal` rounds, and
  that freezing and releasing the same amount restores the balances where
  neither step rounds.
- `trader`: the bookkeeping decisions of a trader's event loop: lock the funds
  of a new order, spend them on a fill, return them on a failure.
- `strategy`: the strategy checks, with closing taking priority over opening.
- `time`: timestamp parsing and formatting around chrono at the local offset
  UTC+8 (a timestamp written in the default format reads back as itself),
  and clock readings.
- `history`: splitting the rows read from a data file into values and failures.

`app/` is the program around it: the tokio runtime, the command bus, the
ClickHouse and file I/O, the floating-point indicators and the MACD strategy,
and the event loop that feeds the verified ledger.

`tests/` runs the library on concrete values.

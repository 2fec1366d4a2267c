use vstd::prelude::*;

verus! {

/// The venue an instrument trades on, identified by its name.
#[derive(Debug, PartialEq, Eq, Clone, Hash)]
pub struct Exchange(pub String);

impl Exchange {
    /// The exchange's name.
    pub fn name(&self) -> (r: &str)
        ensures
            r@ == self.0@,
    {
        self.0.as_str()
    }
}

impl<'a> From<&'a str> for Exchange {
    fn from(name: &'a str) -> (r: Exchange)
        ensures
            r.0@ == name@,
    {
        Exchange(name.to_owned())
    }
}

impl<'a> vstd::std_specs::convert::FromSpecImpl<&'a str> for Exchange {
    open spec fn obeys_from_spec() -> bool {
        false
    }

    open spec fn from_spec(v: &'a str) -> Exchange {
        arbitrary()
    }
}

impl From<String> for Exchange {
    fn from(name: String) -> (r: Exchange)
        ensures
            r == Exchange(name),
            r.0@ == name@,
    {
        Exchange(name)
    }
}

impl vstd::std_specs::convert::FromSpecImpl<String> for Exchange {
    open spec fn obeys_from_spec() -> bool {
        true
    }

    open spec fn from_spec(v: String) -> Exchange {
        Exchange(v)
    }
}

/// The kind of contract an instrument is.
#[derive(Debug, PartialEq, Eq, Clone, Copy, Hash, Structural)]
pub enum InstrumentKind {
    Spot,
    Future,
    Perpetual,
    Option,
}

/// A traded pair, such as btc quoted in usdt, and its contract kind.
#[derive(Debug, PartialEq, Eq, Clone, Hash)]
pub struct Instrument {
    pub base: String,
    pub quote: String,
    pub kind: InstrumentKind,
}

impl Instrument {
    /// The exchange symbol: the base asset followed by the quote asset, e.g. `btcusdt`.
    pub fn symbol(&self) -> (r: String)
        ensures
            r@ == self.base@ + self.quote@,
    {
        let s = self.base.clone();
        s.concat(self.quote.as_str())
    }
}

impl<'a> From<(&'a str, &'a str, InstrumentKind)> for Instrument {
    fn from(value: (&'a str, &'a str, InstrumentKind)) -> (r: Instrument)
        ensures
            r.base@ == value.0@,
            r.quote@ == value.1@,
            r.kind == value.2,
    {
        Instrument { base: value.0.to_owned(), quote: value.1.to_owned(), kind: value.2 }
    }
}

impl<'a> vstd::std_specs::convert::FromSpecImpl<(&'a str, &'a str, InstrumentKind)> for Instrument {
    open spec fn obeys_from_spec() -> bool {
        false
    }

    open spec fn from_spec(v: (&'a str, &'a str, InstrumentKind)) -> Instrument {
        arbitrary()
    }
}

/// An instrument on a given exchange.
#[derive(Debug, PartialEq, Eq, Clone, Hash)]
pub struct Market {
    pub exchange: Exchange,
    pub instrument: Instrument,
}

impl Market {
    /// Constructs a new market from the provided exchange and instrument.
    pub fn new(exchange: Exchange, instrument: Instrument) -> (r: Market)
        ensures
            r.exchange == exchange,
            r.instrument == instrument,
    {
        Market { exchange, instrument }
    }
}

} // verus!

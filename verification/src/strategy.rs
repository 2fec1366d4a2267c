use vstd::prelude::*;

verus! {

/// Why the checks before trying to close or open failed (time, configuration,
/// thresholds). No such failure exists yet: the private field keeps any code
/// outside this module from building one.
#[derive(Debug)]
pub struct PreValidError {
    sealed: (),
}

/// Why the checks after building an order failed (positions, funds). No such
/// failure exists yet: the private field keeps any code outside this module
/// from building one.
#[derive(Debug)]
pub struct RearValidError {
    sealed: (),
}

/// Why no closing order was built.
#[derive(Debug, Clone, Copy, PartialEq, Eq, Structural)]
pub enum CloseError {
    Test,
}

/// Why a strategy's handler produced no order.
#[derive(Debug)]
pub enum StrategyError<OpenError> {
    /// A check before trying failed.
    PreValid(PreValidError),
    /// Neither a closing nor an opening order was built; the reason the
    /// opening failed.
    Open(OpenError),
    /// A check after building the order failed.
    RearValid(RearValidError),
}

/// The order a strategy's handler ends with: after the checks before
/// trying pass, a closing order if one is built, otherwise an opening order
/// (closing takes priority over opening), and the order stands only where the
/// checks after it pass. The first failure is the one reported; a failed
/// close is not reported, as opening is tried in its place.
pub open spec fn common_handler_outcome<Order, OpenError>(
    pre: Result<(), PreValidError>,
    close: Result<Order, CloseError>,
    open: Result<Order, OpenError>,
    rear: Result<(), RearValidError>,
) -> Result<Order, StrategyError<OpenError>> {
    match pre {
        Err(e) => Err(StrategyError::PreValid(e)),
        Ok(()) => {
            let order = match close {
                Ok(o) => Ok(o),
                Err(_) => match open {
                    Ok(o) => Ok(o),
                    Err(e) => Err(StrategyError::Open(e)),
                },
            };
            match order {
                Err(e) => Err(e),
                Ok(o) => match rear {
                    Err(e) => Err(StrategyError::RearValid(e)),
                    Ok(()) => Ok(o),
                },
            }
        },
    }
}

/// A trading strategy: checks, then tries to close or open a position.
/// Implementations give each check's result as a function of the strategy's
/// state.
pub trait StrategyExt {
    /// The order requests the strategy builds.
    type Order;

    /// Why no opening order was built.
    type OpenError;

    /// What the checks before trying give in the current state.
    spec fn spec_pre_valid(&self) -> Result<(), PreValidError>;

    /// What the checks after building an order give in the current state.
    spec fn spec_rear_valid(&self) -> Result<(), RearValidError>;

    /// What trying to open gives in the current state.
    spec fn spec_try_open(&self) -> Result<Self::Order, Self::OpenError>;

    /// What trying to close gives in the current state.
    spec fn spec_try_close(&self) -> Result<Self::Order, CloseError>;

    /// Checks before trying to close or open: time, configuration, thresholds.
    fn pre_valid(&self) -> (r: Result<(), PreValidError>)
        ensures
            r == self.spec_pre_valid(),
    ;

    /// Checks after building an order: positions, funds.
    fn rear_valid(&self) -> (r: Result<(), RearValidError>)
        ensures
            r == self.spec_rear_valid(),
    ;

    /// Tries to open a position.
    fn try_open(&self) -> (r: Result<Self::Order, Self::OpenError>)
        ensures
            r == self.spec_try_open(),
    ;

    /// Tries to close a position; closing takes priority over opening.
    fn try_close(&self) -> (r: Result<Self::Order, CloseError>)
        ensures
            r == self.spec_try_close(),
    ;

    /// Runs the checks and tries to close, then to open.
    fn common_handler(&self) -> (r: Result<Self::Order, StrategyError<Self::OpenError>>)
        ensures
            r == common_handler_outcome(
                self.spec_pre_valid(),
                self.spec_try_close(),
                self.spec_try_open(),
                self.spec_rear_valid(),
            ),
    {
        match self.pre_valid() {
            Err(e) => return Err(StrategyError::PreValid(e)),
            Ok(()) => {},
        }
        let order = match self.try_close() {
            Ok(o) => o,
            Err(_) => match self.try_open() {
                Ok(o) => o,
                Err(e) => return Err(StrategyError::Open(e)),
            },
        };
        match self.rear_valid() {
            Err(e) => Err(StrategyError::RearValid(e)),
            Ok(()) => Ok(order),
        }
    }
}

/// Something that may produce a trading signal.
pub trait SignalGenerator {
    /// The signals produced.
    type Signal: SignalExt;

    /// Optionally returns a signal.
    fn generate_signal(&mut self) -> Option<Self::Signal>;
}

/// A trading signal.
pub trait SignalExt {}

/// Closing takes priority over opening: once the checks before trying pass
/// and a closing order is built, that order is the handler's result whenever
/// the checks after it pass, whatever opening would have given; an opening
/// order is the result only where closing fails; and a failed check before
/// trying ends the handler with that failure.
pub proof fn lemma_close_has_priority<Order, OpenError>(
    pre: Result<(), PreValidError>,
    close: Result<Order, CloseError>,
    open: Result<Order, OpenError>,
    rear: Result<(), RearValidError>,
)
    ensures
        pre is Ok && rear is Ok && close is Ok ==> (common_handler_outcome(pre, close, open, rear) matches Ok(o)
            && o == close->Ok_0),
        pre is Ok && rear is Ok && close is Err && open is Ok ==> (common_handler_outcome(pre, close, open, rear)
            matches Ok(o) && o == open->Ok_0),
        pre is Err ==> common_handler_outcome(pre, close, open, rear) matches Err(StrategyError::PreValid(_)),
{
}

} // verus!

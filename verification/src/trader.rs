use crate::amount::Amount;
use crate::portfolio::{
    diff_freezed_outcome, diff_open_freezed_outcome, BalanceHandler, Balances, MetaPortfolio,
    PortfolioError,
};
use core::ops::Neg;
use vstd::prelude::*;

verus! {

/// What the execution venue reports about an order: filled (its funds are
/// spent) or failed (its funds return), with the order's amount.
#[derive(Clone, Copy, Debug)]
pub enum OrderResponse {
    OrderSuccess(Amount),
    OrderError(Amount),
}

/// The bookkeeping events of a trader's loop: a new order the strategy wants
/// placed, with the amount to lock where it has a limit price, and an update
/// on an order in flight.
#[derive(Clone, Copy, Debug)]
pub enum TradeEvent {
    OrderNew(Option<Amount>),
    OrderUpdate(OrderResponse),
}

/// What the loop does next after an event.
#[derive(Clone, Copy, Debug, PartialEq, Eq, Structural)]
pub enum TraderAction {
    /// Hand the order to the execution venue.
    PlaceOrder,
    /// Nothing more to do for this event.
    Done,
}

/// How the trader answers an event. A new order locks its amount by moving
/// it from the available into the frozen balance (an order without a price
/// locks nothing) and is placed only where the lock succeeds. A filled order
/// spends its frozen amount; a failed one moves it back into the available
/// balance. A refused balance operation is reported and leaves the balances
/// as they were. `None` where a balance would overflow the decimal range.
pub open spec fn trade_event_outcome(b: Balances, event: TradeEvent) -> Option<(Result<TraderAction, PortfolioError>, Balances)> {
    match event {
        TradeEvent::OrderNew(None) => Some((Ok(TraderAction::PlaceOrder), b)),
        TradeEvent::OrderNew(Some(amount)) => match diff_open_freezed_outcome(b, amount) {
            Some((Ok(_), after)) => Some((Ok(TraderAction::PlaceOrder), after)),
            Some((Err(e), after)) => Some((Err(e), after)),
            None => None,
        },
        TradeEvent::OrderUpdate(OrderResponse::OrderSuccess(amount)) => match diff_freezed_outcome(b, amount.spec_negated()) {
            Some((Ok(_), after)) => Some((Ok(TraderAction::Done), after)),
            Some((Err(e), after)) => Some((Err(e), after)),
            None => None,
        },
        TradeEvent::OrderUpdate(OrderResponse::OrderError(amount)) => match diff_open_freezed_outcome(b, amount.spec_negated()) {
            Some((Ok(_), after)) => Some((Ok(TraderAction::Done), after)),
            Some((Err(e), after)) => Some((Err(e), after)),
            None => None,
        },
    }
}

/// Answers one bookkeeping event of the trader's loop against its portfolio.
pub fn handle_trade_event<P: BalanceHandler>(portfolio: &mut P, event: TradeEvent) -> (r: Result<TraderAction, PortfolioError>)
    requires
        trade_event_outcome(old(portfolio).spec_balances(), event) is Some,
    ensures
        trade_event_outcome(old(portfolio).spec_balances(), event) == Some((r, final(portfolio).spec_balances())),
{
    match event {
        TradeEvent::OrderNew(None) => Ok(TraderAction::PlaceOrder),
        TradeEvent::OrderNew(Some(amount)) => match portfolio.diff_open_freezed_balance(amount) {
            Ok(()) => Ok(TraderAction::PlaceOrder),
            Err(e) => Err(e),
        },
        TradeEvent::OrderUpdate(OrderResponse::OrderSuccess(amount)) => match portfolio.diff_freezed_balance(amount.neg()) {
            Ok(()) => Ok(TraderAction::Done),
            Err(e) => Err(e),
        },
        TradeEvent::OrderUpdate(OrderResponse::OrderError(amount)) => match portfolio.diff_open_freezed_balance(amount.neg()) {
            Ok(()) => Ok(TraderAction::Done),
            Err(e) => Err(e),
        },
    }
}

/// Answers one bookkeeping event, or returns `None` and changes nothing where
/// a balance would overflow the decimal range. Non-negative available and
/// frozen balances stay non-negative, whatever the event and rounding.
pub fn try_handle_trade_event(portfolio: &mut MetaPortfolio, event: TradeEvent) -> (r: Option<Result<TraderAction, PortfolioError>>)
    ensures
        final(portfolio).spec_engine_id() == old(portfolio).spec_engine_id(),
        final(portfolio).spec_market() == old(portfolio).spec_market(),
        old(portfolio).spec_balances().open@ >= 0 && old(portfolio).spec_balances().freezed@ >= 0
            ==> final(portfolio).spec_balances().open@ >= 0 && final(portfolio).spec_balances().freezed@ >= 0,
        (match trade_event_outcome(old(portfolio).spec_balances(), event) {
            Some((res, b)) => r == Some(res) && final(portfolio).spec_balances() == b,
            None => r is None && final(portfolio).spec_balances() == old(portfolio).spec_balances(),
        }),
{
    let probe = match event {
        TradeEvent::OrderNew(None) => Some(Ok(())),
        TradeEvent::OrderNew(Some(amount)) => portfolio.try_diff_open_freezed_balance(amount),
        TradeEvent::OrderUpdate(OrderResponse::OrderSuccess(amount)) => portfolio.try_diff_freezed_balance(amount.neg()),
        TradeEvent::OrderUpdate(OrderResponse::OrderError(amount)) => portfolio.try_diff_open_freezed_balance(amount.neg()),
    };
    match probe {
        None => None,
        Some(Ok(())) => match event {
            TradeEvent::OrderNew(_) => Some(Ok(TraderAction::PlaceOrder)),
            TradeEvent::OrderUpdate(_) => Some(Ok(TraderAction::Done)),
        },
        Some(Err(e)) => Some(Err(e)),
    }
}

/// A new order is placed exactly when its amount could be locked; where the
/// lock is refused the order is not placed and the balances stay as they were.
pub proof fn lemma_refused_order_is_not_placed(b: Balances, amount: Amount)
    ensures
        trade_event_outcome(b, TradeEvent::OrderNew(Some(amount))) matches Some((Err(_), after)) ==> after == b,
        trade_event_outcome(b, TradeEvent::OrderNew(Some(amount))) matches Some((Ok(action), _))
            ==> action == TraderAction::PlaceOrder,
{
}

/// An order that fails at the venue gives its funds back: locking an amount
/// for a new order and then receiving the order's failure for the same amount
/// leaves the available and frozen balances where they started (where no step
/// rounds, and where the balance that the failure draws on was not negative:
/// the frozen one for a non-negative amount, the available one for a negative
/// amount).
pub proof fn lemma_failed_order_restores_balances(b: Balances, amount: Amount)
    requires
        crate::portfolio::balances_in_range(b),
        amount.in_range(),
        if amount@ >= 0 { b.freezed@ >= 0 } else { b.open@ >= 0 },
        b.open.difference_is_exact(amount),
        b.freezed.sum_is_exact(amount),
        trade_event_outcome(b, TradeEvent::OrderNew(Some(amount))) matches Some((Ok(_), locked))
            && locked.open.difference_is_exact(amount.spec_negated()) && locked.freezed.sum_is_exact(
            amount.spec_negated(),
        ),
    ensures
        ({
            let locked = trade_event_outcome(b, TradeEvent::OrderNew(Some(amount))).unwrap().1;
            let failed = TradeEvent::OrderUpdate(OrderResponse::OrderError(amount));
            &&& trade_event_outcome(locked, failed) matches Some((Ok(TraderAction::Done), _))
            &&& trade_event_outcome(locked, failed).unwrap().1.open@ == b.open@
            &&& trade_event_outcome(locked, failed).unwrap().1.freezed@ == b.freezed@
            &&& trade_event_outcome(locked, failed).unwrap().1.exited == b.exited
        }),
{
    crate::portfolio::lemma_freeze_then_release_restores(b, amount);
}

/// An order that fills spends exactly its amount: locking a non-negative
/// amount for a new order and then receiving its fill for the same amount
/// lowers the available balance by the amount and leaves the frozen balance
/// where it started (where no step rounds).
pub proof fn lemma_filled_order_spends_amount(b: Balances, amount: Amount)
    requires
        crate::portfolio::balances_in_range(b),
        amount.in_range(),
        amount@ >= 0,
        b.freezed@ >= 0,
        b.open.difference_is_exact(amount),
        b.freezed.sum_is_exact(amount),
        trade_event_outcome(b, TradeEvent::OrderNew(Some(amount))) matches Some((Ok(_), locked))
            && locked.freezed.sum_is_exact(amount.spec_negated()),
    ensures
        ({
            let locked = trade_event_outcome(b, TradeEvent::OrderNew(Some(amount))).unwrap().1;
            let filled = TradeEvent::OrderUpdate(OrderResponse::OrderSuccess(amount));
            &&& trade_event_outcome(locked, filled) matches Some((Ok(TraderAction::Done), _))
            &&& trade_event_outcome(locked, filled).unwrap().1.open@ == b.open@ - amount@
            &&& trade_event_outcome(locked, filled).unwrap().1.freezed@ == b.freezed@
            &&& trade_event_outcome(locked, filled).unwrap().1.exited == b.exited
        }),
{
    let locked = trade_event_outcome(b, TradeEvent::OrderNew(Some(amount))).unwrap().1;
    crate::amount::lemma_negated(amount);
    crate::amount::lemma_checked_sub_exact(b.open, amount);
    crate::amount::lemma_checked_add_exact(b.freezed, amount);
    crate::amount::lemma_checked_add_exact(locked.freezed, amount.spec_negated());
}

} // verus!

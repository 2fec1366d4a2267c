use crate::amount::Amount;
use core::ops::Neg;
use crate::market::Market;
use vstd::prelude::*;

verus! {

#[verifier::external_type_specification]
#[verifier::external_body]
pub struct ExUuid(uuid::Uuid);

/// Why a balance operation was refused.
#[derive(Debug)]
pub enum PortfolioError {
    /// Not enough available funds: the available balance, then the amount asked for.
    OpenBalanceInsufficient(Amount, Amount),
    /// Not enough frozen funds: the frozen balance, then the amount asked for.
    FreezedBalanceInsufficient(Amount, Amount),
    /// Any other failure, described in words.
    Other(String),
}

impl PortfolioError {
    /// The message that reports the error, naming the balance that fell short
    /// and the amount asked for.
    pub open spec fn spec_message(&self) -> Seq<char> {
        match self {
            PortfolioError::OpenBalanceInsufficient(balance, asked) => "可用资金不足, 可用"@ + balance.spec_text()
                + ", 需要"@ + asked.spec_text() + "."@,
            PortfolioError::FreezedBalanceInsufficient(balance, asked) => "冻结资金不足, 可用"@
                + balance.spec_text() + ", 需要"@ + asked.spec_text() + "."@,
            PortfolioError::Other(text) => text@,
        }
    }

    /// The message that reports the error.
    pub fn message(&self) -> (r: String)
        ensures
            r@ == self.spec_message(),
    {
        match self {
            PortfolioError::OpenBalanceInsufficient(balance, asked) => {
                let text = String::from_str("可用资金不足, 可用").concat(balance.to_text().as_str()).concat(
                    ", 需要",
                ).concat(asked.to_text().as_str()).concat(".");
                text
            },
            PortfolioError::FreezedBalanceInsufficient(balance, asked) => {
                let text = String::from_str("冻结资金不足, 可用").concat(balance.to_text().as_str()).concat(
                    ", 需要",
                ).concat(asked.to_text().as_str()).concat(".");
                text
            },
            PortfolioError::Other(text) => text.clone(),
        }
    }
}

#[verifier::external_type_specification]
#[verifier::external_body]
pub struct ExAnyhowError(anyhow::Error);

/// The `Display` text of an `anyhow::Error`. Nothing is claimed of the text:
/// it depends on the error inside, which is opaque here.
#[verifier::external_body]
fn error_text(error: &anyhow::Error) -> String {
    error.to_string()
}

impl From<anyhow::Error> for PortfolioError {
    /// Any other error becomes `Other`, carrying its text.
    fn from(error: anyhow::Error) -> (r: PortfolioError)
        ensures
            r is Other,
    {
        PortfolioError::Other(error_text(&error))
    }
}

impl vstd::std_specs::convert::FromSpecImpl<anyhow::Error> for PortfolioError {
    open spec fn obeys_from_spec() -> bool {
        false
    }

    open spec fn from_spec(v: anyhow::Error) -> PortfolioError {
        arbitrary()
    }
}

/// The three balances of a portfolio: funds available for new orders, funds
/// frozen for orders in flight, and funds taken out of trading.
#[derive(Clone, Copy, Debug)]
pub struct Balances {
    pub open: Amount,
    pub freezed: Amount,
    pub exited: Amount,
}

/// The balances with the available balance replaced.
pub open spec fn with_open(b: Balances, open: Amount) -> Balances {
    Balances { open, freezed: b.freezed, exited: b.exited }
}

/// The balances with the frozen balance replaced.
pub open spec fn with_freezed(b: Balances, freezed: Amount) -> Balances {
    Balances { open: b.open, freezed, exited: b.exited }
}

/// Changing the available balance by `diff` (negative: funds flow out,
/// positive: funds flow in). Funds can only flow out when enough are
/// available; otherwise the request is refused with the available balance
/// and the amount asked for, and nothing changes. `None` where the new
/// balance overflows the decimal range.
pub open spec fn diff_available_outcome(b: Balances, diff: Amount) -> Option<(Result<(), PortfolioError>, Balances)> {
    if diff@ < 0 && b.open@ < -diff@ {
        Some((Err(PortfolioError::OpenBalanceInsufficient(b.open, diff.spec_negated())), b))
    } else {
        match b.open.spec_checked_add(diff) {
            Some(open) => Some((Ok(()), with_open(b, open))),
            None => None,
        }
    }
}

/// Moving `diff` from the available balance to the frozen balance (a
/// negative `diff` moves funds back). A move back needs enough frozen funds, a
/// move forward enough available funds; otherwise the request is refused
/// with the balance that falls short and the amount asked for, and nothing
/// changes. `None` where a new balance overflows the decimal range.
pub open spec fn diff_open_freezed_outcome(b: Balances, diff: Amount) -> Option<(Result<(), PortfolioError>, Balances)> {
    if diff@ < 0 && b.freezed@ < -diff@ {
        Some((Err(PortfolioError::FreezedBalanceInsufficient(b.freezed, diff.spec_negated())), b))
    } else if diff@ > 0 && b.open@ < diff@ {
        Some((Err(PortfolioError::OpenBalanceInsufficient(b.open, diff)), b))
    } else {
        match (b.open.spec_checked_sub(diff), b.freezed.spec_checked_add(diff)) {
            (Some(open), Some(freezed)) => Some(
                (Ok(()), Balances { open, freezed, exited: b.exited }),
            ),
            _ => None,
        }
    }
}

/// Changing the frozen balance by `diff` (negative: frozen funds are spent or
/// released). Funds can only flow out when enough are frozen; otherwise the
/// request is refused with the frozen balance and the amount asked for, and
/// nothing changes. `None` where the new balance overflows the decimal range.
pub open spec fn diff_freezed_outcome(b: Balances, diff: Amount) -> Option<(Result<(), PortfolioError>, Balances)> {
    if diff@ < 0 && b.freezed@ < -diff@ {
        Some((Err(PortfolioError::FreezedBalanceInsufficient(b.freezed, diff.spec_negated())), b))
    } else {
        match b.freezed.spec_checked_add(diff) {
            Some(freezed) => Some((Ok(()), with_freezed(b, freezed))),
            None => None,
        }
    }
}

/// The total of the three balances, available plus frozen plus exited, or
/// `None` where the sum overflows the decimal range.
pub open spec fn total_outcome(b: Balances) -> Option<Amount> {
    match b.open.spec_checked_add(b.freezed) {
        Some(partial) => partial.spec_checked_add(b.exited),
        None => None,
    }
}

/// The funds a trader holds: set, move and read its balances.
pub trait BalanceHandler {
    /// The balances.
    spec fn spec_balances(&self) -> Balances;

    /// Sets the available balance.
    fn set_available_balance(&mut self, value: Amount) -> (r: Result<(), PortfolioError>)
        ensures
            r is Ok,
            final(self).spec_balances() == with_open(old(self).spec_balances(), value),
    ;

    /// Changes the available balance by `diff`: negative for an outflow,
    /// positive for an inflow.
    fn diff_available_balance(&mut self, diff: Amount) -> (r: Result<(), PortfolioError>)
        requires
            diff_available_outcome(old(self).spec_balances(), diff) is Some,
        ensures
            diff_available_outcome(old(self).spec_balances(), diff) == Some((r, final(self).spec_balances())),
    ;

    /// The available balance.
    fn get_available_balance(&self) -> (r: Amount)
        ensures
            r == self.spec_balances().open,
    ;

    /// Moves `diff` from the available balance into the frozen balance;
    /// a negative `diff` moves funds back.
    fn diff_open_freezed_balance(&mut self, diff: Amount) -> (r: Result<(), PortfolioError>)
        requires
            diff_open_freezed_outcome(old(self).spec_balances(), diff) is Some,
        ensures
            diff_open_freezed_outcome(old(self).spec_balances(), diff) == Some((r, final(self).spec_balances())),
    ;

    /// Sets the frozen balance.
    fn set_freezed_balance(&mut self, value: Amount) -> (r: Result<(), PortfolioError>)
        ensures
            r is Ok,
            final(self).spec_balances() == with_freezed(old(self).spec_balances(), value),
    ;

    /// Changes the frozen balance by `diff`: negative for an outflow,
    /// positive for an inflow.
    fn diff_freezed_balance(&mut self, diff: Amount) -> (r: Result<(), PortfolioError>)
        requires
            diff_freezed_outcome(old(self).spec_balances(), diff) is Some,
        ensures
            diff_freezed_outcome(old(self).spec_balances(), diff) == Some((r, final(self).spec_balances())),
    ;

    /// The frozen balance: funds held by orders in flight.
    fn get_freezed_balance(&self) -> (r: Amount)
        ensures
            r == self.spec_balances().freezed,
    ;

    /// The funds taken out of trading.
    fn get_exit_balance(&self) -> (r: Amount)
        ensures
            r == self.spec_balances().exited,
    ;

    /// The total: available plus frozen plus exited.
    fn get_total_balance(&self) -> (r: Amount)
        requires
            total_outcome(self.spec_balances()) is Some,
        ensures
            total_outcome(self.spec_balances()) == Some(r),
    {
        let open = self.get_available_balance();
        let freezed = self.get_freezed_balance();
        let exited = self.get_exit_balance();
        let partial = open.plus(freezed);
        partial.plus(exited)
    }
}

/// The portfolio of one trader: the engine it belongs to, the market it
/// trades and its balances.
pub struct MetaPortfolio {
    engine_id: uuid::Uuid,
    market: Market,
    open_balance: Amount,
    freezed_balance: Amount,
    exited_balance: Amount,
}

impl MetaPortfolio {
    /// The engine this portfolio belongs to.
    pub closed spec fn spec_engine_id(&self) -> uuid::Uuid {
        self.engine_id
    }

    /// The market this portfolio trades.
    pub closed spec fn spec_market(&self) -> Market {
        self.market
    }

    /// A portfolio with the given identity and balances.
    pub fn new(
        engine_id: uuid::Uuid,
        market: Market,
        open_balance: Amount,
        freezed_balance: Amount,
        exited_balance: Amount,
    ) -> (r: MetaPortfolio)
        ensures
            r.spec_engine_id() == engine_id,
            r.spec_market() == market,
            r.spec_balances() == (Balances {
                open: open_balance,
                freezed: freezed_balance,
                exited: exited_balance,
            }),
    {
        MetaPortfolio { engine_id, market, open_balance, freezed_balance, exited_balance }
    }

    /// The engine this portfolio belongs to.
    pub fn engine_id(&self) -> (r: &uuid::Uuid)
        ensures
            *r == self.spec_engine_id(),
    {
        &self.engine_id
    }

    /// The market this portfolio trades.
    pub fn market(&self) -> (r: &Market)
        ensures
            *r == self.spec_market(),
    {
        &self.market
    }
}

impl MetaPortfolio {
    /// Changes the available balance by `diff`, or returns `None` and changes
    /// nothing where the new balance would overflow the decimal range.
    pub fn try_diff_available_balance(&mut self, diff: Amount) -> (r: Option<Result<(), PortfolioError>>)
        ensures
            final(self).spec_engine_id() == old(self).spec_engine_id(),
            final(self).spec_market() == old(self).spec_market(),
            old(self).spec_balances().open@ >= 0 ==> final(self).spec_balances().open@ >= 0,
            (match diff_available_outcome(old(self).spec_balances(), diff) {
                Some((res, b)) => r == Some(res) && final(self).spec_balances() == b,
                None => r is None && final(self).spec_balances() == old(self).spec_balances(),
            }),
    {
        let zero = Amount::zero();
        if !(diff.lt(&zero) && self.open_balance.lt(&diff.neg())) {
            if self.open_balance.checked_add(&diff).is_none() {
                return None;
            }
        }
        Some(self.diff_available_balance(diff))
    }

    /// Moves `diff` from the available into the frozen balance, or returns
    /// `None` and changes nothing where a new balance would overflow the
    /// decimal range.
    pub fn try_diff_open_freezed_balance(&mut self, diff: Amount) -> (r: Option<Result<(), PortfolioError>>)
        ensures
            final(self).spec_engine_id() == old(self).spec_engine_id(),
            final(self).spec_market() == old(self).spec_market(),
            old(self).spec_balances().open@ >= 0 && old(self).spec_balances().freezed@ >= 0
                ==> final(self).spec_balances().open@ >= 0 && final(self).spec_balances().freezed@ >= 0,
            (match diff_open_freezed_outcome(old(self).spec_balances(), diff) {
                Some((res, b)) => r == Some(res) && final(self).spec_balances() == b,
                None => r is None && final(self).spec_balances() == old(self).spec_balances(),
            }),
    {
        let zero = Amount::zero();
        let refused = (diff.lt(&zero) && self.freezed_balance.lt(&diff.neg())) || (zero.lt(&diff)
            && self.open_balance.lt(&diff));
        if !refused {
            if self.open_balance.checked_sub(&diff).is_none() || self.freezed_balance.checked_add(
                &diff,
            ).is_none() {
                return None;
            }
        }
        Some(self.diff_open_freezed_balance(diff))
    }

    /// Changes the frozen balance by `diff`, or returns `None` and changes
    /// nothing where the new balance would overflow the decimal range.
    pub fn try_diff_freezed_balance(&mut self, diff: Amount) -> (r: Option<Result<(), PortfolioError>>)
        ensures
            final(self).spec_engine_id() == old(self).spec_engine_id(),
            final(self).spec_market() == old(self).spec_market(),
            old(self).spec_balances().freezed@ >= 0 ==> final(self).spec_balances().freezed@ >= 0,
            (match diff_freezed_outcome(old(self).spec_balances(), diff) {
                Some((res, b)) => r == Some(res) && final(self).spec_balances() == b,
                None => r is None && final(self).spec_balances() == old(self).spec_balances(),
            }),
    {
        let zero = Amount::zero();
        if !(diff.lt(&zero) && self.freezed_balance.lt(&diff.neg())) {
            if self.freezed_balance.checked_add(&diff).is_none() {
                return None;
            }
        }
        Some(self.diff_freezed_balance(diff))
    }

    /// The total of the balances, or `None` where it overflows the decimal range.
    pub fn try_get_total_balance(&self) -> (r: Option<Amount>)
        ensures
            r == total_outcome(self.spec_balances()),
    {
        match self.open_balance.checked_add(&self.freezed_balance) {
            Some(partial) => match partial.checked_add(&self.exited_balance) {
                Some(_) => Some(self.get_total_balance()),
                None => None,
            },
            None => None,
        }
    }
}

impl BalanceHandler for MetaPortfolio {
    closed spec fn spec_balances(&self) -> Balances {
        Balances { open: self.open_balance, freezed: self.freezed_balance, exited: self.exited_balance }
    }

    fn set_available_balance(&mut self, value: Amount) -> (r: Result<(), PortfolioError>)
        ensures
            final(self).spec_engine_id() == old(self).spec_engine_id(),
            final(self).spec_market() == old(self).spec_market(),
    {
        self.open_balance = value;
        Ok(())
    }

    fn diff_available_balance(&mut self, diff: Amount) -> (r: Result<(), PortfolioError>)
        ensures
            final(self).spec_engine_id() == old(self).spec_engine_id(),
            final(self).spec_market() == old(self).spec_market(),
            old(self).spec_balances().open@ >= 0 ==> final(self).spec_balances().open@ >= 0,
    {
        let zero = Amount::zero();
        if diff.lt(&zero) && self.open_balance.lt(&diff.neg()) {
            return Err(PortfolioError::OpenBalanceInsufficient(self.open_balance, diff.neg()));
        }
        self.open_balance = self.open_balance.plus(diff);
        Ok(())
    }

    fn get_available_balance(&self) -> (r: Amount) {
        self.open_balance
    }

    fn diff_open_freezed_balance(&mut self, diff: Amount) -> (r: Result<(), PortfolioError>)
        ensures
            final(self).spec_engine_id() == old(self).spec_engine_id(),
            final(self).spec_market() == old(self).spec_market(),
            old(self).spec_balances().open@ >= 0 && old(self).spec_balances().freezed@ >= 0
                ==> final(self).spec_balances().open@ >= 0 && final(self).spec_balances().freezed@ >= 0,
    {
        let zero = Amount::zero();
        if diff.lt(&zero) && self.freezed_balance.lt(&diff.neg()) {
            return Err(PortfolioError::FreezedBalanceInsufficient(self.freezed_balance, diff.neg()));
        } else if zero.lt(&diff) && self.open_balance.lt(&diff) {
            return Err(PortfolioError::OpenBalanceInsufficient(self.open_balance, diff));
        }
        self.open_balance = self.open_balance.minus(diff);
        self.freezed_balance = self.freezed_balance.plus(diff);
        Ok(())
    }

    fn set_freezed_balance(&mut self, value: Amount) -> (r: Result<(), PortfolioError>)
        ensures
            final(self).spec_engine_id() == old(self).spec_engine_id(),
            final(self).spec_market() == old(self).spec_market(),
    {
        self.freezed_balance = value;
        Ok(())
    }

    fn diff_freezed_balance(&mut self, diff: Amount) -> (r: Result<(), PortfolioError>)
        ensures
            final(self).spec_engine_id() == old(self).spec_engine_id(),
            final(self).spec_market() == old(self).spec_market(),
            old(self).spec_balances().freezed@ >= 0 ==> final(self).spec_balances().freezed@ >= 0,
    {
        let zero = Amount::zero();
        if diff.lt(&zero) && self.freezed_balance.lt(&diff.neg()) {
            return Err(PortfolioError::FreezedBalanceInsufficient(self.freezed_balance, diff.neg()));
        }
        self.freezed_balance = self.freezed_balance.plus(diff);
        Ok(())
    }

    fn get_freezed_balance(&self) -> (r: Amount) {
        self.freezed_balance
    }

    fn get_exit_balance(&self) -> (r: Amount) {
        self.exited_balance
    }
}

/// Every amount in the balances is valid.
pub open spec fn balances_in_range(b: Balances) -> bool {
    b.open.in_range() && b.freezed.in_range() && b.exited.in_range()
}

/// A refused balance operation changes nothing: whenever changing the
/// available balance, moving funds between available and frozen, or changing
/// the frozen balance ends in an error, the balances stay as they were.
pub proof fn lemma_refusal_changes_nothing(b: Balances, diff: Amount)
    ensures
        diff_available_outcome(b, diff) matches Some((Err(_), after)) ==> after == b,
        diff_open_freezed_outcome(b, diff) matches Some((Err(_), after)) ==> after == b,
        diff_freezed_outcome(b, diff) matches Some((Err(_), after)) ==> after == b,
{
}

/// Requests that the balances can meet are never refused: an outflow from the
/// available balance no larger than it, a move into the frozen balance no
/// larger than the available balance, and a move back or an outflow no larger
/// than the frozen balance all succeed (given no decimal overflow).
pub proof fn lemma_covered_requests_succeed(b: Balances, diff: Amount)
    requires
        balances_in_range(b),
        diff.in_range(),
    ensures
        (diff@ >= 0 || b.open@ >= -diff@) && diff_available_outcome(b, diff) is Some
            ==> diff_available_outcome(b, diff).unwrap().0 is Ok,
        (if diff@ >= 0 { b.open@ >= diff@ } else { b.freezed@ >= -diff@ }) && diff_open_freezed_outcome(b, diff) is Some
            ==> diff_open_freezed_outcome(b, diff).unwrap().0 is Ok,
        (diff@ >= 0 || b.freezed@ >= -diff@) && diff_freezed_outcome(b, diff) is Some
            ==> diff_freezed_outcome(b, diff).unwrap().0 is Ok,
{
}

/// Moving funds between the available and the frozen balance neither creates
/// nor destroys them: where the move succeeds without rounding, the available
/// balance drops by `diff`, the frozen balance grows by `diff`, their sum stays
/// the same and the exited balance is untouched.
pub proof fn lemma_freeze_conserves_funds(b: Balances, diff: Amount)
    requires
        balances_in_range(b),
        diff.in_range(),
        b.open.difference_is_exact(diff),
        b.freezed.sum_is_exact(diff),
        diff_open_freezed_outcome(b, diff) matches Some((Ok(_), _)),
    ensures
        ({
            let after = diff_open_freezed_outcome(b, diff).unwrap().1;
            &&& after.open@ == b.open@ - diff@
            &&& after.freezed@ == b.freezed@ + diff@
            &&& after.open@ + after.freezed@ == b.open@ + b.freezed@
            &&& after.exited == b.exited
        }),
{
    crate::amount::lemma_checked_sub_exact(b.open, diff);
    crate::amount::lemma_checked_add_exact(b.freezed, diff);
}

/// Freezing funds and then moving the same amount back restores the
/// balances: where moving `diff` into the frozen balance succeeds and neither
/// step rounds, moving `-diff` back is not refused and leaves the available
/// and frozen balances at their old values. The move back is covered where
/// the balance it draws on was not negative before: the frozen balance for a
/// non-negative `diff`, the available balance for a negative one.
pub proof fn lemma_freeze_then_release_restores(b: Balances, diff: Amount)
    requires
        balances_in_range(b),
        diff.in_range(),
        if diff@ >= 0 { b.freezed@ >= 0 } else { b.open@ >= 0 },
        b.open.difference_is_exact(diff),
        b.freezed.sum_is_exact(diff),
        diff_open_freezed_outcome(b, diff) matches Some((Ok(_), frozen)) && frozen.open.difference_is_exact(
            diff.spec_negated(),
        ) && frozen.freezed.sum_is_exact(diff.spec_negated()),
    ensures
        ({
            let frozen = diff_open_freezed_outcome(b, diff).unwrap().1;
            &&& diff_open_freezed_outcome(frozen, diff.spec_negated()) matches Some((Ok(_), _))
            &&& diff_open_freezed_outcome(frozen, diff.spec_negated()).unwrap().1.open@ == b.open@
            &&& diff_open_freezed_outcome(frozen, diff.spec_negated()).unwrap().1.freezed@ == b.freezed@
            &&& diff_open_freezed_outcome(frozen, diff.spec_negated()).unwrap().1.exited == b.exited
        }),
{
    let frozen = diff_open_freezed_outcome(b, diff).unwrap().1;
    let back = diff.spec_negated();
    crate::amount::lemma_negated(diff);
    crate::amount::lemma_checked_sub_exact(b.open, diff);
    crate::amount::lemma_checked_add_exact(b.freezed, diff);
    crate::amount::lemma_checked_sub_exact(frozen.open, back);
    crate::amount::lemma_checked_add_exact(frozen.freezed, back);
}

/// The total is the sum of the three balances: where neither addition
/// rounds, the total is an amount worth the available plus the frozen plus
/// the exited balance.
pub proof fn lemma_total_is_sum_of_balances(b: Balances)
    requires
        balances_in_range(b),
        b.open.sum_is_exact(b.freezed),
        b.open.exact_sum(b.freezed).sum_is_exact(b.exited),
    ensures
        total_outcome(b) matches Some(total) && total@ == b.open@ + b.freezed@ + b.exited@,
{
    crate::amount::lemma_checked_add_exact(b.open, b.freezed);
    crate::amount::lemma_checked_add_exact(b.open.exact_sum(b.freezed), b.exited);
}

/// A balance operation that succeeds moves its balance by exactly `diff`,
/// an inflow (positive) as much as an outflow (negative), where the sum needs
/// no rounding, and leaves the other balances as they were. Moving funds
/// between available and frozen takes `diff` from one and adds it to the
/// other.
pub proof fn lemma_successful_diff_moves_by_diff(b: Balances, diff: Amount)
    requires
        balances_in_range(b),
        diff.in_range(),
    ensures
        b.open.sum_is_exact(diff) ==> (diff_available_outcome(b, diff) matches Some((Ok(_), after))
            ==> after.open@ == b.open@ + diff@ && after.freezed == b.freezed && after.exited == b.exited),
        b.freezed.sum_is_exact(diff) ==> (diff_freezed_outcome(b, diff) matches Some((Ok(_), after))
            ==> after.freezed@ == b.freezed@ + diff@ && after.open == b.open && after.exited == b.exited),
        b.open.difference_is_exact(diff) && b.freezed.sum_is_exact(diff) ==> (diff_open_freezed_outcome(b, diff)
            matches Some((Ok(_), after)) ==> after.open@ == b.open@ - diff@ && after.freezed@ == b.freezed@
            + diff@ && after.exited == b.exited),
{
    if b.open.sum_is_exact(diff) {
        crate::amount::lemma_checked_add_exact(b.open, diff);
    }
    if b.freezed.sum_is_exact(diff) {
        crate::amount::lemma_checked_add_exact(b.freezed, diff);
    }
    if b.open.difference_is_exact(diff) {
        crate::amount::lemma_checked_sub_exact(b.open, diff);
    }
}

/// A balance operation is refused exactly when it would overspend: an
/// outflow larger than the available balance (or, for a move into the frozen
/// balance, an amount larger than the available balance), or a release or
/// outflow larger than the frozen balance. The refusal names the balance that
/// falls short and the amount asked for.
pub proof fn lemma_refused_exactly_when_overspending(b: Balances, diff: Amount)
    requires
        balances_in_range(b),
        diff.in_range(),
    ensures
        (diff@ < 0 && b.open@ < -diff@) <==> diff_available_outcome(b, diff) matches Some((Err(_), _)),
        diff_available_outcome(b, diff) matches Some((Err(e), _)) ==> (e matches PortfolioError::OpenBalanceInsufficient(
            balance,
            asked,
        ) && balance == b.open && asked@ == -diff@),
        (diff@ < 0 && b.freezed@ < -diff@) <==> diff_freezed_outcome(b, diff) matches Some((Err(_), _)),
        diff_freezed_outcome(b, diff) matches Some((Err(e), _)) ==> (e matches PortfolioError::FreezedBalanceInsufficient(
            balance,
            asked,
        ) && balance == b.freezed && asked@ == -diff@),
        ((diff@ < 0 && b.freezed@ < -diff@) || (diff@ > 0 && b.open@ < diff@)) <==> diff_open_freezed_outcome(
            b,
            diff,
        ) matches Some((Err(_), _)),
{
    crate::amount::lemma_negated(diff);
}

/// Setting a balance and then reading it gives back what was set, and the
/// other balances keep their values.
pub proof fn lemma_set_then_get(b: Balances, value: Amount)
    ensures
        with_open(b, value).open == value,
        with_open(b, value).freezed == b.freezed,
        with_open(b, value).exited == b.exited,
        with_freezed(b, value).freezed == value,
        with_freezed(b, value).open == b.open,
        with_freezed(b, value).exited == b.exited,
{
}

} // verus!

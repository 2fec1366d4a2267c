use vstd::prelude::*;

verus! {

/// Buy or Sell. `Buy` is synonymous with long, `Sell` with short.
#[derive(Debug, Clone, Copy, PartialEq, Eq, Structural)]
pub enum Side {
    Buy,
    Sell,
}

/// The opposite side: `Sell` for `Buy` and `Buy` for `Sell`.
pub open spec fn opposite(side: Side) -> Side {
    match side {
        Side::Buy => Side::Sell,
        Side::Sell => Side::Buy,
    }
}

impl core::ops::Not for Side {
    type Output = Side;

    fn not(self) -> (r: Side)
        ensures
            r == opposite(self),
    {
        if matches!(self, Side::Buy) {
            return Side::Sell;
        }
        Side::Buy
    }
}

impl vstd::std_specs::ops::NotSpecImpl for Side {
    open spec fn obeys_not_spec() -> bool {
        true
    }

    open spec fn not_req(self) -> bool {
        true
    }

    open spec fn not_spec(self) -> Side {
        opposite(self)
    }
}

/// Taking the opposite side twice gives back the side one started from,
/// and the opposite side always differs from the side itself.
pub proof fn lemma_opposite_involution(side: Side)
    ensures
        opposite(opposite(side)) == side,
        opposite(side) != side,
{
}

} // verus!

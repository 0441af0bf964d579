use vstd::prelude::*;
use crate::error::Error;

verus! {

/// Gas accounting state: a monotonic consumed counter and a fixed ceiling.
///
/// The invariant `consumed <= ceiling` holds after every successful charge;
/// `gas_left` checks it defensively and reports `InvalidGasState` when it is
/// broken, which is only reachable by writing the fields directly.
pub struct GasMeter {
    /// Units of gas consumed so far.
    pub consumed: u64,
    /// The gas ceiling fixed for the whole invocation.
    pub ceiling: u64,
}

/// The outcome of one charge: the new consumed counter when the charge fits
/// under the ceiling, and `None` when it would exceed it (the meter is then
/// left unchanged; arithmetic never wraps).
pub open spec fn spec_charge(consumed: u64, ceiling: u64, amount: u64) -> Option<u64> {
    if consumed + amount <= ceiling {
        Some((consumed + amount) as u64)
    } else {
        None
    }
}

/// The sum of a sequence of charge amounts.
pub open spec fn sum_amounts(amounts: Seq<u64>) -> int
    decreases amounts.len(),
{
    if amounts.len() == 0 {
        0
    } else {
        amounts[0] + sum_amounts(amounts.drop_first())
    }
}

/// The consumed counter after charging each amount in order, or `None` if
/// some charge in the sequence fails.
pub open spec fn consumed_after_charges(consumed: u64, ceiling: u64, amounts: Seq<u64>) -> Option<u64>
    decreases amounts.len(),
{
    if amounts.len() == 0 {
        Some(consumed)
    } else {
        match spec_charge(consumed, ceiling, amounts[0]) {
            Some(c) => consumed_after_charges(c, ceiling, amounts.drop_first()),
            None => None,
        }
    }
}

impl GasMeter {
    /// A fresh meter with nothing consumed yet.
    pub fn new(ceiling: u64) -> (r: GasMeter)
        ensures
            r.consumed == 0,
            r.ceiling == ceiling,
    {
        GasMeter { consumed: 0, ceiling }
    }

    /// Attempts to add `amount` to the consumed counter. Succeeds exactly when
    /// `consumed + amount` stays under the ceiling (computed without wrapping);
    /// on failure the meter is unchanged — there is no partial charge.
    pub fn charge_gas(&mut self, amount: u64) -> (r: bool)
        ensures
            r == (old(self).consumed + amount <= old(self).ceiling),
            r ==> final(self).consumed == old(self).consumed + amount,
            !r ==> final(self).consumed == old(self).consumed,
            final(self).ceiling == old(self).ceiling,
            match spec_charge(old(self).consumed, old(self).ceiling, amount) {
                Some(c) => r && final(self).consumed == c,
                None => !r && *final(self) == *old(self),
            },
    {
        if amount > self.ceiling {
            false
        } else if self.consumed > self.ceiling - amount {
            false
        } else {
            self.consumed = self.consumed + amount;
            true
        }
    }

    /// The gas still available: `ceiling - consumed`. Reports
    /// `InvalidGasState` when the counter has run past the ceiling, which
    /// signals broken host bookkeeping rather than a fault of the contract.
    pub fn gas_left(&self) -> (r: Result<u64, Error>)
        ensures
            r is Ok <==> self.consumed <= self.ceiling,
            r matches Ok(g) ==> g == self.ceiling - self.consumed,
            r matches Err(e) ==> e == Error::InvalidGasState,
    {
        if self.consumed > self.ceiling {
            Err(Error::InvalidGasState)
        } else {
            Ok(self.ceiling - self.consumed)
        }
    }
}

/// Every sequence of charges that fits under the ceiling succeeds as a whole,
/// and leaves the consumed counter at exactly the starting point plus the sum
/// of the amounts — so `gas_left` afterwards is `ceiling - consumed - sum`.
pub proof fn lemma_gas_after_charges(consumed: u64, ceiling: u64, amounts: Seq<u64>)
    requires
        consumed + sum_amounts(amounts) <= ceiling,
    ensures
        consumed_after_charges(consumed, ceiling, amounts)
            == Some((consumed + sum_amounts(amounts)) as u64),
    decreases amounts.len(),
{
    lemma_sum_amounts_nonneg(amounts);
    if amounts.len() == 0 {
    } else {
        lemma_sum_amounts_nonneg(amounts.drop_first());
        let c = (consumed + amounts[0]) as u64;
        lemma_gas_after_charges(c, ceiling, amounts.drop_first());
    }
}

/// Conversely, whenever a sequence of charges all succeed, the final consumed
/// counter is the starting point plus the sum of the amounts.
pub proof fn lemma_successful_charges_sum(consumed: u64, ceiling: u64, amounts: Seq<u64>)
    requires
        consumed_after_charges(consumed, ceiling, amounts) is Some,
    ensures
        consumed_after_charges(consumed, ceiling, amounts)
            == Some((consumed + sum_amounts(amounts)) as u64),
        consumed + sum_amounts(amounts) <= ceiling || amounts.len() == 0,
    decreases amounts.len(),
{
    if amounts.len() == 0 {
    } else {
        let c = (consumed + amounts[0]) as u64;
        lemma_successful_charges_sum(c, ceiling, amounts.drop_first());
        lemma_sum_amounts_nonneg(amounts.drop_first());
    }
}

/// The sum of charge amounts is never negative.
pub proof fn lemma_sum_amounts_nonneg(amounts: Seq<u64>)
    ensures
        sum_amounts(amounts) >= 0,
    decreases amounts.len(),
{
    if amounts.len() > 0 {
        lemma_sum_amounts_nonneg(amounts.drop_first());
    }
}

/// Boundary behaviour of a charge: charging exactly the remaining gas
/// succeeds and exhausts the meter (`gas_left` would be 0), while charging
/// any larger amount fails and leaves the meter unchanged.
pub proof fn lemma_charge_boundary(consumed: u64, ceiling: u64)
    requires
        consumed <= ceiling,
    ensures
        spec_charge(consumed, ceiling, (ceiling - consumed) as u64) == Some(ceiling),
        forall|amount: u64|
            amount > ceiling - consumed ==> spec_charge(consumed, ceiling, amount) is None,
{
}

} // verus!

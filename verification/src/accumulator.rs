//! Per-contract usage accounting.
//!
//! An accumulator is pure in-memory state owned by exactly one
//! settlement worker.  Recording usage adds to the cumulative usage
//! count and grows the owed amount by the units times the configured
//! price per unit; a flush returns the owed amount and resets it to
//! zero.  No thresholds are enforced here — flush timing is the
//! worker's responsibility.

use vstd::prelude::*;

use vstd::arithmetic::mul::{
    lemma_mul_inequality, lemma_mul_is_distributive_add_other_way, lemma_mul_nonnegative,
};

verus! {

/// Usage-tracking state for one escrow contract.
pub struct Accumulator {
    /// The contract balance observed at verification time.
    pub initiator_fund: u64,
    /// Cumulative usage units observed since the worker started.
    pub total_data_amount: u64,
    /// The amount owed for usage not yet charged; consumed by a flush.
    pub owed_amount: u64,
}

impl Default for Accumulator {
    /// A fresh accumulator: no fund observed, no usage, nothing owed.
    fn default() -> (r: Accumulator)
        ensures
            r.initiator_fund == 0,
            r.total_data_amount == 0,
            r.owed_amount == 0,
    {
        Accumulator { initiator_fund: 0, total_data_amount: 0, owed_amount: 0 }
    }
}

/// The accumulator after one usage event of `units` at `price_per_unit`.
pub open spec fn spec_record_usage(
    acc: Accumulator,
    units: u64,
    price_per_unit: u64,
) -> Accumulator {
    Accumulator {
        total_data_amount: (acc.total_data_amount + units) as u64,
        owed_amount: (acc.owed_amount + units * price_per_unit) as u64,
        ..acc
    }
}

/// The accumulator after a whole sequence of usage events, oldest first.
pub open spec fn spec_after_usages(
    acc: Accumulator,
    events: Seq<u64>,
    price_per_unit: u64,
) -> Accumulator
    decreases events.len(),
{
    if events.len() == 0 {
        acc
    } else {
        spec_after_usages(
            spec_record_usage(acc, events[0], price_per_unit),
            events.skip(1),
            price_per_unit,
        )
    }
}

/// The total units of a sequence of usage events.
pub open spec fn sum_units(events: Seq<u64>) -> int
    decreases events.len(),
{
    if events.len() == 0 {
        0
    } else {
        events[0] + sum_units(events.skip(1))
    }
}

/// The total of a sequence of usage events is never negative.
pub proof fn lemma_sum_units_nonneg(events: Seq<u64>)
    ensures
        sum_units(events) >= 0,
    decreases events.len(),
{
    if events.len() > 0 {
        lemma_sum_units_nonneg(events.skip(1));
    }
}

impl Accumulator {
    /// Records one usage event: adds the units to the cumulative count
    /// and the units times the price to the owed amount.  The bounds are
    /// machine limits: the counters must fit their word.
    pub fn record_usage(&mut self, units: u64, price_per_unit: u64)
        requires
            old(self).total_data_amount + units <= u64::MAX,
            old(self).owed_amount + units * price_per_unit <= u64::MAX,
        ensures
            *final(self) == spec_record_usage(*old(self), units, price_per_unit),
            final(self).total_data_amount == old(self).total_data_amount + units,
            final(self).owed_amount == old(self).owed_amount + units * price_per_unit,
            final(self).initiator_fund == old(self).initiator_fund,
    {
        proof {
            lemma_mul_nonnegative(units as int, price_per_unit as int);
        }
        self.total_data_amount = self.total_data_amount + units;
        self.owed_amount = self.owed_amount + units * price_per_unit;
    }

    /// Consumes the owed amount: returns it and resets it to zero,
    /// leaving the other fields unchanged.
    pub fn flush(&mut self) -> (amount: u64)
        ensures
            amount == old(self).owed_amount,
            final(self).owed_amount == 0,
            final(self).total_data_amount == old(self).total_data_amount,
            final(self).initiator_fund == old(self).initiator_fund,
    {
        let amount = self.owed_amount;
        self.owed_amount = 0;
        amount
    }
}

/// After any sequence of usage events whose totals fit the counters, the
/// owed amount has grown by the total units times the price and the
/// cumulative count by the total units.
pub proof fn lemma_after_usages(acc: Accumulator, events: Seq<u64>, price_per_unit: u64)
    requires
        acc.total_data_amount + sum_units(events) <= u64::MAX,
        acc.owed_amount + sum_units(events) * price_per_unit <= u64::MAX,
    ensures
        spec_after_usages(acc, events, price_per_unit).owed_amount
            == acc.owed_amount + sum_units(events) * price_per_unit,
        spec_after_usages(acc, events, price_per_unit).total_data_amount
            == acc.total_data_amount + sum_units(events),
        spec_after_usages(acc, events, price_per_unit).initiator_fund == acc.initiator_fund,
    decreases events.len(),
{
    lemma_sum_units_nonneg(events);
    lemma_mul_nonnegative(sum_units(events), price_per_unit as int);
    if events.len() > 0 {
        let head = events[0] as int;
        let rest = sum_units(events.skip(1));
        lemma_sum_units_nonneg(events.skip(1));
        lemma_mul_is_distributive_add_other_way(price_per_unit as int, head, rest);
        lemma_mul_inequality(head, head + rest, price_per_unit as int);
        lemma_mul_inequality(rest, head + rest, price_per_unit as int);
        lemma_mul_nonnegative(head, price_per_unit as int);
        lemma_mul_nonnegative(rest, price_per_unit as int);
        lemma_after_usages(
            spec_record_usage(acc, events[0], price_per_unit),
            events.skip(1),
            price_per_unit,
        );
    }
}

/// After any number of usage events totalling `U` units at price `p`,
/// one flush empties the owed amount and yields exactly `U * p`; a
/// second flush before any new usage yields zero.
pub proof fn lemma_usage_then_flush(acc: Accumulator, events: Seq<u64>, price_per_unit: u64)
    requires
        acc.owed_amount == 0,
        acc.total_data_amount + sum_units(events) <= u64::MAX,
        sum_units(events) * price_per_unit <= u64::MAX,
    ensures
        ({
            let after = spec_after_usages(acc, events, price_per_unit);
            let first_flush = after.owed_amount;
            let drained = Accumulator { owed_amount: 0u64, ..after };
            &&& first_flush == sum_units(events) * price_per_unit
            &&& drained.owed_amount == 0
            &&& drained.total_data_amount == acc.total_data_amount + sum_units(events)
        }),
{
    lemma_after_usages(acc, events, price_per_unit);
}

} // verus!

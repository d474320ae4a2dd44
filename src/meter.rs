use vstd::prelude::*;

verus! {

/// Why a meter refused an increment.
#[derive(Clone, Copy, Debug, PartialEq, Eq, Structural)]
pub enum MeterError {
    /// Charging `units` on top of `consumed` would pass `limit`.
    LimitExceeded { consumed: u128, units: u128, limit: u128 },
}

/// `units_per_item * items`, clamped to the largest `u128`.
pub open spec fn saturating_product(units_per_item: u128, items: usize) -> u128 {
    if units_per_item * items > u128::MAX {
        u128::MAX
    } else {
        (units_per_item * items) as u128
    }
}

/// Computes `saturating_product` without overflow.
fn saturating_mul_items(units_per_item: u128, items: usize) -> (r: u128)
    ensures
        r == saturating_product(units_per_item, items),
{
    match units_per_item.checked_mul(items as u128) {
        Some(p) => p,
        None => u128::MAX,
    }
}

/// The capability that verification passes charge their work against.
///
/// A meter is described by what `add` returns in a state and by the state it
/// leaves behind; `add_items` charges a per-item cost over a number of items,
/// saturating the product before it reaches `add`.
pub trait Meter: Sized {
    /// The meter's internal consistency.
    spec fn wf(&self) -> bool;

    /// What `add(units)` returns in this state.
    spec fn add_outcome(&self, units: u128) -> Result<(), MeterError>;

    /// The state that `add(units)` leaves behind.
    spec fn after_add(&self, units: u128) -> Self;

    /// Add the number of units to the meter; an error if a limit is hit.
    fn add(&mut self, units: u128) -> (r: Result<(), MeterError>)
        requires
            old(self).wf(),
        ensures
            final(self).wf(),
            r == old(self).add_outcome(units),
            *final(self) == old(self).after_add(units),
    ;

    /// Add `units_per_item` for each of `items` items, the product saturating
    /// at the largest `u128` rather than wrapping.
    fn add_items(&mut self, units_per_item: u128, items: usize) -> (r: Result<(), MeterError>)
        requires
            old(self).wf(),
        ensures
            final(self).wf(),
            r == old(self).add_outcome(saturating_product(units_per_item, items)),
            *final(self) == old(self).after_add(saturating_product(units_per_item, items)),
    {
        let units = saturating_mul_items(units_per_item, items);
        self.add(units)
    }
}

/// The sum of a sequence of increments.
pub open spec fn total(s: Seq<u128>) -> int
    decreases s.len(),
{
    if s.len() == 0 {
        0
    } else {
        s[0] + total(s.drop_first())
    }
}

/// The state that a meter reaches after `add` is called with each element
/// of `s` in turn.
pub open spec fn charge_all<M: Meter>(m: M, s: Seq<u128>) -> M
    decreases s.len(),
{
    if s.len() == 0 {
        m
    } else {
        charge_all(m.after_add(s[0]), s.drop_first())
    }
}

/// Whether every one of the calls `add(s[0])`, `add(s[1])`, ... succeeds
/// when they are made on `m` in turn.
pub open spec fn accepts_all<M: Meter>(m: M, s: Seq<u128>) -> bool
    decreases s.len(),
{
    s.len() == 0 || (m.add_outcome(s[0]) is Ok && accepts_all(m.after_add(s[0]), s.drop_first()))
}

} // verus!

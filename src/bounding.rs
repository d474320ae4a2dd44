use vstd::prelude::*;
use crate::meter::{accepts_all, charge_all, saturating_product, total, Meter, MeterError};

verus! {

/// The verifier's configuration, as far as metering reads it.
pub struct VerifierConfig {
    /// The ceiling on the units one verification run may consume; `None`
    /// leaves the run unlimited.
    pub max_meter_units: Option<u128>,
}

/// A meter that accumulates the units charged to it and refuses any
/// increment that would carry the total past an optional ceiling.
pub struct BoundingMeter {
    units: u128,
    max: Option<u128>,
}

impl BoundingMeter {
    /// The units charged so far.
    pub closed spec fn spent(&self) -> u128 {
        self.units
    }

    /// The ceiling, if any.
    pub closed spec fn ceiling(&self) -> Option<u128> {
        self.max
    }

    /// Whether charging `units` now would carry the total past the ceiling.
    pub open spec fn exceeds(&self, units: u128) -> bool {
        match self.ceiling() {
            Some(limit) => self.spent() + units > limit,
            None => false,
        }
    }

    /// A fresh meter: nothing consumed, the ceiling taken from `config`.
    pub fn new(config: &VerifierConfig) -> (m: Self)
        ensures
            m.wf(),
            m.spent() == 0,
            m.ceiling() == config.max_meter_units,
    {
        BoundingMeter { units: 0, max: config.max_meter_units }
    }

    /// The units charged so far.
    pub fn consumed(&self) -> (r: u128)
        ensures
            r == self.spent(),
    {
        self.units
    }

    /// The ceiling this meter was built with.
    pub fn limit(&self) -> (r: Option<u128>)
        ensures
            r == self.ceiling(),
    {
        self.max
    }
}

/// A failed call leaves the meter as it was and does not seal it: a later,
/// smaller increment that fits is still accepted. Without a ceiling every
/// increment is accepted and the total saturates at the largest `u128`.
impl Meter for BoundingMeter {
    open spec fn wf(&self) -> bool {
        match self.ceiling() {
            Some(limit) => self.spent() <= limit,
            None => true,
        }
    }

    open spec fn add_outcome(&self, units: u128) -> Result<(), MeterError> {
        if self.exceeds(units) {
            Err(MeterError::LimitExceeded {
                consumed: self.spent(),
                units,
                limit: self.ceiling().unwrap(),
            })
        } else {
            Ok(())
        }
    }

    closed spec fn after_add(&self, units: u128) -> Self {
        if self.exceeds(units) {
            *self
        } else {
            BoundingMeter {
                units: if self.units + units > u128::MAX {
                    u128::MAX
                } else {
                    (self.units + units) as u128
                },
                max: self.max,
            }
        }
    }

    fn add(&mut self, units: u128) -> (r: Result<(), MeterError>) {
        match self.max {
            Some(max) => {
                if units > max || self.units > max - units {
                    return Err(MeterError::LimitExceeded { consumed: self.units, units, limit: max });
                }
                self.units = self.units + units;
            },
            None => {
                self.units = self.units.saturating_add(units);
            },
        }
        Ok(())
    }
}

/// What `add(units)` leaves behind, seen through the total and the ceiling:
/// a refused increment changes nothing, an accepted one is added to the
/// total, which saturates at the largest `u128` when there is no ceiling.
pub broadcast proof fn lemma_after_add(m: BoundingMeter, units: u128)
    ensures
        #[trigger] m.after_add(units).ceiling() == m.ceiling(),
        m.after_add(units).spent() == (if m.exceeds(units) {
            m.spent()
        } else if m.spent() + units > u128::MAX {
            u128::MAX
        } else {
            (m.spent() + units) as u128
        }),
{
}

/// Increments whose sum keeps the total within the ceiling are all accepted,
/// and the total then grows by exactly their sum.
pub proof fn lemma_within_limit_accepted(m: BoundingMeter, s: Seq<u128>, limit: u128)
    requires
        m.wf(),
        m.ceiling() == Some(limit),
        m.spent() + total(s) <= limit,
    ensures
        accepts_all(m, s),
        charge_all(m, s).wf(),
        charge_all(m, s).spent() == m.spent() + total(s),
        charge_all(m, s).ceiling() == Some(limit),
    decreases s.len(),
{
    if s.len() > 0 {
        lemma_total_nonneg(s.drop_first());
        lemma_within_limit_accepted(m.after_add(s[0]), s.drop_first(), limit);
    }
}

/// After increments that fit, the first one that would carry the total past
/// the ceiling is refused with the total, the increment and the ceiling, and
/// leaves the meter as it was.
pub proof fn lemma_first_excess_refused(m: BoundingMeter, s: Seq<u128>, units: u128, limit: u128)
    requires
        m.wf(),
        m.ceiling() == Some(limit),
        m.spent() + total(s) <= limit,
        m.spent() + total(s) + units > limit,
    ensures
        accepts_all(m, s),
        charge_all(m, s).add_outcome(units) == Err::<(), MeterError>(
            MeterError::LimitExceeded {
                consumed: charge_all(m, s).spent(),
                units,
                limit,
            },
        ),
        charge_all(m, s).spent() == m.spent() + total(s),
        charge_all(m, s).after_add(units) == charge_all(m, s),
{
    lemma_within_limit_accepted(m, s, limit);
}

/// Increments that bring the total exactly to the ceiling are accepted; after
/// them any positive increment is refused and changes nothing.
pub proof fn lemma_limit_reached_exactly(m: BoundingMeter, s: Seq<u128>, units: u128, limit: u128)
    requires
        m.wf(),
        m.ceiling() == Some(limit),
        m.spent() + total(s) == limit,
        units > 0,
    ensures
        accepts_all(m, s),
        charge_all(m, s).spent() == limit,
        charge_all(m, s).add_outcome(units) is Err,
        charge_all(m, s).after_add(units) == charge_all(m, s),
{
    lemma_within_limit_accepted(m, s, limit);
}

/// Without a ceiling every sequence of increments is accepted, the largest
/// `u128` included.
pub proof fn lemma_unlimited_accepts_all(m: BoundingMeter, s: Seq<u128>)
    requires
        m.ceiling() is None,
    ensures
        accepts_all(m, s),
    decreases s.len(),
{
    if s.len() > 0 {
        lemma_unlimited_accepts_all(m.after_add(s[0]), s.drop_first());
    }
}

/// Charging any per-item cost over no items succeeds and changes nothing.
pub proof fn lemma_no_items_free(m: BoundingMeter, units_per_item: u128)
    requires
        m.wf(),
    ensures
        saturating_product(units_per_item, 0) == 0,
        m.add_outcome(saturating_product(units_per_item, 0)) is Ok,
        m.after_add(saturating_product(units_per_item, 0)) == m,
{
}

/// A per-item charge whose product passes the largest `u128` saturates to it
/// and is then refused by a ceiling below that value, never wrapped to a
/// small increment that would be accepted.
pub proof fn lemma_saturated_items_refused(
    m: BoundingMeter,
    units_per_item: u128,
    items: usize,
    limit: u128,
)
    requires
        m.wf(),
        m.ceiling() == Some(limit),
        units_per_item * items > u128::MAX,
        limit < u128::MAX,
    ensures
        saturating_product(units_per_item, items) == u128::MAX,
        m.add_outcome(saturating_product(units_per_item, items)) == Err::<(), MeterError>(
            MeterError::LimitExceeded { consumed: m.spent(), units: u128::MAX, limit },
        ),
        m.after_add(saturating_product(units_per_item, items)) == m,
{
}

proof fn lemma_total_nonneg(s: Seq<u128>)
    ensures
        total(s) >= 0,
    decreases s.len(),
{
    if s.len() > 0 {
        lemma_total_nonneg(s.drop_first());
    }
}

} // verus!

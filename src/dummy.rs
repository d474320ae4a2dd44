use vstd::prelude::*;
use crate::meter::{accepts_all, charge_all, Meter, MeterError};

verus! {

/// A meter that accepts every increment and keeps no state.
pub struct DummyMeter;

impl Meter for DummyMeter {
    open spec fn wf(&self) -> bool {
        true
    }

    open spec fn add_outcome(&self, units: u128) -> Result<(), MeterError> {
        Ok(())
    }

    open spec fn after_add(&self, units: u128) -> Self {
        *self
    }

    fn add(&mut self, units: u128) -> (r: Result<(), MeterError>) {
        Ok(())
    }
}

/// The accept-all meter accepts every sequence of increments, the largest
/// `u128` any number of times included, and is left as it was.
pub proof fn lemma_dummy_accepts_every_sequence(m: DummyMeter, s: Seq<u128>)
    ensures
        accepts_all(m, s),
        charge_all(m, s) == m,
    decreases s.len(),
{
    if s.len() > 0 {
        lemma_dummy_accepts_every_sequence(m.after_add(s[0]), s.drop_first());
    }
}

} // verus!

use bytecode_meter::{BoundingMeter, DummyMeter, Meter, MeterError, VerifierConfig};

fn meter_with(limit: Option<u128>) -> BoundingMeter {
    BoundingMeter::new(&VerifierConfig { max_meter_units: limit })
}

#[test]
fn new_meter_starts_empty() {
    let m = meter_with(Some(7));
    assert_eq!(m.consumed(), 0);
    assert_eq!(m.limit(), Some(7));
    let u = meter_with(None);
    assert_eq!(u.consumed(), 0);
    assert_eq!(u.limit(), None);
}

#[test]
fn increments_within_limit_sum_up() {
    let mut m = meter_with(Some(50));
    for units in [5u128, 0, 12, 8, 25] {
        assert_eq!(m.add(units), Ok(()));
    }
    assert_eq!(m.consumed(), 50);
}

#[test]
fn first_excess_is_refused_without_change() {
    let mut m = meter_with(Some(10));
    assert_eq!(m.add(4), Ok(()));
    assert_eq!(m.add(5), Ok(()));
    assert_eq!(
        m.add(2),
        Err(MeterError::LimitExceeded { consumed: 9, units: 2, limit: 10 })
    );
    assert_eq!(m.consumed(), 9);
}

#[test]
fn reaching_limit_exactly_then_any_unit_fails() {
    let mut m = meter_with(Some(30));
    assert_eq!(m.add(30), Ok(()));
    assert_eq!(m.consumed(), 30);
    assert_eq!(m.add(0), Ok(()));
    assert_eq!(
        m.add(1),
        Err(MeterError::LimitExceeded { consumed: 30, units: 1, limit: 30 })
    );
    assert_eq!(m.consumed(), 30);
}

#[test]
fn increment_larger_than_limit_is_refused() {
    let mut m = meter_with(Some(1000));
    assert_eq!(
        m.add(u128::MAX),
        Err(MeterError::LimitExceeded { consumed: 0, units: u128::MAX, limit: 1000 })
    );
    assert_eq!(m.consumed(), 0);
}

#[test]
fn zero_limit_accepts_only_zero() {
    let mut m = meter_with(Some(0));
    assert_eq!(m.add(0), Ok(()));
    assert_eq!(
        m.add(1),
        Err(MeterError::LimitExceeded { consumed: 0, units: 1, limit: 0 })
    );
}

#[test]
fn unlimited_accepts_largest_increments() {
    let mut m = meter_with(None);
    assert_eq!(m.add(u128::MAX), Ok(()));
    assert_eq!(m.add(u128::MAX), Ok(()));
    assert_eq!(m.add(1), Ok(()));
    assert_eq!(m.consumed(), u128::MAX);
}

#[test]
fn unlimited_counts_what_it_is_charged() {
    let mut m = meter_with(None);
    assert_eq!(m.add(3), Ok(()));
    assert_eq!(m.add_items(4, 5), Ok(()));
    assert_eq!(m.consumed(), 23);
}

#[test]
fn zero_items_cost_nothing() {
    let mut m = meter_with(Some(5));
    assert_eq!(m.add(5), Ok(()));
    assert_eq!(m.add_items(u128::MAX, 0), Ok(()));
    assert_eq!(m.add_items(0, usize::MAX), Ok(()));
    assert_eq!(m.consumed(), 5);
    let mut d = DummyMeter;
    assert_eq!(d.add_items(u128::MAX, 0), Ok(()));
}

#[test]
fn items_multiply_before_the_check() {
    let mut m = meter_with(Some(100));
    assert_eq!(m.add_items(7, 10), Ok(()));
    assert_eq!(m.consumed(), 70);
    assert_eq!(
        m.add_items(7, 5),
        Err(MeterError::LimitExceeded { consumed: 70, units: 35, limit: 100 })
    );
    assert_eq!(m.add_items(6, 5), Ok(()));
    assert_eq!(m.consumed(), 100);
}

#[test]
fn saturated_product_is_refused() {
    let mut m = meter_with(Some(u128::MAX - 1));
    let per_item = u128::MAX / 2 + 1;
    assert_eq!(
        m.add_items(per_item, 2),
        Err(MeterError::LimitExceeded { consumed: 0, units: u128::MAX, limit: u128::MAX - 1 })
    );
    assert_eq!(m.consumed(), 0);
}

#[test]
fn dummy_accepts_everything() {
    let mut d = DummyMeter;
    for _ in 0..1000 {
        assert_eq!(d.add(u128::MAX), Ok(()));
    }
    assert_eq!(d.add_items(u128::MAX, usize::MAX), Ok(()));
}

#[test]
fn scenario_limit_one_hundred() {
    let mut m = meter_with(Some(100));
    assert_eq!(m.add(60), Ok(()));
    assert_eq!(m.consumed(), 60);
    assert_eq!(
        m.add(41),
        Err(MeterError::LimitExceeded { consumed: 60, units: 41, limit: 100 })
    );
    assert_eq!(m.consumed(), 60);
    assert_eq!(m.add(40), Ok(()));
    assert_eq!(m.consumed(), 100);
    assert_eq!(
        m.add(1),
        Err(MeterError::LimitExceeded { consumed: 100, units: 1, limit: 100 })
    );
    assert_eq!(m.consumed(), 100);
}

#[test]
fn scenario_unlimited_many_items() {
    let mut m = meter_with(None);
    assert_eq!(m.add_items(10, usize::MAX), Ok(()));
    assert_eq!(m.consumed(), 10 * (usize::MAX as u128));
}

#[test]
fn scenario_saturating_items_against_limit() {
    let mut m = meter_with(Some(1000));
    assert_eq!(
        m.add_items(u128::MAX, 2),
        Err(MeterError::LimitExceeded { consumed: 0, units: u128::MAX, limit: 1000 })
    );
    assert_eq!(m.consumed(), 0);
}

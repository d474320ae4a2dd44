//! Cost metering for a bytecode verifier: an accounting capability that
//! verification passes charge work against, with an enforcing variant that
//! holds the total to a configured ceiling and a variant that accepts all.

pub mod bounding;
pub mod dummy;
pub mod meter;

pub use bounding::BoundingMeter;
pub use bounding::VerifierConfig;
pub use dummy::DummyMeter;
pub use meter::Meter;
pub use meter::MeterError;

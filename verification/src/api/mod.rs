//! Tariff providers: the provider interface, the test-data provider and the
//! State Grid provider's logic.

pub mod traits;
pub mod mock;
pub mod sgcc;

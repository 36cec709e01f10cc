//! The tariff data model: regions, usage types, tiers, periods and schedules.

pub mod region;
pub mod price_type;
pub mod price;

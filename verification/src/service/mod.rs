//! The schedule cache and the price service built on it.

pub mod cache;
pub mod price_service;

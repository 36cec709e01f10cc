//! Peak/valley electricity tariff lookup: the tariff models, the schedule
//! rules, the local fallback tariff, the response interpretation of the grid
//! API, the schedule cache and the advice text, each with its contract.

pub mod text;
pub mod date;
pub mod error;
pub mod models;
pub mod config;
pub mod api;
pub mod service;
pub mod cli;

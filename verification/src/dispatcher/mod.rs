//! Telling subscribers about new readings: one delivery per subscriber,
//! a bounded number of deliveries at a time, a bounded number of attempts each.

pub mod delivery;
pub mod notify;
pub mod pool;
pub mod progress;
pub mod service;

//! Core of an event-driven algorithmic trading engine.
//!
//! The same strategy pipeline runs in two modes: live trading against a spot
//! exchange and historical backtesting against a stored candle series. The
//! pipeline per instrument is Market -> Signal -> Order -> Fill, with a
//! Portfolio enforcing allocation and accounting invariants over a shared
//! in-memory Database.
//!
//! All monetary quantities (prices, quantities, balances, fees) are held as
//! signed 64-bit integers counting micro-units, so that accounting is exact
//! and free of rounding surprises; see the `fixed` module.

pub mod account;
pub mod assets;
pub mod balance;
pub mod config;
pub mod database;
pub mod engine;
pub mod events;
pub mod exchange;
pub mod execution;
pub mod fixed;
pub mod portfolio;
pub mod position;
pub mod statistic;
pub mod store;
pub mod strategy;
pub mod trader;
pub mod utils;

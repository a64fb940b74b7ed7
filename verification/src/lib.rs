//! Reconciliation of COVID-19 case counts for Dresden into one consistent time
//! series, with the 7-day incidence derived from it, and the decisions that the
//! surrounding program takes about its cache, its logging and its chart.

pub mod error;
pub mod trusted;
pub mod data;
pub mod date_format;
pub mod api;
pub mod theorems;
pub mod cache;
pub mod args;
pub mod messages;
pub mod ui;

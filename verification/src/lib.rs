//! Keeping track of named VPN connections whose true state lives in the
//! operating system: a cache of what is believed about each connection, its
//! reconciliation with what the system reports, the steps of a connect and of
//! a disconnect, and the retries, time limits and watch that drive such an
//! operation to its outcome.

pub mod actuator;
pub mod app;
pub mod browser;
pub mod command;
pub mod config;
pub mod controller;
pub mod controller_proofs;
pub mod form;
pub mod import;
pub mod listing;
pub mod notes;
pub mod orchestrator;
pub mod orchestrator_proofs;
pub mod order;
pub mod probe;
pub mod text;
pub mod vpn;

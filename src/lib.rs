//! Decision core of a bot that claims a time-gated privilege and mints in the
//! same block, by handing a private relay an ordered two-transaction bundle.
//!
//! Everything here is plain data and pure decisions: the configuration as read
//! from the environment, the contract addresses and call data, the plan of the
//! two transactions of a cycle, the bundle, the choice of relay call, and the
//! per-block state machine that drives a cycle. Network access, signing and
//! the relay transport are done by the caller, which feeds the state machine
//! with what it observed.

pub mod address;
pub mod config;
pub mod bundle;
pub mod calldata;
pub mod dispatch;
pub mod cycle;

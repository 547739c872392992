//! A payment-streaming (continuous vesting) engine: a sender deposits funds
//! that unlock to a recipient at a constant rate over a fixed time window,
//! optionally delayed by a cliff. Streams can be paused, resumed, withdrawn
//! from incrementally, and cancelled with pro-rata settlement.
//!
//! The host ledger's collaborators (clock, authorization, asset custody,
//! durable storage) are modelled as explicit values handed to the engine:
//! the current time is a parameter, authorization is an [`auth::AuthContext`],
//! records live inside the [`engine::FluxoraStream`] value, and every fund
//! movement is reported back to the caller as an amount to transfer.

pub mod accrual;
pub mod auth;
pub mod engine;
pub mod stream;

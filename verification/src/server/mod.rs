//! Server-side logic: process supervision policy, metrics parsing,
//! authentication tokens, the deploy pipeline and the RPC handlers'
//! decisions.
pub mod auth;
pub mod bore;
pub mod deploy;
pub mod metrics;
pub mod process;
pub mod runtime;
pub mod service;
pub mod state;

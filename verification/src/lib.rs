//! A transfer hook that routes a one-percent fee of every token transfer to a
//! configurable winner account.
//!
//! The accounts of an invocation are held as plain values, so that every rule
//! of the hook is a function with a proved contract: the configuration
//! record, the published list of extra accounts, the validation of an
//! invocation, the fee and its movement, and the raw fallback entry.

pub mod address;
pub mod config;
pub mod error;
pub mod fallback;
pub mod hook;
pub mod pda;
pub mod resolution;

//! Core of a concentrated-liquidity automated market maker with an optional
//! adaptive-fee oracle.
//!
//! The crate is organised leaves first: a fixed-point math kernel (wide
//! integers, tick and sqrt-price conversions, token-amount deltas, swap
//! steps), a tick store with sparse tick-array sequences, pure managers for
//! tick, position, pool and swap transitions, and the adaptive-fee
//! controller.

pub mod adaptive_fee_tier;
pub mod address;
pub mod collect;
pub mod config;
pub mod errors;
pub mod fee_rate_manager;
pub mod fee_tier;
pub mod growth_math;
pub mod liquidity_manager;
pub mod liquidity_math;
pub mod lock_config;
pub mod oracle;
pub mod position;
pub mod position_bundle;
pub mod position_manager;
pub mod solve;
pub mod solve_manager;
pub mod sparse_swap;
pub mod swap_entry;
pub mod swap_manager;
pub mod swap_math;
pub mod tick;
pub mod tick_array;
pub mod tick_manager;
pub mod tick_math;
pub mod token_extensions;
pub mod token_math;
pub mod transfer_fee;
pub mod two_hop;
pub mod u256;

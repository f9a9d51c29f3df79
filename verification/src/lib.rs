//! Client-side core of a proof-of-work mining pool: the pool's binary wire
//! protocol, the cancellation channel between the control layer and the
//! hashing workers, and the bookkeeping that follows every submitted
//! transaction to its single outcome.

pub mod decimal;
pub mod events;
pub mod mining_channel;
pub mod ore_hq_api;
pub mod ore_utils;
pub mod transactions;
pub mod wire;

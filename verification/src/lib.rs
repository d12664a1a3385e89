//! Anonymous, shard-partitioned batch exchange of signed exposure reports,
//! together with the client-side key ratchet that feeds it.

pub mod agent;
pub mod batch;
pub mod cen;
pub mod clock;
pub mod decimal;
pub mod error;
pub mod keys;
pub mod report;
pub mod service;
pub mod shard;
pub mod simulation;
pub mod storage;
pub mod timestamp;
pub mod user;

//! Asset-carrying Lightning channels: the channel/asset registry, the
//! commitment builder and the funding orchestrator.
pub mod channel;
pub mod commitment;
pub mod encoding;
pub mod hook;
pub mod manager;
pub mod orchestrator;
pub mod proxy;
pub mod storage;
pub mod types;
pub mod wallet;

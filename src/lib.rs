//! Decoding of bonding-curve launchpad account snapshots (pool state, global
//! configuration, platform configuration) from their fixed binary layouts, and
//! lifting of decoded records into tagged account events.
pub mod wire;
pub mod records;
pub mod pool_state;
pub mod global_config;
pub mod platform_config;
pub mod event;

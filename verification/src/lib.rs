//! Verified core of the Tari Universe mining settings and of its TARI.Miner adapter.
//!
//! - [`config_mining`], [`modes`], [`device_settings`]: the mining settings and their migration.
//! - [`tariminer`], [`miner`]: backends, device detection and how TARI.Miner is started.
//! - [`speed`], [`monitor`]: the speed that TARI.Miner reports, and its health.
//! - [`gpu`]: what the GPU miners have in common.
//! - [`text`], [`name_table`]: text handling and tables by name.
//! - [`laws`]: what the operations are for, as relations between their inputs and results.
//! - [`platform`]: what is taken from the standard library without proof.
pub mod config_mining;
pub mod device_settings;
pub mod gpu;
pub mod laws;
pub mod miner;
pub mod modes;
pub mod monitor;
pub mod name_table;
pub mod platform;
pub mod speed;
pub mod tariminer;
pub mod text;

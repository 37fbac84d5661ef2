//! Process configuration: where the stores live and where the log goes.

use vstd::prelude::*;

verus! {

/// Relational store settings.
#[derive(Debug)]
pub struct DatabaseSettings {
    pub database_url: String,
    pub max_connections: u32,
}

/// Session store settings.
#[derive(Debug)]
pub struct RedisSettings {
    pub url: String,
    pub pool_size: usize,
}

/// Log file settings.
#[derive(Debug)]
pub struct LogSettings {
    pub dir: String,
    pub file: String,
    pub level: String,
}

/// All settings of the process.
#[derive(Debug)]
pub struct Settings {
    pub database: DatabaseSettings,
    pub redis: RedisSettings,
    pub log: LogSettings,
}

} // verus!

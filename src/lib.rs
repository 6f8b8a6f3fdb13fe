//! Health checking of websites: a bounded pool of workers probes each URL of a
//! batch with a retry policy, a collector gathers one result per URL, and the
//! gathered report is encoded as a JSON document.

pub mod args;
pub mod compute_cache;
pub mod config;
pub mod status;
pub mod student;
pub mod report;
pub mod probe;
pub mod pool;

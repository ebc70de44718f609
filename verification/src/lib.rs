//! Rate-limited HTTP load generation: the dispatch engine, its concurrency
//! gate, the shared counters and the text of the progress report.

pub mod concurrent;
pub mod config;
pub mod counters;
pub mod dispatch;
pub mod engine;
pub mod gate;
pub mod redirect;
pub mod report;

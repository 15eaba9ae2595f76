//! The core of a media-encoding supervisor: it plans concurrency, scans
//! libraries, admits candidates through gates, drives each job from encode
//! to replacement, and keeps the metrics.
//!
//! Everything that touches files, processes, the network or the clock's
//! passing is asked for by value and reported back by value: the functions
//! here decide, and their callers act.

pub mod classify;
pub mod clock;
pub mod concurrency;
pub mod config;
pub mod daemon;
pub mod decimal;
pub mod encode;
pub mod gates;
pub mod job_executor;
pub mod jobs;
pub mod metrics;
pub mod metrics_server;
pub mod paths;
pub mod ratio;
pub mod replace;
pub mod scan;
pub mod size_gate;
pub mod skip_marker;
pub mod stability;
pub mod startup;
pub mod text;

//! Storage audit and cleanup rules for a hosted source-code project:
//! report statuses, duplicate package-file detection, pipeline retention,
//! the retrying deletion protocol and the storage scoring.

pub mod report;
pub mod api;
pub mod cli;
pub mod conf;
pub mod connection;
pub mod containers;
pub mod jobs;
pub mod order;
pub mod package_analysis;
pub mod packages;
pub mod pipelines;
pub mod remedy;
pub mod scoring;
pub mod storage;
pub mod text;

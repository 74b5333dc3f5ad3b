//! Core engine of a segmented media downloader: per-task lifecycle control,
//! byte-range partitioning for concurrent workers, resumable range fetching,
//! progress accounting, and the registry that serializes control commands.

pub mod config;
pub mod downloader;
pub mod executor;
pub mod headers;
pub mod helper;
pub mod message;
pub mod process;
pub mod state;
pub mod task;
pub mod text;
pub mod worker;

//! Supervisor for an external image-upscaling tool.
//!
//! The crate discovers usable upscaling models on disk, builds the exact
//! command line for the external tool, filters its progress output, and
//! tracks the life cycle of a single upscaling job.

pub mod catalog;
pub mod config;
pub mod decimal;
pub mod error;
pub mod flag;
pub mod image;
pub mod job;
pub mod monitor;
pub mod notice;
pub mod options;
pub mod paths;
pub mod upscale;

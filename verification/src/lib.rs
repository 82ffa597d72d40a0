//! A batch downloader's verified core: configuration entries read from JSON
//! text, output file names derived from entry titles, and the per-entry
//! fetch-and-save loop over a model of the output directory.

pub mod batch;
pub mod cli;
pub mod config;
pub mod json;

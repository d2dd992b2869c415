//! Acquisition-and-placement pipeline for media files: classifying a source,
//! resolving staging and store locations, and sequencing the external tools.

pub mod cli;
pub mod command;
pub mod config;
pub mod error;
pub mod path;
pub mod pipeline;
pub mod rules;
pub mod text;
pub mod url;
pub mod util;

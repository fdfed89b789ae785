//! Verified core of a desktop front end for yt-dlp: argument assembly,
//! output-path templating, progress-line interpretation, configuration
//! encoding, the pending-download queue and the small text rules around them.

pub mod text;
pub mod clock;
pub mod ids;
pub mod args;
pub mod path_template;
pub mod progress;
pub mod config;
pub mod registry;
pub mod binaries;
pub mod formats;
pub mod jobs;
pub mod templates;
pub mod history;
pub mod schema;

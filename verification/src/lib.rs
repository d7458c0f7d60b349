//! A small media-download front end: URL validation, the status state machine
//! behind the address-bar form, output-file selection, and the plan that
//! provisions the two external tool binaries, all with verified contracts.

pub mod downloader;
pub mod provision;
pub mod text;
pub mod ui;

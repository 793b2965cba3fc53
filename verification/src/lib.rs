//! Command-line orchestration core for a release-tracking service:
//! wraps child processes as monitor check-ins and assembles release
//! source-map artifacts for upload.
pub mod artifacts;
pub mod checkin;
pub mod error;
pub mod ids;
pub mod monitors;
pub mod text;
pub mod upload;

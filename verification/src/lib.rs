//! Orchestration core of a media download and transcription shell.
//!
//! The shell drives three external programs: an extractor that fetches media
//! and metadata, a transcoder, and a speech recognizer. This library holds
//! what the shell decides and computes, with contracts that Verus proves;
//! starting programs, reading files and talking to the user interface are
//! left to the caller.
//!
//! - [`locate`] finds the programs, given which files exist.
//! - [`args`], [`download`] and [`request`] build argument vectors;
//!   [`paths`] names files and folders.
//! - [`progress`] and [`status`] read the extractor's output line by line;
//!   [`percent`] reads the numbers in it.
//! - [`dispatch`] turns the lines of one job into events for the user
//!   interface and ends a job at most once.
//! - [`vtt`] reduces a caption file to plain text.
//! - [`transcribe`] sequences the steps of a transcription and sees to it
//!   that temporary files are removed on every path.
//! - [`metadata`] applies defaults and limits to the extractor's metadata.
//! - [`text`] and [`numbers`] hold the primitives on characters and digits,
//!   [`error`] the errors.

pub mod args;
pub mod dispatch;
pub mod download;
pub mod error;
pub mod locate;
pub mod metadata;
pub mod numbers;
pub mod paths;
pub mod percent;
pub mod progress;
pub mod request;
pub mod status;
pub mod text;
pub mod transcribe;
pub mod vtt;

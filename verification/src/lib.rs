//! Resumable, item-by-item download orchestration for multitrack songs:
//! the progress store, the retry policy, the completion detector, the
//! pitch-convergence loop and the run state machine that ties them together.
//!
//! The library decides; its caller performs the browser, file and clock work
//! that each decision asks for and reports back what happened.

pub mod completion;
pub mod download;
pub mod download_progress;
pub mod download_song;
pub mod driver;
pub mod error;
pub mod keystore;
pub mod pitch;
pub mod retry;
pub mod run_laws;
pub mod sign_in;
pub mod text;
pub mod track;

//! A registry of the media sessions that the operating system reports.
//!
//! Events about sessions arrive from many sources, interleaved and not always
//! in order. [`listener`] and [`event`] bring them into one taxonomy;
//! [`state`] folds them, one at a time, into one record per session and says
//! for each what changed; [`command`] copies the registry for a query;
//! [`laws`] proves what holds of every run. [`model`] holds a session's
//! metadata, [`clock`] the times on the records, [`text`] numbers as text.
//!
//! The library decides and computes. Waiting for events, sending them on and
//! publishing deltas is left to the program around it.

pub mod clock;
pub mod command;
pub mod event;
pub mod laws;
pub mod listener;
pub mod model;
pub mod state;
pub mod text;

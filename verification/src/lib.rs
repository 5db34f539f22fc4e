//! Line classification for triage of logs and captured text: a catalog of
//! named extraction patterns, the selection of the patterns that take part in
//! a run, and the matching of one line against them.

pub mod category;
pub mod text;
pub mod matcher;
pub mod catalog;
pub mod extraction;
pub mod record;
pub mod surgeon;
pub mod clock;
pub mod laws;

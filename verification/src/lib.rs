//! Decision logic of a bulk import that visits every cataloged system in turn.

pub mod algorithm;
pub mod catalog;
pub mod config;
pub mod history;
pub mod laws;
pub mod notice;
pub mod orchestrator;

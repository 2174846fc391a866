//! Text translation helpers and a text-to-speech pipeline: a voice catalog,
//! a remote voice directory, the realtime speech protocol session, cache keys
//! and a multi-strategy synthesis orchestrator.

pub mod frames;
pub mod text;
pub mod error;
pub mod protocol;
pub mod catalog;
pub mod cache;
pub mod orchestrator;
pub mod directory;
pub mod platform;
pub mod android;
pub mod script;
pub mod common;
pub mod translation;
pub mod cleanup;

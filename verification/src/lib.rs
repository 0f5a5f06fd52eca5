//! A deterministic state engine for turn-based tabletop combat.
//!
//! Clients submit [`types::GameCommand`] values; the engine validates each
//! command against the current state, turns it into an ordered sequence of
//! log entries, and folds those logs into the next state. Every random
//! outcome (die faces, percentile draws) is embedded in the emitted logs,
//! so replaying a recorded log sequence over its originating snapshot is a
//! pure computation that reproduces the live state exactly.

pub mod abilities;
pub mod app;
pub mod combat;
pub mod command;
pub mod creature;
pub mod dice;
pub mod error;
pub mod folder;
pub mod game;
pub mod ids;
pub mod logs;
pub mod scene;
pub mod skills;
pub mod types;

//! Verified core of a terminal-based multi-project development panel.
//!
//! The library models pseudo-terminal (PTY) session lifecycles: spawning
//! plans, output streaming events, process-tree discovery, resource
//! accounting, suspend/resume/kill control, and the cooldown-based
//! arbitration that serializes PTY creation. Operating-system effects
//! (signals, process snapshots, the PTY itself) enter through a small set
//! of trusted wrappers or are handed in as plain values by the caller.

pub mod app_state;
pub mod bridge;
pub mod browser;
pub mod config;
pub mod events;
pub mod i18n;
pub mod keys;
pub mod manager;
pub mod package;
pub mod process_tree;
pub mod project;
pub mod resource;
pub mod session;
pub mod status;
pub mod shell;
pub mod text;
pub mod widgets;

//! Lifecycle supervision and command forwarding for a desktop shell that runs
//! the Hyperion backend as a child process and talks to it over HTTP.
//!
//! The library decides; the host acts. The host looks up directories, probes
//! the disk, spawns and signals the child, and sends requests. It hands the
//! library what it found as plain values and is told what to do next.
//!
//! - [`paths`]: where the backend binary and its environment file live.
//! - [`supervisor`]: the launch decision and the cell that holds the one
//!   running backend.
//! - [`health`]: the verdict on a health probe.
//! - [`proxy`]: tool invocations as requests, and replies as results.
//! - [`commands`]: the typed commands, each shaping one tool's arguments.
//! - [`http`]: requests, replies and the backend's addresses.
//! - [`json`]: the model of JSON values and the trusted `serde_json` boundary.
//! - [`text`]: decimal numerals and joined text for messages.
pub mod commands;
pub mod health;
pub mod http;
pub mod json;
pub mod paths;
pub mod proxy;
pub mod supervisor;
pub mod text;

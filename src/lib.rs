//! A host for sandboxed workflow plugins: a registry of compiled plugin
//! components, the dispatch of lifecycle operations to them through a
//! JSON-in/JSON-out surface, and the decisions of a directory auto-loader.
//!
//! The logic is verified against its contracts. The few calls into the
//! engine, the clock and `std::path` stand behind small trusted items that
//! name what they rely on. What touches the operating system (files,
//! waiting, directory notifications, running a plugin's code) is left to
//! the caller, which hands plain values in and takes plain values back.

pub mod text;
pub mod json;
pub mod bridge;
pub mod engine;
pub mod dispatch;
pub mod runtime;
pub mod loader;
pub mod sandbox;
pub mod domain;
pub mod transport;

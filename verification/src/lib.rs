//! Guest-side runtime bridge for a sandboxed chat-bot plugin.
//!
//! A host runtime loads the plugin, calls its entry points, and answers its
//! outbound requests. This crate holds the verified core of that bridge: the
//! plugin state and its lifecycle, the handler registry, the scheduled-job
//! table, the entry-point dispatchers, and the pure request/response halves of
//! every outbound call. The unverified shell around it (wire encoding and the
//! actual host round-trips) lives outside the library and hands plain values
//! in and out.

pub mod access;
pub mod dispatch;
pub mod jobs;
pub mod outbound;
pub mod plugin;
pub mod types;

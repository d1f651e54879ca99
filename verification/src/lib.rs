//! Marshaling layer for an on-device language-model library reached over a
//! C ABI.
//!
//! The native side does the actual inference; this crate holds the decisions
//! the bridge makes around each native call: validating and encoding prompt
//! text into null-terminated buffers, interpreting status codes and result
//! pointers, filtering the language enumeration, and driving the
//! single-in-flight streaming session that the per-chunk trampoline feeds.
//! The host-runtime plumbing (the native calls themselves, the thread-safe
//! callback handles) lives outside, and hands this crate plain values.

pub mod availability;
pub mod encode;
pub mod error;
pub mod languages;
pub mod oneshot;
pub mod stream;

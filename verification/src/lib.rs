//! Core of a minimal real-time software-rendering host.
//!
//! The library owns a writable pixel surface, the per-frame event-loop state
//! machine that fills it with the placeholder gradient payload, the
//! back-reference binding that lets a host-owned window reach its application
//! instance during event dispatch, and the lazily-cached controller-input
//! binding.  The host-system edges (window creation, message retrieval,
//! blitting, dynamic-library probing) live outside the library and hand it
//! plain values.

pub mod app;
pub mod buffer;
pub mod input;
pub mod memory;
pub mod window;

//! Event translation core for a single-window, callback-driven mobile
//! windowing runtime.
//!
//! The library maps native lifecycle, surface, focus and input notifications
//! onto a small portable event vocabulary, tracks per-finger pointer identity
//! (including the primary pointer), and carries the control-flow mode, exit
//! intent and focus flag shared between the event-loop driver and the
//! application-facing handle.  The host runtime itself (surface creation,
//! native handles, the blocking dispatch primitive) is an outside collaborator
//! and stays behind the embedding layer.

pub mod active_loop;
pub mod driver;
pub mod error;
pub mod events;
pub mod monitor;
pub mod normalizer;
pub mod window;

//! Core logic of a menu-bar screen recorder.
//!
//! The capture pipeline itself (OS screen-capture streams, hardware
//! encoders, container writers) lives outside this crate; here are the
//! decisions that drive it, verified: sample routing with monotonic
//! timestamps, the recording life cycle with pause-adjusted durations,
//! output geometry, encoder settings, the auto-zoom viewport, and the
//! cursor event log.

pub mod capture;
pub mod cursor;
pub mod encoder;
pub mod geometry;
pub mod paths;
pub mod png;
pub mod portal;
pub mod recorder;
pub mod router;
pub mod screenshot;
pub mod settings;
pub mod writer;
pub mod zoom;

//! Playback control for a single audio output session.
//!
//! The host owns the audio objects: the output session, its volume control, the
//! decoder and the timer queue. This crate holds the decisions. Given whether a
//! session and a volume control were handed in, and the lifecycle state the
//! session reports, it decides between starting a fresh playback, pausing,
//! resuming, and leaving a closed session alone, and it names the host
//! operations to carry out, one at a time and in order.

pub mod controller;
pub mod driver;
pub mod laws;
pub mod model;
pub mod return_data;
pub mod session;
pub mod taper;
pub mod timer;

//! Gain levels and the taper that joins them.
//!
//! A gain is a real number; here it is held in thousandths, so that `1000` is
//! full volume. Times are held in milliseconds.

use vstd::prelude::*;

verus! {

/// Full volume, in thousandths.
pub const GAIN_FULL: u32 = 1000;

/// Silence, in thousandths.
pub const GAIN_SILENT: u32 = 0;

/// Length of the linear ramp that fades the volume out before a pause and in
/// after a resume, in milliseconds.
pub const TAPER_MS: u32 = 200;

} // verus!

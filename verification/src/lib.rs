//! A Pomodoro-style work/break timer.
//!
//! The heart of the crate is [`state::State`], a synchronous state machine
//! that accounts elapsed work and break time, banks earned break time, and
//! reports a clamped completion ratio. Around it sit the audio command
//! protocol ([`audio`]), the color theme data ([`color`]), the runtime
//! configuration ([`config`]), and the event-dispatch layer ([`control`]).

use vstd::prelude::*;

pub mod audio;
pub mod color;
pub mod config;
pub mod control;
pub mod state;

verus! {

/// Addition on `u64` that clamps at `u64::MAX` instead of wrapping.
pub open spec fn sat_add_spec(a: u64, b: u64) -> u64 {
    if a + b <= u64::MAX {
        (a + b) as u64
    } else {
        u64::MAX
    }
}

/// Saturating addition; the executable counterpart of [`sat_add_spec`].
pub fn sat_add(a: u64, b: u64) -> (r: u64)
    ensures
        r == sat_add_spec(a, b),
{
    if b <= u64::MAX - a {
        a + b
    } else {
        u64::MAX
    }
}

} // verus!

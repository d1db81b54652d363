//! The runtime configuration that the host hands to the state machine.
//!
//! Loading and parsing a configuration file is the host's business; the
//! library only holds the resulting plain values. Durations are counted in
//! milliseconds.

use vstd::prelude::*;

use crate::color::ColorConfig;

verus! {

/// Everything the application reads at startup or on a hot reload.
pub struct Config {
    /// Length of one work session, in milliseconds.
    pub work_expected_duration: u64,
    /// Worked time divided by this yields the break time earned.
    pub break_divisor: u64,
    /// Whether finishing work flows straight into a break instead of pausing.
    pub auto_break: bool,
    /// Alarm clip to load instead of the built-in one.
    pub audio_file_path: Option<String>,
    /// Whether the alarm starts silenced.
    pub mute: bool,
    /// Per-phase color palettes.
    pub color_config: ColorConfig,
}

/// Milliseconds in one default work session: 25 minutes.
pub const DEFAULT_WORK_DURATION_MS: u64 = 25 * 60 * 1000;

/// The default break-earn divisor: five minutes of work earn one of break.
pub const DEFAULT_BREAK_DIVISOR: u64 = 5;

impl Default for Config {
    /// A 25-minute session earning one minute of break per five worked,
    /// flowing straight into the break, with the built-in alarm and colors.
    fn default() -> (c: Config)
        ensures
            c.work_expected_duration == DEFAULT_WORK_DURATION_MS,
            c.break_divisor == DEFAULT_BREAK_DIVISOR,
            c.auto_break == true,
            c.audio_file_path is None,
            c.mute == false,
            c.color_config == ColorConfig::default_spec(),
    {
        Config {
            work_expected_duration: DEFAULT_WORK_DURATION_MS,
            break_divisor: DEFAULT_BREAK_DIVISOR,
            auto_break: true,
            audio_file_path: None,
            mute: false,
            color_config: ColorConfig::default(),
        }
    }
}

} // verus!

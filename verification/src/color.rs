//! Color theme data: one palette per timer phase.
//!
//! Colors are held as 8-bit RGBA channels; the rendering host converts them
//! to whatever floating-point form its graphics layer wants.

use vstd::prelude::*;

use crate::state::{PauseKind, StateKind};

verus! {

/// An RGBA color with 8-bit channels.
#[derive(Clone, Copy, Debug, PartialEq, Eq, Structural)]
pub struct Color {
    pub r: u8,
    pub g: u8,
    pub b: u8,
    pub a: u8,
}

/// What the CSS color parser returns for a given string: `None` where the
/// string is not a color in any syntax the parser knows, otherwise the
/// parsed color reduced to 8-bit RGBA channels.
pub uninterp spec fn css_color_of(s: Seq<char>) -> Option<Color>;

impl Color {
    /// The color a packed `0xRRGGBB` value denotes, with full opacity.
    pub open spec fn rgb_spec(rgb: u32) -> Color {
        Color {
            r: (rgb / 0x1_00_00) as u8,
            g: ((rgb / 0x100) % 0x100) as u8,
            b: (rgb % 0x100) as u8,
            a: 255,
        }
    }

    /// Splits a packed `0xRRGGBB` value into channels, with full opacity.
    pub fn rgb(rgb: u32) -> (c: Color)
        requires
            rgb < 0x1_00_00_00,
        ensures
            c == Color::rgb_spec(rgb),
            rgb == c.r * 0x1_00_00 + c.g * 0x100 + c.b,
            c.a == 255,
    {
        let r = rgb / 0x1_00_00;
        let g = (rgb / 0x100) % 0x100;
        let b = rgb % 0x100;
        proof {
            assert(rgb == (rgb / 0x1_00_00) * 0x1_00_00 + ((rgb / 0x100) % 0x100) * 0x100 + (
            rgb % 0x100) && rgb / 0x1_00_00 < 0x100 && (rgb / 0x100) % 0x100 < 0x100 && rgb % 0x100
                < 0x100) by (bit_vector)
                requires
                    rgb < 0x1_00_00_00,
            ;
        }
        Color { r: r as u8, g: g as u8, b: b as u8, a: 255 }
    }

    /// Parses a CSS color string ("#ff0000", "red", "rgb(255 0 0)", ...).
    ///
    /// Relies on `csscolorparser::parse`, whose result depends on the
    /// characters of the string alone, and on `csscolorparser::Color::to_rgba8`
    /// to reduce the parsed color to 8-bit channels.
    #[verifier::external_body]
    pub fn from_css(s: &str) -> (c: Option<Color>)
        ensures
            c == css_color_of(s@),
    {
        match csscolorparser::parse(s) {
            Ok(parsed) => {
                let [r, g, b, a] = parsed.to_rgba8();
                Some(Color { r, g, b, a })
            },
            Err(_) => None,
        }
    }
}

/// The palette used while the timer sits in one particular phase.
#[derive(Clone, Copy, Debug, PartialEq, Eq, Structural)]
pub struct StateColorConfig {
    pub title_text: Color,
    pub timer_text: Color,
    pub button_text: Color,
    pub button_background: Color,
    pub background: Color,
    pub active_circle: Color,
    pub pending_circle: Color,
    pub circle_background: Color,
}

/// One palette per timer phase.
#[derive(Clone, Copy, Debug, PartialEq, Eq, Structural)]
pub struct ColorConfig {
    pub work: StateColorConfig,
    pub break_: StateColorConfig,
    pub start: StateColorConfig,
    pub pause_work: StateColorConfig,
    pub pause_break: StateColorConfig,
}

impl ColorConfig {
    /// The palette that belongs to the given timer phase.
    pub fn with_state(&self, state: &StateKind) -> (c: &StateColorConfig)
        ensures
            *c == match *state {
                StateKind::Begin => self.start,
                StateKind::Pause(PauseKind::Work) => self.pause_work,
                StateKind::Pause(PauseKind::Break) => self.pause_break,
                StateKind::Work => self.work,
                StateKind::Break => self.break_,
            },
    {
        match state {
            StateKind::Begin => &self.start,
            StateKind::Pause(PauseKind::Work) => &self.pause_work,
            StateKind::Pause(PauseKind::Break) => &self.pause_break,
            StateKind::Work => &self.work,
            StateKind::Break => &self.break_,
        }
    }
}

impl StateColorConfig {
    /// The built-in palette, named so that contracts can speak of it.
    pub open spec fn default_spec() -> StateColorConfig {
        StateColorConfig {
            title_text: Color::rgb_spec(0x9db5d8),
            timer_text: Color::rgb_spec(0x9db5d8),
            button_text: Color::rgb_spec(0x9db5d8),
            button_background: Color::rgb_spec(0x1b86a5),
            background: Color::rgb_spec(0x0a2b46),
            active_circle: Color::rgb_spec(0x35c191),
            pending_circle: Color::rgb_spec(0x77fac7),
            circle_background: Color::rgb_spec(0x008a5e),
        }
    }
}

impl ColorConfig {
    /// The built-in per-phase palettes, named so that contracts can speak
    /// of them.
    pub open spec fn default_spec() -> ColorConfig {
        let base = StateColorConfig::default_spec();
        let start = StateColorConfig {
            title_text: Color::rgb_spec(0x90aecf),
            circle_background: Color::rgb_spec(0x3c4b5b),
            active_circle: Color::rgb_spec(0x92a1b3),
            pending_circle: Color::rgb_spec(0x667585),
            ..base
        };
        ColorConfig {
            work: StateColorConfig { title_text: Color::rgb_spec(0x00c6b5), ..base },
            break_: StateColorConfig { title_text: Color::rgb_spec(0xfff7d6), ..base },
            start: start,
            pause_work: StateColorConfig { title_text: Color::rgb_spec(0x21857c), ..start },
            pause_break: StateColorConfig { title_text: Color::rgb_spec(0xc48400), ..start },
        }
    }
}

impl Default for StateColorConfig {
    /// The built-in palette: light text on a dark blue background with a
    /// green progress ring.
    fn default() -> (c: StateColorConfig)
        ensures
            c == StateColorConfig::default_spec(),
    {
        let text = Color::rgb(0x9db5d8);
        StateColorConfig {
            title_text: text,
            timer_text: text,
            button_text: text,
            button_background: Color::rgb(0x1b86a5),
            background: Color::rgb(0x0a2b46),
            active_circle: Color::rgb(0x35c191),
            pending_circle: Color::rgb(0x77fac7),
            circle_background: Color::rgb(0x008a5e),
        }
    }
}

impl Default for ColorConfig {
    /// Per-phase palettes that differ from the built-in one only in the
    /// title color, and, for the inactive phases, in dimmed ring colors.
    fn default() -> (c: ColorConfig)
        ensures
            c == ColorConfig::default_spec(),
    {
        let base = StateColorConfig::default();

        let work = StateColorConfig { title_text: Color::rgb(0x00c6b5), ..base };
        let break_ = StateColorConfig { title_text: Color::rgb(0xfff7d6), ..base };
        let start = StateColorConfig {
            title_text: Color::rgb(0x90aecf),
            circle_background: Color::rgb(0x3c4b5b),
            active_circle: Color::rgb(0x92a1b3),
            pending_circle: Color::rgb(0x667585),
            ..base
        };
        let pause_work = StateColorConfig { title_text: Color::rgb(0x21857c), ..start };
        let pause_break = StateColorConfig { title_text: Color::rgb(0xc48400), ..start };

        ColorConfig { work, break_, start, pause_work, pause_break }
    }
}

} // verus!

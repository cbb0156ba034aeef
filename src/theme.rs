//! Themes: how an iteration count becomes a colour.
//!
//! A theme is chosen once, before rendering, and stays fixed for the whole
//! pass. The position-based theme also reads two levels derived from the
//! pixel's point in the plane (`floor(|x| * 128)` and `floor(|y| * 128)`,
//! saturated to a byte); those levels are computed by the caller from the
//! point's coordinates and handed in as bytes.

use vstd::prelude::*;
use crate::color::Color;

verus! {

/// The iteration cap that every theme is calibrated for.
pub const THEME_MAX_STEPS: u64 = 256;

/// The themes a renderer can be configured with.
#[derive(Clone, Copy, Debug, PartialEq, Eq, Structural)]
pub enum Theme {
    /// Grey levels: all three channels follow the step count.
    Simple,
    /// The red channel follows the step count.
    Red,
    /// The green channel follows the step count.
    Green,
    /// The blue channel follows the step count.
    Blue,
    /// Red and blue follow the point's position, green the step count.
    Position,
    /// A placeholder with no colour mapping; selecting it is an error.
    Demo,
}

/// Why a theme cannot colour a pixel.
#[derive(Clone, Copy, Debug, PartialEq, Eq, Structural)]
pub enum ThemeError {
    /// The theme has no colour mapping.
    Unimplemented,
}

/// The low eight bits of a step count.
pub open spec fn level_of(steps: u64) -> u8 {
    (steps % 256) as u8
}

/// Whether a theme has a colour mapping.
pub open spec fn is_implemented(theme: Theme) -> bool {
    theme != Theme::Demo
}

/// The colour a theme gives to a pixel; none for a theme without a colour
/// mapping.
pub open spec fn theme_color(theme: Theme, steps: u64, x_level: u8, y_level: u8) -> Option<Color> {
    let level = level_of(steps);
    match theme {
        Theme::Simple => Some(Color { red: level, green: level, blue: level }),
        Theme::Red => Some(Color { red: level, green: 0, blue: 0 }),
        Theme::Green => Some(Color { red: 0, green: level, blue: 0 }),
        Theme::Blue => Some(Color { red: 0, green: 0, blue: level }),
        Theme::Position => Some(Color { red: x_level, green: level, blue: y_level }),
        Theme::Demo => None,
    }
}

/// The step count truncated to its low eight bits.
pub fn step_level(steps: u64) -> (r: u8)
    ensures
        r == level_of(steps),
        r as u64 == steps % 256,
{
    (steps % 256) as u8
}

/// Checks, before any rendering, that the theme has a colour mapping.
pub fn check_theme(theme: Theme) -> (r: Result<(), ThemeError>)
    ensures
        r is Ok <==> is_implemented(theme),
        r is Err ==> r == Err::<(), ThemeError>(ThemeError::Unimplemented),
{
    match theme {
        Theme::Demo => Err(ThemeError::Unimplemented),
        _ => Ok(()),
    }
}

/// The colour of a pixel that took `steps` iterations; `x_level` and
/// `y_level` are the position levels of its point, read only by the
/// position-based theme.
pub fn color_pixel(theme: Theme, steps: u64, x_level: u8, y_level: u8) -> (r: Result<Color, ThemeError>)
    ensures
        match theme_color(theme, steps, x_level, y_level) {
            Some(c) => r == Ok::<Color, ThemeError>(c),
            None => r == Err::<Color, ThemeError>(ThemeError::Unimplemented),
        },
        r is Ok <==> is_implemented(theme),
{
    let level = step_level(steps);
    match theme {
        Theme::Simple => Ok(Color { red: level, green: level, blue: level }),
        Theme::Red => Ok(Color { red: level, green: 0, blue: 0 }),
        Theme::Green => Ok(Color { red: 0, green: level, blue: 0 }),
        Theme::Blue => Ok(Color { red: 0, green: 0, blue: level }),
        Theme::Position => Ok(Color { red: x_level, green: level, blue: y_level }),
        Theme::Demo => Err(ThemeError::Unimplemented),
    }
}

/// The iteration cap of a theme: the evaluator runs at most this many steps.
pub fn max_steps(theme: Theme) -> (r: u64)
    ensures
        r == THEME_MAX_STEPS,
        r > 0,
{
    match theme {
        Theme::Simple | Theme::Red | Theme::Green | Theme::Blue | Theme::Position | Theme::Demo => {
            THEME_MAX_STEPS
        },
    }
}

/// Under the grey theme, for every step count up to the cap, the three
/// channels are equal and each is the step count modulo 256.
pub proof fn lemma_grayscale_channels(steps: u64, max: u64, x_level: u8, y_level: u8)
    requires
        steps <= max,
    ensures
        ({
            let c = theme_color(Theme::Simple, steps, x_level, y_level).unwrap();
            &&& c.red as u64 == steps % 256
            &&& c.green == c.red
            &&& c.blue == c.red
        }),
{
}

} // verus!

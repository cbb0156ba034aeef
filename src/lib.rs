//! Escape-time fractal rendering: the integer core of the pipeline.
//!
//! The library holds what the renderer decides with integers: the signed
//! offset of a pixel from the canvas centre, the power-of-two zoom scale,
//! the order of a render pass, the theme that turns an iteration count into
//! a colour, and the packing of a colour into the 24-bit value handed to the
//! host.

pub mod arith;
pub mod color;
pub mod render;
pub mod theme;
pub mod view;

pub use color::Color;
pub use render::{RenderAction, RenderPass};
pub use theme::{color_pixel, max_steps, Theme, ThemeError};
pub use view::{pixel_offset, zoom_scale, Canvas};

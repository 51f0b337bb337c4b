//! Colour-rendering engine for an RGB LED driven by software pulse-width modulation.
//!
//! Every normalised scalar in [0, 1] is held in fixed point: the integer `x * UNIT`.

pub mod accumulator;
pub mod color_control;
pub mod debounce;
pub mod firmware;
pub mod hsv_display;
pub mod hsv_rgb_convert;

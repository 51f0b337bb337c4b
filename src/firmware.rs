//! The decisions of the interrupt handlers and the main loop, from state and event to next
//! state and the action for the hardware to carry out.
use vstd::prelude::*;

use crate::accumulator::{lemma_window_level, window_level, Accumulator};
use crate::color_control::{
    clamp_unit, loaded_color, loaded_remaining, step_color, step_output, step_remaining,
    ColorControler, RenderStep,
};
use crate::debounce::{after_edge, edge_accepted, Debouncer};
use crate::hsv_display::{
    glyph, image_rows, rotated_left, rotated_right, HSVDisplay, HSVPage, LEDState,
};
use crate::hsv_rgb_convert::Hsv;

verus! {

/// Timer ticks per millisecond (a 1 MHz timer).
pub const TIMER_TICKS_PER_MS: u32 = 1_000;

/// Length of an accumulation window in milliseconds.
pub const REFRESH_RATE_MS: u32 = 100;

/// Length of an accumulation window in timer ticks.
pub const REFRESH_RATE_TICKS: u32 = TIMER_TICKS_PER_MS * REFRESH_RATE_MS;

/// What start-up asks of the hardware.
#[derive(Clone, Copy, Debug)]
pub struct Startup {
    /// The glyph for the display to show.
    pub glyph: LEDState,
    /// The first render step to carry out.
    pub first_step: RenderStep,
    /// Ticks to arm the accumulation-window timer with.
    pub window_ticks: u32,
}

/// Which button raised an edge interrupt.
#[derive(Clone, Copy, Debug, PartialEq, Eq, Structural)]
pub enum Button {
    /// Button A: rotates the page left.
    A,
    /// Button B: rotates the page right.
    B,
}

/// What a button edge asks of the hardware.
#[derive(Clone, Copy, Debug)]
pub struct ButtonResponse {
    /// Arm the cooldown timer with `DEBOUNCE_TIME` ticks.
    pub arm_cooldown: bool,
    /// A glyph for the display to show, when the page changed.
    pub redraw: Option<LEDState>,
}

/// The page after an accepted edge from `source`.
pub open spec fn page_after(page: HSVPage, source: Option<Button>) -> HSVPage {
    match source {
        Some(Button::A) => rotated_left(page),
        Some(Button::B) => rotated_right(page),
        None => page,
    }
}

/// The target colour with the channel of `page` set to `level`, clamped.
pub open spec fn routed_target(target: Hsv, page: HSVPage, level: int) -> Hsv {
    match page {
        HSVPage::H => Hsv { h: clamp_unit(level) as u32, ..target },
        HSVPage::S => Hsv { s: clamp_unit(level) as u32, ..target },
        HSVPage::V => Hsv { v: clamp_unit(level) as u32, ..target },
    }
}

/// Start-up, once everything is constructed: the display renders its page, the renderer takes
/// its first step, and the accumulation window is opened.
pub fn init(display: &mut HSVDisplay, color_controler: &mut ColorControler) -> (r: Startup)
    requires
        old(color_controler).wf(),
    ensures
        final(display).page() == old(display).page(),
        final(display).shown() == r.glyph,
        image_rows(r.glyph) == glyph(old(display).page()),
        final(color_controler).wf(),
        final(color_controler).target_color() == old(color_controler).target_color(),
        r.first_step == step_output(
            loaded_color(
                old(color_controler).target_color(),
                old(color_controler).rendering_color(),
                old(color_controler).frame_remaining(),
            ),
            loaded_remaining(old(color_controler).frame_remaining()),
        ),
        final(color_controler).rendering_color() == step_color(
            loaded_color(
                old(color_controler).target_color(),
                old(color_controler).rendering_color(),
                old(color_controler).frame_remaining(),
            ),
        ),
        final(color_controler).frame_remaining() == step_remaining(
            loaded_color(
                old(color_controler).target_color(),
                old(color_controler).rendering_color(),
                old(color_controler).frame_remaining(),
            ),
            loaded_remaining(old(color_controler).frame_remaining()),
        ),
        r.window_ticks == REFRESH_RATE_TICKS,
{
    let glyph = display.render();
    let first_step = color_controler.render();
    Startup { glyph, first_step, window_ticks: REFRESH_RATE_TICKS }
}

/// A button edge interrupt. The debounce decision is taken, and the cooldown armed, before the
/// source is looked at. When the edge is accepted, button A rotates the page left and button B
/// right, and the new page's glyph is to be shown; an edge with no source rotates nothing.
/// `cooldown_elapsed` is the cooldown timer's reading: it has run out.
pub fn handle_button_edge(
    debouncer: &mut Debouncer,
    display: &mut HSVDisplay,
    cooldown_elapsed: bool,
    source: Option<Button>,
) -> (r: ButtonResponse)
    ensures
        ({
            let cooldown = if cooldown_elapsed {
                0
            } else {
                old(debouncer).cooldown()
            };
            &&& r.arm_cooldown == edge_accepted(cooldown)
            &&& final(debouncer).cooldown() == after_edge(cooldown)
            &&& final(display).page() == if r.arm_cooldown {
                page_after(old(display).page(), source)
            } else {
                old(display).page()
            }
            &&& r.redraw.is_some() == (r.arm_cooldown && source.is_some())
            &&& r.redraw matches Some(img) ==> {
                &&& image_rows(img) == glyph(final(display).page())
                &&& final(display).shown() == img
            }
            &&& r.redraw.is_none() ==> final(display).shown() == old(display).shown()
        }),
{
    if cooldown_elapsed {
        debouncer.expire();
    }
    let debounced = debouncer.on_edge();
    match source {
        Some(Button::A) => {
            if debounced {
                display.left();
                let img = display.render();
                ButtonResponse { arm_cooldown: true, redraw: Some(img) }
            } else {
                ButtonResponse { arm_cooldown: false, redraw: None }
            }
        },
        Some(Button::B) => {
            if debounced {
                display.right();
                let img = display.render();
                ButtonResponse { arm_cooldown: true, redraw: Some(img) }
            } else {
                ButtonResponse { arm_cooldown: false, redraw: None }
            }
        },
        None => ButtonResponse { arm_cooldown: debounced, redraw: None },
    }
}

/// The accumulation window has closed: its level goes to the channel of the current page, and
/// the window is emptied. A window without samples changes no channel.
pub fn apply_window(
    accumulator: &mut Accumulator,
    page: HSVPage,
    color_controler: &mut ColorControler,
)
    requires
        old(accumulator).wf(),
        old(color_controler).wf(),
    ensures
        final(accumulator).wf(),
        final(accumulator).total() == 0,
        final(accumulator).samples() == 0,
        final(color_controler).wf(),
        final(color_controler).rendering_color() == old(color_controler).rendering_color(),
        final(color_controler).frame_remaining() == old(color_controler).frame_remaining(),
        old(accumulator).samples() == 0 ==> final(color_controler).target_color() == old(
            color_controler,
        ).target_color(),
        old(accumulator).samples() > 0 ==> final(color_controler).target_color()
            == routed_target(
            old(color_controler).target_color(),
            page,
            window_level(old(accumulator).total(), old(accumulator).samples()),
        ),
{
    proof {
        if accumulator.samples() > 0 {
            lemma_window_level(accumulator.total(), accumulator.samples());
        }
    }
    if let Some(percentage) = accumulator.close_window() {
        match page {
            HSVPage::H => color_controler.update_hue(percentage),
            HSVPage::S => color_controler.update_sat(percentage),
            HSVPage::V => color_controler.update_value(percentage),
        }
    }
}

} // verus!

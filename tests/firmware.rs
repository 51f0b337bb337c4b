use hsv_pwm::accumulator::Accumulator;
use hsv_pwm::color_control::{starting_hsv, ColorControler, RenderStep};
use hsv_pwm::debounce::{Debouncer, DEBOUNCE_TIME};
use hsv_pwm::firmware::{apply_window, handle_button_edge, init, Button, REFRESH_RATE_TICKS};
use hsv_pwm::hsv_display::{HSVDisplay, HSVPage};
use hsv_pwm::hsv_rgb_convert::{Hsv, UNIT};

#[test]
fn init_renders_both_and_opens_a_window() {
    let mut display = HSVDisplay::new();
    let mut controller = ColorControler::new(starting_hsv());
    let startup = init(&mut display, &mut controller);
    assert_eq!(startup.glyph, display.image());
    assert_eq!(startup.glyph[2], [9, 9, 9, 9, 9]);
    // starting colour (0.8, 0.2, 0.5): the dimmest channel, green, lasts 20 micro-steps
    assert_eq!(
        startup.first_step,
        RenderStep { red_on: true, green_on: true, blue_on: true, ticks: 2_000 }
    );
    assert_eq!(controller.remaining(), 80);
    assert_eq!(startup.window_ticks, REFRESH_RATE_TICKS);
    assert_eq!(REFRESH_RATE_TICKS, 100_000);
}

#[test]
fn accepted_button_a_rotates_left_and_redraws() {
    let mut debouncer = Debouncer::new();
    let mut display = HSVDisplay::new();
    let r = handle_button_edge(&mut debouncer, &mut display, false, Some(Button::A));
    assert!(r.arm_cooldown);
    assert_eq!(display.get_page(), HSVPage::V);
    assert_eq!(r.redraw, Some(display.image()));
    assert_eq!(debouncer.remaining(), DEBOUNCE_TIME);
}

#[test]
fn bounce_is_ignored_until_the_timer_runs_out() {
    let mut debouncer = Debouncer::new();
    let mut display = HSVDisplay::new();
    handle_button_edge(&mut debouncer, &mut display, false, Some(Button::B));
    assert_eq!(display.get_page(), HSVPage::S);
    let bounce = handle_button_edge(&mut debouncer, &mut display, false, Some(Button::B));
    assert!(!bounce.arm_cooldown);
    assert!(bounce.redraw.is_none());
    assert_eq!(display.get_page(), HSVPage::S);
    let later = handle_button_edge(&mut debouncer, &mut display, true, Some(Button::B));
    assert!(later.arm_cooldown);
    assert_eq!(display.get_page(), HSVPage::V);
}

#[test]
fn edge_without_source_still_arms_the_cooldown() {
    let mut debouncer = Debouncer::new();
    let mut display = HSVDisplay::new();
    let r = handle_button_edge(&mut debouncer, &mut display, false, None);
    assert!(r.arm_cooldown);
    assert!(r.redraw.is_none());
    assert_eq!(display.get_page(), HSVPage::H);
    let b = handle_button_edge(&mut debouncer, &mut display, false, Some(Button::A));
    assert!(!b.arm_cooldown);
    assert_eq!(display.get_page(), HSVPage::H);
}

#[test]
fn window_goes_to_the_page_channel() {
    let mut controller = ColorControler::new(starting_hsv());
    let mut acc = Accumulator::new();
    acc.add_sample(8_000);
    acc.add_sample(8_065);
    apply_window(&mut acc, HSVPage::S, &mut controller);
    assert_eq!(controller.target(), Hsv { h: 55_000, s: UNIT / 2, v: 48_000 });
    acc.add_sample(0);
    apply_window(&mut acc, HSVPage::V, &mut controller);
    assert_eq!(controller.target(), Hsv { h: 55_000, s: UNIT / 2, v: 0 });
    acc.add_sample(16_383);
    apply_window(&mut acc, HSVPage::H, &mut controller);
    assert_eq!(controller.target(), Hsv { h: UNIT, s: UNIT / 2, v: 0 });
    assert_eq!(acc.close_window(), None);
}

#[test]
fn empty_window_changes_nothing() {
    let mut controller = ColorControler::new(starting_hsv());
    let mut acc = Accumulator::new();
    apply_window(&mut acc, HSVPage::H, &mut controller);
    assert_eq!(controller.target(), starting_hsv());
}

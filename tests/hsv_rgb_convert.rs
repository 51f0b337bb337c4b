use hsv_pwm::hsv_rgb_convert::{Hsv, Rgb, UNIT};

fn hsv(h: u32, s: u32, v: u32) -> Hsv {
    Hsv { h, s, v }
}

fn rgb(r: u32, g: u32, b: u32) -> Rgb {
    Rgb { r, g, b }
}

#[test]
fn sector_boundaries_give_primary_and_secondary_colors() {
    let sixth = UNIT / 6;
    assert_eq!(hsv(0, UNIT, UNIT).to_rgb(), rgb(UNIT, 0, 0));
    assert_eq!(hsv(sixth, UNIT, UNIT).to_rgb(), rgb(UNIT, UNIT, 0));
    assert_eq!(hsv(2 * sixth, UNIT, UNIT).to_rgb(), rgb(0, UNIT, 0));
    assert_eq!(hsv(3 * sixth, UNIT, UNIT).to_rgb(), rgb(0, UNIT, UNIT));
    assert_eq!(hsv(4 * sixth, UNIT, UNIT).to_rgb(), rgb(0, 0, UNIT));
    assert_eq!(hsv(5 * sixth, UNIT, UNIT).to_rgb(), rgb(UNIT, 0, UNIT));
}

#[test]
fn full_hue_wraps_to_red() {
    assert_eq!(hsv(UNIT, UNIT, UNIT).to_rgb(), rgb(UNIT, 0, 0));
}

#[test]
fn desaturated_colors_are_grey() {
    for h in [0, 1, 9_999, 10_000, 30_000, 59_999, UNIT] {
        for v in [0, 1, 300, 30_000, UNIT] {
            assert_eq!(hsv(h, 0, v).to_rgb(), rgb(v, v, v));
        }
    }
}

#[test]
fn channels_stay_in_range() {
    let mut h = 0;
    while h <= UNIT {
        let mut s = 0;
        while s <= UNIT {
            let mut v = 0;
            while v <= UNIT {
                let c = hsv(h, s, v).to_rgb();
                assert!(c.r <= v && c.g <= v && c.b <= v);
                v += 7_001;
            }
            s += 5_003;
        }
        h += 1_237;
    }
    let c = hsv(UNIT - 1, UNIT, UNIT).to_rgb();
    assert!(c.r <= UNIT && c.g <= UNIT && c.b <= UNIT);
}

#[test]
fn starting_color_converts_exactly() {
    // h = 11/12, s = 0.75, v = 0.8: c = 0.6, sector 5 at its midpoint, x = 0.3, m = 0.2
    assert_eq!(hsv(55_000, 45_000, 48_000).to_rgb(), rgb(48_000, 12_000, 30_000));
}

#[test]
fn mid_sector_secondary_component() {
    // h = 1/12: sector 0, halfway, so x = c / 2
    assert_eq!(hsv(5_000, UNIT, UNIT).to_rgb(), rgb(UNIT, 30_000, 0));
    // h = 3/12: sector 1, halfway, so x = c * (1 - 1/2)
    assert_eq!(hsv(15_000, UNIT, UNIT).to_rgb(), rgb(30_000, UNIT, 0));
    // half value, half saturation at h = 1/2: c = 0.25, m = 0.25
    assert_eq!(hsv(30_000, 30_000, 30_000).to_rgb(), rgb(15_000, 30_000, 30_000));
}

#[test]
fn float_inputs_scale_to_fixed_point() {
    let to_fixed = |x: f32| (x * UNIT as f32).round() as u32;
    let c = hsv(to_fixed(0.5), to_fixed(1.0), to_fixed(1.0)).to_rgb();
    assert_eq!(c, rgb(0, UNIT, UNIT));
}

use hsv_pwm::hsv_display::{HSVDisplay, HSVPage};

const GLYPH_H: [[u8; 5]; 5] = [
    [9, 0, 0, 0, 9],
    [9, 0, 0, 0, 9],
    [9, 9, 9, 9, 9],
    [9, 0, 0, 0, 9],
    [9, 0, 0, 0, 9],
];
const GLYPH_S: [[u8; 5]; 5] = [
    [9, 9, 9, 9, 9],
    [9, 0, 0, 0, 0],
    [9, 9, 9, 9, 9],
    [0, 0, 0, 0, 9],
    [9, 9, 9, 9, 9],
];
const GLYPH_V: [[u8; 5]; 5] = [
    [9, 0, 0, 0, 9],
    [9, 0, 0, 0, 9],
    [9, 0, 0, 0, 9],
    [0, 9, 0, 9, 0],
    [0, 0, 9, 0, 0],
];

fn display_on(page: HSVPage) -> HSVDisplay {
    let mut d = HSVDisplay::new();
    while d.get_page() != page {
        d.right();
    }
    d
}

#[test]
fn starts_on_hue_page_showing_h() {
    let d = HSVDisplay::new();
    assert_eq!(d.get_page(), HSVPage::H);
    assert_eq!(d.image(), GLYPH_H);
}

#[test]
fn left_cycles_h_v_s() {
    let mut d = HSVDisplay::new();
    d.left();
    assert_eq!(d.get_page(), HSVPage::V);
    d.left();
    assert_eq!(d.get_page(), HSVPage::S);
    d.left();
    assert_eq!(d.get_page(), HSVPage::H);
}

#[test]
fn right_cycles_h_s_v() {
    let mut d = HSVDisplay::new();
    d.right();
    assert_eq!(d.get_page(), HSVPage::S);
    d.right();
    assert_eq!(d.get_page(), HSVPage::V);
    d.right();
    assert_eq!(d.get_page(), HSVPage::H);
}

#[test]
fn left_and_right_undo_each_other() {
    for page in [HSVPage::H, HSVPage::S, HSVPage::V] {
        let mut d = display_on(page);
        d.left();
        d.right();
        assert_eq!(d.get_page(), page);
        d.right();
        d.left();
        assert_eq!(d.get_page(), page);
    }
}

#[test]
fn rotation_alone_keeps_the_shown_image() {
    let mut d = HSVDisplay::new();
    d.right();
    assert_eq!(d.image(), GLYPH_H);
}

#[test]
fn render_shows_the_page_glyph() {
    let mut d = HSVDisplay::new();
    assert_eq!(d.render(), GLYPH_H);
    d.right();
    assert_eq!(d.render(), GLYPH_S);
    assert_eq!(d.image(), GLYPH_S);
    d.right();
    assert_eq!(d.render(), GLYPH_V);
    assert_eq!(d.get_page(), HSVPage::V);
}

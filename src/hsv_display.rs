//! Page selection: which HSV parameter is being adjusted, and the 5x5 glyph that shows it.
use vstd::prelude::*;

verus! {

/// The LED matrix is `LED_SIZE` by `LED_SIZE`.
pub const LED_SIZE: usize = 5;

/// Brightness of each LED of the matrix, row by row.
pub type LEDState = [[u8; LED_SIZE]; LED_SIZE];

/// The HSV parameter currently being adjusted.
#[derive(Clone, Copy, Debug, PartialEq, Eq, Structural)]
pub enum HSVPage {
    H,
    S,
    V,
}

/// The page before `p` in the cycle H, S, V: H to V, V to S, S to H.
pub open spec fn rotated_left(p: HSVPage) -> HSVPage {
    match p {
        HSVPage::H => HSVPage::V,
        HSVPage::S => HSVPage::H,
        HSVPage::V => HSVPage::S,
    }
}

/// The page after `p` in the cycle H, S, V: H to S, S to V, V to H.
pub open spec fn rotated_right(p: HSVPage) -> HSVPage {
    match p {
        HSVPage::H => HSVPage::S,
        HSVPage::S => HSVPage::V,
        HSVPage::V => HSVPage::H,
    }
}

/// Rotating left and rotating right undo each other, so each is a bijection on the pages.
pub proof fn lemma_rotations_inverse(p: HSVPage, q: HSVPage)
    ensures
        rotated_right(rotated_left(p)) == p,
        rotated_left(rotated_right(p)) == p,
        rotated_left(p) == rotated_left(q) ==> p == q,
        rotated_right(p) == rotated_right(q) ==> p == q,
{
}

/// The rows of an LED image as sequences.
pub open spec fn image_rows(img: LEDState) -> Seq<Seq<u8>> {
    img@.map_values(|row: [u8; LED_SIZE]| row@)
}

/// The glyph of a page: the letter H, S or V at full brightness.
pub open spec fn glyph(p: HSVPage) -> Seq<Seq<u8>> {
    match p {
        HSVPage::H => seq![
            seq![9u8, 0, 0, 0, 9],
            seq![9u8, 0, 0, 0, 9],
            seq![9u8, 9, 9, 9, 9],
            seq![9u8, 0, 0, 0, 9],
            seq![9u8, 0, 0, 0, 9],
        ],
        HSVPage::S => seq![
            seq![9u8, 9, 9, 9, 9],
            seq![9u8, 0, 0, 0, 0],
            seq![9u8, 9, 9, 9, 9],
            seq![0u8, 0, 0, 0, 9],
            seq![9u8, 9, 9, 9, 9],
        ],
        HSVPage::V => seq![
            seq![9u8, 0, 0, 0, 9],
            seq![9u8, 0, 0, 0, 9],
            seq![9u8, 0, 0, 0, 9],
            seq![0u8, 9, 0, 9, 0],
            seq![0u8, 0, 9, 0, 0],
        ],
    }
}

/// The page selector and the glyph it has the display show.
pub struct HSVDisplay {
    page: HSVPage,
    image: LEDState,
}

impl HSVDisplay {
    /// The page being adjusted.
    pub closed spec fn page(self) -> HSVPage {
        self.page
    }

    /// The image last rendered.
    pub closed spec fn shown(self) -> LEDState {
        self.image
    }

    /// A selector on the hue page, showing its glyph.
    pub fn new() -> (r: Self)
        ensures
            r.page() == HSVPage::H,
            image_rows(r.shown()) == glyph(HSVPage::H),
    {
        HSVDisplay { page: HSVPage::H, image: HSVDisplay::render_h() }
    }

    /// Moves to the previous page, with wrap-around.
    pub fn left(&mut self)
        ensures
            final(self).page() == rotated_left(old(self).page()),
            final(self).shown() == old(self).shown(),
    {
        match &self.page {
            HSVPage::H => self.page = HSVPage::V,
            HSVPage::S => self.page = HSVPage::H,
            HSVPage::V => self.page = HSVPage::S,
        };
    }

    /// Moves to the next page, with wrap-around.
    pub fn right(&mut self)
        ensures
            final(self).page() == rotated_right(old(self).page()),
            final(self).shown() == old(self).shown(),
    {
        match &self.page {
            HSVPage::H => self.page = HSVPage::S,
            HSVPage::S => self.page = HSVPage::V,
            HSVPage::V => self.page = HSVPage::H,
        };
    }

    fn render_h() -> (r: LEDState)
        ensures
            image_rows(r) == glyph(HSVPage::H),
    {
        let r = [
            [9, 0, 0, 0, 9],
            [9, 0, 0, 0, 9],
            [9, 9, 9, 9, 9],
            [9, 0, 0, 0, 9],
            [9, 0, 0, 0, 9],
        ];
        assert(image_rows(r) =~~= glyph(HSVPage::H));
        r
    }

    fn render_s() -> (r: LEDState)
        ensures
            image_rows(r) == glyph(HSVPage::S),
    {
        let r = [
            [9, 9, 9, 9, 9],
            [9, 0, 0, 0, 0],
            [9, 9, 9, 9, 9],
            [0, 0, 0, 0, 9],
            [9, 9, 9, 9, 9],
        ];
        assert(image_rows(r) =~~= glyph(HSVPage::S));
        r
    }

    fn render_v() -> (r: LEDState)
        ensures
            image_rows(r) == glyph(HSVPage::V),
    {
        let r = [
            [9, 0, 0, 0, 9],
            [9, 0, 0, 0, 9],
            [9, 0, 0, 0, 9],
            [0, 9, 0, 9, 0],
            [0, 0, 9, 0, 0],
        ];
        assert(image_rows(r) =~~= glyph(HSVPage::V));
        r
    }

    /// Loads the glyph of the current page and returns it for the display to show.
    pub fn render(&mut self) -> (img: LEDState)
        ensures
            final(self).page() == old(self).page(),
            final(self).shown() == img,
            image_rows(img) == glyph(old(self).page()),
    {
        let leds = match &self.page {
            HSVPage::H => HSVDisplay::render_h(),
            HSVPage::S => HSVDisplay::render_s(),
            HSVPage::V => HSVDisplay::render_v(),
        };
        self.image = leds;
        leds
    }

    /// The page being adjusted.
    pub fn get_page(&self) -> (r: HSVPage)
        ensures
            r == self.page(),
    {
        self.page
    }

    /// The image last rendered.
    pub fn image(&self) -> (r: LEDState)
        ensures
            r == self.shown(),
    {
        self.image
    }
}

} // verus!

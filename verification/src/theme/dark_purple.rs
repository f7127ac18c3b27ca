//! The dark theme: deep purple backgrounds and light text.

use vstd::prelude::*;
use super::palette::{Palette, Rgb};

verus! {

pub open spec fn palette_spec() -> Palette {
    Palette {
        bg_top: Rgb { r: 15, g: 10, b: 25 },
        bg_bottom: Rgb { r: 25, g: 20, b: 35 },
        card_fill: Rgb { r: 30, g: 25, b: 35 },
        text: Rgb { r: 195, g: 205, b: 215 },
        accent: Rgb { r: 110, g: 50, b: 180 },
        accent_hover: Rgb { r: 130, g: 70, b: 190 },
        error: Rgb { r: 210, g: 75, b: 80 },
    }
}

pub fn palette() -> (p: Palette)
    ensures
        p == palette_spec(),
{
    Palette {
        bg_top: Rgb { r: 15, g: 10, b: 25 },
        bg_bottom: Rgb { r: 25, g: 20, b: 35 },
        card_fill: Rgb { r: 30, g: 25, b: 35 },
        text: Rgb { r: 195, g: 205, b: 215 },
        accent: Rgb { r: 110, g: 50, b: 180 },
        accent_hover: Rgb { r: 130, g: 70, b: 190 },
        error: Rgb { r: 210, g: 75, b: 80 },
    }
}

} // verus!

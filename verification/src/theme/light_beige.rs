//! The light theme: beige backgrounds and dark brown text.

use vstd::prelude::*;
use super::palette::{Palette, Rgb};

verus! {

pub open spec fn palette_spec() -> Palette {
    Palette {
        bg_top: Rgb { r: 240, g: 200, b: 150 },
        bg_bottom: Rgb { r: 230, g: 220, b: 205 },
        card_fill: Rgb { r: 235, g: 235, b: 235 },
        text: Rgb { r: 60, g: 50, b: 40 },
        accent: Rgb { r: 210, g: 170, b: 120 },
        accent_hover: Rgb { r: 200, g: 160, b: 110 },
        error: Rgb { r: 190, g: 75, b: 65 },
    }
}

pub fn palette() -> (p: Palette)
    ensures
        p == palette_spec(),
{
    Palette {
        bg_top: Rgb { r: 240, g: 200, b: 150 },
        bg_bottom: Rgb { r: 230, g: 220, b: 205 },
        card_fill: Rgb { r: 235, g: 235, b: 235 },
        text: Rgb { r: 60, g: 50, b: 40 },
        accent: Rgb { r: 210, g: 170, b: 120 },
        accent_hover: Rgb { r: 200, g: 160, b: 110 },
        error: Rgb { r: 190, g: 75, b: 65 },
    }
}

} // verus!

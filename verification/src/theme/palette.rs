//! The colours a theme is made of.

use vstd::prelude::*;

verus! {

/// An opaque colour given by its red, green and blue components.
#[derive(Clone, Copy, PartialEq, Eq, Structural, Debug)]
pub struct Rgb {
    pub r: u8,
    pub g: u8,
    pub b: u8,
}

/// The colours of one theme.
#[derive(Clone, Copy, PartialEq, Eq, Structural, Debug)]
pub struct Palette {
    pub bg_top: Rgb,
    pub bg_bottom: Rgb,
    pub card_fill: Rgb,
    pub text: Rgb,
    pub accent: Rgb,
    pub accent_hover: Rgb,
    pub error: Rgb,
}

} // verus!

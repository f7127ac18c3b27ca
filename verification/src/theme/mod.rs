//! The two colour themes and switching between them.

pub mod palette;
mod dark_purple;
mod light_beige;

use vstd::prelude::*;
use palette::Palette;

verus! {

#[derive(Clone, Copy, PartialEq, Eq, Structural, Debug)]
pub enum Theme {
    DarkPurple,
    LightBeige,
}

impl Default for Theme {
    /// The dark theme.
    fn default() -> (t: Self)
        ensures
            t == Theme::DarkPurple,
    {
        Theme::DarkPurple
    }
}

impl Theme {
    /// The colours of the theme.
    pub open spec fn palette_spec(self) -> Palette {
        match self {
            Theme::DarkPurple => dark_purple::palette_spec(),
            Theme::LightBeige => light_beige::palette_spec(),
        }
    }

    /// The other theme.
    pub open spec fn toggled(self) -> Theme {
        match self {
            Theme::DarkPurple => Theme::LightBeige,
            Theme::LightBeige => Theme::DarkPurple,
        }
    }

    pub fn palette(&self) -> (p: Palette)
        ensures
            p == self.palette_spec(),
    {
        match self {
            Theme::DarkPurple => dark_purple::palette(),
            Theme::LightBeige => light_beige::palette(),
        }
    }

    /// Switches to the other theme.
    pub fn toggle(&mut self)
        ensures
            *final(self) == old(self).toggled(),
    {
        *self = match self {
            Theme::DarkPurple => Theme::LightBeige,
            Theme::LightBeige => Theme::DarkPurple,
        };
    }

    /// The label of the switch button: the name of the other theme.
    pub fn toggle_label(&self) -> (s: &'static str)
        ensures
            s@ == match self {
                Theme::DarkPurple => "Light"@,
                Theme::LightBeige => "Dark"@,
            },
    {
        match self {
            Theme::DarkPurple => "Light",
            Theme::LightBeige => "Dark",
        }
    }
}

/// Switching theme twice gives back the theme one started with, and
/// switching once always changes the colours.
pub proof fn lemma_toggle_involution(t: Theme)
    ensures
        t.toggled().toggled() == t,
        t.toggled() != t,
        t.toggled().palette_spec() != t.palette_spec(),
{
}

} // verus!

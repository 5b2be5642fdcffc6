//! Fonts for text widgets.
use vstd::prelude::*;

verus! {

/// A font: its family, weight, stretch and style.
#[derive(Clone, Debug, PartialEq, Eq, Hash)]
pub struct Font {
    pub family: Family,
    pub weight: Weight,
    pub stretch: Stretch,
    pub style: Style,
}

/// A font family, by name or generic.
#[derive(Clone, Debug, PartialEq, Eq, Hash)]
pub enum Family {
    Name(String),
    Serif,
    SansSerif,
    Cursive,
    Fantasy,
    Monospace,
}

/// The weight of a font.
#[derive(Clone, Copy, Debug, PartialEq, Eq, Hash, Structural)]
pub enum Weight {
    Thin,
    ExtraLight,
    Light,
    Normal,
    Medium,
    Semibold,
    Bold,
    ExtraBold,
    Black,
}

/// The stretch of a font.
#[derive(Clone, Copy, Debug, PartialEq, Eq, Hash, Structural)]
pub enum Stretch {
    UltraCondensed,
    ExtraCondensed,
    Condensed,
    SemiCondensed,
    Normal,
    SemiExpanded,
    Expanded,
    ExtraExpanded,
    UltraExpanded,
}

/// The style of a font.
#[derive(Clone, Copy, Debug, PartialEq, Eq, Hash, Structural)]
pub enum Style {
    Normal,
    Italic,
    Oblique,
}

impl Default for Family {
    fn default() -> (r: Family)
        ensures
            r == Family::SansSerif,
    {
        Family::SansSerif
    }
}

impl Default for Weight {
    fn default() -> (r: Weight)
        ensures
            r == Weight::Normal,
    {
        Weight::Normal
    }
}

impl Default for Stretch {
    fn default() -> (r: Stretch)
        ensures
            r == Stretch::Normal,
    {
        Stretch::Normal
    }
}

impl Default for Style {
    fn default() -> (r: Style)
        ensures
            r == Style::Normal,
    {
        Style::Normal
    }
}

/// The default font: sans-serif, normal weight, normal stretch, normal style.
pub open spec fn default_font() -> Font {
    Font {
        family: Family::SansSerif,
        weight: Weight::Normal,
        stretch: Stretch::Normal,
        style: Style::Normal,
    }
}

impl Default for Font {
    fn default() -> (r: Font)
        ensures
            r == default_font(),
    {
        Font {
            family: Family::SansSerif,
            weight: Weight::Normal,
            stretch: Stretch::Normal,
            style: Style::Normal,
        }
    }
}

impl Font {
    /// The default font.
    pub fn new() -> (r: Font)
        ensures
            r == default_font(),
    {
        Font {
            family: Family::SansSerif,
            weight: Weight::Normal,
            stretch: Stretch::Normal,
            style: Style::Normal,
        }
    }

    /// The default font in another family.
    pub fn new_with_family(family: Family) -> (r: Font)
        ensures
            r == (Font { family, ..default_font() }),
    {
        Font { family, weight: Weight::Normal, stretch: Stretch::Normal, style: Style::Normal }
    }

    /// This font in another family.
    pub fn family(self, family: Family) -> (r: Font)
        ensures
            r == (Font { family, ..self }),
    {
        Font { family, ..self }
    }

    /// This font with another weight.
    pub fn weight(self, weight: Weight) -> (r: Font)
        ensures
            r == (Font { weight, ..self }),
    {
        Font { weight, ..self }
    }

    /// This font with another stretch.
    pub fn stretch(self, stretch: Stretch) -> (r: Font)
        ensures
            r == (Font { stretch, ..self }),
    {
        Font { stretch, ..self }
    }

    /// This font with another style.
    pub fn style(self, style: Style) -> (r: Font)
        ensures
            r == (Font { style, ..self }),
    {
        Font { style, ..self }
    }
}

} // verus!

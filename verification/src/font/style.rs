//! Text styles: a weight, an italic flag and an underline flag.

use vstd::prelude::*;

verus! {

/// The weight of a font, from thin to black.
#[derive(Debug, Clone, Copy, PartialEq, Eq, Structural)]
pub enum FontWeight {
    /// Thin weight (100).
    Thin,
    /// Extra light weight (200).
    ExtraLight,
    /// Light weight (300).
    Light,
    /// Normal weight (400).
    Normal,
    /// Medium weight (500).
    Medium,
    /// Semi-bold weight (600).
    SemiBold,
    /// Bold weight (700).
    Bold,
    /// Extra bold weight (800).
    ExtraBold,
    /// Black weight (900).
    Black,
}

impl Default for FontWeight {
    /// The default weight is normal.
    fn default() -> (r: Self)
        ensures
            r == FontWeight::Normal,
    {
        FontWeight::Normal
    }
}

/// The numeric value of a weight, in the conventional hundreds.
pub open spec fn weight_value_spec(w: FontWeight) -> u16 {
    match w {
        FontWeight::Thin => 100,
        FontWeight::ExtraLight => 200,
        FontWeight::Light => 300,
        FontWeight::Normal => 400,
        FontWeight::Medium => 500,
        FontWeight::SemiBold => 600,
        FontWeight::Bold => 700,
        FontWeight::ExtraBold => 800,
        FontWeight::Black => 900,
    }
}

/// The weight a numeric value names: each weight takes the hundred-wide
/// band centered on its value, and everything above goes to black.
pub open spec fn weight_from_value_spec(value: u16) -> FontWeight {
    if value <= 150 {
        FontWeight::Thin
    } else if value <= 250 {
        FontWeight::ExtraLight
    } else if value <= 350 {
        FontWeight::Light
    } else if value <= 450 {
        FontWeight::Normal
    } else if value <= 550 {
        FontWeight::Medium
    } else if value <= 650 {
        FontWeight::SemiBold
    } else if value <= 750 {
        FontWeight::Bold
    } else if value <= 850 {
        FontWeight::ExtraBold
    } else {
        FontWeight::Black
    }
}

impl FontWeight {
    /// Converts a numeric weight value to the nearest named weight.
    pub fn from_value(value: u16) -> (r: Self)
        ensures
            r == weight_from_value_spec(value),
    {
        if value <= 150 {
            FontWeight::Thin
        } else if value <= 250 {
            FontWeight::ExtraLight
        } else if value <= 350 {
            FontWeight::Light
        } else if value <= 450 {
            FontWeight::Normal
        } else if value <= 550 {
            FontWeight::Medium
        } else if value <= 650 {
            FontWeight::SemiBold
        } else if value <= 750 {
            FontWeight::Bold
        } else if value <= 850 {
            FontWeight::ExtraBold
        } else {
            FontWeight::Black
        }
    }
}

/// A text style: weight, italic, underline.
#[derive(Debug, Clone, Copy, PartialEq, Eq, Structural)]
pub struct TextStyle {
    /// The font weight.
    pub weight: FontWeight,
    /// Whether the text is italic.
    pub italic: bool,
    /// Whether the text is underlined.
    pub underlined: bool,
}

impl Default for TextStyle {
    /// The default style: normal weight, upright, not underlined.
    fn default() -> (r: Self)
        ensures
            r == (TextStyle { weight: FontWeight::Normal, italic: false, underlined: false }),
    {
        TextStyle { weight: FontWeight::Normal, italic: false, underlined: false }
    }
}

impl TextStyle {
    /// Creates the default style.
    pub fn new() -> (r: Self)
        ensures
            r == (TextStyle { weight: FontWeight::Normal, italic: false, underlined: false }),
    {
        TextStyle { weight: FontWeight::Normal, italic: false, underlined: false }
    }

    /// Creates a bold style.
    pub fn bold() -> (r: Self)
        ensures
            r == (TextStyle { weight: FontWeight::Bold, italic: false, underlined: false }),
    {
        TextStyle { weight: FontWeight::Bold, italic: false, underlined: false }
    }

    /// Creates an italic style.
    pub fn italic() -> (r: Self)
        ensures
            r == (TextStyle { weight: FontWeight::Normal, italic: true, underlined: false }),
    {
        TextStyle { weight: FontWeight::Normal, italic: true, underlined: false }
    }

    /// Creates an underlined style.
    pub fn underlined() -> (r: Self)
        ensures
            r == (TextStyle { weight: FontWeight::Normal, italic: false, underlined: true }),
    {
        TextStyle { weight: FontWeight::Normal, italic: false, underlined: true }
    }

    /// Replaces the weight.
    pub fn with_weight(self, weight: FontWeight) -> (r: Self)
        ensures
            r == (TextStyle { weight, ..self }),
    {
        TextStyle { weight, ..self }
    }

    /// Replaces the italic flag.
    pub fn with_italic(self, italic: bool) -> (r: Self)
        ensures
            r == (TextStyle { italic, ..self }),
    {
        TextStyle { italic, ..self }
    }

    /// Replaces the underline flag.
    pub fn with_underlined(self, underlined: bool) -> (r: Self)
        ensures
            r == (TextStyle { underlined, ..self }),
    {
        TextStyle { underlined, ..self }
    }

    /// Whether the style reads as bold: bold weight or heavier.
    pub fn is_bold(&self) -> (r: bool)
        ensures
            r == (self.weight == FontWeight::Bold || self.weight == FontWeight::ExtraBold
                || self.weight == FontWeight::Black),
    {
        match self.weight {
            FontWeight::Bold => true,
            FontWeight::ExtraBold => true,
            FontWeight::Black => true,
            _ => false,
        }
    }

    /// The numeric weight value for font selection.
    pub fn weight_value(&self) -> (r: u16)
        ensures
            r == weight_value_spec(self.weight),
    {
        match self.weight {
            FontWeight::Thin => 100,
            FontWeight::ExtraLight => 200,
            FontWeight::Light => 300,
            FontWeight::Normal => 400,
            FontWeight::Medium => 500,
            FontWeight::SemiBold => 600,
            FontWeight::Bold => 700,
            FontWeight::ExtraBold => 800,
            FontWeight::Black => 900,
        }
    }
}

} // verus!

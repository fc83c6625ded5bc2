//! Colours used to paint the severity name on an interactive terminal.

use vstd::prelude::*;

verus! {

/// A 24-bit colour.
#[derive(Clone, Copy, Debug, PartialEq, Eq, Structural)]
pub struct RGB {
    pub red: u8,
    pub green: u8,
    pub blue: u8,
}

impl RGB {
    #[must_use]
    pub fn new(red: u8, green: u8, blue: u8) -> (color: Self)
        ensures
            color.red == red,
            color.green == green,
            color.blue == blue,
    {
        Self { red, green, blue }
    }
}

/// One colour per severity.
#[derive(Clone, Copy, Debug, PartialEq, Eq, Structural)]
pub struct ColorSettings {
    pub debug: RGB,
    pub info: RGB,
    pub warn: RGB,
    pub error: RGB,
}

impl ColorSettings {
    /// The palette a fresh configuration starts with.
    pub open spec fn standard() -> ColorSettings {
        ColorSettings {
            debug: RGB { red: 38, green: 45, blue: 56 },
            info: RGB { red: 15, green: 115, blue: 255 },
            warn: RGB { red: 247, green: 155, blue: 35 },
            error: RGB { red: 255, green: 0, blue: 0 },
        }
    }
}

impl Default for ColorSettings {
    fn default() -> (palette: Self)
        ensures
            palette == ColorSettings::standard(),
    {
        Self {
            debug: RGB::new(38, 45, 56),
            info: RGB::new(15, 115, 255),
            warn: RGB::new(247, 155, 35),
            error: RGB::new(255, 0, 0),
        }
    }
}

} // verus!

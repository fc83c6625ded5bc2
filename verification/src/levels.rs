//! Severity levels.

use crate::ansi::{painted, truecolor};
use crate::colors::{ColorSettings, RGB};
use vstd::prelude::*;

verus! {

/// Severity of a record, ordered `Debug < Info < Warn < Error`.
#[derive(Clone, Copy, Debug, PartialEq, Eq, Structural, PartialOrd, Ord, Hash)]
pub enum LogLevel {
    /// Lowest severity.
    Debug,
    /// Informational messages.
    Info,
    /// Warnings.
    Warn,
    /// Highest severity.
    Error,
}

impl LogLevel {
    /// Position of the level in the severity order.
    pub open spec fn spec_rank(self) -> int {
        match self {
            LogLevel::Debug => 0,
            LogLevel::Info => 1,
            LogLevel::Warn => 2,
            LogLevel::Error => 3,
        }
    }

    /// The upper-case name of the level.
    pub open spec fn name(self) -> Seq<char> {
        match self {
            LogLevel::Debug => seq!['D', 'E', 'B', 'U', 'G'],
            LogLevel::Info => seq!['I', 'N', 'F', 'O'],
            LogLevel::Warn => seq!['W', 'A', 'R', 'N'],
            LogLevel::Error => seq!['E', 'R', 'R', 'O', 'R'],
        }
    }

    /// The colour that a palette assigns to the level.
    pub open spec fn spec_color(self, palette: ColorSettings) -> RGB {
        match self {
            LogLevel::Debug => palette.debug,
            LogLevel::Info => palette.info,
            LogLevel::Warn => palette.warn,
            LogLevel::Error => palette.error,
        }
    }

    /// The name of the level wrapped in the escape sequences of its colour.
    pub open spec fn colored_name(self, palette: ColorSettings) -> Seq<char> {
        let color = self.spec_color(palette);
        painted(self.name(), color.red, color.green, color.blue)
    }

    /// Position of the level in the severity order.
    pub fn rank(&self) -> (r: u8)
        ensures
            r == self.spec_rank(),
    {
        match self {
            LogLevel::Debug => 0,
            LogLevel::Info => 1,
            LogLevel::Warn => 2,
            LogLevel::Error => 3,
        }
    }

    /// Whether a record of this level passes a filter set to `min_level`.
    pub fn at_least(&self, min_level: LogLevel) -> (passes: bool)
        ensures
            passes == (self.spec_rank() >= min_level.spec_rank()),
    {
        self.rank() >= min_level.rank()
    }

    /// The upper-case name of the level.
    #[must_use]
    pub fn as_str(&self) -> (s: &'static str)
        ensures
            s@ == self.name(),
    {
        match self {
            LogLevel::Debug => {
                proof {
                    reveal_strlit("DEBUG");
                }
                "DEBUG"
            },
            LogLevel::Error => {
                proof {
                    reveal_strlit("ERROR");
                }
                "ERROR"
            },
            LogLevel::Info => {
                proof {
                    reveal_strlit("INFO");
                }
                "INFO"
            },
            LogLevel::Warn => {
                proof {
                    reveal_strlit("WARN");
                }
                "WARN"
            },
        }
    }

    /// The name of the level, wrapped in the escape sequences that make a
    /// terminal show it in the colour that `color_settings` gives the level.
    #[must_use]
    pub fn get_colored_string(&self, color_settings: &ColorSettings) -> (s: String)
        ensures
            s@ == self.colored_name(*color_settings),
    {
        let level_str = self.as_str();
        match self {
            LogLevel::Debug => truecolor(
                level_str,
                color_settings.debug.red,
                color_settings.debug.green,
                color_settings.debug.blue,
            ),
            LogLevel::Info => truecolor(
                level_str,
                color_settings.info.red,
                color_settings.info.green,
                color_settings.info.blue,
            ),
            LogLevel::Warn => truecolor(
                level_str,
                color_settings.warn.red,
                color_settings.warn.green,
                color_settings.warn.blue,
            ),
            LogLevel::Error => truecolor(
                level_str,
                color_settings.error.red,
                color_settings.error.green,
                color_settings.error.blue,
            ),
        }
    }
}

impl Default for LogLevel {
    fn default() -> (level: Self)
        ensures
            level == LogLevel::Debug,
    {
        LogLevel::Debug
    }
}

} // verus!

//! Severity levels, with their symbol and colours.
use vstd::prelude::*;

use crate::flags::{bit_on, NO_BOLD, NO_COLOR};
use crate::paint::{Ink, Shade};

verus! {

/// The severity of a log call.
#[derive(Clone, Copy, Debug, PartialEq, Eq, Structural)]
pub enum Level {
    Info,
    Warn,
    Error,
    Success,
    Critical,
}

/// The one-character symbol shown in the header; all five are ASCII.
pub open spec fn symbol_of(level: Level) -> char {
    match level {
        Level::Info => '*',
        Level::Warn => '~',
        Level::Error => '!',
        Level::Success => '+',
        Level::Critical => '%',
    }
}

/// The foreground colour: blue, yellow, red, green, and white for critical.
pub open spec fn shade_of(level: Level) -> Shade {
    match level {
        Level::Info => Shade::Blue,
        Level::Warn => Shade::Yellow,
        Level::Error => Shade::Red,
        Level::Success => Shade::Green,
        Level::Critical => Shade::White,
    }
}

/// The background colour: red for critical, none otherwise.
pub open spec fn backdrop_of(level: Level) -> Option<Shade> {
    match level {
        Level::Critical => Some(Shade::Red),
        _ => None,
    }
}

/// Whether the message body of this level is bold (error, success, critical).
pub open spec fn emphatic(level: Level) -> bool {
    match level {
        Level::Error | Level::Success | Level::Critical => true,
        _ => false,
    }
}

/// The ink of the header pieces: the level's colours unless `NO_COLOR`,
/// bold unless `NO_BOLD`.
pub open spec fn header_ink_of(flags: u8, level: Level) -> Ink {
    Ink {
        fg: if bit_on(flags, NO_COLOR) { None } else { Some(shade_of(level)) },
        bg: if bit_on(flags, NO_COLOR) { None } else { backdrop_of(level) },
        bold: !bit_on(flags, NO_BOLD),
    }
}

/// The ink of the message body: the level's colours unless `NO_COLOR`,
/// bold for the emphatic levels unless `NO_BOLD`.
pub open spec fn body_ink_of(flags: u8, level: Level) -> Ink {
    Ink {
        fg: if bit_on(flags, NO_COLOR) { None } else { Some(shade_of(level)) },
        bg: if bit_on(flags, NO_COLOR) { None } else { backdrop_of(level) },
        bold: !bit_on(flags, NO_BOLD) && emphatic(level),
    }
}

impl Level {
    /// The one-character symbol shown in the header.
    pub fn symbol(self) -> (c: char)
        ensures
            c == symbol_of(self),
    {
        match self {
            Level::Info => '*',
            Level::Warn => '~',
            Level::Error => '!',
            Level::Success => '+',
            Level::Critical => '%',
        }
    }

    fn shade(self) -> (s: Shade)
        ensures
            s == shade_of(self),
    {
        match self {
            Level::Info => Shade::Blue,
            Level::Warn => Shade::Yellow,
            Level::Error => Shade::Red,
            Level::Success => Shade::Green,
            Level::Critical => Shade::White,
        }
    }

    fn backdrop(self) -> (s: Option<Shade>)
        ensures
            s == backdrop_of(self),
    {
        match self {
            Level::Critical => Some(Shade::Red),
            _ => None,
        }
    }

    fn is_emphatic(self) -> (b: bool)
        ensures
            b == emphatic(self),
    {
        match self {
            Level::Error | Level::Success | Level::Critical => true,
            _ => false,
        }
    }

    /// The ink of the header pieces under `flags`.
    pub fn header_ink(self, flags: u8) -> (ink: Ink)
        ensures
            ink == header_ink_of(flags, self),
    {
        let colored = flags & NO_COLOR == 0;
        Ink {
            fg: if colored { Some(self.shade()) } else { None },
            bg: if colored { self.backdrop() } else { None },
            bold: flags & NO_BOLD == 0,
        }
    }

    /// The ink of the message body under `flags`.
    pub fn body_ink(self, flags: u8) -> (ink: Ink)
        ensures
            ink == body_ink_of(flags, self),
    {
        let colored = flags & NO_COLOR == 0;
        Ink {
            fg: if colored { Some(self.shade()) } else { None },
            bg: if colored { self.backdrop() } else { None },
            bold: flags & NO_BOLD == 0 && self.is_emphatic(),
        }
    }
}

} // verus!

//! Score data: the per-frame channel data of a movie.

pub mod sprite_bitmask;
pub mod stream;
pub mod frame;
pub mod palette;
pub mod score;
pub mod sprite;
pub mod tempo;
pub mod transition;

use vstd::prelude::*;

verus! {

/// The version of the score data format.
#[derive(Clone, Copy, Debug, PartialEq, Eq, Structural)]
pub enum Version {
    Unknown,
    V3,
    V4,
    V5,
    V6,
    V7,
}

impl Version {
    /// The number of the version, by which versions are ordered; zero for an
    /// unknown version.
    pub open spec fn spec_num(self) -> int {
        match self {
            Version::Unknown => 0,
            Version::V3 => 3,
            Version::V4 => 4,
            Version::V5 => 5,
            Version::V6 => 6,
            Version::V7 => 7,
        }
    }

    /// The number of the version, by which versions are ordered; zero for an
    /// unknown version.
    pub fn num(self) -> (r: u8)
        ensures
            r == self.spec_num(),
    {
        match self {
            Version::Unknown => 0,
            Version::V3 => 3,
            Version::V4 => 4,
            Version::V5 => 5,
            Version::V6 => 6,
            Version::V7 => 7,
        }
    }

    /// The version with the given stored number, if any.
    pub fn from_i16(value: i16) -> (r: Option<Version>)
        ensures
            match r {
                Some(v) => v.spec_num() == value && value != 0,
                None => !(3 <= value <= 7),
            },
    {
        match value {
            3 => Some(Version::V3),
            4 => Some(Version::V4),
            5 => Some(Version::V5),
            6 => Some(Version::V6),
            7 => Some(Version::V7),
            _ => None,
        }
    }
}

impl Default for Version {
    /// An unknown version.
    fn default() -> (r: Self)
        ensures
            r == Version::Unknown,
    {
        Version::Unknown
    }
}

/// Why score data could not be read.
#[derive(Clone, Copy, Debug, PartialEq, Eq, Structural)]
pub enum ParseError {
    /// The data ended before the value being read.
    UnexpectedEnd,
    /// A tempo value that does not encode a tempo.
    InvalidTempo(i16),
    /// A sprite kind that is not defined.
    InvalidSpriteKind(u8),
    /// Palette flags with undefined bits set.
    InvalidPaletteFlags(u8),
    /// The score version is unknown.
    UnknownVersion,
    /// A built-in transition number that names no transition.
    UnknownTransitionKind(u8),
}

} // verus!

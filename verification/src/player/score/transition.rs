//! The transition channel of a score frame.

use crate::bytes::as_signed8;
use crate::cast::{read_member_id, spec_member_id_at, MemberId};
use super::tempo::{spec_tempo, Tempo};
use super::{ParseError, Version};
use vstd::prelude::*;

verus! {

/// A duration in quarters of a second.
#[derive(Clone, Copy, Debug, PartialEq, Eq, Structural)]
pub struct QuarterSeconds(pub u8);

/// The transition channel of a score frame.
#[derive(Clone, Copy, Debug, PartialEq, Eq, Structural)]
pub enum Transition {
    /// No transition.
    Empty,
    /// A transition cast member.
    Cast(MemberId),
    /// No transition, but a tempo, in score data before Director 6.
    LegacyTempo(Tempo),
    /// A built-in transition and a tempo, in score data before Director 6.
    Legacy {
        chunk_size: u8,
        /// The number of the built-in transition, from 1 to
        /// `LAST_TRANSITION_KIND`.
        which_transition: u8,
        time: QuarterSeconds,
        change_area: bool,
        tempo: Tempo,
    },
}

impl Default for Transition {
    /// No transition.
    fn default() -> (r: Self)
        ensures
            r == Transition::Empty,
    {
        Transition::Empty
    }
}

/// The number of the last of the built-in transitions, which are numbered
/// from 1 (wipe right) to 52 (dissolve, bits).
pub const LAST_TRANSITION_KIND: u8 = 52;

/// The tempo of a transition channel.
pub open spec fn spec_transition_tempo(t: Transition) -> Tempo {
    match t {
        Transition::Legacy { tempo, .. } => tempo,
        Transition::LegacyTempo(tempo) => tempo,
        _ => Tempo::Inherit,
    }
}

/// The tempo stored in a legacy transition byte.
pub open spec fn spec_legacy_tempo(b: u8) -> Result<Tempo, ParseError> {
    match spec_tempo(as_signed8(b as int)) {
        Ok(t) => Ok(t),
        Err(e) => Err(ParseError::InvalidTempo(e.0)),
    }
}

/// The transition channel encoded by the four bytes at `pos`.
pub open spec fn spec_transition_at(buf: Seq<u8>, pos: int, version: Version) -> Result<Transition, ParseError> {
    let d0 = buf[pos];
    let d1 = buf[pos + 1];
    let d2 = buf[pos + 2];
    let d3 = buf[pos + 3];
    if version.spec_num() < 6 {
        if d3 == 0 {
            if d2 == 0 {
                Ok(Transition::Empty)
            } else {
                match spec_legacy_tempo(d2) {
                    Ok(t) => Ok(Transition::LegacyTempo(t)),
                    Err(e) => Err(e),
                }
            }
        } else if d3 > LAST_TRANSITION_KIND {
            Err(ParseError::UnknownTransitionKind(d3))
        } else {
            match spec_legacy_tempo(d2) {
                Ok(t) => Ok(Transition::Legacy {
                    chunk_size: d1,
                    which_transition: d3,
                    time: QuarterSeconds(d0 & 0x7f),
                    change_area: d0 & 0x80 != 0,
                    tempo: t,
                }),
                Err(e) => Err(e),
            }
        }
    } else if d0 == 0 && d1 == 0 && d2 == 0 && d3 == 0 {
        Ok(Transition::Empty)
    } else {
        Ok(Transition::Cast(spec_member_id_at(buf, pos)))
    }
}

impl Transition {
    /// The tempo of the transition channel: the tempo stored with a legacy
    /// transition, or "inherit" otherwise.
    pub fn tempo(&self) -> (r: Tempo)
        ensures
            r == spec_transition_tempo(*self),
    {
        match self {
            Transition::Legacy { tempo, .. } => *tempo,
            Transition::LegacyTempo(tempo) => *tempo,
            Transition::Empty | Transition::Cast(..) => Tempo::Inherit,
        }
    }
}

/// Decodes a legacy tempo byte.
fn legacy_tempo(b: u8) -> (r: Result<Tempo, ParseError>)
    ensures
        r == spec_legacy_tempo(b),
{
    let value: i16 = if b < 0x80 { b as i16 } else { b as i16 - 0x100 };
    match Tempo::new(value) {
        Ok(t) => Ok(t),
        Err(e) => Err(ParseError::InvalidTempo(e.0)),
    }
}

/// Reads the transition channel from the four bytes at `pos`.
pub fn read_transition(buf: &[u8], pos: usize, version: Version) -> (r: Result<Transition, ParseError>)
    requires
        pos + 4 <= buf.len(),
    ensures
        r == spec_transition_at(buf@, pos as int, version),
{
    let d0 = buf[pos];
    let d1 = buf[pos + 1];
    let d2 = buf[pos + 2];
    let d3 = buf[pos + 3];
    if version.num() < 6 {
        if d3 == 0 {
            if d2 == 0 {
                Ok(Transition::Empty)
            } else {
                match legacy_tempo(d2) {
                    Ok(t) => Ok(Transition::LegacyTempo(t)),
                    Err(e) => Err(e),
                }
            }
        } else if d3 > LAST_TRANSITION_KIND {
            Err(ParseError::UnknownTransitionKind(d3))
        } else {
            match legacy_tempo(d2) {
                Ok(t) => Ok(Transition::Legacy {
                    chunk_size: d1,
                    which_transition: d3,
                    time: QuarterSeconds(d0 & 0x7f),
                    change_area: d0 & 0x80 != 0,
                    tempo: t,
                }),
                Err(e) => Err(e),
            }
        }
    } else if d0 == 0 && d1 == 0 && d2 == 0 && d3 == 0 {
        Ok(Transition::Empty)
    } else {
        Ok(Transition::Cast(read_member_id(buf, pos)))
    }
}

} // verus!

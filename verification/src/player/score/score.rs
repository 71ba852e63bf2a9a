//! The score of a movie: its frames, read one at a time.

use crate::bytes::{as_signed16, be_u16_at, be_u32_at, read_be_i16, read_be_u16, read_be_u32};
use super::frame::{spec_default_frame, spec_frame, Frame, FrameView, V0_SIZE_IN_CELLS, V5_SIZE_IN_CELLS};
use super::sprite::{V0_SIZE, V5_SIZE};
use super::sprite_bitmask::{SpriteBitmask, NUM_SPRITES, SCRIPT, TRANSITION};
use super::stream::{spec_keep_channels, Decoded, Stream, StreamError};
use super::tempo::{Fps, FrameNum, Tempo};
use super::Version;
use vstd::prelude::*;

verus! {

/// The first configuration version that stores the Director 4 score header.
pub const CONFIG_VERSION_V1113: u16 = 1113;
/// The first configuration version whose score data is not supported.
pub const CONFIG_VERSION_V1222: u16 = 1222;

/// The size of the score header from Director 4 on.
pub const HEADER_V5_SIZE: u32 = 20;

/// The size, in sprite-sized cells, of a stored frame.
pub open spec fn spec_frame_size_in_cells(version: Version) -> u16 {
    if version.spec_num() < 5 { V0_SIZE_IN_CELLS } else { V5_SIZE_IN_CELLS }
}

/// The stored size of one sprite.
pub open spec fn spec_sprite_size(version: Version) -> u16 {
    if version.spec_num() < 5 { V0_SIZE } else { V5_SIZE }
}

/// The size, in sprite-sized cells, of a stored frame.
pub fn frame_size_in_cells(version: Version) -> (r: u16)
    ensures
        r == spec_frame_size_in_cells(version),
{
    if version.num() < 5 { V0_SIZE_IN_CELLS } else { V5_SIZE_IN_CELLS }
}

/// The stored size of one sprite.
pub fn sprite_size(version: Version) -> (r: u16)
    ensures
        r == spec_sprite_size(version),
{
    if version.num() < 5 { V0_SIZE } else { V5_SIZE }
}

/// Why a score could not be read.
#[derive(Clone, Copy, Debug, PartialEq, Eq, Structural)]
pub enum ScoreError {
    /// The data ended inside the header.
    UnexpectedEnd,
    /// The size recorded in the header is larger than the data.
    OwnSizeTooLarge { own_size: u32, size: u32 },
    /// The header size is not the expected one.
    BadHeaderSize(u32),
    /// The stored score version is not a known version.
    UnknownVersion(i16),
    /// The score version is not one that uses this header.
    BadVersion(i16),
    /// The stored sprite size does not match the version.
    BadFrameCellSize(u16),
    /// The stored number of cells per frame does not match the version.
    BadFrameCellCount(u16),
    /// An unexpected value in byte 0x12 of the header.
    BadField12(u8),
    /// An unexpected value in byte 0x13 of the header.
    BadField13(u8),
}

/// The score version with the given stored number, counting zero as the
/// unknown version.
pub open spec fn spec_stored_version(value: int) -> Option<Version> {
    if value == 0 { Some(Version::Unknown) }
    else if value == 3 { Some(Version::V3) }
    else if value == 4 { Some(Version::V4) }
    else if value == 5 { Some(Version::V5) }
    else if value == 6 { Some(Version::V6) }
    else if value == 7 { Some(Version::V7) }
    else { None }
}

/// The size recorded in the header, the score version, and the position of
/// the first frame; or why the header is bad.
pub open spec fn spec_score_header(data: Seq<u8>, config_version: u16) -> Result<(u32, Version, int), ScoreError> {
    let size = data.len();
    if data.len() < 4 {
        Err(ScoreError::UnexpectedEnd)
    } else if be_u32_at(data, 0) > size {
        Err(ScoreError::OwnSizeTooLarge { own_size: be_u32_at(data, 0) as u32, size: size as u32 })
    } else if config_version < CONFIG_VERSION_V1113 {
        Ok((be_u32_at(data, 0) as u32, Version::V3, 4))
    } else if data.len() < 8 {
        Err(ScoreError::UnexpectedEnd)
    } else if be_u32_at(data, 4) != HEADER_V5_SIZE {
        Err(ScoreError::BadHeaderSize(be_u32_at(data, 4) as u32))
    } else if data.len() < 14 {
        Err(ScoreError::UnexpectedEnd)
    } else {
        let raw_version = as_signed16(be_u16_at(data, 12));
        match spec_stored_version(raw_version) {
            None => Err(ScoreError::UnknownVersion(raw_version as i16)),
            Some(version) => if version.spec_num() < 4 {
                Err(ScoreError::BadVersion(raw_version as i16))
            } else if data.len() < 16 {
                Err(ScoreError::UnexpectedEnd)
            } else if be_u16_at(data, 14) != spec_sprite_size(version) {
                Err(ScoreError::BadFrameCellSize(be_u16_at(data, 14) as u16))
            } else if data.len() < 18 {
                Err(ScoreError::UnexpectedEnd)
            } else if be_u16_at(data, 16) != spec_frame_size_in_cells(version) {
                Err(ScoreError::BadFrameCellCount(be_u16_at(data, 16) as u16))
            } else if data.len() < 19 {
                Err(ScoreError::UnexpectedEnd)
            } else if data[18] != 0 && data[18] != 1 {
                Err(ScoreError::BadField12(data[18]))
            } else if data.len() < 20 {
                Err(ScoreError::UnexpectedEnd)
            } else if data[19] != 0 {
                Err(ScoreError::BadField13(data[19]))
            } else {
                Ok((be_u32_at(data, 0) as u32, version, 20))
            },
        }
    }
}

/// Reads the score header.
fn read_score_header(data: &[u8], config_version: u16) -> (r: Result<(u32, Version, usize), ScoreError>)
    requires
        data.len() <= u32::MAX,
    ensures
        spec_score_header(data@, config_version) == match r {
            Ok((own, v, pos)) => Ok::<(u32, Version, int), ScoreError>((own, v, pos as int)),
            Err(e) => Err(e),
        },
{
    let size = data.len() as u32;
    if data.len() < 4 {
        return Err(ScoreError::UnexpectedEnd);
    }
    let own_size = read_be_u32(data, 0);
    if own_size > size {
        return Err(ScoreError::OwnSizeTooLarge { own_size, size });
    }
    if config_version < CONFIG_VERSION_V1113 {
        return Ok((own_size, Version::V3, 4));
    }
    if data.len() < 8 {
        return Err(ScoreError::UnexpectedEnd);
    }
    let header_size = read_be_u32(data, 4);
    if header_size != HEADER_V5_SIZE {
        return Err(ScoreError::BadHeaderSize(header_size));
    }
    if data.len() < 14 {
        return Err(ScoreError::UnexpectedEnd);
    }
    let raw_version = read_be_i16(data, 12);
    let version = if raw_version == 0 {
        Version::Unknown
    } else {
        match Version::from_i16(raw_version) {
            Some(v) => v,
            None => return Err(ScoreError::UnknownVersion(raw_version)),
        }
    };
    if version.num() < 4 {
        return Err(ScoreError::BadVersion(raw_version));
    }
    if data.len() < 16 {
        return Err(ScoreError::UnexpectedEnd);
    }
    let cell_size = read_be_u16(data, 14);
    if cell_size != sprite_size(version) {
        return Err(ScoreError::BadFrameCellSize(cell_size));
    }
    if data.len() < 18 {
        return Err(ScoreError::UnexpectedEnd);
    }
    let cell_count = read_be_u16(data, 16);
    if cell_count != frame_size_in_cells(version) {
        return Err(ScoreError::BadFrameCellCount(cell_count));
    }
    if data.len() < 19 {
        return Err(ScoreError::UnexpectedEnd);
    }
    if data[18] != 0 && data[18] != 1 {
        return Err(ScoreError::BadField12(data[18]));
    }
    if data.len() < 20 {
        return Err(ScoreError::UnexpectedEnd);
    }
    if data[19] != 0 {
        return Err(ScoreError::BadField13(data[19]));
    }
    Ok((own_size, version, 20))
}

/// The score of a movie, read one frame at a time.
#[derive(Debug)]
pub struct Score {
    vwsc: Stream,
    current_frame: Frame,
    puppet_sprites: SpriteBitmask,
    current_frame_num: FrameNum,
    current_tempo: Tempo,
}

impl Score {
    /// The frame data stream.
    pub closed spec fn stream(self) -> Stream {
        self.vwsc
    }

    /// The last frame read.
    pub closed spec fn current_frame(self) -> FrameView {
        self.current_frame@
    }

    /// The number of the last frame read; zero before the first.
    pub closed spec fn current_frame_num(self) -> int {
        self.current_frame_num.0 as int
    }

    /// The channels that scripts control instead of the score.
    pub closed spec fn puppet_sprites(self) -> SpriteBitmask {
        self.puppet_sprites
    }

    /// The current tempo.
    pub closed spec fn current_tempo(self) -> Tempo {
        self.current_tempo
    }

    /// Reads a score from its data. `config_version` is the version number of
    /// the movie's configuration, which decides the layout of the header.
    pub fn read(data: Vec<u8>, config_version: u16) -> (r: Result<Score, ScoreError>)
        requires
            data.len() <= u32::MAX,
            config_version < CONFIG_VERSION_V1222,
        ensures
            match spec_score_header(data@, config_version) {
                Err(e) => r == Err::<Score, ScoreError>(e),
                Ok((own_size, version, pos)) => r matches Ok(score) && {
                    &&& score.stream().data() == data@
                    &&& score.stream().position() == pos
                    &&& score.stream().start_pos() == pos
                    &&& score.stream().end_pos() == own_size
                    &&& score.stream().version() == version
                    &&& score.stream().last_frame() == spec_default_frame()
                    &&& score.stream().raw_last_frame() == Seq::new(super::frame::V5_SIZE as nat, |i: int| 0u8)
                    &&& score.current_frame() == spec_default_frame()
                    &&& score.current_frame_num() == 0
                    &&& score.puppet_sprites().all_zero()
                    &&& score.current_tempo() == Tempo::Fps(Fps(15))
                },
            },
    {
        let (own_size, version, pos) = match read_score_header(data.as_slice(), config_version) {
            Ok(h) => h,
            Err(e) => return Err(e),
        };
        Ok(Score {
            vwsc: Stream::new(data, pos as u32, own_size, version),
            current_frame: Frame::default(),
            puppet_sprites: SpriteBitmask::empty(),
            current_frame_num: FrameNum(0),
            current_tempo: Tempo::Fps(Fps(15)),
        })
    }

    /// Whether a decoded next frame can be taken as the current one: no
    /// script or transition channel is puppeted, and the frame number has
    /// room to grow. Together with `next_is_defined`, this is enough for
    /// `next`.
    pub fn can_advance(&self) -> (r: bool)
        ensures
            r == (!self.puppet_sprites().has(SCRIPT as int) && !self.puppet_sprites().has(TRANSITION as int)
                && self.current_frame_num() < i16::MAX),
    {
        !self.puppet_sprites.contains(SCRIPT) && !self.puppet_sprites.contains(TRANSITION)
            && self.current_frame_num.0 < i16::MAX
    }

    /// Whether decompressing the next frame has a defined result, as
    /// `next` requires.
    pub fn next_is_defined(&self) -> (r: bool)
        ensures
            r == !(self.stream().spec_next_decoded() is Undefined),
    {
        self.vwsc.next_is_defined()
    }

    /// Reads the next frame of the score, keeping the puppeted channels of
    /// the kept frame, and makes it the current frame.
    pub fn next(&mut self) -> (r: Option<Result<Frame, StreamError>>)
        requires
            !(old(self).stream().spec_next_decoded() is Undefined),
            old(self).stream().frame_follows() ==> {
                &&& !old(self).puppet_sprites().has(SCRIPT as int)
                &&& !old(self).puppet_sprites().has(TRANSITION as int)
                &&& old(self).current_frame_num() < i16::MAX
            },
        ensures
            r matches Some(Ok(f)) ==> f.sprites@.len() == NUM_SPRITES,
            final(self).puppet_sprites() == old(self).puppet_sprites(),
            final(self).current_tempo() == old(self).current_tempo(),
            match r {
                None => old(self).stream().spec_next_decoded() is End
                    && final(self).current_frame_num() == old(self).current_frame_num()
                    && final(self).current_frame() == old(self).current_frame(),
                Some(Err(_)) => final(self).current_frame_num() == old(self).current_frame_num()
                    && final(self).current_frame() == old(self).current_frame(),
                Some(Ok(frame)) => final(self).current_frame_num() == old(self).current_frame_num() + 1
                    && final(self).current_frame() == frame@,
            },
            final(self).stream().data() == old(self).stream().data(),
            final(self).stream().start_pos() == old(self).stream().start_pos(),
            final(self).stream().end_pos() == old(self).stream().end_pos(),
            final(self).stream().version() == old(self).stream().version(),
            final(self).stream().last_frame() == old(self).stream().last_frame(),
            match old(self).stream().spec_next_decoded() {
                Decoded::End => r is None && final(self).stream() == old(self).stream(),
                Decoded::Failed { pos, err } => {
                    &&& r == Some(Err::<Frame, StreamError>(err))
                    &&& final(self).stream().position() == pos
                    &&& final(self).stream().raw_last_frame() == old(self).stream().raw_last_frame()
                },
                Decoded::Done { pos, raw } => {
                    &&& final(self).stream().position() == pos
                    &&& match spec_frame(raw, old(self).stream().version()) {
                        Err(e) => {
                            &&& r == Some(Err::<Frame, StreamError>(StreamError::Frame(e)))
                            &&& final(self).stream().raw_last_frame() == old(self).stream().raw_last_frame()
                        },
                        Ok(frame) => {
                            &&& r matches Some(Ok(f)) && f@ == spec_keep_channels(frame, old(self).stream().last_frame(), old(self).puppet_sprites())
                            &&& final(self).stream().raw_last_frame() == raw
                        },
                    }
                },
                Decoded::Undefined => false,
            },
    {
        match self.vwsc.next(self.puppet_sprites) {
            Ok(Some(frame)) => {
                self.current_frame = frame.clone();
                self.current_frame_num = FrameNum(self.current_frame_num.0 + 1);
                Some(Ok(frame))
            },
            Ok(None) => None,
            Err(e) => Some(Err(e)),
        }
    }
}

} // verus!

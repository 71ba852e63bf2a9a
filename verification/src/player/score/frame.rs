//! A frame of score data.

use crate::bytes::as_signed8;
use crate::cast::{read_member_id, read_member_num_id, spec_member_id_at, spec_member_num_id_at, MemberId};
use super::palette::{read_palette_v4, spec_default_palette, spec_palette_v4_at, Palette};
use super::sprite::{read_sprite, spec_default_sprite, spec_sprite_at, spec_sprite_stride, Sprite};
use super::sprite_bitmask::NUM_SPRITES;
use super::tempo::{spec_tempo, Tempo};
use super::transition::{read_transition, spec_transition_at, spec_transition_tempo, Transition};
use super::{ParseError, Version};
use vstd::prelude::*;

verus! {

/// The number of sprite channels stored in a frame before Director 5.
pub const V4_CELL_COUNT: u16 = 48;
/// The size of a stored frame, in sprite-sized cells, before Director 5.
pub const V0_SIZE_IN_CELLS: u16 = 50;
/// The number of sprite channels stored in a frame from Director 5 on.
pub const V5_CELL_COUNT: u16 = 48;
/// The size of a stored frame, in sprite-sized cells, from Director 5 on.
pub const V5_SIZE_IN_CELLS: u16 = 50;
/// The size of a stored frame from Director 5 on, in bytes.
pub const V5_SIZE: u16 = 1200;

/// The contents of a frame, as mathematical values.
pub struct FrameView {
    pub script: MemberId,
    pub sound_1: MemberId,
    pub sound_2: MemberId,
    pub transition: Transition,
    pub tempo_related: u8,
    pub sound_1_related: u8,
    pub sound_2_related: u8,
    pub script_related: u8,
    pub transition_related: u8,
    pub tempo: Tempo,
    pub palette: Palette,
    pub sprites: Seq<Sprite>,
}

/// A frame of score data: the contents of every channel.
#[derive(Debug)]
pub struct Frame {
    pub script: MemberId,
    pub sound_1: MemberId,
    pub sound_2: MemberId,
    pub transition: Transition,
    pub tempo_related: u8,
    pub sound_1_related: u8,
    pub sound_2_related: u8,
    pub script_related: u8,
    pub transition_related: u8,
    pub tempo: Tempo,
    pub palette: Palette,
    /// One entry per sprite channel.
    pub sprites: Vec<Sprite>,
}

impl View for Frame {
    type V = FrameView;

    open spec fn view(&self) -> FrameView {
        FrameView {
            script: self.script,
            sound_1: self.sound_1,
            sound_2: self.sound_2,
            transition: self.transition,
            tempo_related: self.tempo_related,
            sound_1_related: self.sound_1_related,
            sound_2_related: self.sound_2_related,
            script_related: self.script_related,
            transition_related: self.transition_related,
            tempo: self.tempo,
            palette: self.palette,
            sprites: self.sprites@,
        }
    }
}

impl Clone for Frame {
    /// A copy of the frame.
    fn clone(&self) -> (r: Self)
        ensures
            r@ == self@,
    {
        let mut sprites: Vec<Sprite> = Vec::new();
        let mut i: usize = 0;
        while i < self.sprites.len()
            invariant
                i <= self.sprites@.len(),
                sprites@ == self.sprites@.subrange(0, i as int),
            decreases self.sprites@.len() - i,
        {
            sprites.push(self.sprites[i]);
            i = i + 1;
            assert(sprites@ =~= self.sprites@.subrange(0, i as int));
        }
        assert(sprites@ =~= self.sprites@);
        Frame {
            script: self.script,
            sound_1: self.sound_1,
            sound_2: self.sound_2,
            transition: self.transition,
            tempo_related: self.tempo_related,
            sound_1_related: self.sound_1_related,
            sound_2_related: self.sound_2_related,
            script_related: self.script_related,
            transition_related: self.transition_related,
            tempo: self.tempo,
            palette: self.palette,
            sprites,
        }
    }
}

/// `n` empty sprites.
pub open spec fn spec_default_sprites(n: nat) -> Seq<Sprite> {
    Seq::new(n, |i: int| spec_default_sprite())
}

/// The empty frame.
pub open spec fn spec_default_frame() -> FrameView {
    FrameView {
        script: MemberId { lib: 0, num: 0 },
        sound_1: MemberId { lib: 0, num: 0 },
        sound_2: MemberId { lib: 0, num: 0 },
        transition: Transition::Empty,
        tempo_related: 0,
        sound_1_related: 0,
        sound_2_related: 0,
        script_related: 0,
        transition_related: 0,
        tempo: Tempo::Inherit,
        palette: spec_default_palette(),
        sprites: spec_default_sprites(NUM_SPRITES as nat),
    }
}

/// Makes `n` empty sprites.
fn default_sprites(n: usize) -> (r: Vec<Sprite>)
    ensures
        r@ == spec_default_sprites(n as nat),
{
    let mut v: Vec<Sprite> = Vec::new();
    let mut i: usize = 0;
    while i < n
        invariant
            i <= n,
            v@ == spec_default_sprites(i as nat),
        decreases n - i,
    {
        v.push(Sprite::default());
        i = i + 1;
        assert(v@ =~= spec_default_sprites(i as nat));
    }
    v
}

impl Default for Frame {
    /// The empty frame.
    fn default() -> (r: Self)
        ensures
            r@ == spec_default_frame(),
    {
        Frame {
            script: MemberId::default(),
            sound_1: MemberId::default(),
            sound_2: MemberId::default(),
            transition: Transition::default(),
            tempo_related: 0,
            sound_1_related: 0,
            sound_2_related: 0,
            script_related: 0,
            transition_related: 0,
            tempo: Tempo::Inherit,
            palette: Palette::default(),
            sprites: default_sprites(NUM_SPRITES),
        }
    }
}

/// The first `n` sprites stored from `start`, each `stride` bytes after the
/// previous one, or the error of the first one that cannot be read.
pub open spec fn spec_sprites(buf: Seq<u8>, start: int, version: Version, n: nat) -> Result<Seq<Sprite>, ParseError>
    decreases n,
{
    if n == 0 {
        Ok(Seq::empty())
    } else {
        match spec_sprites(buf, start, version, (n - 1) as nat) {
            Err(e) => Err(e),
            Ok(s) => match spec_sprite_at(buf, start + (n - 1) * spec_sprite_stride(version), version) {
                Err(e) => Err(e),
                Ok(sprite) => Ok(s.push(sprite)),
            },
        }
    }
}

proof fn lemma_sprites_error_persists(buf: Seq<u8>, start: int, version: Version, k: nat, n: nat)
    requires
        spec_sprites(buf, start, version, k) is Err,
        k <= n,
    ensures
        spec_sprites(buf, start, version, n) == spec_sprites(buf, start, version, k),
    decreases n - k,
{
    if k < n {
        lemma_sprites_error_persists(buf, start, version, k, (n - 1) as nat);
    }
}

/// The sprite channels of a frame: the stored cells from `start`, then empty
/// sprites up to the number of sprite channels.
pub open spec fn spec_sprite_cells(buf: Seq<u8>, start: int, version: Version) -> Result<Seq<Sprite>, ParseError> {
    match spec_sprites(buf, start, version, V5_CELL_COUNT as nat) {
        Err(e) => Err(e),
        Ok(s) => Ok(s + spec_default_sprites((NUM_SPRITES - V5_CELL_COUNT) as nat)),
    }
}

/// The first `n` sprites, when they can be read, are `n` sprites.
proof fn lemma_sprites_len(buf: Seq<u8>, start: int, version: Version, n: nat)
    ensures
        spec_sprites(buf, start, version, n) matches Ok(s) ==> s.len() == n,
    decreases n,
{
    if n > 0 {
        lemma_sprites_len(buf, start, version, (n - 1) as nat);
    }
}

/// A frame that decodes has a sprite for each sprite channel.
pub proof fn lemma_frame_sprites(buf: Seq<u8>, version: Version)
    ensures
        spec_frame(buf, version) matches Ok(frame) ==> frame.sprites.len() == NUM_SPRITES,
{
    let start = match version {
        Version::V3 => 32int,
        _ => 40int,
    };
    lemma_sprites_len(buf, start, version, V5_CELL_COUNT as nat);
}

/// Reads the sprite channels of a frame stored from `start`.
fn read_sprite_cells(buf: &[u8], start: usize, version: Version) -> (r: Result<Vec<Sprite>, ParseError>)
    requires
        start + V5_CELL_COUNT * spec_sprite_stride(version) <= buf.len(),
    ensures
        spec_sprite_cells(buf@, start as int, version) == match r {
            Ok(v) => Ok::<Seq<Sprite>, ParseError>(v@),
            Err(e) => Err(e),
        },
        r matches Ok(v) ==> v@.len() == NUM_SPRITES,
{
    let stride: usize = if version == Version::V3 { 16 } else if version == Version::V4 { 20 } else { 24 };
    let mut sprites: Vec<Sprite> = Vec::new();
    let mut k: usize = 0;
    let mut pos: usize = start;
    while k < V5_CELL_COUNT as usize
        invariant
            k <= V5_CELL_COUNT,
            stride == spec_sprite_stride(version),
            pos == start + k * stride,
            start + V5_CELL_COUNT * stride <= buf.len(),
            spec_sprites(buf@, start as int, version, k as nat) == Ok::<Seq<Sprite>, ParseError>(sprites@),
            sprites@.len() == k,
        decreases V5_CELL_COUNT - k,
    {
        assert(pos + stride <= buf.len()) by (nonlinear_arith)
            requires
                pos == start + k * stride,
                k < 48,
                start + 48 * stride <= buf.len(),
        ;
        match read_sprite(buf, pos, version) {
            Err(e) => {
                proof {
                    lemma_sprites_error_persists(buf@, start as int, version, (k + 1) as nat, V5_CELL_COUNT as nat);
                }
                return Err(e);
            },
            Ok(sprite) => {
                sprites.push(sprite);
            },
        }
        k = k + 1;
        pos = pos + stride;
        assert(pos == start + k * stride) by (nonlinear_arith)
            requires
                pos == start + (k - 1) * stride + stride,
        ;
    }
    let mut rest = default_sprites(NUM_SPRITES - V5_CELL_COUNT as usize);
    sprites.append(&mut rest);
    Ok(sprites)
}

/// The tempo channel of a Director 5 layout frame: kept in the transition
/// channel before Director 6, stored in its own byte from Director 6 on.
pub open spec fn spec_v5_tempo(buf: Seq<u8>, pos: int, version: Version, transition: Transition) -> Result<Tempo, ParseError> {
    if version.spec_num() < 6 {
        Ok(spec_transition_tempo(transition))
    } else {
        match spec_tempo(as_signed8(buf[pos] as int)) {
            Ok(t) => Ok(t),
            Err(e) => Err(ParseError::InvalidTempo(e.0)),
        }
    }
}

/// The frame stored in `buf` in the layout of the given version.
pub open spec fn spec_frame(buf: Seq<u8>, version: Version) -> Result<FrameView, ParseError> {
    match version {
        Version::Unknown => Err(ParseError::UnknownVersion),
        Version::V3 => match spec_transition_at(buf, 2, version) {
            Err(e) => Err(e),
            Ok(transition) => match spec_palette_v4_at(buf, 16, version) {
                Err(e) => Err(e),
                Ok(palette) => match spec_sprite_cells(buf, 32, version) {
                    Err(e) => Err(e),
                    Ok(sprites) => Ok(FrameView {
                        sound_1: spec_member_num_id_at(buf, 6),
                        sound_2: spec_member_num_id_at(buf, 8),
                        transition,
                        tempo: spec_transition_tempo(transition),
                        palette,
                        sprites,
                        ..spec_default_frame()
                    }),
                },
            },
        },
        Version::V4 => match spec_transition_at(buf, 2, version) {
            Err(e) => Err(e),
            Ok(transition) => match spec_palette_v4_at(buf, 20, version) {
                Err(e) => Err(e),
                Ok(palette) => match spec_sprite_cells(buf, 40, version) {
                    Err(e) => Err(e),
                    Ok(sprites) => Ok(FrameView {
                        script: spec_member_num_id_at(buf, 16),
                        sound_1: spec_member_num_id_at(buf, 6),
                        sound_2: spec_member_num_id_at(buf, 8),
                        transition,
                        tempo_related: buf[13],
                        sound_1_related: buf[14],
                        sound_2_related: buf[15],
                        script_related: buf[18],
                        transition_related: buf[19],
                        tempo: spec_transition_tempo(transition),
                        palette,
                        sprites,
                    }),
                },
            },
        },
        _ => match spec_transition_at(buf, 12, version) {
            Err(e) => Err(e),
            Ok(transition) => match spec_v5_tempo(buf, 21, version, transition) {
                Err(e) => Err(e),
                Ok(tempo) => match spec_palette_v4_at(buf, 24, Version::Unknown) {
                    Err(e) => Err(e),
                    Ok(palette) => match spec_sprite_cells(buf, 40, version) {
                        Err(e) => Err(e),
                        Ok(sprites) => Ok(FrameView {
                            script: spec_member_id_at(buf, 0),
                            sound_1: spec_member_id_at(buf, 4),
                            sound_2: spec_member_id_at(buf, 8),
                            transition,
                            tempo_related: buf[16],
                            sound_1_related: buf[17],
                            sound_2_related: buf[18],
                            script_related: buf[19],
                            transition_related: buf[20],
                            tempo,
                            palette,
                            sprites,
                        }),
                    },
                },
            },
        },
    }
}

impl Frame {
    /// Reads a frame stored in the layout of the given version.
    ///
    /// Frames in the Director 5 layout read their palette channel in the
    /// older layout, as the palette field carries no version.
    pub fn read(buf: &[u8], version: Version) -> (r: Result<Frame, ParseError>)
        requires
            V5_SIZE <= buf.len(),
        ensures
            spec_frame(buf@, version) == match r {
                Ok(f) => Ok::<FrameView, ParseError>(f@),
                Err(e) => Err(e),
            },
            r matches Ok(f) ==> f.sprites@.len() == NUM_SPRITES,
    {
        match version {
            Version::Unknown => Err(ParseError::UnknownVersion),
            Version::V3 => {
                let transition = match read_transition(buf, 2, version) {
                    Ok(t) => t,
                    Err(e) => return Err(e),
                };
                let palette = match read_palette_v4(buf, 16, version) {
                    Ok(p) => p,
                    Err(e) => return Err(e),
                };
                let sprites = match read_sprite_cells(buf, 32, version) {
                    Ok(s) => s,
                    Err(e) => return Err(e),
                };
                Ok(Frame {
                    script: MemberId::default(),
                    sound_1: read_member_num_id(buf, 6),
                    sound_2: read_member_num_id(buf, 8),
                    transition,
                    tempo_related: 0,
                    sound_1_related: 0,
                    sound_2_related: 0,
                    script_related: 0,
                    transition_related: 0,
                    tempo: transition.tempo(),
                    palette,
                    sprites,
                })
            },
            Version::V4 => {
                let transition = match read_transition(buf, 2, version) {
                    Ok(t) => t,
                    Err(e) => return Err(e),
                };
                let palette = match read_palette_v4(buf, 20, version) {
                    Ok(p) => p,
                    Err(e) => return Err(e),
                };
                let sprites = match read_sprite_cells(buf, 40, version) {
                    Ok(s) => s,
                    Err(e) => return Err(e),
                };
                Ok(Frame {
                    script: read_member_num_id(buf, 16),
                    sound_1: read_member_num_id(buf, 6),
                    sound_2: read_member_num_id(buf, 8),
                    transition,
                    tempo_related: buf[13],
                    sound_1_related: buf[14],
                    sound_2_related: buf[15],
                    script_related: buf[18],
                    transition_related: buf[19],
                    tempo: transition.tempo(),
                    palette,
                    sprites,
                })
            },
            Version::V5 | Version::V6 | Version::V7 => {
                let transition = match read_transition(buf, 12, version) {
                    Ok(t) => t,
                    Err(e) => return Err(e),
                };
                let tempo = if version.num() < 6 {
                    transition.tempo()
                } else {
                    let b = buf[21];
                    let value: i16 = if b < 0x80 { b as i16 } else { b as i16 - 0x100 };
                    match Tempo::new(value) {
                        Ok(t) => t,
                        Err(e) => return Err(ParseError::InvalidTempo(e.0)),
                    }
                };
                let palette = match read_palette_v4(buf, 24, Version::Unknown) {
                    Ok(p) => p,
                    Err(e) => return Err(e),
                };
                let sprites = match read_sprite_cells(buf, 40, version) {
                    Ok(s) => s,
                    Err(e) => return Err(e),
                };
                Ok(Frame {
                    script: read_member_id(buf, 0),
                    sound_1: read_member_id(buf, 4),
                    sound_2: read_member_id(buf, 8),
                    transition,
                    tempo_related: buf[16],
                    sound_1_related: buf[17],
                    sound_2_related: buf[18],
                    script_related: buf[19],
                    transition_related: buf[20],
                    tempo,
                    palette,
                    sprites,
                })
            },
        }
    }
}

} // verus!

//! The palette channel of a score frame.

use crate::bytes::{as_signed16, as_signed8, be_u16_at, read_be_i16};
use crate::cast::{read_member_id, read_member_num_id, spec_member_id_at, spec_member_num_id_at, MemberId};
use super::tempo::Fps;
use super::{ParseError, Version};
use vstd::prelude::*;

verus! {

/// The palette transition happens while the score plays instead of between
/// frames.
pub const SPAN_FRAMES: u8 = 4;
/// An undocumented palette flag.
pub const FLAG_8: u8 = 8;
/// Palette cycling goes back and forth instead of looping.
pub const CYCLE_AUTO_REVERSE: u8 = 0x10;
/// Fade to black.
pub const FADE_REVERSE: u8 = 0x20;
/// Fade to white.
pub const FADE: u8 = 0x40;
/// Cycle the palette instead of transitioning to it.
pub const ACTION_CYCLE: u8 = 0x80;
/// Every defined palette flag.
pub const ALL_FLAGS: u8 = 0xfc;

/// A palette index stored as a signed byte.
#[derive(Clone, Copy, Debug, PartialEq, Eq, Structural)]
pub struct SignedPaletteIndex(pub i8);

impl SignedPaletteIndex {
    /// The unsigned palette index: the stored value plus 128.
    pub fn to_palette_index(self) -> (r: u8)
        ensures
            r == self.0 + 128,
    {
        (self.0 as i16 + 128) as u8
    }
}

/// The palette channel of a score frame.
#[derive(Clone, Copy, Debug, PartialEq, Eq, Structural)]
pub struct Palette {
    pub id: MemberId,
    pub rate: Fps,
    pub flags: u8,
    pub cycle_start_color: SignedPaletteIndex,
    pub cycle_end_color: SignedPaletteIndex,
    pub num_frames: i16,
    pub num_cycles: i16,
    pub field_c: u8,
    pub field_d: u8,
    pub field_e: u8,
    pub field_f: u8,
}

/// The empty palette channel.
pub open spec fn spec_default_palette() -> Palette {
    Palette {
        id: MemberId { lib: 0, num: 0 },
        rate: Fps(0),
        flags: 0,
        cycle_start_color: SignedPaletteIndex(0),
        cycle_end_color: SignedPaletteIndex(0),
        num_frames: 0,
        num_cycles: 0,
        field_c: 0,
        field_d: 0,
        field_e: 0,
        field_f: 0,
    }
}

impl Default for Palette {
    /// The empty palette channel.
    fn default() -> (r: Self)
        ensures
            r == spec_default_palette(),
    {
        Palette {
            id: MemberId { lib: 0, num: 0 },
            rate: Fps(0),
            flags: 0,
            cycle_start_color: SignedPaletteIndex(0),
            cycle_end_color: SignedPaletteIndex(0),
            num_frames: 0,
            num_cycles: 0,
            field_c: 0,
            field_d: 0,
            field_e: 0,
            field_f: 0,
        }
    }
}

/// The number of the library of the built-in palettes.
pub const SYSTEM_LIB: i16 = -1;

/// The member number of the Macintosh system palette in the built-in library.
pub const SYSTEM_MAC: i16 = -1;
/// The member number of the rainbow palette in the built-in library.
pub const RAINBOW: i16 = -2;
/// The member number of the grayscale palette in the built-in library.
pub const GRAYSCALE: i16 = -3;
/// The member number of the pastels palette in the built-in library.
pub const PASTELS: i16 = -4;
/// The member number of the vivid palette in the built-in library.
pub const VIVID: i16 = -5;
/// The member number of the NTSC palette in the built-in library.
pub const NTSC: i16 = -6;
/// The member number of the metallic palette in the built-in library.
pub const METALLIC: i16 = -7;
/// The member number of the VGA palette in the built-in library.
pub const VGA: i16 = -8;
/// The member number of the Director 4 Windows system palette in the built-in
/// library.
pub const SYSTEM_WIN_DIR_4: i16 = -101;
/// The member number of the Windows system palette in the built-in library.
pub const SYSTEM_WIN: i16 = -102;
/// The member number of "no palette" in the built-in library.
pub const NOTHING: i16 = -200;

impl Palette {
    /// The palette used when a movie names none: the Windows system palette
    /// of Director 4.
    pub fn system_default() -> (r: MemberId)
        ensures
            r == (MemberId { lib: SYSTEM_LIB, num: SYSTEM_WIN_DIR_4 }),
    {
        MemberId { lib: SYSTEM_LIB, num: SYSTEM_WIN_DIR_4 }
    }
}

/// Whether a stored palette flags byte has only defined flags.
pub open spec fn palette_flags_valid(flags: u8) -> bool {
    flags & !ALL_FLAGS == 0
}

/// The stored size of a palette channel in the layout before Director 5:
/// sixteen bytes, plus three more in Director 4 data.
pub open spec fn spec_palette_v4_size(version: Version) -> int {
    if version == Version::V4 { 19 } else { 16 }
}

/// The palette channel stored in the layout before Director 5 at `pos`.
pub open spec fn spec_palette_v4_at(buf: Seq<u8>, pos: int, version: Version) -> Result<Palette, ParseError> {
    let flags = buf[pos + 4];
    if !palette_flags_valid(flags) {
        Err(ParseError::InvalidPaletteFlags(flags))
    } else {
        Ok(Palette {
            id: spec_member_num_id_at(buf, pos),
            cycle_start_color: SignedPaletteIndex(as_signed8(buf[pos + 2] as int) as i8),
            cycle_end_color: SignedPaletteIndex(as_signed8(buf[pos + 3] as int) as i8),
            flags,
            rate: Fps(as_signed8(buf[pos + 5] as int) as i16),
            num_frames: as_signed16(be_u16_at(buf, pos + 6)) as i16,
            num_cycles: as_signed16(be_u16_at(buf, pos + 8)) as i16,
            field_c: buf[pos + 10],
            field_d: buf[pos + 11],
            field_e: buf[pos + 12],
            field_f: buf[pos + spec_palette_v4_size(version) - 1],
        })
    }
}

/// The palette channel stored in the Director 5 layout at `pos`.
pub open spec fn spec_palette_v5_at(buf: Seq<u8>, pos: int) -> Result<Palette, ParseError> {
    let flags = buf[pos + 5];
    if !palette_flags_valid(flags) {
        Err(ParseError::InvalidPaletteFlags(flags))
    } else {
        Ok(Palette {
            id: spec_member_id_at(buf, pos),
            rate: Fps(as_signed8(buf[pos + 4] as int) as i16),
            flags,
            cycle_start_color: SignedPaletteIndex(as_signed8(buf[pos + 6] as int) as i8),
            cycle_end_color: SignedPaletteIndex(as_signed8(buf[pos + 7] as int) as i8),
            num_frames: as_signed16(be_u16_at(buf, pos + 8)) as i16,
            num_cycles: as_signed16(be_u16_at(buf, pos + 10)) as i16,
            field_c: buf[pos + 12],
            field_d: buf[pos + 13],
            field_e: buf[pos + 14],
            field_f: buf[pos + 15],
        })
    }
}

/// The palette channel stored at `pos` for the given version: the Director 5
/// layout from Director 5 on, the older layout otherwise.
pub open spec fn spec_palette_at(buf: Seq<u8>, pos: int, version: Version) -> Result<Palette, ParseError> {
    if version.spec_num() >= 5 {
        spec_palette_v5_at(buf, pos)
    } else {
        spec_palette_v4_at(buf, pos, version)
    }
}

fn signed_byte(b: u8) -> (r: i8)
    ensures
        r == as_signed8(b as int),
{
    if b < 0x80 { b as i8 } else { (b as i16 - 0x100) as i8 }
}

/// Reads the palette channel stored in the layout before Director 5 at `pos`.
pub fn read_palette_v4(buf: &[u8], pos: usize, version: Version) -> (r: Result<Palette, ParseError>)
    requires
        pos + spec_palette_v4_size(version) <= buf.len(),
    ensures
        r == spec_palette_v4_at(buf@, pos as int, version),
{
    let flags = buf[pos + 4];
    if flags & !ALL_FLAGS != 0 {
        return Err(ParseError::InvalidPaletteFlags(flags));
    }
    let last: usize = if version == Version::V4 { 18 } else { 15 };
    Ok(Palette {
        id: read_member_num_id(buf, pos),
        cycle_start_color: SignedPaletteIndex(signed_byte(buf[pos + 2])),
        cycle_end_color: SignedPaletteIndex(signed_byte(buf[pos + 3])),
        flags,
        rate: Fps(signed_byte(buf[pos + 5]) as i16),
        num_frames: read_be_i16(buf, pos + 6),
        num_cycles: read_be_i16(buf, pos + 8),
        field_c: buf[pos + 10],
        field_d: buf[pos + 11],
        field_e: buf[pos + 12],
        field_f: buf[pos + last],
    })
}

/// Reads the palette channel stored at `pos` for the given version.
pub fn read_palette(buf: &[u8], pos: usize, version: Version) -> (r: Result<Palette, ParseError>)
    requires
        pos + 19 <= buf.len(),
    ensures
        r == spec_palette_at(buf@, pos as int, version),
{
    if version.num() >= 5 {
        let flags = buf[pos + 5];
        if flags & !ALL_FLAGS != 0 {
            return Err(ParseError::InvalidPaletteFlags(flags));
        }
        Ok(Palette {
            id: read_member_id(buf, pos),
            rate: Fps(signed_byte(buf[pos + 4]) as i16),
            flags,
            cycle_start_color: SignedPaletteIndex(signed_byte(buf[pos + 6])),
            cycle_end_color: SignedPaletteIndex(signed_byte(buf[pos + 7])),
            num_frames: read_be_i16(buf, pos + 8),
            num_cycles: read_be_i16(buf, pos + 10),
            field_c: buf[pos + 12],
            field_d: buf[pos + 13],
            field_e: buf[pos + 14],
            field_f: buf[pos + 15],
        })
    } else {
        read_palette_v4(buf, pos, version)
    }
}

} // verus!

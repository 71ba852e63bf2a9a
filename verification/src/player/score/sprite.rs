//! The sprite channels of a score frame.

use crate::bytes::{as_signed16, be_u16_at, read_be_i16};
use crate::cast::{read_member_id, read_member_num_id, spec_member_id_at, spec_member_num_id_at, MemberId};
use crate::quickdraw::{read_point, spec_point_at, Point};
use super::{ParseError, Version};
use vstd::prelude::*;

verus! {

/// The kind of a sprite.
#[derive(Clone, Copy, Debug, PartialEq, Eq, Structural)]
pub enum Kind {
    Empty,
    Bitmap,
    Rect,
    RoundRect,
    Oval,
    /// A line drawn from the top-left to the bottom-right.
    LineDown,
    /// A line drawn from the bottom-right to the top-left.
    LineUp,
    Field,
    Button,
    CheckBox,
    RadioButton,
    Picture,
    RectOutline,
    RoundRectOutline,
    OvalOutline,
    LineMaybe,
    Cast,
    Text,
    Script,
}

/// The sprite kind with the given stored number, if any.
pub open spec fn spec_kind(b: u8) -> Option<Kind> {
    if b == 0 { Some(Kind::Empty) }
    else if b == 1 { Some(Kind::Bitmap) }
    else if b == 2 { Some(Kind::Rect) }
    else if b == 3 { Some(Kind::RoundRect) }
    else if b == 4 { Some(Kind::Oval) }
    else if b == 5 { Some(Kind::LineDown) }
    else if b == 6 { Some(Kind::LineUp) }
    else if b == 7 { Some(Kind::Field) }
    else if b == 8 { Some(Kind::Button) }
    else if b == 9 { Some(Kind::CheckBox) }
    else if b == 10 { Some(Kind::RadioButton) }
    else if b == 11 { Some(Kind::Picture) }
    else if b == 12 { Some(Kind::RectOutline) }
    else if b == 13 { Some(Kind::RoundRectOutline) }
    else if b == 14 { Some(Kind::OvalOutline) }
    else if b == 15 { Some(Kind::LineMaybe) }
    else if b == 16 { Some(Kind::Cast) }
    else if b == 17 { Some(Kind::Text) }
    else if b == 18 { Some(Kind::Script) }
    else { None }
}

/// The sprite kind with the given stored number, if any.
pub fn kind_from_u8(b: u8) -> (r: Option<Kind>)
    ensures
        r == spec_kind(b),
{
    match b {
        0 => Some(Kind::Empty),
        1 => Some(Kind::Bitmap),
        2 => Some(Kind::Rect),
        3 => Some(Kind::RoundRect),
        4 => Some(Kind::Oval),
        5 => Some(Kind::LineDown),
        6 => Some(Kind::LineUp),
        7 => Some(Kind::Field),
        8 => Some(Kind::Button),
        9 => Some(Kind::CheckBox),
        10 => Some(Kind::RadioButton),
        11 => Some(Kind::Picture),
        12 => Some(Kind::RectOutline),
        13 => Some(Kind::RoundRectOutline),
        14 => Some(Kind::OvalOutline),
        15 => Some(Kind::LineMaybe),
        16 => Some(Kind::Cast),
        17 => Some(Kind::Text),
        18 => Some(Kind::Script),
        _ => None,
    }
}

/// Whether a kind is one of the cast-member-based kinds that score data
/// before Director 7 stores separately.
pub open spec fn is_cast_based_kind(kind: Kind) -> bool {
    kind == Kind::Bitmap || kind == Kind::Field || kind == Kind::Button || kind == Kind::CheckBox
        || kind == Kind::RadioButton || kind == Kind::Picture || kind == Kind::Cast || kind == Kind::Text
}

/// The kind as Director 7 understands it: every cast-member-based kind
/// becomes `Cast`.
pub open spec fn spec_fix_v0_v6_sprite_kind(kind: Kind) -> Kind {
    if is_cast_based_kind(kind) { Kind::Cast } else { kind }
}

/// Converts a sprite kind from score data before Director 7: every
/// cast-member-based kind becomes `Cast`.
pub fn fix_v0_v6_sprite_kind(kind: Kind) -> (r: Kind)
    ensures
        r == spec_fix_v0_v6_sprite_kind(kind),
{
    match kind {
        Kind::Bitmap
        | Kind::Field
        | Kind::Button
        | Kind::CheckBox
        | Kind::RadioButton
        | Kind::Picture
        | Kind::Cast
        | Kind::Text => Kind::Cast,
        kind => kind,
    }
}

/// The ink number bits of the ink byte.
pub const INK_KIND: u8 = 0x3f;
/// The trails flag of the ink byte.
pub const INK_TRAILS: u8 = 0x40;
/// The stretch flag of the ink byte.
pub const INK_STRETCH: u8 = 0x80;
/// The line size bits of the line size byte.
pub const LINE_SIZE: u8 = 0x0f;
/// The blend flag of the line size byte.
pub const LINE_BLEND: u8 = 0x10;
/// The colour bits of the score colour byte.
pub const SCORE_COLOR: u8 = 0x0f;
/// The editable flag of the score colour byte.
pub const SCORE_EDITABLE: u8 = 0x40;
/// The moveable flag of the score colour byte.
pub const SCORE_MOVEABLE: u8 = 0x80;

/// One sprite channel of a score frame.
#[derive(Clone, Copy, Debug, PartialEq, Eq, Structural)]
pub struct Sprite {
    pub kind: Kind,
    pub ink_and_flags: u8,
    pub id: MemberId,
    pub script: MemberId,
    pub fore_color_index: u8,
    pub back_color_index: u8,
    pub origin: Point,
    pub height: i16,
    pub width: i16,
    pub score_color_and_flags: u8,
    pub blend_amount: u8,
    pub line_size_and_flags: u8,
}

/// The empty sprite.
pub open spec fn spec_default_sprite() -> Sprite {
    Sprite {
        kind: Kind::Empty,
        ink_and_flags: 0,
        id: MemberId { lib: 0, num: 0 },
        script: MemberId { lib: 0, num: 0 },
        fore_color_index: 0,
        back_color_index: 0,
        origin: Point { x: 0, y: 0 },
        height: 0,
        width: 0,
        score_color_and_flags: 0,
        blend_amount: 0,
        line_size_and_flags: 0,
    }
}

impl Default for Sprite {
    /// The empty sprite.
    fn default() -> (r: Self)
        ensures
            r == spec_default_sprite(),
    {
        Sprite {
            kind: Kind::Empty,
            ink_and_flags: 0,
            id: MemberId { lib: 0, num: 0 },
            script: MemberId { lib: 0, num: 0 },
            fore_color_index: 0,
            back_color_index: 0,
            origin: Point { x: 0, y: 0 },
            height: 0,
            width: 0,
            score_color_and_flags: 0,
            blend_amount: 0,
            line_size_and_flags: 0,
        }
    }
}

/// The stored size of a sprite before Director 5.
pub const V0_SIZE: u16 = 20;
/// The stored size of a sprite from Director 5 on.
pub const V5_SIZE: u16 = 24;
/// The stored size of a sprite in Director 3.
pub const V3_SIZE: u16 = 16;

/// The sprite stored in the Director 3 layout at `pos`.
pub open spec fn spec_sprite_v3_at(buf: Seq<u8>, pos: int) -> Result<Sprite, ParseError> {
    match spec_kind(buf[pos + 1]) {
        None => Err(ParseError::InvalidSpriteKind(buf[pos + 1])),
        Some(kind) => Ok(Sprite {
            kind: spec_fix_v0_v6_sprite_kind(kind),
            ink_and_flags: buf[pos + 5],
            id: spec_member_num_id_at(buf, pos + 6),
            fore_color_index: buf[pos + 2],
            back_color_index: buf[pos + 3],
            origin: spec_point_at(buf, pos + 8),
            height: as_signed16(be_u16_at(buf, pos + 12)) as i16,
            width: as_signed16(be_u16_at(buf, pos + 14)) as i16,
            ..spec_default_sprite()
        }),
    }
}

/// The sprite stored in the Director 4 layout at `pos`.
pub open spec fn spec_sprite_v4_at(buf: Seq<u8>, pos: int) -> Result<Sprite, ParseError> {
    match spec_kind(buf[pos + 1]) {
        None => Err(ParseError::InvalidSpriteKind(buf[pos + 1])),
        Some(kind) => Ok(Sprite {
            kind: spec_fix_v0_v6_sprite_kind(kind),
            ink_and_flags: buf[pos + 5],
            id: spec_member_num_id_at(buf, pos + 6),
            script: spec_member_num_id_at(buf, pos + 16),
            fore_color_index: buf[pos + 2],
            back_color_index: buf[pos + 3],
            origin: spec_point_at(buf, pos + 8),
            height: as_signed16(be_u16_at(buf, pos + 12)) as i16,
            width: as_signed16(be_u16_at(buf, pos + 14)) as i16,
            score_color_and_flags: buf[pos + 18],
            blend_amount: buf[pos + 19],
            line_size_and_flags: buf[pos + 4],
        }),
    }
}

/// The sprite stored in the Director 5 layout at `pos`; the kind is kept as
/// stored only in Director 7 data.
pub open spec fn spec_sprite_v5_at(buf: Seq<u8>, pos: int, version: Version) -> Result<Sprite, ParseError> {
    match spec_kind(buf[pos]) {
        None => Err(ParseError::InvalidSpriteKind(buf[pos])),
        Some(kind) => Ok(Sprite {
            kind: if version == Version::V7 { kind } else { spec_fix_v0_v6_sprite_kind(kind) },
            ink_and_flags: buf[pos + 1],
            id: spec_member_id_at(buf, pos + 2),
            script: spec_member_id_at(buf, pos + 6),
            fore_color_index: buf[pos + 10],
            back_color_index: buf[pos + 11],
            origin: spec_point_at(buf, pos + 12),
            height: as_signed16(be_u16_at(buf, pos + 16)) as i16,
            width: as_signed16(be_u16_at(buf, pos + 18)) as i16,
            score_color_and_flags: buf[pos + 20],
            blend_amount: buf[pos + 21],
            line_size_and_flags: buf[pos + 22],
        }),
    }
}

/// In every layout, the height and then the width follow the origin, each
/// a big-endian 16-bit signed number: the origin is at offset 8 in the
/// Director 3 and 4 layouts and at offset 12 in the Director 5 layout.
pub proof fn lemma_sprite_dimensions(buf: Seq<u8>, pos: int, version: Version)
    ensures
        spec_sprite_at(buf, pos, version) matches Ok(s) ==> {
            let o = if version == Version::V3 || version == Version::V4 { pos + 8 } else { pos + 12 };
            &&& s.origin == spec_point_at(buf, o)
            &&& s.height as int == as_signed16(be_u16_at(buf, o + 4))
            &&& s.width as int == as_signed16(be_u16_at(buf, o + 6))
        },
{
}

/// The stored size of one sprite in score data of the given version.
pub open spec fn spec_sprite_stride(version: Version) -> int {
    if version == Version::V3 { 16 } else if version == Version::V4 { 20 } else { 24 }
}

/// The sprite stored at `pos` in the layout of the given version.
pub open spec fn spec_sprite_at(buf: Seq<u8>, pos: int, version: Version) -> Result<Sprite, ParseError> {
    if version == Version::V3 {
        spec_sprite_v3_at(buf, pos)
    } else if version == Version::V4 {
        spec_sprite_v4_at(buf, pos)
    } else if version == Version::Unknown {
        Err(ParseError::UnknownVersion)
    } else {
        spec_sprite_v5_at(buf, pos, version)
    }
}

/// Reads the sprite stored at `pos` in the layout of the given version.
pub fn read_sprite(buf: &[u8], pos: usize, version: Version) -> (r: Result<Sprite, ParseError>)
    requires
        pos + spec_sprite_stride(version) <= buf.len(),
    ensures
        r == spec_sprite_at(buf@, pos as int, version),
{
    match version {
        Version::V3 => {
            let kind = match kind_from_u8(buf[pos + 1]) {
                Some(kind) => kind,
                None => return Err(ParseError::InvalidSpriteKind(buf[pos + 1])),
            };
            let mut sprite = Sprite::default();
            sprite.kind = fix_v0_v6_sprite_kind(kind);
            sprite.ink_and_flags = buf[pos + 5];
            sprite.id = read_member_num_id(buf, pos + 6);
            sprite.fore_color_index = buf[pos + 2];
            sprite.back_color_index = buf[pos + 3];
            sprite.origin = read_point(buf, pos + 8);
            sprite.height = read_be_i16(buf, pos + 12);
            sprite.width = read_be_i16(buf, pos + 14);
            Ok(sprite)
        },
        Version::V4 => {
            let kind = match kind_from_u8(buf[pos + 1]) {
                Some(kind) => kind,
                None => return Err(ParseError::InvalidSpriteKind(buf[pos + 1])),
            };
            Ok(Sprite {
                kind: fix_v0_v6_sprite_kind(kind),
                ink_and_flags: buf[pos + 5],
                id: read_member_num_id(buf, pos + 6),
                script: read_member_num_id(buf, pos + 16),
                fore_color_index: buf[pos + 2],
                back_color_index: buf[pos + 3],
                origin: read_point(buf, pos + 8),
                height: read_be_i16(buf, pos + 12),
                width: read_be_i16(buf, pos + 14),
                score_color_and_flags: buf[pos + 18],
                blend_amount: buf[pos + 19],
                line_size_and_flags: buf[pos + 4],
            })
        },
        Version::Unknown => Err(ParseError::UnknownVersion),
        Version::V5 | Version::V6 | Version::V7 => {
            let kind = match kind_from_u8(buf[pos]) {
                Some(kind) => kind,
                None => return Err(ParseError::InvalidSpriteKind(buf[pos])),
            };
            Ok(Sprite {
                kind: if version == Version::V7 { kind } else { fix_v0_v6_sprite_kind(kind) },
                ink_and_flags: buf[pos + 1],
                id: read_member_id(buf, pos + 2),
                script: read_member_id(buf, pos + 6),
                fore_color_index: buf[pos + 10],
                back_color_index: buf[pos + 11],
                origin: read_point(buf, pos + 12),
                height: read_be_i16(buf, pos + 16),
                width: read_be_i16(buf, pos + 18),
                score_color_and_flags: buf[pos + 20],
                blend_amount: buf[pos + 21],
                line_size_and_flags: buf[pos + 22],
            })
        },
    }
}

impl Sprite {
    /// The background colour.
    pub fn back_color_index(&self) -> (r: u8)
        ensures
            r == self.back_color_index,
    {
        self.back_color_index
    }

    /// Whether the sprite is blended.
    pub fn blend(&self) -> (r: bool)
        ensures
            r == (self.line_size_and_flags & LINE_BLEND != 0),
    {
        self.line_size_and_flags & LINE_BLEND != 0
    }

    /// The blend amount.
    pub fn blend_amount(&self) -> (r: u8)
        ensures
            r == self.blend_amount,
    {
        self.blend_amount
    }

    /// Whether the text of the sprite can be edited.
    pub fn editable(&self) -> (r: bool)
        ensures
            r == (self.score_color_and_flags & SCORE_EDITABLE != 0),
    {
        self.score_color_and_flags & SCORE_EDITABLE != 0
    }

    /// The foreground colour.
    pub fn fore_color_index(&self) -> (r: u8)
        ensures
            r == self.fore_color_index,
    {
        self.fore_color_index
    }

    /// The height.
    pub fn height(&self) -> (r: i16)
        ensures
            r == self.height,
    {
        self.height
    }

    /// The cast member shown by the sprite.
    pub fn id(&self) -> (r: MemberId)
        ensures
            r == self.id,
    {
        self.id
    }

    /// The number of the ink (transfer mode) of the sprite.
    pub fn ink(&self) -> (r: u8)
        ensures
            r == self.ink_and_flags & INK_KIND,
    {
        self.ink_and_flags & INK_KIND
    }

    /// The kind of the sprite.
    pub fn kind(&self) -> (r: Kind)
        ensures
            r == self.kind,
    {
        self.kind
    }

    /// The width of the lines of a shape sprite.
    pub fn line_size(&self) -> (r: u8)
        ensures
            r == self.line_size_and_flags & LINE_SIZE,
    {
        self.line_size_and_flags & LINE_SIZE
    }

    /// Whether the user can drag the sprite.
    pub fn moveable(&self) -> (r: bool)
        ensures
            r == (self.score_color_and_flags & SCORE_MOVEABLE != 0),
    {
        self.score_color_and_flags & SCORE_MOVEABLE != 0
    }

    /// The position of the sprite.
    pub fn origin(&self) -> (r: Point)
        ensures
            r == self.origin,
    {
        self.origin
    }

    /// The colour of the sprite in the score window.
    pub fn score_color(&self) -> (r: u8)
        ensures
            r == self.score_color_and_flags & SCORE_COLOR,
    {
        self.score_color_and_flags & SCORE_COLOR
    }

    /// The flags stored beside the score colour.
    pub fn score_color_flags(&self) -> (r: u8)
        ensures
            r == self.score_color_and_flags & !SCORE_COLOR,
    {
        self.score_color_and_flags & !SCORE_COLOR
    }

    /// Replaces the flags stored beside the score colour, keeping the colour.
    pub fn set_score_color_flags(&mut self, flags: u8)
        ensures
            final(self).score_color_and_flags == (old(self).score_color_and_flags & SCORE_COLOR) | (flags & !SCORE_COLOR),
            *final(self) == (Sprite { score_color_and_flags: final(self).score_color_and_flags, ..*old(self) }),
    {
        let flags = flags & !SCORE_COLOR;
        self.score_color_and_flags = (self.score_color_and_flags & SCORE_COLOR) | flags;
    }

    /// The script attached to the sprite.
    pub fn script(&self) -> (r: MemberId)
        ensures
            r == self.script,
    {
        self.script
    }

    /// The script attached to the sprite, for changing it.
    pub fn script_mut(&mut self) -> (r: &mut MemberId)
        ensures
            *r == old(self).script,
            *final(self) == (Sprite { script: *final(r), ..*old(self) }),
    {
        &mut self.script
    }

    /// Whether the sprite is stretched.
    pub fn stretch(&self) -> (r: bool)
        ensures
            r == (self.ink_and_flags & INK_STRETCH != 0),
    {
        self.ink_and_flags & INK_STRETCH != 0
    }

    /// Whether the sprite leaves trails.
    pub fn trails(&self) -> (r: bool)
        ensures
            r == (self.ink_and_flags & INK_TRAILS != 0),
    {
        self.ink_and_flags & INK_TRAILS != 0
    }

    /// The width.
    pub fn width(&self) -> (r: i16)
        ensures
            r == self.width,
    {
        self.width
    }
}

} // verus!

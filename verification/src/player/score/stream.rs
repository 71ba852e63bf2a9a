//! The compressed frame data of a score.
//!
//! Each stored frame is a list of chunks that overwrite parts of the
//! previous frame's stored bytes; the frame is then read from the result.

use crate::bytes::{as_signed16, be_u16_at, read_be_i16};
use super::frame::{spec_frame, Frame, FrameView, V5_SIZE};
use super::palette::Palette;
use super::sprite::Sprite;
use super::sprite_bitmask::{
    SpriteBitmask, MIN_SPRITE, NUM_CHANNELS, NUM_NON_SPRITE_CHANNELS, NUM_SPRITES, PALETTE, SCRIPT, SOUND_1, SOUND_2,
    TEMPO, TRANSITION,
};
use super::{ParseError, Version};
use vstd::prelude::*;

verus! {

/// Why the next frame of a score could not be read.
#[derive(Clone, Copy, Debug, PartialEq, Eq, Structural)]
pub enum StreamError {
    /// The data ended before the size of the compressed frame.
    ReadFrameSize,
    /// The size of a compressed frame is too small to hold a chunk.
    InvalidFrameSize(i16),
    /// The data ended before the size of a chunk.
    ReadChunkSize,
    /// The data ended before the offset of a chunk.
    ReadChunkOffset,
    /// A chunk size is not a multiple of two.
    OddChunkSize(i16),
    /// The data ended inside the data of a chunk.
    ReadChunkData,
    /// The decompressed frame could not be read.
    Frame(ParseError),
}

/// What decompressing the next frame gives.
pub enum Decoded {
    /// The stream is at its end.
    End,
    /// The data is malformed; reading stopped at `pos`.
    Failed { pos: int, err: StreamError },
    /// The data is such that decompressing it has no defined result: a
    /// negative chunk offset, a chunk that does not fit in a frame, or a size
    /// that overflows.
    Undefined,
    /// The stored bytes of the next frame, and the position after them.
    Done { pos: int, raw: Seq<u8> },
}

/// `raw` with the bytes from `off` replaced by `src`.
pub open spec fn spec_splice(raw: Seq<u8>, off: int, src: Seq<u8>) -> Seq<u8> {
    Seq::new(raw.len(), |i: int| if off <= i < off + src.len() { src[i - off] } else { raw[i] })
}

/// The positive part of a count, as a termination measure.
pub open spec fn positive_part(n: int) -> nat {
    if n > 0 { n as nat } else { 0 }
}

/// Applies the chunks stored from `pos` to `raw`, while `remaining` bytes of
/// chunk data are left. Before Director 4, a chunk is a size byte and an
/// offset byte, both counted in words; later, a chunk is a 16-bit size and a
/// 16-bit offset in bytes, and a negative size ends the frame.
pub open spec fn spec_chunks(data: Seq<u8>, pos: int, remaining: int, legacy: bool, raw: Seq<u8>) -> Decoded
    decreases positive_part(remaining),
{
    if remaining <= 0 {
        Decoded::Done { pos, raw }
    } else if legacy {
        if pos + 1 > data.len() {
            Decoded::Failed { pos, err: StreamError::ReadChunkSize }
        } else if pos + 2 > data.len() {
            Decoded::Failed { pos: pos + 1, err: StreamError::ReadChunkOffset }
        } else {
            let size = data[pos] * 2;
            let off = data[pos + 1] * 2;
            let start = pos + 2;
            if off + size > V5_SIZE {
                Decoded::Undefined
            } else if start + size > data.len() {
                Decoded::Failed { pos: data.len() as int, err: StreamError::ReadChunkData }
            } else {
                spec_chunks(
                    data,
                    start + size,
                    remaining - (size + 2),
                    legacy,
                    spec_splice(raw, off, data.subrange(start, start + size)),
                )
            }
        }
    } else {
        if pos + 2 > data.len() {
            Decoded::Failed { pos, err: StreamError::ReadChunkSize }
        } else {
            let size = as_signed16(be_u16_at(data, pos));
            if size < 0 {
                Decoded::Done { pos: pos + 2, raw }
            } else if size % 2 != 0 {
                Decoded::Failed { pos: pos + 2, err: StreamError::OddChunkSize(size as i16) }
            } else if pos + 4 > data.len() {
                Decoded::Failed { pos: pos + 2, err: StreamError::ReadChunkOffset }
            } else {
                let off = as_signed16(be_u16_at(data, pos + 2));
                let start = pos + 4;
                if off < 0 || size + 4 > i16::MAX || off + size > V5_SIZE {
                    Decoded::Undefined
                } else if start + size > data.len() {
                    Decoded::Failed { pos: data.len() as int, err: StreamError::ReadChunkData }
                } else {
                    spec_chunks(
                        data,
                        start + size,
                        remaining - (size + 4),
                        legacy,
                        spec_splice(raw, off, data.subrange(start, start + size)),
                    )
                }
            }
        }
    }
}

/// Decompresses the frame stored at `pos`: a 16-bit size, then chunks.
pub open spec fn spec_decode(data: Seq<u8>, pos: int, end_pos: int, version: Version, raw: Seq<u8>) -> Decoded {
    if pos >= end_pos {
        Decoded::End
    } else if pos + 2 > data.len() {
        Decoded::Failed { pos, err: StreamError::ReadFrameSize }
    } else {
        let size = as_signed16(be_u16_at(data, pos));
        if version.spec_num() < 4 {
            if size - 2 < i16::MIN {
                Decoded::Undefined
            } else {
                spec_chunks(data, pos + 2, if size - 2 > 0 { size - 2 } else { 0 }, true, raw)
            }
        } else if size <= 1 {
            Decoded::Failed { pos: pos + 2, err: StreamError::InvalidFrameSize(size as i16) }
        } else {
            spec_chunks(data, pos + 2, size - 2, false, raw)
        }
    }
}

/// In Director 4 and later data, the chunks of a frame are read until its
/// declared size is used up: decompression stops at or past the end of the
/// declared bytes, or just after a negative chunk size, which ends the frame
/// early.
pub proof fn lemma_chunks_use_declared_size(data: Seq<u8>, p: int, rem: int, raw: Seq<u8>)
    ensures
        spec_chunks(data, p, rem, false, raw) matches Decoded::Done { pos: q, .. } ==> {
            ||| q >= p + rem
            ||| q >= p + 2 && as_signed16(be_u16_at(data, q - 2)) < 0
        },
    decreases positive_part(rem),
{
    if rem > 0 && p + 4 <= data.len() {
        let size = as_signed16(be_u16_at(data, p));
        let off = as_signed16(be_u16_at(data, p + 2));
        if size >= 0 && size % 2 == 0 && !(off < 0 || size + 4 > i16::MAX || off + size > V5_SIZE) && p + 4 + size <= data.len() {
            lemma_chunks_use_declared_size(
                data,
                p + 4 + size,
                rem - (size + 4),
                spec_splice(raw, off, data.subrange(p + 4, p + 4 + size)),
            );
        }
    }
}

/// Before Director 4, the chunks of a frame are read until its declared
/// size is used up: decompression stops at or past the end of the declared
/// bytes.
pub proof fn lemma_legacy_chunks_use_declared_size(data: Seq<u8>, p: int, rem: int, raw: Seq<u8>)
    ensures
        spec_chunks(data, p, rem, true, raw) matches Decoded::Done { pos: q, .. } ==> q >= p + rem,
    decreases positive_part(rem),
{
    if rem > 0 && p + 2 <= data.len() {
        let size = data[p] * 2;
        let off = data[p + 1] * 2;
        if off + size <= V5_SIZE && p + 2 + size <= data.len() {
            lemma_legacy_chunks_use_declared_size(
                data,
                p + 2 + size,
                rem - (size + 2),
                spec_splice(raw, off, data.subrange(p + 2, p + 2 + size)),
            );
        }
    }
}

/// A Director 4 or later frame made of two chunks, whose size counts its
/// size field and both chunks: decompressing it applies the first chunk and
/// then the second to the previous frame's bytes, and stops just after the
/// second chunk, at the end of the frame.
pub proof fn lemma_two_chunks(
    data: Seq<u8>,
    pos: int,
    end_pos: int,
    version: Version,
    raw: Seq<u8>,
    n1: int,
    o1: int,
    n2: int,
    o2: int,
)
    requires
        version.spec_num() >= 4,
        0 <= pos < end_pos,
        0 <= n1 && n1 % 2 == 0 && 0 <= o1 && o1 + n1 <= V5_SIZE && n1 + 4 <= i16::MAX,
        0 <= n2 && n2 % 2 == 0 && 0 <= o2 && o2 + n2 <= V5_SIZE && n2 + 4 <= i16::MAX,
        pos + 10 + n1 + n2 <= data.len(),
        as_signed16(be_u16_at(data, pos)) == 10 + n1 + n2,
        as_signed16(be_u16_at(data, pos + 2)) == n1,
        as_signed16(be_u16_at(data, pos + 4)) == o1,
        as_signed16(be_u16_at(data, pos + 6 + n1)) == n2,
        as_signed16(be_u16_at(data, pos + 8 + n1)) == o2,
    ensures
        spec_decode(data, pos, end_pos, version, raw) == (Decoded::Done {
            pos: pos + 10 + n1 + n2,
            raw: spec_splice(
                spec_splice(raw, o1, data.subrange(pos + 6, pos + 6 + n1)),
                o2,
                data.subrange(pos + 10 + n1, pos + 10 + n1 + n2),
            ),
        }),
{
    let first = spec_splice(raw, o1, data.subrange(pos + 6, pos + 6 + n1));
    let second = spec_splice(first, o2, data.subrange(pos + 10 + n1, pos + 10 + n1 + n2));
    assert(spec_chunks(data, pos + 10 + n1 + n2, 0, false, second) == (Decoded::Done { pos: pos + 10 + n1 + n2, raw: second }));
    assert(spec_chunks(data, pos + 6 + n1, 4 + n2, false, first) == spec_chunks(data, pos + 10 + n1 + n2, 0, false, second));
    assert(spec_chunks(data, pos + 2, 8 + n1 + n2, false, raw) == spec_chunks(data, pos + 6 + n1, 4 + n2, false, first));
}

/// `frame` with the channels for which `keep` holds taken from `last`; a
/// sprite channel taken from `last` keeps the script of `frame`.
pub open spec fn spec_keep_channels_where(frame: FrameView, last: FrameView, keep: spec_fn(int) -> bool) -> FrameView {
    FrameView {
        palette: if keep(PALETTE as int) { last.palette } else { frame.palette },
        sound_1: if keep(SOUND_1 as int) { last.sound_1 } else { frame.sound_1 },
        sound_2: if keep(SOUND_2 as int) { last.sound_2 } else { frame.sound_2 },
        tempo: if keep(TEMPO as int) { last.tempo } else { frame.tempo },
        sprites: Seq::new(
            frame.sprites.len(),
            |i: int|
                if keep(i + NUM_NON_SPRITE_CHANNELS) {
                    Sprite { script: frame.sprites[i].script, ..last.sprites[i] }
                } else {
                    frame.sprites[i]
                },
        ),
        ..frame
    }
}

/// `frame` with the channels of `channels` taken from `last`; a sprite
/// channel taken from `last` keeps the script of `frame`.
pub open spec fn spec_keep_channels(frame: FrameView, last: FrameView, channels: SpriteBitmask) -> FrameView {
    spec_keep_channels_where(frame, last, |c: int| channels.has(c))
}

/// The exec form of [`Decoded`].
enum DecodedData {
    End,
    Failed { pos: usize, err: StreamError },
    Undefined,
    Done { pos: usize, raw: Vec<u8> },
}

impl DecodedData {
    spec fn matches(&self, d: Decoded) -> bool {
        match (self, d) {
            (DecodedData::End, Decoded::End) => true,
            (DecodedData::Failed { pos, err }, Decoded::Failed { pos: p, err: e }) => *pos == p && *err == e,
            (DecodedData::Undefined, Decoded::Undefined) => true,
            (DecodedData::Done { pos, raw }, Decoded::Done { pos: p, raw: r }) => *pos == p && raw@ == r,
            _ => false,
        }
    }
}

/// The compressed frame data of a score, read one frame at a time.
#[derive(Debug)]
pub struct Stream {
    input: Vec<u8>,
    pos: usize,
    data_start_pos: u32,
    data_end_pos: u32,
    version: Version,
    last_frame: Frame,
    raw_last_frame: Vec<u8>,
}

impl Stream {
    #[verifier::type_invariant]
    spec fn inv(self) -> bool {
        &&& self.raw_last_frame@.len() == V5_SIZE
        &&& self.last_frame.sprites@.len() == NUM_SPRITES
    }

    /// The score data.
    pub closed spec fn data(self) -> Seq<u8> {
        self.input@
    }

    /// The position of the next compressed frame in the score data.
    pub closed spec fn position(self) -> int {
        self.pos as int
    }

    /// Where the frame data starts.
    pub closed spec fn start_pos(self) -> int {
        self.data_start_pos as int
    }

    /// Where the frame data ends.
    pub closed spec fn end_pos(self) -> int {
        self.data_end_pos as int
    }

    /// The score version.
    pub closed spec fn version(self) -> Version {
        self.version
    }

    /// The frame whose channels are kept when asked.
    pub closed spec fn last_frame(self) -> FrameView {
        self.last_frame@
    }

    /// The stored bytes of the previous frame, which the next frame's chunks
    /// overwrite.
    pub closed spec fn raw_last_frame(self) -> Seq<u8> {
        self.raw_last_frame@
    }

    /// What decompressing the next frame gives.
    pub open spec fn spec_next_decoded(self) -> Decoded {
        spec_decode(self.data(), self.position(), self.end_pos(), self.version(), self.raw_last_frame())
    }

    /// A stream over `input` whose frame data lies between the given
    /// positions, starting at the first frame.
    pub fn new(input: Vec<u8>, data_start_pos: u32, data_end_pos: u32, version: Version) -> (r: Self)
        ensures
            r.data() == input@,
            r.position() == data_start_pos,
            r.start_pos() == data_start_pos,
            r.end_pos() == data_end_pos,
            r.version() == version,
            r.last_frame() == super::frame::spec_default_frame(),
            r.raw_last_frame() == Seq::new(V5_SIZE as nat, |i: int| 0u8),
    {
        let raw_last_frame = zeroed_frame();
        Stream {
            input,
            pos: data_start_pos as usize,
            data_start_pos,
            data_end_pos,
            version,
            last_frame: Frame::default(),
            raw_last_frame,
        }
    }

    /// Goes back to the first frame and forgets the previous frame's bytes.
    pub fn reset(&mut self)
        ensures
            final(self).position() == old(self).start_pos(),
            final(self).raw_last_frame() == Seq::new(V5_SIZE as nat, |i: int| 0u8),
            final(self).data() == old(self).data(),
            final(self).start_pos() == old(self).start_pos(),
            final(self).end_pos() == old(self).end_pos(),
            final(self).version() == old(self).version(),
            final(self).last_frame() == old(self).last_frame(),
    {
        proof {
            use_type_invariant(&*self);
        }
        self.raw_last_frame = zeroed_frame();
        self.pos = self.data_start_pos as usize;
    }

    /// Whether a frame follows: the next frame's data decompresses, and what
    /// it decompresses to is a frame.
    pub open spec fn frame_follows(&self) -> bool {
        self.spec_next_decoded() matches Decoded::Done { raw, .. } && spec_frame(raw, self.version()) is Ok
    }

    /// Whether the next frame's data is such that its decompression is
    /// defined (see [`Decoded::Undefined`]).
    pub fn next_is_defined(&self) -> (r: bool)
        ensures
            r == !(self.spec_next_decoded() is Undefined),
    {
        match self.decode() {
            DecodedData::Undefined => false,
            _ => true,
        }
    }

    fn decode(&self) -> (r: DecodedData)
        ensures
            r.matches(self.spec_next_decoded()),
            r matches DecodedData::Done { raw, .. } ==> raw@.len() == V5_SIZE,
    {
        proof {
            use_type_invariant(self);
        }
        let data = self.input.as_slice();
        let mut pos = self.pos;
        if pos >= self.data_end_pos as usize {
            return DecodedData::End;
        }
        if pos > data.len() || data.len() - pos < 2 {
            return DecodedData::Failed { pos, err: StreamError::ReadFrameSize };
        }
        let size = read_be_i16(data, pos) as i32;
        pos = pos + 2;
        let legacy = self.version.num() < 4;
        let mut remaining: i32;
        if legacy {
            if size - 2 < i16::MIN as i32 {
                return DecodedData::Undefined;
            }
            remaining = if size - 2 > 0 { size - 2 } else { 0 };
        } else {
            if size <= 1 {
                return DecodedData::Failed { pos, err: StreamError::InvalidFrameSize(size as i16) };
            }
            remaining = size - 2;
        }
        let mut raw = self.raw_last_frame.clone();
        assert(raw@ == self.raw_last_frame@);
        let ghost goal = self.spec_next_decoded();
        while remaining > 0
            invariant
                data@ == self.input@,
                pos <= data.len(),
                raw@.len() == V5_SIZE,
                -0x10000 < remaining <= i16::MAX,
                goal == self.spec_next_decoded(),
                goal == spec_chunks(data@, pos as int, remaining as int, legacy, raw@),
            decreases positive_part(remaining as int),
        {
            let size: usize;
            let off: usize;
            let start: usize;
            if legacy {
                if data.len() - pos < 1 {
                    return DecodedData::Failed { pos, err: StreamError::ReadChunkSize };
                }
                if data.len() - pos < 2 {
                    return DecodedData::Failed { pos: pos + 1, err: StreamError::ReadChunkOffset };
                }
                size = data[pos] as usize * 2;
                off = data[pos + 1] as usize * 2;
                start = pos + 2;
                if off + size > V5_SIZE as usize {
                    return DecodedData::Undefined;
                }
                if data.len() - start < size {
                    return DecodedData::Failed { pos: data.len(), err: StreamError::ReadChunkData };
                }
                remaining = remaining - (size as i32 + 2);
            } else {
                if data.len() - pos < 2 {
                    return DecodedData::Failed { pos, err: StreamError::ReadChunkSize };
                }
                let chunk_size = read_be_i16(data, pos);
                if chunk_size < 0 {
                    return DecodedData::Done { pos: pos + 2, raw };
                }
                if chunk_size % 2 != 0 {
                    return DecodedData::Failed { pos: pos + 2, err: StreamError::OddChunkSize(chunk_size) };
                }
                if data.len() - pos < 4 {
                    return DecodedData::Failed { pos: pos + 2, err: StreamError::ReadChunkOffset };
                }
                let chunk_off = read_be_i16(data, pos + 2);
                start = pos + 4;
                if chunk_off < 0 || chunk_size as i32 + 4 > i16::MAX as i32
                    || chunk_off as i32 + chunk_size as i32 > V5_SIZE as i32 {
                    return DecodedData::Undefined;
                }
                size = chunk_size as usize;
                off = chunk_off as usize;
                if data.len() - start < size {
                    return DecodedData::Failed { pos: data.len(), err: StreamError::ReadChunkData };
                }
                remaining = remaining - (chunk_size as i32 + 4);
            }
            let ghost before = raw@;
            let mut k: usize = 0;
            while k < size
                invariant
                    k <= size,
                    off + size <= V5_SIZE,
                    start + size <= data.len(),
                    raw@.len() == V5_SIZE,
                    forall|i: int| 0 <= i < V5_SIZE ==> #[trigger] raw@[i] == if off <= i < off + k {
                        data@[start + i - off]
                    } else {
                        before[i]
                    },
                decreases size - k,
            {
                raw.set(off + k, data[start + k]);
                k = k + 1;
            }
            assert(raw@ =~= spec_splice(before, off as int, data@.subrange(start as int, start + size)));
            pos = start + size;
        }
        DecodedData::Done { pos, raw }
    }

    /// Reads the next frame, or `None` at the end of the frame data. The
    /// channels in `channels_to_keep` are taken from the kept frame instead.
    pub fn next(&mut self, channels_to_keep: SpriteBitmask) -> (r: Result<Option<Frame>, StreamError>)
        requires
            !(old(self).spec_next_decoded() is Undefined),
            old(self).frame_follows() ==> !channels_to_keep.has(SCRIPT as int) && !channels_to_keep.has(TRANSITION as int),
        ensures
            r matches Ok(Some(f)) ==> f.sprites@.len() == NUM_SPRITES,
            final(self).data() == old(self).data(),
            final(self).start_pos() == old(self).start_pos(),
            final(self).end_pos() == old(self).end_pos(),
            final(self).version() == old(self).version(),
            final(self).last_frame() == old(self).last_frame(),
            match old(self).spec_next_decoded() {
                Decoded::End => r == Ok::<Option<Frame>, StreamError>(None) && *final(self) == *old(self),
                Decoded::Failed { pos, err } => {
                    &&& r == Err::<Option<Frame>, StreamError>(err)
                    &&& final(self).position() == pos
                    &&& final(self).raw_last_frame() == old(self).raw_last_frame()
                },
                Decoded::Done { pos, raw } => {
                    &&& final(self).position() == pos
                    &&& match spec_frame(raw, old(self).version()) {
                        Err(e) => {
                            &&& r == Err::<Option<Frame>, StreamError>(StreamError::Frame(e))
                            &&& final(self).raw_last_frame() == old(self).raw_last_frame()
                        },
                        Ok(frame) => {
                            &&& r matches Ok(Some(f)) && f@ == spec_keep_channels(frame, old(self).last_frame(), channels_to_keep)
                            &&& final(self).raw_last_frame() == raw
                        },
                    }
                },
                Decoded::Undefined => false,
            },
    {
        proof {
            use_type_invariant(&*self);
        }
        match self.decode() {
            DecodedData::End => Ok(None),
            DecodedData::Undefined => Ok(None),
            DecodedData::Failed { pos, err } => {
                self.pos = pos;
                Err(err)
            },
            DecodedData::Done { pos, raw } => {
                self.pos = pos;
                let mut frame = match Frame::read(raw.as_slice(), self.version) {
                    Ok(f) => f,
                    Err(e) => return Err(StreamError::Frame(e)),
                };
                proof {
                    assert(old(self).frame_follows());
                }
                self.keep_channels(&mut frame, channels_to_keep);
                self.raw_last_frame = raw;
                Ok(Some(frame))
            },
        }
    }

    fn keep_channels(&self, frame: &mut Frame, channels: SpriteBitmask)
        requires
            old(frame).sprites@.len() == NUM_SPRITES,
            !channels.has(SCRIPT as int),
            !channels.has(TRANSITION as int),
        ensures
            final(frame)@ == spec_keep_channels(old(frame)@, self.last_frame@, channels),
    {
        proof {
            use_type_invariant(self);
        }
        let ghost before = frame@;
        let ghost last = self.last_frame@;
        let mut iter = channels.iter();
        let ghost p0 = |c: int| 0 <= c < 0 && channels.has(c);
        assert(forall|c: int| !#[trigger] p0(c));
        proof {
            lemma_keep_nothing(before, last, p0);
        }
        let mut done = false;
        while !done
            invariant
                iter.owner() == channels,
                iter.index() <= NUM_CHANNELS,
                done ==> iter.index() == NUM_CHANNELS,
                frame.sprites@.len() == NUM_SPRITES,
                before.sprites.len() == NUM_SPRITES,
                last == self.last_frame@,
                self.last_frame.sprites@.len() == NUM_SPRITES,
                !channels.has(SCRIPT as int),
                !channels.has(TRANSITION as int),
                frame@ == spec_keep_channels_where(before, last, |c: int| 0 <= c < iter.index() && channels.has(c)),
            decreases (NUM_CHANNELS - iter.index()) * 2 + if done { 0int } else { 1int },
        {
            let ghost at = iter.index();
            let ghost p_old = |c: int| 0 <= c < at && channels.has(c);
            match iter.next() {
                None => {
                    proof {
                        lemma_keep_same(before, last, p_old, |c: int| 0 <= c < iter.index() && channels.has(c));
                    }
                    done = true;
                },
                Some(channel_index) => {
                    let ghost p_new = |c: int| 0 <= c < iter.index() && channels.has(c);
                    assert(forall|c: int| 0 <= c < NUM_CHANNELS ==> #[trigger] p_new(c) == (p_old(c) || c == channel_index));
                    let ghost mid = frame@;
                    if channel_index == PALETTE {
                        frame.palette = self.last_frame.palette;
                    } else if channel_index == SOUND_1 {
                        frame.sound_1 = self.last_frame.sound_1;
                    } else if channel_index == SOUND_2 {
                        frame.sound_2 = self.last_frame.sound_2;
                    } else if channel_index == TEMPO {
                        frame.tempo = self.last_frame.tempo;
                    } else {
                        let sprite_index = channel_index - NUM_NON_SPRITE_CHANNELS;
                        let script_id = frame.sprites[sprite_index].script();
                        let mut sprite = self.last_frame.sprites[sprite_index];
                        *sprite.script_mut() = script_id;
                        frame.sprites.set(sprite_index, sprite);
                    }
                    assert(frame@.sprites =~= spec_keep_channels_where(before, last, p_new).sprites);
                },
            }
        }
        proof {
            lemma_keep_same(before, last, |c: int| 0 <= c < iter.index() && channels.has(c), |c: int| channels.has(c));
        }
    }
}

proof fn lemma_keep_nothing(frame: FrameView, last: FrameView, keep: spec_fn(int) -> bool)
    requires
        forall|c: int| !#[trigger] keep(c),
    ensures
        spec_keep_channels_where(frame, last, keep) == frame,
{
    assert(spec_keep_channels_where(frame, last, keep).sprites =~= frame.sprites);
}

proof fn lemma_keep_same(frame: FrameView, last: FrameView, p: spec_fn(int) -> bool, q: spec_fn(int) -> bool)
    requires
        frame.sprites.len() == NUM_SPRITES,
        forall|c: int| 0 <= c < NUM_CHANNELS ==> #[trigger] p(c) == q(c),
    ensures
        spec_keep_channels_where(frame, last, p) == spec_keep_channels_where(frame, last, q),
{
    assert(spec_keep_channels_where(frame, last, p).sprites =~= spec_keep_channels_where(frame, last, q).sprites);
}

/// Keeping no channel gives the frame as decoded.
pub proof fn lemma_keep_no_channels(frame: FrameView, last: FrameView, channels: SpriteBitmask)
    requires
        frame.sprites.len() == NUM_SPRITES,
        forall|c: int| 0 <= c < NUM_CHANNELS ==> !#[trigger] channels.has(c),
    ensures
        spec_keep_channels(frame, last, channels) == frame,
{
    let none = |c: int| false;
    lemma_keep_same(frame, last, |c: int| channels.has(c), none);
    lemma_keep_nothing(frame, last, none);
}

/// After a reset, the next frame read is the first frame of the data, as for
/// a stream just made over the same data: the same stored bytes are
/// decompressed from the same position onto zeroed bytes.
pub proof fn lemma_reset_rereads(fresh: Stream, after_reset: Stream)
    requires
        fresh.position() == fresh.start_pos(),
        fresh.raw_last_frame() == Seq::new(V5_SIZE as nat, |i: int| 0u8),
        after_reset.position() == fresh.start_pos(),
        after_reset.raw_last_frame() == Seq::new(V5_SIZE as nat, |i: int| 0u8),
        after_reset.data() == fresh.data(),
        after_reset.end_pos() == fresh.end_pos(),
        after_reset.version() == fresh.version(),
    ensures
        after_reset.spec_next_decoded() == fresh.spec_next_decoded(),
{
}

/// A frame's worth of zero bytes.
fn zeroed_frame() -> (r: Vec<u8>)
    ensures
        r@ == Seq::new(V5_SIZE as nat, |i: int| 0u8),
{
    let mut v: Vec<u8> = Vec::new();
    let mut i: usize = 0;
    while i < V5_SIZE as usize
        invariant
            i <= V5_SIZE,
            v@ == Seq::new(i as nat, |j: int| 0u8),
        decreases V5_SIZE - i,
    {
        v.push(0);
        i = i + 1;
        assert(v@ =~= Seq::new(i as nat, |j: int| 0u8));
    }
    v
}

} // verus!

//! The command-line arguments of the file inspector: field lists, frame
//! ranges, cast member IDs and resource IDs.

use crate::bytes::{be_u32_at, read_be_u32};
use crate::cast::MemberId;
use crate::collections::riff::ResourceId;
use vstd::prelude::*;
use vstd::string::StringSliceAdditionalSpecFns;

verus! {

broadcast use vstd::utf8::group_utf8_lib;

/// The comma that separates the parts of an argument.
pub const COMMA: u8 = 0x2c;

/// The parts of `b` between commas, from left to right: one more part than
/// there are commas.
pub open spec fn split_commas(b: Seq<u8>) -> Seq<Seq<u8>>
    decreases b.len(),
{
    if b.len() == 0 {
        seq![Seq::empty()]
    } else {
        let init = split_commas(b.drop_last());
        if b.last() == COMMA {
            init.push(Seq::empty())
        } else {
            init.update(init.len() - 1, init.last().push(b.last()))
        }
    }
}

/// There is always at least one part.
pub proof fn lemma_split_commas_len(b: Seq<u8>)
    ensures
        split_commas(b).len() >= 1,
    decreases b.len(),
{
    if b.len() > 0 {
        lemma_split_commas_len(b.drop_last());
    }
}

/// The parts joined again, with a comma between each two.
pub open spec fn join_commas(parts: Seq<Seq<u8>>) -> Seq<u8>
    decreases parts.len(),
{
    if parts.len() == 0 {
        Seq::empty()
    } else if parts.len() == 1 {
        parts[0]
    } else {
        join_commas(parts.drop_last()).push(COMMA) + parts.last()
    }
}

/// Splitting at the commas loses nothing: joining the parts with commas
/// gives the argument back.
pub proof fn lemma_split_join(b: Seq<u8>)
    ensures
        join_commas(split_commas(b)) == b,
    decreases b.len(),
{
    if b.len() > 0 {
        let init = b.drop_last();
        lemma_split_join(init);
        lemma_split_commas_len(init);
        let parts = split_commas(init);
        if b.last() == COMMA {
            assert(split_commas(b).drop_last() =~= parts);
            assert(join_commas(split_commas(b)) =~= b);
        } else {
            let next = split_commas(b);
            assert(next.len() == parts.len());
            if parts.len() == 1 {
                assert(join_commas(next) =~= b);
            } else {
                assert(next.drop_last() =~= parts.drop_last());
                assert(next.last() == parts.last().push(b.last()));
                assert(join_commas(parts) == join_commas(parts.drop_last()).push(COMMA) + parts.last());
                assert(join_commas(next) == join_commas(parts.drop_last()).push(COMMA) + parts.last().push(b.last()));
                assert(join_commas(parts.drop_last()).push(COMMA) + parts.last().push(b.last())
                    =~= (join_commas(parts.drop_last()).push(COMMA) + parts.last()).push(b.last()));
                assert(b =~= init.push(b.last()));
                assert(join_commas(next) =~= b);
            }
        }
    } else {
        assert(join_commas(split_commas(b)) =~= b);
    }
}

/// The views of a list of byte strings.
pub open spec fn parts_view(parts: Seq<Vec<u8>>) -> Seq<Seq<u8>> {
    Seq::new(parts.len(), |i: int| parts[i]@)
}

/// Splits `b` at its commas.
pub fn split_bytes(b: &[u8]) -> (r: Vec<Vec<u8>>)
    ensures
        parts_view(r@) == split_commas(b@),
{
    let mut parts: Vec<Vec<u8>> = Vec::new();
    let mut cur: Vec<u8> = Vec::new();
    let mut i: usize = 0;
    assert(b@.subrange(0, 0) =~= Seq::<u8>::empty());
    assert(parts_view(parts@).push(cur@) =~= seq![Seq::<u8>::empty()]);
    while i < b.len()
        invariant
            i <= b@.len(),
            split_commas(b@.subrange(0, i as int)) == parts_view(parts@).push(cur@),
        decreases b@.len() - i,
    {
        let ghost prefix = b@.subrange(0, i as int + 1);
        assert(prefix.drop_last() =~= b@.subrange(0, i as int));
        assert(prefix.last() == b@[i as int]);
        proof { lemma_split_commas_len(prefix.drop_last()); }
        if b[i] == COMMA {
            let ghost old_view = parts_view(parts@);
            let ghost cur_view = cur@;
            parts.push(cur);
            cur = Vec::new();
            assert(parts_view(parts@) =~= old_view.push(cur_view));
            assert(split_commas(prefix) =~= parts_view(parts@).push(cur@));
        } else {
            let ghost old_view = parts_view(parts@);
            cur.push(b[i]);
            assert(split_commas(prefix) =~= old_view.push(cur@));
        }
        i = i + 1;
    }
    assert(b@.subrange(0, b@.len() as int) =~= b@);
    let ghost old_view = parts_view(parts@);
    let ghost cur_view = cur@;
    parts.push(cur);
    assert(parts_view(parts@) =~= old_view.push(cur_view));
    parts
}

/// The value of the decimal digits `d`.
pub open spec fn decimal(d: Seq<u8>) -> int
    decreases d.len(),
{
    if d.len() == 0 {
        0
    } else {
        decimal(d.drop_last()) * 10 + (d.last() - 0x30)
    }
}

/// Whether every byte of `d` is a decimal digit.
pub open spec fn all_digits(d: Seq<u8>) -> bool {
    forall|i: int| 0 <= i < d.len() ==> 0x30 <= #[trigger] d[i] <= 0x39
}

/// The 16-bit integer that `b` writes in decimal, with an optional sign, as
/// Rust's `i16::from_str` reads it.
pub open spec fn spec_parse_i16(b: Seq<u8>) -> Option<i16> {
    let negative = b.len() > 0 && b[0] == 0x2d;
    let digits = if b.len() > 0 && (b[0] == 0x2d || b[0] == 0x2b) { b.drop_first() } else { b };
    if digits.len() == 0 || !all_digits(digits) {
        None
    } else {
        let value = if negative { -decimal(digits) } else { decimal(digits) };
        if i16::MIN <= value <= i16::MAX { Some(value as i16) } else { None }
    }
}

/// Appending a digit does not lower the value.
proof fn lemma_decimal_grows(d: Seq<u8>, k: int)
    requires
        0 <= k <= d.len(),
        all_digits(d),
    ensures
        decimal(d.subrange(0, k)) <= decimal(d),
        0 <= decimal(d.subrange(0, k)),
    decreases d.len() - k,
{
    if k < d.len() {
        lemma_decimal_grows(d, k + 1);
        let next = d.subrange(0, k + 1);
        assert(next.drop_last() =~= d.subrange(0, k));
        assert(next.last() == d[k]);
    } else {
        assert(d.subrange(0, k) =~= d);
        lemma_decimal_nonneg(d);
    }
}

proof fn lemma_decimal_nonneg(d: Seq<u8>)
    requires
        all_digits(d),
    ensures
        decimal(d) >= 0,
    decreases d.len(),
{
    if d.len() > 0 {
        assert(all_digits(d.drop_last()));
        lemma_decimal_nonneg(d.drop_last());
    }
}

/// Reads a 16-bit integer written in decimal, with an optional sign.
pub fn parse_i16(b: &[u8]) -> (r: Option<i16>)
    ensures
        r == spec_parse_i16(b@),
{
    let len = b.len();
    let negative = len > 0 && b[0] == 0x2d;
    let start: usize = if len > 0 && (b[0] == 0x2d || b[0] == 0x2b) { 1 } else { 0 };
    let ghost digits = if b@.len() > 0 && (b@[0] == 0x2d || b@[0] == 0x2b) { b@.drop_first() } else { b@ };
    assert(digits =~= b@.subrange(start as int, len as int));
    if start == len {
        return None;
    }
    let mut value: i32 = 0;
    let mut i: usize = start;
    while i < len
        invariant
            start <= i <= len == b@.len(),
            digits == (if b@.len() > 0 && (b@[0] == 0x2d || b@[0] == 0x2b) { b@.drop_first() } else { b@ }),
            digits == b@.subrange(start as int, len as int),
            all_digits(digits.subrange(0, i - start)),
            value == decimal(digits.subrange(0, i - start)),
            0 <= value <= 32768,
        decreases len - i,
    {
        let c = b[i];
        let ghost next = digits.subrange(0, i - start + 1);
        assert(next.drop_last() =~= digits.subrange(0, i - start));
        assert(next.last() == c);
        if c < 0x30 || c > 0x39 {
            assert(!all_digits(digits)) by {
                assert(digits[i - start] == c);
            }
            return None;
        }
        value = value * 10 + (c - 0x30) as i32;
        if value > 32768 {
            proof {
                if all_digits(digits) {
                    lemma_decimal_grows(digits, i - start + 1);
                }
            }
            return None;
        }
        i = i + 1;
    }
    assert(digits.subrange(0, len - start) =~= digits);
    if negative {
        Some((0 - value) as i16)
    } else if value > 32767 {
        None
    } else {
        Some(value as i16)
    }
}

/// Why an argument could not be read.
#[derive(Clone, Copy, Debug, PartialEq, Eq, Structural)]
pub enum ArgError {
    /// The start of a frame range is not a number.
    MalformedStartFrame,
    /// The end of a frame range is not a number.
    MalformedEndFrame,
    /// A frame range does not start before it ends.
    StartNotBeforeEnd(i16, i16),
    /// A single frame is not a number.
    MalformedFrame,
    /// A frame range has more than two parts.
    MalformedFrameRange,
    /// The cast library number is not a number.
    MalformedLibNum,
    /// The cast member number is not a number.
    MalformedMemberNum,
    /// A cast member ID has more than two parts.
    MalformedMemberId,
    /// The resource type is not four characters.
    MalformedResourceKind,
    /// The resource number is not a number.
    MalformedResourceNum,
    /// A resource ID does not have two parts.
    MalformedResourceId,
}

/// The frames to print, from a frame number or a range `start,end` of frame
/// numbers (an empty end meaning the last frame), as zero-based
/// `(first, end)`, the end excluded.
pub open spec fn spec_parse_frames(b: Seq<u8>) -> Result<(i16, i16), ArgError> {
    let parts = split_commas(b);
    if parts.len() == 2 {
        match spec_parse_i16(parts[0]) {
            None => Err(ArgError::MalformedStartFrame),
            Some(start) => {
                let end = if parts[1].len() == 0 { Some(i16::MAX) } else { spec_parse_i16(parts[1]) };
                match end {
                    None => Err(ArgError::MalformedEndFrame),
                    Some(end) => if start >= end {
                        Err(ArgError::StartNotBeforeEnd(start, end))
                    } else {
                        Ok(((start - 1) as i16, (end - 1) as i16))
                    },
                }
            },
        }
    } else if parts.len() == 1 {
        match spec_parse_i16(parts[0]) {
            None => Err(ArgError::MalformedFrame),
            Some(frame) => Ok(((frame - 1) as i16, frame)),
        }
    } else {
        Err(ArgError::MalformedFrameRange)
    }
}

/// Whether the frame numbers of an argument leave room to count from zero:
/// the first frame cannot be the smallest 16-bit integer.
pub open spec fn frames_defined(b: Seq<u8>) -> bool {
    let parts = split_commas(b);
    (parts.len() == 1 || parts.len() == 2) ==> spec_parse_i16(parts[0]) != Some(i16::MIN)
}

/// Whether the frame numbers of an argument leave room to count from zero:
/// whether `parse_frames` may be called.
pub fn frames_are_defined(frames: &str) -> (r: bool)
    ensures
        r == frames_defined(frames.spec_bytes()),
{
    let parts = split_bytes(frames.as_bytes());
    proof {
        lemma_split_commas_len(frames.spec_bytes());
    }
    if parts.len() == 1 || parts.len() == 2 {
        assert(parts@[0]@ == split_commas(frames.spec_bytes())[0]);
        match parse_i16(parts[0].as_slice()) {
            Some(first) => first != i16::MIN,
            None => true,
        }
    } else {
        true
    }
}

/// Reads a frame number or a range of frame numbers.
pub fn parse_frames(frames: &str) -> (r: Result<(i16, i16), ArgError>)
    requires
        frames_defined(frames.spec_bytes()),
    ensures
        r == spec_parse_frames(frames.spec_bytes()),
{
    let parts = split_bytes(frames.as_bytes());
    proof {
        lemma_split_commas_len(frames.spec_bytes());
    }
    if parts.len() == 2 {
        assert(parts@[0]@ == split_commas(frames.spec_bytes())[0]);
        assert(parts@[1]@ == split_commas(frames.spec_bytes())[1]);
        let start = match parse_i16(parts[0].as_slice()) {
            Some(start) => start,
            None => return Err(ArgError::MalformedStartFrame),
        };
        let end = if parts[1].len() == 0 {
            i16::MAX
        } else {
            match parse_i16(parts[1].as_slice()) {
                Some(end) => end,
                None => return Err(ArgError::MalformedEndFrame),
            }
        };
        if start >= end {
            return Err(ArgError::StartNotBeforeEnd(start, end));
        }
        Ok((start - 1, end - 1))
    } else if parts.len() == 1 {
        assert(parts@[0]@ == split_commas(frames.spec_bytes())[0]);
        match parse_i16(parts[0].as_slice()) {
            Some(frame) => Ok((frame - 1, frame)),
            None => Err(ArgError::MalformedFrame),
        }
    } else {
        Err(ArgError::MalformedFrameRange)
    }
}

/// A cast member ID: a member number in the first library, or `lib,member`.
pub open spec fn spec_parse_member_id(b: Seq<u8>) -> Result<MemberId, ArgError> {
    match spec_parse_i16(b) {
        Some(num) => Ok(MemberId { lib: 0, num }),
        None => {
            let parts = split_commas(b);
            if parts.len() == 2 {
                match (spec_parse_i16(parts[0]), spec_parse_i16(parts[1])) {
                    (None, _) => Err(ArgError::MalformedLibNum),
                    (Some(_), None) => Err(ArgError::MalformedMemberNum),
                    (Some(lib), Some(num)) => Ok(MemberId { lib, num }),
                }
            } else {
                Err(ArgError::MalformedMemberId)
            }
        },
    }
}

/// Reads a cast member ID.
pub fn parse_member_id(id: &str) -> (r: Result<MemberId, ArgError>)
    ensures
        r == spec_parse_member_id(id.spec_bytes()),
{
    let bytes = id.as_bytes();
    if let Some(num) = parse_i16(bytes) {
        return Ok(MemberId::new(0, num));
    }
    let parts = split_bytes(bytes);
    if parts.len() == 2 {
        assert(parts@[0]@ == split_commas(id.spec_bytes())[0]);
        assert(parts@[1]@ == split_commas(id.spec_bytes())[1]);
        let lib = match parse_i16(parts[0].as_slice()) {
            Some(lib) => lib,
            None => return Err(ArgError::MalformedLibNum),
        };
        let num = match parse_i16(parts[1].as_slice()) {
            Some(num) => num,
            None => return Err(ArgError::MalformedMemberNum),
        };
        Ok(MemberId::new(lib, num))
    } else {
        Err(ArgError::MalformedMemberId)
    }
}

/// A resource ID, `type,number`, the type written as its four characters.
pub open spec fn spec_parse_resource_id(b: Seq<u8>) -> Result<ResourceId, ArgError> {
    let parts = split_commas(b);
    if parts.len() == 2 {
        if parts[0].len() != 4 {
            Err(ArgError::MalformedResourceKind)
        } else {
            match spec_parse_i16(parts[1]) {
                None => Err(ArgError::MalformedResourceNum),
                Some(id) => Ok(ResourceId { os_type: be_u32_at(parts[0], 0) as u32, id }),
            }
        }
    } else {
        Err(ArgError::MalformedResourceId)
    }
}

/// Reads a resource ID.
pub fn parse_resource_id(id: &str) -> (r: Result<ResourceId, ArgError>)
    ensures
        r == spec_parse_resource_id(id.spec_bytes()),
{
    let parts = split_bytes(id.as_bytes());
    if parts.len() == 2 {
        assert(parts@[0]@ == split_commas(id.spec_bytes())[0]);
        assert(parts@[1]@ == split_commas(id.spec_bytes())[1]);
        if parts[0].len() != 4 {
            return Err(ArgError::MalformedResourceKind);
        }
        let os_type = read_be_u32(parts[0].as_slice(), 0);
        match parse_i16(parts[1].as_slice()) {
            Some(num) => Ok(ResourceId { os_type, id: num }),
            None => Err(ArgError::MalformedResourceNum),
        }
    } else {
        Err(ArgError::MalformedResourceId)
    }
}

/// The parts of a list of fields, as text.
pub open spec fn fields_view(fields: Seq<String>) -> Seq<Seq<u8>> {
    Seq::new(fields.len(), |i: int| vstd::utf8::encode_utf8(fields[i]@))
}

/// Splits a comma-separated list of field names.
pub fn parse_fields(fields: &str) -> (r: Vec<String>)
    ensures
        fields_view(r@) == split_commas(fields.spec_bytes()),
{
    let bytes = fields.as_bytes();
    let ghost all = fields.spec_bytes();
    let mut rest: &str = fields;
    let mut start: usize = 0;
    let mut parts: Vec<String> = Vec::new();
    let mut i: usize = 0;
    assert(all.subrange(0, 0) =~= Seq::<u8>::empty());
    assert(all.subrange(0, all.len() as int) =~= all);
    assert(fields_view(parts@).push(all.subrange(0, 0)) =~= seq![Seq::<u8>::empty()]);
    while i < bytes.len()
        invariant
            bytes@ == all,
            start <= i <= all.len(),
            rest.spec_bytes() == all.subrange(start as int, all.len() as int),
            split_commas(all.subrange(0, i as int)) == fields_view(parts@).push(all.subrange(start as int, i as int)),
        decreases all.len() - i,
    {
        let ghost prefix = all.subrange(0, i as int + 1);
        assert(prefix.drop_last() =~= all.subrange(0, i as int));
        assert(prefix.last() == all[i as int]);
        proof { lemma_split_commas_len(prefix.drop_last()); }
        if bytes[i] == COMMA {
            let k = i - start;
            proof {
                assert(rest.spec_bytes()[k as int] == COMMA);
                vstd::utf8::encode_utf8_valid_utf8(rest@);
                vstd::utf8::is_char_boundary_iff_not_is_continuation_byte(rest.spec_bytes(), k as int);
            }
            let (head, tail) = rest.split_at(k);
            proof {
                assert(tail.spec_bytes()[0] == COMMA);
                vstd::utf8::encode_utf8_valid_utf8(tail@);
                reveal_with_fuel(vstd::utf8::is_char_boundary, 2);
                assert(vstd::utf8::length_of_first_scalar(tail.spec_bytes()) == 1);
                assert(vstd::utf8::is_char_boundary(tail.spec_bytes(), 1));
            }
            let (_, after) = tail.split_at(1);
            let ghost old_view = fields_view(parts@);
            let piece = head.to_owned();
            assert(head.spec_bytes() =~= all.subrange(start as int, i as int));
            assert(vstd::utf8::encode_utf8(piece@) == all.subrange(start as int, i as int));
            parts.push(piece);
            assert(fields_view(parts@) =~= old_view.push(all.subrange(start as int, i as int)));
            rest = after;
            start = i + 1;
            assert(all.subrange(start as int, i as int + 1) =~= Seq::<u8>::empty());
            assert(rest.spec_bytes() =~= all.subrange(start as int, all.len() as int));
            assert(split_commas(prefix) =~= fields_view(parts@).push(all.subrange(start as int, i as int + 1)));
        } else {
            assert(all.subrange(start as int, i as int + 1) =~= all.subrange(start as int, i as int).push(all[i as int]));
            assert(split_commas(prefix) =~= fields_view(parts@).push(all.subrange(start as int, i as int + 1)));
        }
        i = i + 1;
    }
    let ghost old_view = fields_view(parts@);
    parts.push(rest.to_owned());
    assert(fields_view(parts@) =~= old_view.push(all.subrange(start as int, all.len() as int)));
    parts
}

} // verus!

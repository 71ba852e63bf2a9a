//! Strings stored in byte buffers: NUL-terminated, or preceded by their
//! length. The bytes are given back as they are stored; their character set
//! is the caller's to decode.

use crate::bytes::{read_u16, u16_at};
use vstd::prelude::*;

verus! {

/// Why a string could not be read.
#[derive(Clone, Copy, Debug, PartialEq, Eq, Structural)]
pub enum StringError {
    /// The data ended before the string's terminator or length.
    UnexpectedEof,
    /// The string is not valid text in its encoding.
    InvalidData,
}

/// The index of the first zero byte of `data` from `pos`, if any.
pub open spec fn first_zero(data: Seq<u8>, pos: int) -> Option<int>
    decreases data.len() - pos,
{
    if pos >= data.len() || pos < 0 {
        None
    } else if data[pos] == 0 {
        Some(pos)
    } else {
        first_zero(data, pos + 1)
    }
}

/// Reads the NUL-terminated string at `pos`: its bytes, and the position
/// after the terminator.
pub fn read_c_str(data: &[u8], pos: usize) -> (r: Result<(Vec<u8>, usize), StringError>)
    requires
        pos <= data.len(),
    ensures
        match first_zero(data@, pos as int) {
            None => r == Err::<(Vec<u8>, usize), StringError>(StringError::UnexpectedEof),
            Some(z) => r matches Ok((bytes, next)) && bytes@ == data@.subrange(pos as int, z) && next == z + 1,
        },
{
    let mut p: usize = pos;
    while p < data.len()
        invariant
            pos <= p <= data.len(),
            first_zero(data@, pos as int) == first_zero(data@, p as int),
            forall|k: int| pos <= k < p ==> data@[k] != 0,
        decreases data.len() - p,
    {
        if data[p] == 0 {
            let bytes = vstd::slice::slice_to_vec(vstd::slice::slice_subrange(data, pos, p));
            return Ok((bytes, p + 1));
        }
        p = p + 1;
    }
    Err(StringError::UnexpectedEof)
}

/// The up to `size` bytes at `pos`: fewer where the data ends first.
pub open spec fn spec_take(data: Seq<u8>, pos: int, size: int) -> Seq<u8> {
    data.subrange(pos, if pos + size <= data.len() { pos + size } else { data.len() as int })
}

/// Reads up to `size` bytes at `pos`, and gives the position after them.
pub fn read_pascal_int(data: &[u8], pos: usize, size: usize) -> (r: (Vec<u8>, usize))
    requires
        pos <= data.len(),
    ensures
        r.0@ == spec_take(data@, pos as int, size as int),
        r.1 == pos + r.0@.len(),
{
    let end = if data.len() - pos >= size { pos + size } else { data.len() };
    (vstd::slice::slice_to_vec(vstd::slice::slice_subrange(data, pos, end)), end)
}

/// Reads the string at `pos` that a length byte precedes. A string cut short
/// by the end of the data is given as far as it goes.
pub fn read_pascal_str(data: &[u8], pos: usize) -> (r: Result<(Vec<u8>, usize), StringError>)
    requires
        pos <= data.len(),
    ensures
        pos + 1 > data.len() ==> r == Err::<(Vec<u8>, usize), StringError>(StringError::UnexpectedEof),
        pos + 1 <= data.len() ==> (r matches Ok((bytes, next))
            && bytes@ == spec_take(data@, pos + 1, data@[pos as int] as int)
            && next == pos + 1 + bytes@.len()),
{
    if data.len() - pos < 1 {
        return Err(StringError::UnexpectedEof);
    }
    let size = data[pos] as usize;
    Ok(read_pascal_int(data, pos + 1, size))
}

/// Reads the string at `pos` that a 16-bit length in the given byte order
/// precedes. A string cut short by the end of the data is given as far as
/// it goes.
pub fn read_pascal_16_str(data: &[u8], pos: usize, big: bool) -> (r: Result<(Vec<u8>, usize), StringError>)
    requires
        pos <= data.len(),
    ensures
        pos + 2 > data.len() ==> r == Err::<(Vec<u8>, usize), StringError>(StringError::UnexpectedEof),
        pos + 2 <= data.len() ==> (r matches Ok((bytes, next))
            && bytes@ == spec_take(data@, pos + 2, u16_at(data@, pos as int, big))
            && next == pos + 2 + bytes@.len()),
{
    if data.len() - pos < 2 {
        return Err(StringError::UnexpectedEof);
    }
    let size = read_u16(data, pos, big) as usize;
    Ok(read_pascal_int(data, pos + 2, size))
}

/// How a string resource is stored.
#[derive(Clone, Copy, Debug, PartialEq, Eq, Structural)]
pub enum StringKind {
    /// As many bytes as the resource has.
    Sized,
    /// Up to a NUL byte.
    CStr,
    /// A length byte, then that many bytes.
    PascalStr,
}

/// How to load a string resource.
#[derive(Clone, Copy, Debug, PartialEq, Eq, Structural)]
pub struct StringContext(pub StringKind);

impl Default for StringContext {
    /// A sized string.
    fn default() -> (r: Self)
        ensures
            r == StringContext(StringKind::Sized),
    {
        StringContext(StringKind::Sized)
    }
}

impl StringContext {
    /// The bytes of the string resource of `size` bytes that `data` holds.
    pub open spec fn spec_load(self, data: Seq<u8>, size: int) -> Result<Seq<u8>, StringError> {
        match self.0 {
            StringKind::Sized => Ok(spec_take(data, 0, size)),
            StringKind::CStr => match first_zero(data, 0) {
                None => Err(StringError::UnexpectedEof),
                Some(z) => Ok(data.subrange(0, z)),
            },
            StringKind::PascalStr => if data.len() < 1 {
                Err(StringError::UnexpectedEof)
            } else {
                Ok(spec_take(data, 1, data[0] as int))
            },
        }
    }

    /// Loads the string resource of `size` bytes that `data` holds, in the
    /// way the context gives: its bytes.
    pub fn load(&self, data: &[u8], size: u32) -> (r: Result<Vec<u8>, StringError>)
        ensures
            match (r, self.spec_load(data@, size as int)) {
                (Ok(bytes), Ok(v)) => bytes@ == v,
                (Err(e), Err(f)) => e == f,
                _ => false,
            },
    {
        match self.0 {
            StringKind::Sized => Ok(read_pascal_int(data, 0, size as usize).0),
            StringKind::CStr => match read_c_str(data, 0) {
                Ok((bytes, _)) => Ok(bytes),
                Err(e) => Err(e),
            },
            StringKind::PascalStr => match read_pascal_str(data, 0) {
                Ok((bytes, _)) => Ok(bytes),
                Err(e) => Err(e),
            },
        }
    }
}

/// Whether a UTF-16 code unit is a high (leading) surrogate.
pub open spec fn high_surrogate(u: u16) -> bool {
    0xd800 <= u <= 0xdbff
}

/// Whether a UTF-16 code unit is a low (trailing) surrogate.
pub open spec fn low_surrogate(u: u16) -> bool {
    0xdc00 <= u <= 0xdfff
}

/// The text that UTF-16 code units decode to, with U+FFFD in place of each
/// unpaired surrogate.
pub open spec fn utf16_lossy(units: Seq<u16>) -> Seq<char>
    decreases units.len(),
{
    if units.len() == 0 {
        Seq::empty()
    } else if high_surrogate(units[0]) && units.len() >= 2 && low_surrogate(units[1]) {
        seq![(0x10000 + (units[0] - 0xd800) * 0x400 + (units[1] - 0xdc00)) as char] + utf16_lossy(units.skip(2))
    } else if high_surrogate(units[0]) || low_surrogate(units[0]) {
        seq!['\u{fffd}'] + utf16_lossy(units.skip(1))
    } else {
        seq![units[0] as char] + utf16_lossy(units.skip(1))
    }
}

/// Whether UTF-16 code units are valid text: every surrogate is paired.
pub open spec fn valid_utf16(units: Seq<u16>) -> bool
    decreases units.len(),
{
    if units.len() == 0 {
        true
    } else if high_surrogate(units[0]) && units.len() >= 2 && low_surrogate(units[1]) {
        valid_utf16(units.skip(2))
    } else if high_surrogate(units[0]) || low_surrogate(units[0]) {
        false
    } else {
        valid_utf16(units.skip(1))
    }
}

/// `String::from_utf16`: std documents that it decodes the UTF-16 code units
/// and fails if they hold invalid data (an unpaired surrogate).
#[verifier::external_body]
fn decode_utf16(units: &[u16]) -> (r: Option<String>)
    ensures
        r is Some <==> valid_utf16(units@),
        r matches Some(text) ==> text@ == utf16_lossy(units@),
{
    String::from_utf16(units).ok()
}

/// The NUL-terminated string of UTF-16 code units in the given byte order at
/// `p`: its units, without the terminator, and the position after the
/// terminator.
pub open spec fn spec_utf16_units(data: Seq<u8>, p: int, big: bool) -> Option<(Seq<u16>, int)>
    decreases data.len() - p,
{
    if p < 0 || p + 2 > data.len() {
        None
    } else if u16_at(data, p, big) == 0 {
        Some((Seq::empty(), p + 2))
    } else {
        match spec_utf16_units(data, p + 2, big) {
            None => None,
            Some((rest, q)) => Some((seq![u16_at(data, p, big) as u16] + rest, q)),
        }
    }
}

/// A string read by `spec_utf16_units` ends past its start, within the data.
pub proof fn lemma_utf16_units_bounds(data: Seq<u8>, p: int, big: bool)
    ensures
        spec_utf16_units(data, p, big) matches Some((_, q)) ==> p + 2 <= q <= data.len(),
    decreases data.len() - p,
{
    if !(p < 0 || p + 2 > data.len()) && u16_at(data, p, big) != 0 {
        lemma_utf16_units_bounds(data, p + 2, big);
    }
}

/// Reads the NUL-terminated string of UTF-16 code units in the given byte
/// order at `pos`.
pub fn read_utf16_units(data: &[u8], pos: usize, big: bool) -> (r: Option<(Vec<u16>, usize)>)
    requires
        pos <= data.len(),
    ensures
        match (r, spec_utf16_units(data@, pos as int, big)) {
            (Some((units, next)), Some((vunits, vnext))) => units@ == vunits && next == vnext,
            (None, None) => true,
            _ => false,
        },
        r matches Some((_, next)) ==> pos + 2 <= next <= data.len(),
{
    let mut units: Vec<u16> = Vec::new();
    let mut p: usize = pos;
    let ghost goal = spec_utf16_units(data@, pos as int, big);
    loop
        invariant
            pos <= p <= data.len(),
            p == pos || p >= pos + 2,
            goal == spec_utf16_units(data@, pos as int, big),
            goal == match spec_utf16_units(data@, p as int, big) {
                None => None,
                Some((rest, q)) => Some((units@ + rest, q)),
            },
        decreases data.len() - p,
    {
        if data.len() - p < 2 {
            return None;
        }
        let unit = read_u16(data, p, big);
        if unit == 0 {
            assert(units@ + Seq::<u16>::empty() =~= units@);
            return Some((units, p + 2));
        }
        let ghost before = units@;
        units.push(unit);
        proof {
            match spec_utf16_units(data@, p + 2, big) {
                None => {},
                Some((rest, q)) => {
                    assert(before + (seq![unit] + rest) =~= units@ + rest);
                },
            }
        }
        p = p + 2;
    }
}

/// Reads the NUL-terminated UTF-16 string in the given byte order at `pos`:
/// its text, and the position after the terminator.
pub fn read_utf16_c_str(data: &[u8], pos: usize, big: bool) -> (r: Result<(String, usize), StringError>)
    requires
        pos <= data.len(),
    ensures
        match spec_utf16_units(data@, pos as int, big) {
            None => r == Err::<(String, usize), StringError>(StringError::UnexpectedEof),
            Some((units, next)) => if valid_utf16(units) {
                r matches Ok((text, n)) && text@ == utf16_lossy(units) && n == next
            } else {
                r == Err::<(String, usize), StringError>(StringError::InvalidData)
            },
        },
{
    let (units, next) = match read_utf16_units(data, pos, big) {
        Some(found) => found,
        None => return Err(StringError::UnexpectedEof),
    };
    match decode_utf16(units.as_slice()) {
        Some(text) => Ok((text, next)),
        None => Err(StringError::InvalidData),
    }
}

} // verus!

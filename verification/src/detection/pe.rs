//! The product name in the version resource of a Windows PE executable.

use binrw::NullWideString;
use crate::bytes::{le_u16_at, le_u32_at, read_le_u16, read_le_u32};
use crate::string::{lemma_utf16_units_bounds, read_utf16_units, spec_utf16_units, utf16_lossy};
use vstd::prelude::*;

verus! {

/// `NullWideString::into_string` of binrw 0.8, which is
/// `String::from_utf16_lossy` on the code units: std documents that it
/// decodes them, with U+FFFD in place of invalid data.
#[verifier::external_body]
fn decode_wide(units: Vec<u16>) -> (r: String)
    ensures
        r@ == utf16_lossy(units@),
{
    NullWideString(units).into_string()
}

/// The UTF-16 code units of an ASCII string.
pub open spec fn ascii_units(s: Seq<u8>) -> Seq<u16> {
    Seq::new(s.len(), |i: int| s[i] as u16)
}

/// `StringFileInfo`
pub open spec fn string_file_info() -> Seq<u8> {
    seq![0x53u8, 0x74, 0x72, 0x69, 0x6e, 0x67, 0x46, 0x69, 0x6c, 0x65, 0x49, 0x6e, 0x66, 0x6f]
}

/// `ProductName`
pub open spec fn product_name() -> Seq<u8> {
    seq![0x50u8, 0x72, 0x6f, 0x64, 0x75, 0x63, 0x74, 0x4e, 0x61, 0x6d, 0x65]
}

/// `VS_VERSION_INFO`
pub open spec fn vs_version_info() -> Seq<u8> {
    seq![0x56u8, 0x53, 0x5f, 0x56, 0x45, 0x52, 0x53, 0x49, 0x4f, 0x4e, 0x5f, 0x49, 0x4e, 0x46, 0x4f]
}

/// Whether the code units are `expected`.
fn units_eq(units: &Vec<u16>, expected: &[u8]) -> (r: bool)
    ensures
        r == (units@ == ascii_units(expected@)),
{
    if units.len() != expected.len() {
        return false;
    }
    let mut i: usize = 0;
    while i < units.len()
        invariant
            i <= units@.len() == expected@.len(),
            forall|k: int| 0 <= k < i ==> units@[k] == expected@[k] as u16,
        decreases units@.len() - i,
    {
        if units[i] != expected[i] as u16 {
            assert(units@[i as int] != ascii_units(expected@)[i as int]);
            return false;
        }
        i = i + 1;
    }
    assert(units@ =~= ascii_units(expected@));
    true
}

/// The virtual address and file offset of the `.rsrc` section among the
/// section headers `k` to `n`, the first at `p`.
pub open spec fn spec_find_section(data: Seq<u8>, p: int, k: int, n: int) -> Option<(u32, u32)>
    decreases (if n > k { n - k } else { 0 }),
{
    if k >= n || p + 40 > data.len() {
        None
    } else if data[p] == 0x2e && data[p + 1] == 0x72 && data[p + 2] == 0x73 && data[p + 3] == 0x72 && data[p + 4] == 0x63
        && data[p + 5] == 0 && data[p + 6] == 0 && data[p + 7] == 0 {
        Some((le_u32_at(data, p + 12) as u32, le_u32_at(data, p + 20) as u32))
    } else {
        spec_find_section(data, p + 40, k + 1, n)
    }
}

/// Finds the `.rsrc` section among `num_sections` section headers at `pos`,
/// giving its virtual address and file offset.
fn find_resource_segment_offset(data: &[u8], pos: usize, num_sections: u16) -> (r: Option<(u32, u32)>)
    requires
        pos <= data.len(),
    ensures
        r == spec_find_section(data@, pos as int, 0, num_sections as int),
{
    let mut p: usize = pos;
    let mut k: u16 = 0;
    while k < num_sections
        invariant
            p <= data.len(),
            k <= num_sections,
            spec_find_section(data@, pos as int, 0, num_sections as int) == spec_find_section(data@, p as int, k as int, num_sections as int),
        decreases num_sections - k,
    {
        if data.len() - p < 40 {
            return None;
        }
        if data[p] == 0x2e && data[p + 1] == 0x72 && data[p + 2] == 0x73 && data[p + 3] == 0x72 && data[p + 4] == 0x63
            && data[p + 5] == 0 && data[p + 6] == 0 && data[p + 7] == 0 {
            return Some((read_le_u32(data, p + 12), read_le_u32(data, p + 20)));
        }
        p = p + 40;
        k = k + 1;
    }
    None
}

/// The `.rsrc` section of the PE executable whose file header is at `pos`.
pub open spec fn spec_resource_segment(data: Seq<u8>, pos: int) -> Option<(u32, u32)> {
    if pos + 18 > data.len() {
        None
    } else if pos + 18 + 2 + le_u16_at(data, pos + 16) > data.len() {
        None
    } else {
        spec_find_section(data, pos + 20 + le_u16_at(data, pos + 16), 0, le_u16_at(data, pos + 2))
    }
}

/// Reads the PE file header at `pos` (just after the signature) and finds
/// the `.rsrc` section: its virtual address, and its file offset.
fn seek_to_resource_segment(data: &[u8], pos: usize) -> (r: Option<(u32, u32)>)
    requires
        pos <= data.len(),
    ensures
        r == spec_resource_segment(data@, pos as int),
{
    if data.len() - pos < 18 {
        return None;
    }
    let num_sections = read_le_u16(data, pos + 2);
    let optional_header_size = read_le_u16(data, pos + 16);
    if data.len() - (pos + 18) < 2 + optional_header_size as usize {
        return None;
    }
    find_resource_segment_offset(data, pos + 20 + optional_header_size as usize, num_sections)
}

/// The position that the directory entry for `id` among entries `k` to `n`,
/// the first at `p`, points to, relative to `from`.
pub open spec fn spec_dir_scan(data: Seq<u8>, p: int, k: int, n: int, from: int, id: int) -> Option<int>
    decreases (if n > k { n - k } else { 0 }),
{
    if k >= n || p + 8 > data.len() {
        None
    } else if le_u32_at(data, p) == id {
        let target = from + le_u32_at(data, p + 4) % 0x8000_0000;
        if target > data.len() { None } else { Some(target) }
    } else {
        spec_dir_scan(data, p + 8, k + 1, n, from, id)
    }
}

/// The position that the resource directory at `pos` gives for `id`.
pub open spec fn spec_dir_entry(data: Seq<u8>, pos: int, from: int, id: int) -> Option<int> {
    if pos + 16 > data.len() {
        None
    } else if pos + 16 + 8 * le_u16_at(data, pos + 12) > data.len() {
        None
    } else {
        spec_dir_scan(data, pos + 16 + 8 * le_u16_at(data, pos + 12), 0, le_u16_at(data, pos + 14), from, id)
    }
}

/// Reads the resource directory at `pos` and finds the entry for `id`,
/// giving the position it points to, relative to `from_offset`.
fn seek_to_directory_entry(data: &[u8], pos: usize, from_offset: u32, id: u32) -> (r: Option<usize>)
    requires
        pos <= data.len(),
    ensures
        match (r, spec_dir_entry(data@, pos as int, from_offset as int, id as int)) {
            (Some(p), Some(v)) => p == v,
            (None, None) => true,
            _ => false,
        },
        r matches Some(p) ==> p <= data.len(),
{
    if data.len() - pos < 16 {
        return None;
    }
    let skip_entries = read_le_u16(data, pos + 12);
    let num_entries = read_le_u16(data, pos + 14);
    if data.len() - (pos + 16) < 8 * skip_entries as usize {
        return None;
    }
    let mut p: usize = pos + 16 + 8 * skip_entries as usize;
    let mut k: u16 = 0;
    let ghost goal = spec_dir_entry(data@, pos as int, from_offset as int, id as int);
    while k < num_entries
        invariant
            p <= data.len(),
            k <= num_entries,
            goal == spec_dir_entry(data@, pos as int, from_offset as int, id as int),
            goal == spec_dir_scan(data@, p as int, k as int, num_entries as int, from_offset as int, id as int),
        decreases num_entries - k,
    {
        if data.len() - p < 8 {
            return None;
        }
        let found_id = read_le_u32(data, p);
        if found_id == id {
            let raw = read_le_u32(data, p + 4);
            let offset = raw & 0x7fff_ffff;
            assert(raw & 0x7fff_ffff == raw % 0x8000_0000) by (bit_vector);
            let target: u64 = from_offset as u64 + offset as u64;
            if target > data.len() as u64 {
                return None;
            }
            return Some(target as usize);
        }
        p = p + 8;
        k = k + 1;
    }
    None
}

/// The file position of the resource data whose entry is at `pos`: its
/// virtual address, made relative to the section.
pub open spec fn spec_resource_data(data: Seq<u8>, pos: int, virtual_address: int, raw_offset: int) -> Option<int> {
    if pos + 4 > data.len() || le_u32_at(data, pos) < virtual_address {
        None
    } else {
        let target = le_u32_at(data, pos) - virtual_address + raw_offset;
        if target > data.len() { None } else { Some(target) }
    }
}

/// Reads the offset of the resource data at `pos` and turns it from a
/// virtual address into a file position.
fn seek_to_resource_data(data: &[u8], pos: usize, virtual_address: u32, raw_offset: u32) -> (r: Option<usize>)
    requires
        pos <= data.len(),
    ensures
        match (r, spec_resource_data(data@, pos as int, virtual_address as int, raw_offset as int)) {
            (Some(p), Some(v)) => p == v,
            (None, None) => true,
            _ => false,
        },
        r matches Some(p) ==> p <= data.len(),
{
    if data.len() - pos < 4 {
        return None;
    }
    let offset = read_le_u32(data, pos);
    if offset < virtual_address {
        return None;
    }
    let target: u64 = (offset - virtual_address) as u64 + raw_offset as u64;
    if target > data.len() as u64 {
        return None;
    }
    Some(target as usize)
}

/// The number of padding bytes that take `n` to a multiple of four.
pub open spec fn pad4(n: int) -> int {
    if n % 4 == 0 { 0 } else { 4 - n % 4 }
}

/// The number of padding bytes that take `n` to a multiple of four.
fn padding4(n: u64) -> (r: u64)
    ensures
        r == pad4(n as int),
{
    if n % 4 == 0 { 0 } else { 4 - n % 4 }
}

/// Whether a key names a string table: `StringFileInfo`, or eight
/// characters ending in `04b0` (a language with the Unicode code page).
pub open spec fn is_string_table_key(key: Seq<u16>) -> bool {
    key == ascii_units(string_file_info())
        || (key.len() == 8 && key[4] == 0x30 && key[5] == 0x34 && key[6] == 0x62 && key[7] == 0x30)
}

/// Reading the version information structure at `pos`, looking for the
/// `ProductName` string: the units of the name if found (or a failure), and
/// the position where the reading stopped. `VS_VERSION_INFO` is stepped into
/// past its value; the children of a string table are read in turn until the
/// end of the table, or until reading stops moving forward; any other
/// structure is stepped over.
pub open spec fn spec_version_struct(data: Seq<u8>, pos: int) -> (Result<Option<Seq<u16>>, ()>, int)
    decreases data.len() - pos, 1int, 0int,
{
    if pos < 0 || pos + 6 > data.len() {
        (Err(()), pos)
    } else {
        let size = le_u16_at(data, pos);
        let value_size = if le_u16_at(data, pos + 4) == 1 { le_u16_at(data, pos + 2) * 2 } else { le_u16_at(data, pos + 2) };
        let end = pos + size + pad4(size);
        proof {
            lemma_utf16_units_bounds(data, pos + 6, false);
        }
        match spec_utf16_units(data, pos + 6, false) {
            None => (Err(()), pos + 6),
            Some((key, key_end)) => {
                let p = key_end + (key.len() % 2) * 2;
                if p > data.len() {
                    (Err(()), key_end)
                } else if key == ascii_units(product_name()) {
                    match spec_utf16_units(data, p, false) {
                        Some((value, next)) => (Ok(Some(value)), next),
                        None => (Err(()), p),
                    }
                } else if key == ascii_units(vs_version_info()) {
                    if value_size + pad4(value_size) > data.len() - p {
                        (Err(()), p)
                    } else {
                        spec_version_struct(data, p + value_size + pad4(value_size))
                    }
                } else if is_string_table_key(key) {
                    spec_children(data, pos, p, end)
                } else if end > data.len() {
                    (Ok(None), data.len() as int)
                } else {
                    (Ok(None), end)
                }
            },
        }
    }
}

/// Reading the children of the string table that starts at `start`, from
/// `p` to `end`.
pub open spec fn spec_children(data: Seq<u8>, start: int, p: int, end: int) -> (Result<Option<Seq<u16>>, ()>, int)
    decreases data.len() - start, 0int, data.len() - p,
{
    if p == end || p <= start || p > data.len() {
        (Ok(None), p)
    } else {
        let (found, next) = spec_version_struct(data, p);
        if found matches Ok(Some(_)) {
            (found, next)
        } else if next <= p || next > data.len() {
            (Ok(None), p)
        } else {
            spec_children(data, start, next, end)
        }
    }
}

/// The units of the product name of the PE executable whose file header is
/// at `pos`: through the `.rsrc` section, the version resource (type 16,
/// number 1, language 1033), and its version information.
pub open spec fn spec_product_units(data: Seq<u8>, pos: int) -> Option<Seq<u16>> {
    match spec_resource_segment(data, pos) {
        None => None,
        Some((virtual_address, from)) => if from > data.len() {
            None
        } else {
            match spec_dir_entry(data, from as int, from as int, 0x10) {
                None => None,
                Some(p1) => match spec_dir_entry(data, p1, from as int, 1) {
                    None => None,
                    Some(p2) => match spec_dir_entry(data, p2, from as int, 1033) {
                        None => None,
                        Some(p3) => match spec_resource_data(data, p3, virtual_address as int, from as int) {
                            None => None,
                            Some(p4) => match spec_version_struct(data, p4) {
                                (Ok(Some(units)), _) => Some(units),
                                _ => None,
                            },
                        },
                    },
                },
            }
        },
    }
}

/// Reads the version information structure at `pos`.
fn read_version_struct(data: &[u8], pos: usize) -> (r: (Result<Option<Vec<u16>>, ()>, usize))
    requires
        pos <= data.len(),
    ensures
        r.1 <= data.len(),
        spec_version_struct(data@, pos as int).1 == r.1,
        match (r.0, spec_version_struct(data@, pos as int).0) {
            (Ok(Some(units)), Ok(Some(v))) => units@ == v,
            (Ok(None), Ok(None)) => true,
            (Err(_), Err(_)) => true,
            _ => false,
        },
    decreases data.len() - pos,
{
    let start = pos;
    if data.len() - pos < 6 {
        return (Err(()), pos);
    }
    let size = read_le_u16(data, pos);
    let mut value_size: u64 = read_le_u16(data, pos + 2) as u64;
    let is_text_data = read_le_u16(data, pos + 4) == 1;
    if is_text_data {
        value_size = value_size * 2;
    }
    let value_padding = padding4(value_size);
    let end: u128 = start as u128 + size as u128 + padding4(size as u64) as u128;
    let (key, key_end) = match read_utf16_units(data, pos + 6, false) {
        Some(found) => found,
        None => return (Err(()), pos + 6),
    };
    let key_padding_size: usize = (key.len() % 2) * 2;
    if data.len() - key_end < key_padding_size {
        return (Err(()), key_end);
    }
    let mut p = key_end + key_padding_size;
    let is_string_table = units_eq(&key, &[0x53u8, 0x74, 0x72, 0x69, 0x6e, 0x67, 0x46, 0x69, 0x6c, 0x65, 0x49, 0x6e, 0x66, 0x6f])
        || (key.len() == 8 && key[4] == 0x30 && key[5] == 0x34 && key[6] == 0x62 && key[7] == 0x30);
    if units_eq(&key, &[0x50u8, 0x72, 0x6f, 0x64, 0x75, 0x63, 0x74, 0x4e, 0x61, 0x6d, 0x65]) {
        match read_utf16_units(data, p, false) {
            Some((value, next)) => (Ok(Some(value)), next),
            None => (Err(()), p),
        }
    } else if units_eq(&key, &[0x56u8, 0x53, 0x5f, 0x56, 0x45, 0x52, 0x53, 0x49, 0x4f, 0x4e, 0x5f, 0x49, 0x4e, 0x46, 0x4f]) {
        let skip: u64 = value_size + value_padding;
        if skip > (data.len() - p) as u64 {
            return (Err(()), p);
        }
        read_version_struct(data, p + skip as usize)
    } else if is_string_table {
        let ghost goal = spec_children(data@, pos as int, p as int, end as int);
        assert(goal == spec_version_struct(data@, pos as int));
        while p as u128 != end
            invariant
                start == pos,
                goal == spec_version_struct(data@, pos as int),
                start < p <= data.len(),
                goal == spec_children(data@, pos as int, p as int, end as int),
            decreases data.len() - p,
        {
            let (found, next) = read_version_struct(data, p);
            if let Ok(Some(value)) = found {
                return (Ok(Some(value)), next);
            }
            if next <= p || next > data.len() {
                return (Ok(None), p);
            }
            p = next;
        }
        (Ok(None), p)
    } else {
        if end > data.len() as u128 {
            return (Ok(None), data.len());
        }
        (Ok(None), end as usize)
    }
}

/// Reads the product name from the version resource of the PE executable
/// whose file header starts at `pos`, just after its signature.
pub fn read_product_name(data: &[u8], pos: usize) -> (r: Option<String>)
    requires
        pos <= data.len(),
    ensures
        match spec_product_units(data@, pos as int) {
            None => r is None,
            Some(units) => r matches Some(name) && name@ == utf16_lossy(units),
        },
{
    let (virtual_address, from_offset) = match seek_to_resource_segment(data, pos) {
        Some(found) => found,
        None => return None,
    };
    if from_offset as usize > data.len() {
        return None;
    }
    let p = match seek_to_directory_entry(data, from_offset as usize, from_offset, 0x10) {
        Some(p) => p,
        None => return None,
    };
    let p = match seek_to_directory_entry(data, p, from_offset, 1) {
        Some(p) => p,
        None => return None,
    };
    let p = match seek_to_directory_entry(data, p, from_offset, 1033) {
        Some(p) => p,
        None => return None,
    };
    let p = match seek_to_resource_data(data, p, virtual_address, from_offset) {
        Some(p) => p,
        None => return None,
    };
    match read_version_struct(data, p) {
        (Ok(Some(units)), _) => {
            let ghost u = units@;
            let name = decode_wide(units);
            assert(name@ == utf16_lossy(u));
            Some(name)
        },
        _ => None,
    }
}

} // verus!

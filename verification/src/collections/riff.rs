//! A Director RIFF file.
//!
//! Starting with Director 3 for Windows, movie and cast data are stored in
//! RIFF files (earlier versions used Mac resource files). Index chunks at the
//! start of the file give access to the data by chunk index or by resource
//! ID.

use crate::bytes::{as_signed32, be_u32_at, le_u32_at, read_be_u32, read_i32, read_le_u32, read_u16, read_u32, u16_at, u32_at};
use crate::config::{Endian, OsType};
use crate::detection::movie::{DetectionInfo, Kind as MovieKind};
use crate::detection::Version;
use vstd::prelude::*;

verus! {

/// `RIFX`
pub const RIFX: u32 = 0x52494658;
/// `RIFF`
pub const RIFF: u32 = 0x52494646;
/// `XFIR`
pub const XFIR: u32 = 0x58464952;
/// `FFIR`
pub const FFIR: u32 = 0x46464952;
/// `RMMP`
pub const RMMP: u32 = 0x524d4d50;
/// `MV93`
pub const MV93: u32 = 0x4d563933;
/// `39VM`
pub const MV93_LE: u32 = 0x3339564d;
/// `MC95`
pub const MC95: u32 = 0x4d433935;
/// `59CM`
pub const MC95_LE: u32 = 0x3539434d;
/// `APPL`
pub const APPL: u32 = 0x4150504c;
/// `LPPA`
pub const APPL_LE: u32 = 0x4c505041;
/// `CFTC`
pub const CFTC: u32 = 0x43465443;
/// `imap`
pub const IMAP: u32 = 0x696d6170;
/// `mmap`
pub const MMAP: u32 = 0x6d6d6170;
/// `KEY*`
pub const KEYS: u32 = 0x4b45592a;
/// `free`
pub const FREE: u32 = 0x66726565;
/// `junk`
pub const JUNK: u32 = 0x6a756e6b;

/// The index of a chunk in the memory map of a RIFF file.
#[derive(Clone, Copy, Debug, PartialEq, Eq, Structural)]
pub struct ChunkIndex(pub i32);

/// A resource type code and resource number.
#[derive(Clone, Copy, Debug, PartialEq, Eq, Structural)]
pub struct ResourceId {
    pub os_type: OsType,
    pub id: i16,
}

/// The index that names a duplicated resource.
#[derive(Clone, Copy, Debug, PartialEq, Eq, Structural)]
pub enum MapKind {
    Cftc,
    Keys,
}

/// Why a RIFF file could not be read.
#[derive(Clone, Copy, Debug, PartialEq, Eq, Structural)]
pub enum Error {
    /// The data ended, or a seek went outside it.
    Io,
    /// Not a RIFF file.
    NotRiff,
    /// A RIFF file, but not one that Director wrote.
    NotDirectorRiff,
    /// A little-endian RIFF, which is not supported.
    UnsupportedRiff,
    /// The first chunk is not a resource map; it has the given type.
    ResourceMapNotFound(OsType),
    /// No chunk has the given index.
    BadIndex(ChunkIndex),
    /// A seek to the given chunk, at the given offset, failed.
    SeekFailure(ChunkIndex, u32),
    /// The memory map offset is outside the file.
    MmapSeekFailure,
    /// The `KEY*` offset is outside the file.
    KeysSeekFailure,
    /// The chunk at the `KEY*` offset is not a `KEY*` chunk.
    BadKeysOffset,
    /// The memory map header has the wrong size.
    BadMmapHeaderSize(u16),
    /// The memory map entries have the wrong size.
    BadMmapEntrySize(u16),
    /// The memory map has too many entries.
    BadMmapEntryCount(u32),
    /// A memory map entry has undefined flags.
    BadMmapEntryFlags(ChunkIndex, u16),
    /// A resource ID appears twice in the given index.
    DuplicateResourceId(ResourceId, MapKind),
    /// Skipping the resource ID of a Director 3 chunk failed.
    D3ResourceIdSkipIo(ChunkIndex),
    /// Reading the resource name size of a Director 3 chunk failed.
    D3ResourceNameSizeReadIo(ChunkIndex),
    /// Skipping the resource name of a Director 3 chunk failed.
    D3ResourceNameSkipIo(ChunkIndex),
}

/// The byte order of a Director RIFF, decided by the first character of its
/// subtype, and its size read in that order.
pub open spec fn spec_riff_attributes(sub_type: OsType, raw_size: Seq<u8>) -> (Endian, u32) {
    let first = sub_type / 0x100_0000;
    let endianness = if first == 0x4d || first == 0x41 { Endian::Big } else { Endian::Little };
    (endianness, (if endianness == Endian::Big { be_u32_at(raw_size, 0) } else { le_u32_at(raw_size, 0) }) as u32)
}

/// The byte order of a Director RIFF, decided by the first character of its
/// subtype (`M` or `A` for big-endian), and its size read in that order.
pub fn get_riff_attributes(sub_type: OsType, raw_size: &[u8]) -> (r: (Endian, u32))
    requires
        raw_size.len() >= 4,
    ensures
        r == spec_riff_attributes(sub_type, raw_size@),
{
    let first = sub_type / 0x100_0000;
    let endianness = if first == 0x4d || first == 0x41 { Endian::Big } else { Endian::Little };
    let size = if endianness == Endian::Big { read_be_u32(raw_size, 0) } else { read_le_u32(raw_size, 0) };
    (endianness, size)
}

/// The detection info for a subtype and the stored size.
pub open spec fn spec_subtype_info(sub_type: OsType, raw: Seq<u8>) -> Option<DetectionInfo> {
    let (endianness, size) = spec_riff_attributes(sub_type, raw);
    if sub_type == RMMP {
        Some(DetectionInfo {
            os_type_endianness: Endian::Big,
            data_endianness: Endian::Little,
            version: Version::D3,
            kind: MovieKind::Movie,
            size: (le_u32_at(raw, 0) - 8) as u32,
        })
    } else if sub_type == MV93 || sub_type == MV93_LE {
        Some(DetectionInfo { os_type_endianness: endianness, data_endianness: endianness, version: Version::D4, kind: MovieKind::Movie, size })
    } else if sub_type == MC95 || sub_type == MC95_LE {
        Some(DetectionInfo { os_type_endianness: endianness, data_endianness: endianness, version: Version::D4, kind: MovieKind::Cast, size })
    } else if sub_type == APPL || sub_type == APPL_LE {
        Some(DetectionInfo { os_type_endianness: endianness, data_endianness: endianness, version: Version::D4, kind: MovieKind::Embedded, size })
    } else {
        None
    }
}

/// What the subtype at `pos` (after the RIFF type code) says.
pub open spec fn spec_detect_subtype(data: Seq<u8>, pos: int) -> Option<DetectionInfo> {
    if pos + 8 > data.len() {
        None
    } else {
        spec_subtype_info(be_u32_at(data, pos + 4) as u32, data.subrange(pos, pos + 4))
    }
}

/// Whether reading the RIFF header at `pos` is defined: a Director 3 RIFF
/// stores its size with the chunk header included, and the eight bytes of the
/// header are taken off it.
pub open spec fn spec_detect_defined(data: Seq<u8>, pos: int) -> bool {
    pos + 12 <= data.len() && be_u32_at(data, pos + 8) == RMMP ==> le_u32_at(data, pos + 4) >= 8
}

/// Whether reading the RIFF header at `pos` has a defined result: whether
/// `detect` may be called.
pub fn detect_is_defined(data: &[u8], pos: usize) -> (r: bool)
    requires
        pos <= data.len(),
    ensures
        r == spec_detect_defined(data@, pos as int),
{
    if data.len() - pos < 12 {
        return true;
    }
    if read_be_u32(data, pos + 8) != RMMP {
        return true;
    }
    read_le_u32(data, pos + 4) >= 8
}

/// Whether the four bytes at `p` are `a`, `b`, `c`, `d`.
pub open spec fn bytes_are(data: Seq<u8>, p: int, a: u8, b: u8, c: u8, d: u8) -> bool {
    data[p] == a && data[p + 1] == b && data[p + 2] == c && data[p + 3] == d
}

/// The subtype of a Director RIFF names what the file is, whichever byte
/// order it is stored in: `MV93` (or `39VM`, stored little-endian) a movie,
/// `MC95` (or `59CM`) a cast library, `APPL` (or `LPPA`) a projector's
/// container, all Director 4 or later; the big-endian spelling is read
/// big-endian and the reversed one little-endian. `RMMP` is a Director 3
/// movie, whose type codes are big-endian and whose data is little-endian.
pub proof fn lemma_subtype_kinds(data: Seq<u8>, pos: int)
    requires
        0 <= pos,
        pos + 12 <= data.len(),
        be_u32_at(data, pos) == RIFX || be_u32_at(data, pos) == RIFF || be_u32_at(data, pos) == XFIR,
    ensures
        bytes_are(data, pos + 8, 0x4d, 0x56, 0x39, 0x33) || bytes_are(data, pos + 8, 0x33, 0x39, 0x56, 0x4d)
            ==> (spec_detect(data, pos) matches Ok(info) && info.kind == MovieKind::Movie && info.version == Version::D4),
        bytes_are(data, pos + 8, 0x4d, 0x43, 0x39, 0x35) || bytes_are(data, pos + 8, 0x35, 0x39, 0x43, 0x4d)
            ==> (spec_detect(data, pos) matches Ok(info) && info.kind == MovieKind::Cast && info.version == Version::D4),
        bytes_are(data, pos + 8, 0x41, 0x50, 0x50, 0x4c) || bytes_are(data, pos + 8, 0x4c, 0x50, 0x50, 0x41)
            ==> (spec_detect(data, pos) matches Ok(info) && info.kind == MovieKind::Embedded && info.version == Version::D4),
        bytes_are(data, pos + 8, 0x52, 0x4d, 0x4d, 0x50) ==> (spec_detect(data, pos) matches Ok(info) && info.kind == MovieKind::Movie
            && info.version == Version::D3 && info.os_type_endianness == Endian::Big && info.data_endianness == Endian::Little),
        bytes_are(data, pos + 8, 0x4d, 0x56, 0x39, 0x33) || bytes_are(data, pos + 8, 0x4d, 0x43, 0x39, 0x35)
            || bytes_are(data, pos + 8, 0x41, 0x50, 0x50, 0x4c)
            ==> (spec_detect(data, pos) matches Ok(info) && info.data_endianness == Endian::Big && info.os_type_endianness == Endian::Big),
        bytes_are(data, pos + 8, 0x33, 0x39, 0x56, 0x4d) || bytes_are(data, pos + 8, 0x35, 0x39, 0x43, 0x4d)
            || bytes_are(data, pos + 8, 0x4c, 0x50, 0x50, 0x41)
            ==> (spec_detect(data, pos) matches Ok(info) && info.data_endianness == Endian::Little && info.os_type_endianness == Endian::Little),
{
}

/// What the RIFF header at `pos` says about the file.
pub open spec fn spec_detect(data: Seq<u8>, pos: int) -> Result<DetectionInfo, Error> {
    if pos + 4 > data.len() {
        Err(Error::Io)
    } else {
        let magic = be_u32_at(data, pos);
        if magic == RIFX || magic == RIFF || magic == XFIR {
            match spec_detect_subtype(data, pos + 4) {
                Some(info) => Ok(info),
                None => Err(Error::NotDirectorRiff),
            }
        } else if magic == FFIR {
            Err(Error::UnsupportedRiff)
        } else {
            Err(Error::NotRiff)
        }
    }
}

fn detect_subtype(data: &[u8], pos: usize) -> (r: Option<DetectionInfo>)
    requires
        pos <= data.len(),
        spec_detect_defined(data@, pos as int - 4),
    ensures
        r == spec_detect_subtype(data@, pos as int),
{
    if data.len() - pos < 8 {
        return None;
    }
    let raw = &data[pos..pos + 4];
    let sub_type = read_be_u32(data, pos + 4);
    if sub_type == RMMP {
        let stored = read_le_u32(raw, 0);
        Some(DetectionInfo {
            os_type_endianness: Endian::Big,
            data_endianness: Endian::Little,
            version: Version::D3,
            kind: MovieKind::Movie,
            size: stored - 8,
        })
    } else if sub_type == MV93 || sub_type == MV93_LE {
        let (endianness, size) = get_riff_attributes(sub_type, raw);
        Some(DetectionInfo { os_type_endianness: endianness, data_endianness: endianness, version: Version::D4, kind: MovieKind::Movie, size })
    } else if sub_type == MC95 || sub_type == MC95_LE {
        let (endianness, size) = get_riff_attributes(sub_type, raw);
        Some(DetectionInfo { os_type_endianness: endianness, data_endianness: endianness, version: Version::D4, kind: MovieKind::Cast, size })
    } else if sub_type == APPL || sub_type == APPL_LE {
        let (endianness, size) = get_riff_attributes(sub_type, raw);
        Some(DetectionInfo { os_type_endianness: endianness, data_endianness: endianness, version: Version::D4, kind: MovieKind::Embedded, size })
    } else {
        None
    }
}

/// Reads the RIFF header at `pos` and says what kind of Director file it
/// starts.
pub fn detect(data: &[u8], pos: usize) -> (r: Result<DetectionInfo, Error>)
    requires
        pos <= data.len(),
        spec_detect_defined(data@, pos as int),
    ensures
        r == spec_detect(data@, pos as int),
{
    if data.len() - pos < 4 {
        return Err(Error::Io);
    }
    let magic = read_be_u32(data, pos);
    if magic == RIFX || magic == RIFF || magic == XFIR {
        match detect_subtype(data, pos + 4) {
            Some(info) => Ok(info),
            None => Err(Error::NotDirectorRiff),
        }
    } else if magic == FFIR {
        Err(Error::UnsupportedRiff)
    } else {
        Err(Error::NotRiff)
    }
}


/// The outcome of reading part of a RIFF file.
pub enum Outcome<T> {
    /// The part was read.
    Done(T),
    /// The part is malformed.
    Failed(Error),
    /// The part is such that reading it has no defined result (an
    /// arithmetic overflow, or a failed conversion).
    Undefined,
}

/// The chunk was modified in memory.
pub const FLAG_DIRTY: u16 = 1;
/// The chunk is valid.
pub const FLAG_VALID: u16 = 4;
/// The chunk is on the free list.
pub const FLAG_FREE: u16 = 8;
/// Every defined memory map flag.
pub const ALL_MMAP_FLAGS: u16 = 0x80ed;

/// The size of the chunk header (type code and size).
pub const CHUNK_HEADER_SIZE: u32 = 8;
/// The size of the `KEY*` header.
pub const KEYS_HEADER_SIZE: u32 = 12;
/// The size of the memory map header.
pub const MMAP_HEADER_SIZE: u32 = 24;
/// The size of a memory map entry.
pub const MMAP_ENTRY_SIZE: u32 = 20;
/// The largest number of memory map entries: as many as fit in 64 KiB.
pub const MMAP_MAX_ENTRIES: u32 = 3275;
/// The size of an entry of a `CFTC` map.
pub const CFTC_ENTRY_SIZE: u32 = 16;

/// What is known of a chunk's data.
#[derive(Clone, Debug)]
pub enum ChunkData {
    /// Not loaded; the next chunk on the free or junk list.
    Free { next_free: ChunkIndex },
    /// Loaded, with these bytes.
    Loaded(Vec<u8>),
}

/// What is known of a chunk's data, as mathematical values.
pub enum ChunkDataView {
    Free { next_free: ChunkIndex },
    Loaded(Seq<u8>),
}

impl View for ChunkData {
    type V = ChunkDataView;

    open spec fn view(&self) -> ChunkDataView {
        match self {
            ChunkData::Free { next_free } => ChunkDataView::Free { next_free: *next_free },
            ChunkData::Loaded(bytes) => ChunkDataView::Loaded(bytes@),
        }
    }
}

impl ChunkData {
    /// The loaded bytes, if the chunk has been loaded.
    pub fn as_data(&self) -> (r: Option<&Vec<u8>>)
        ensures
            match self@ {
                ChunkDataView::Free { .. } => r is None,
                ChunkDataView::Loaded(bytes) => r matches Some(v) && v@ == bytes,
            },
    {
        match self {
            ChunkData::Free { .. } => None,
            ChunkData::Loaded(bytes) => Some(bytes),
        }
    }
}

/// An entry of the memory map: where a chunk is and what it is.
#[derive(Clone, Debug)]
pub struct MemoryMapItem {
    pub os_type: OsType,
    pub size: u32,
    pub offset: u32,
    pub flags: u16,
    pub field_e: u16,
    pub data: ChunkData,
}

/// An entry of the memory map, as mathematical values.
pub struct ItemView {
    pub os_type: OsType,
    pub size: u32,
    pub offset: u32,
    pub flags: u16,
    pub field_e: u16,
    pub data: ChunkDataView,
}

impl View for MemoryMapItem {
    type V = ItemView;

    open spec fn view(&self) -> ItemView {
        ItemView {
            os_type: self.os_type,
            size: self.size,
            offset: self.offset,
            flags: self.flags,
            field_e: self.field_e,
            data: self.data@,
        }
    }
}

/// The views of a list of memory map entries.
pub open spec fn items_view(items: Seq<MemoryMapItem>) -> Seq<ItemView> {
    Seq::new(items.len(), |i: int| items[i]@)
}

/// Whether a resource map has an entry for `id`.
pub open spec fn map_has(map: Seq<(ResourceId, ChunkIndex)>, id: ResourceId) -> bool {
    exists|i: int| 0 <= i < map.len() && (#[trigger] map[i]).0 == id
}

/// Whether no resource ID appears twice in a resource map.
pub open spec fn map_unique(map: Seq<(ResourceId, ChunkIndex)>) -> bool {
    forall|i: int, j: int| 0 <= i < j < map.len() ==> (#[trigger] map[i]).0 != (#[trigger] map[j]).0
}

/// A memory map entry read from a `CFTC` index.
pub open spec fn spec_cftc_item(os_type: OsType, size: u32, offset: u32) -> ItemView {
    ItemView { os_type, size, offset, flags: 0, field_e: 0, data: ChunkDataView::Free { next_free: ChunkIndex(-1i32) } }
}

/// Reads the entries of a `CFTC` index from `pos`, with `remaining` bytes of
/// entries left, adding them to `items` and `map`.
pub open spec fn spec_cftc_entries(
    data: Seq<u8>,
    pos: int,
    remaining: int,
    oe: bool,
    de: bool,
    items: Seq<ItemView>,
    map: Seq<(ResourceId, ChunkIndex)>,
) -> Outcome<(Seq<ItemView>, Seq<(ResourceId, ChunkIndex)>)>
    decreases (if remaining > 0 { remaining } else { 0 }),
{
    if remaining <= 0 {
        Outcome::Done((items, map))
    } else if pos + 4 > data.len() {
        Outcome::Failed(Error::Io)
    } else if u32_at(data, pos, oe) == 0 {
        Outcome::Done((items, map))
    } else if pos + 16 > data.len() {
        Outcome::Failed(Error::Io)
    } else {
        let os_type = u32_at(data, pos, oe) as u32;
        let raw_id = as_signed32(u32_at(data, pos + 8, de));
        if !(i16::MIN <= raw_id <= i16::MAX) {
            Outcome::Undefined
        } else {
            let id = ResourceId { os_type, id: raw_id as i16 };
            if map_has(map, id) {
                Outcome::Failed(Error::DuplicateResourceId(id, MapKind::Cftc))
            } else if remaining < CFTC_ENTRY_SIZE {
                Outcome::Undefined
            } else {
                spec_cftc_entries(
                    data,
                    pos + 16,
                    remaining - 16,
                    oe,
                    de,
                    items.push(spec_cftc_item(os_type, u32_at(data, pos + 4, de) as u32, u32_at(data, pos + 12, de) as u32)),
                    map.push((id, ChunkIndex(items.len() as i32))),
                )
            }
        }
    }
}

/// Reads a `CFTC` index whose size field is at `pos`.
#[verifier::opaque]
pub open spec fn spec_cftc(data: Seq<u8>, pos: int, oe: bool, de: bool) -> Outcome<(Seq<ItemView>, Seq<(ResourceId, ChunkIndex)>)> {
    if pos + 8 > data.len() {
        Outcome::Failed(Error::Io)
    } else {
        let size = u32_at(data, pos, de);
        if size < 4 || (size - 4) / 16 < 1 {
            Outcome::Undefined
        } else {
            spec_cftc_entries(data, pos + 8, size - 4, oe, de, Seq::empty(), Seq::empty())
        }
    }
}

/// Finds the entry for `id` in a resource map.
pub fn find_resource(map: &Vec<(ResourceId, ChunkIndex)>, id: ResourceId) -> (r: Option<usize>)
    ensures
        match r {
            Some(i) => i < map@.len() && map@[i as int].0 == id && forall|k: int| 0 <= k < i ==> (#[trigger] map@[k]).0 != id,
            None => !map_has(map@, id),
        },
{
    let mut i: usize = 0;
    while i < map.len()
        invariant
            i <= map@.len(),
            forall|k: int| 0 <= k < i ==> (#[trigger] map@[k]).0 != id,
        decreases map@.len() - i,
    {
        if map[i].0 == id {
            return Some(i);
        }
        i = i + 1;
    }
    None
}

/// The exec form of a memory map and resource map being read.
type Maps = (Vec<MemoryMapItem>, Vec<(ResourceId, ChunkIndex)>);

/// Whether an exec outcome agrees with a spec outcome.
pub open spec fn maps_agree(r: Result<Maps, Error>, o: Outcome<(Seq<ItemView>, Seq<(ResourceId, ChunkIndex)>)>) -> bool {
    match (r, o) {
        (Ok((items, map)), Outcome::Done((vitems, vmap))) => items_view(items@) == vitems && map@ == vmap,
        (Err(e), Outcome::Failed(f)) => e == f,
        _ => false,
    }
}

/// Reads a `CFTC` index whose size field is at `pos`; `None` where reading
/// it has no defined result.
fn read_cftc(data: &[u8], pos: usize, oe: bool, de: bool) -> (r: Option<Result<Maps, Error>>)
    requires
        pos <= data.len(),
    ensures
        r is None <==> spec_cftc(data@, pos as int, oe, de) is Undefined,
        r matches Some(res) ==> maps_agree(res, spec_cftc(data@, pos as int, oe, de)),
        r matches Some(Ok((items, _))) ==> items@.len() <= 0x1000_0000,
        r matches Some(Ok((_, map))) ==> map_unique(map@),
        r matches Some(Ok((items, _))) ==> forall|i: int| 0 <= i < items@.len() ==> (#[trigger] items@[i]).data is Free,
{
    reveal(spec_cftc);
    if data.len() - pos < 8 {
        return Some(Err(Error::Io));
    }
    let size = read_u32(data, pos, de);
    if size < 4 || (size - 4) / 16 < 1 {
        return None;
    }
    let mut remaining: u32 = size - 4;
    let mut q: usize = pos + 8;
    let mut items: Vec<MemoryMapItem> = Vec::new();
    let mut map: Vec<(ResourceId, ChunkIndex)> = Vec::new();
    let ghost goal = spec_cftc(data@, pos as int, oe, de);
    assert(items_view(items@) =~= Seq::<ItemView>::empty());
    while remaining != 0
        invariant
            q <= data.len(),
            items@.len() <= 0x1000_0000 - remaining / 16,
            map_unique(map@),
            forall|i: int| 0 <= i < items@.len() ==> (#[trigger] items@[i]).data is Free,
            remaining <= u32::MAX,
            goal == spec_cftc(data@, pos as int, oe, de),
            goal == spec_cftc_entries(data@, q as int, remaining as int, oe, de, items_view(items@), map@),
        ensures
            goal == Outcome::Done((items_view(items@), map@)),
        decreases remaining,
    {
        if data.len() - q < 4 {
            return Some(Err(Error::Io));
        }
        let os_type = read_u32(data, q, oe);
        if os_type == 0 {
            break;
        }
        if data.len() - q < 16 {
            return Some(Err(Error::Io));
        }
        let item_size = read_u32(data, q + 4, de);
        let raw_id = read_i32(data, q + 8, de);
        let offset = read_u32(data, q + 12, de);
        if raw_id < -0x8000 || raw_id > 0x7fff {
            return None;
        }
        let id = ResourceId { os_type, id: raw_id as i16 };
        if find_resource(&map, id).is_some() {
            return Some(Err(Error::DuplicateResourceId(id, MapKind::Cftc)));
        }
        if remaining < 16 {
            return None;
        }
        let index = ChunkIndex(items.len() as i32);
        let ghost old_items = items_view(items@);
        items.push(MemoryMapItem {
            os_type,
            size: item_size,
            offset,
            flags: 0,
            field_e: 0,
            data: ChunkData::Free { next_free: ChunkIndex(-1) },
        });
        map.push((id, index));
        assert(items_view(items@) =~= old_items.push(spec_cftc_item(os_type, item_size, offset)));
        remaining = remaining - 16;
        q = q + 16;
    }
    Some(Ok((items, map)))
}


/// Reads entries `k` to `n` of a `KEY*` index, the first at `pos`, adding
/// them to `map`.
pub open spec fn spec_keys_entries(
    data: Seq<u8>,
    pos: int,
    k: int,
    n: int,
    de: bool,
    map: Seq<(ResourceId, ChunkIndex)>,
) -> Outcome<Seq<(ResourceId, ChunkIndex)>>
    decreases (if n > k { n - k } else { 0 }),
{
    if k >= n {
        Outcome::Done(map)
    } else if pos + 12 > data.len() {
        Outcome::Failed(Error::Io)
    } else {
        let index = ChunkIndex(as_signed32(u32_at(data, pos, de)) as i32);
        let raw_id = as_signed32(u32_at(data, pos + 4, de));
        if !(i16::MIN <= raw_id <= i16::MAX) {
            Outcome::Undefined
        } else {
            let id = ResourceId { os_type: u32_at(data, pos + 8, de) as u32, id: raw_id as i16 };
            if map_has(map, id) {
                Outcome::Failed(Error::DuplicateResourceId(id, MapKind::Keys))
            } else {
                spec_keys_entries(data, pos + 12, k + 1, n, de, map.push((id, index)))
            }
        }
    }
}

/// Reads the `KEY*` index at `pos`. Its entries store the resource type code
/// in the data byte order.
pub open spec fn spec_keys(data: Seq<u8>, pos: int, oe: bool, de: bool) -> Outcome<Seq<(ResourceId, ChunkIndex)>> {
    if pos + 4 > data.len() {
        Outcome::Failed(Error::Io)
    } else if u32_at(data, pos, oe) != KEYS {
        Outcome::Failed(Error::BadKeysOffset)
    } else if pos + 20 > data.len() {
        Outcome::Failed(Error::Io)
    } else {
        let header_size = u16_at(data, pos + 8, de);
        if header_size < KEYS_HEADER_SIZE {
            Outcome::Undefined
        } else if pos + 20 + (header_size - KEYS_HEADER_SIZE) > data.len() {
            Outcome::Failed(Error::Io)
        } else {
            spec_keys_entries(data, pos + 8 + header_size, 0, u32_at(data, pos + 16, de), de, Seq::empty())
        }
    }
}

/// Reads the `KEY*` index at `pos`.
fn read_keys(data: &[u8], pos: usize, oe: bool, de: bool) -> (r: Option<Result<Vec<(ResourceId, ChunkIndex)>, Error>>)
    requires
        pos <= data.len(),
    ensures
        match (r, spec_keys(data@, pos as int, oe, de)) {
            (Some(Ok(map)), Outcome::Done(vmap)) => map@ == vmap,
            (Some(Err(e)), Outcome::Failed(f)) => e == f,
            (None, Outcome::Undefined) => true,
            _ => false,
        },
        r matches Some(Ok(map)) ==> map_unique(map@),
{
    if data.len() - pos < 4 {
        return Some(Err(Error::Io));
    }
    if read_u32(data, pos, oe) != KEYS {
        return Some(Err(Error::BadKeysOffset));
    }
    if data.len() - pos < 20 {
        return Some(Err(Error::Io));
    }
    let header_size = read_u16(data, pos + 8, de);
    let num_entries = read_u32(data, pos + 16, de);
    if header_size < 12 {
        return None;
    }
    if data.len() - (pos + 20) < (header_size - 12) as usize {
        return Some(Err(Error::Io));
    }
    let mut q: usize = pos + 8 + header_size as usize;
    let mut k: u32 = 0;
    let mut map: Vec<(ResourceId, ChunkIndex)> = Vec::new();
    let ghost goal = spec_keys(data@, pos as int, oe, de);
    while k < num_entries
        invariant
            q <= data.len(),
            k <= num_entries,
            goal == spec_keys(data@, pos as int, oe, de),
            goal == spec_keys_entries(data@, q as int, k as int, num_entries as int, de, map@),
            map_unique(map@),
        decreases num_entries - k,
    {
        if data.len() - q < 12 {
            return Some(Err(Error::Io));
        }
        let index = ChunkIndex(read_i32(data, q, de));
        let raw_id = read_i32(data, q + 4, de);
        if raw_id < -0x8000 || raw_id > 0x7fff {
            return None;
        }
        let id = ResourceId { os_type: read_u32(data, q + 8, de), id: raw_id as i16 };
        if find_resource(&map, id).is_some() {
            return Some(Err(Error::DuplicateResourceId(id, MapKind::Keys)));
        }
        map.push((id, index));
        q = q + 12;
        k = k + 1;
    }
    Some(Ok(map))
}

/// A memory map entry read from an `mmap` chunk.
pub open spec fn spec_mmap_item(data: Seq<u8>, pos: int, de: bool, os_type: OsType, flags: u16) -> ItemView {
    ItemView {
        os_type,
        size: u32_at(data, pos + 4, de) as u32,
        offset: u32_at(data, pos + 8, de) as u32,
        flags,
        field_e: u16_at(data, pos + 14, de) as u16,
        data: ChunkDataView::Free { next_free: ChunkIndex(as_signed32(u32_at(data, pos + 16, de)) as i32) },
    }
}

/// Reads entries `k` to `n` of a memory map, the first at `pos`, adding them
/// to `items` and remembering the offset of the first `KEY*` chunk that is
/// not marked valid.
pub open spec fn spec_mmap_entries(
    data: Seq<u8>,
    pos: int,
    k: int,
    n: int,
    oe: bool,
    de: bool,
    items: Seq<ItemView>,
    keys: Option<u32>,
) -> Outcome<(Seq<ItemView>, Option<u32>)>
    decreases (if n > k { n - k } else { 0 }),
{
    if k >= n {
        Outcome::Done((items, keys))
    } else if pos + MMAP_ENTRY_SIZE > data.len() {
        Outcome::Failed(Error::Io)
    } else {
        let os_type = u32_at(data, pos, oe) as u32;
        let flags = u16_at(data, pos + 12, de) as u16;
        if flags & !ALL_MMAP_FLAGS != 0 {
            Outcome::Failed(Error::BadMmapEntryFlags(ChunkIndex(k as i32), flags))
        } else {
            let item = spec_mmap_item(data, pos, de, os_type, flags);
            let keys = if keys is None && os_type == KEYS && flags & FLAG_VALID == 0 { Some(item.offset) } else { keys };
            spec_mmap_entries(data, pos + MMAP_ENTRY_SIZE, k + 1, n, oe, de, items.push(item), keys)
        }
    }
}

/// The memory map of a RIFF file, with its free and junk lists, and its
/// resource map.
pub struct Maps2View {
    pub items: Seq<ItemView>,
    pub next_junk: ChunkIndex,
    pub next_free: ChunkIndex,
    pub resources: Seq<(ResourceId, ChunkIndex)>,
}

/// Reads the `imap` chunk whose data starts at `pos`, the memory map it
/// points to, and the resource map.
#[verifier::opaque]
pub open spec fn spec_imap(data: Seq<u8>, pos: int, oe: bool, de: bool) -> Outcome<Maps2View> {
    if pos + 12 > data.len() {
        Outcome::Failed(Error::Io)
    } else {
        let m = u32_at(data, pos + 8, de);
        if m > data.len() {
            Outcome::Failed(Error::MmapSeekFailure)
        } else if m + 4 > data.len() {
            Outcome::Failed(Error::Io)
        } else if u32_at(data, m, oe) != MMAP {
            Outcome::Failed(Error::ResourceMapNotFound(u32_at(data, m, oe) as u32))
        } else if m + 10 > data.len() {
            Outcome::Failed(Error::Io)
        } else if u16_at(data, m + 8, de) != 0x18 {
            Outcome::Failed(Error::BadMmapHeaderSize(u16_at(data, m + 8, de) as u16))
        } else if m + 12 > data.len() {
            Outcome::Failed(Error::Io)
        } else if u16_at(data, m + 10, de) != 0x14 {
            Outcome::Failed(Error::BadMmapEntrySize(u16_at(data, m + 10, de) as u16))
        } else if m + 20 > data.len() {
            Outcome::Failed(Error::Io)
        } else if u32_at(data, m + 16, de) > MMAP_MAX_ENTRIES {
            Outcome::Failed(Error::BadMmapEntryCount(u32_at(data, m + 16, de) as u32))
        } else if m + 32 > data.len() {
            Outcome::Failed(Error::Io)
        } else {
            let next_junk = ChunkIndex(as_signed32(u32_at(data, m + 20, de)) as i32);
            let next_free = ChunkIndex(as_signed32(u32_at(data, m + 28, de)) as i32);
            match spec_mmap_entries(data, m + 32, 0, u32_at(data, m + 16, de), oe, de, Seq::empty(), None) {
                Outcome::Undefined => Outcome::Undefined,
                Outcome::Failed(e) => Outcome::Failed(e),
                Outcome::Done((items, keys)) => match keys {
                    None => Outcome::Done(Maps2View { items, next_junk, next_free, resources: Seq::empty() }),
                    Some(offset) => if offset > data.len() {
                        Outcome::Failed(Error::KeysSeekFailure)
                    } else {
                        match spec_keys(data, offset as int, oe, de) {
                            Outcome::Undefined => Outcome::Undefined,
                            Outcome::Failed(e) => Outcome::Failed(e),
                            Outcome::Done(resources) => Outcome::Done(Maps2View { items, next_junk, next_free, resources }),
                        }
                    },
                },
            }
        }
    }
}


/// Reads the memory map entry at `pos`, the `k`th.
fn read_mmap_entry(data: &[u8], pos: usize, k: u32, oe: bool, de: bool) -> (r: Result<MemoryMapItem, Error>)
    requires
        pos + MMAP_ENTRY_SIZE <= data.len(),
        k <= MMAP_MAX_ENTRIES,
    ensures
        ({
            let os_type = u32_at(data@, pos as int, oe) as u32;
            let flags = u16_at(data@, pos + 12, de) as u16;
            match r {
                Ok(item) => flags & !ALL_MMAP_FLAGS == 0 && item@ == spec_mmap_item(data@, pos as int, de, os_type, flags),
                Err(e) => flags & !ALL_MMAP_FLAGS != 0 && e == Error::BadMmapEntryFlags(ChunkIndex(k as i32), flags),
            }
        }),
{
    let os_type = read_u32(data, pos, oe);
    let item_size = read_u32(data, pos + 4, de);
    let offset = read_u32(data, pos + 8, de);
    let flags = read_u16(data, pos + 12, de);
    if flags & !ALL_MMAP_FLAGS != 0 {
        return Err(Error::BadMmapEntryFlags(ChunkIndex(k as i32), flags));
    }
    let field_e = read_u16(data, pos + 14, de);
    let next = ChunkIndex(read_i32(data, pos + 16, de));
    Ok(MemoryMapItem { os_type, size: item_size, offset, flags, field_e, data: ChunkData::Free { next_free: next } })
}

/// Reads `n` memory map entries, the first at `pos`.
fn read_mmap_entries(data: &[u8], pos: usize, n: u32, oe: bool, de: bool) -> (r: Result<(Vec<MemoryMapItem>, Option<u32>), Error>)
    requires
        pos <= data.len(),
        n <= MMAP_MAX_ENTRIES,
    ensures
        match (r, spec_mmap_entries(data@, pos as int, 0, n as int, oe, de, Seq::empty(), None)) {
            (Ok((items, keys)), Outcome::Done((vitems, vkeys))) => items_view(items@) == vitems && keys == vkeys,
            (Err(e), Outcome::Failed(f)) => e == f,
            _ => false,
        },
        r matches Ok((items, _)) ==> items@.len() <= n,
        r matches Ok((items, _)) ==> forall|i: int| 0 <= i < items@.len() ==> (#[trigger] items@[i]).data is Free,
{
    let mut items: Vec<MemoryMapItem> = Vec::new();
    let mut keys: Option<u32> = None;
    let mut q: usize = pos;
    let mut k: u32 = 0;
    let ghost entries = spec_mmap_entries(data@, pos as int, 0, n as int, oe, de, Seq::empty(), None);
    assert(items_view(items@) =~= Seq::<ItemView>::empty());
    while k < n
        invariant
            q <= data.len(),
            k <= n <= MMAP_MAX_ENTRIES,
            items@.len() == k,
            forall|i: int| 0 <= i < items@.len() ==> (#[trigger] items@[i]).data is Free,
            entries == spec_mmap_entries(data@, pos as int, 0, n as int, oe, de, Seq::empty(), None),
            entries == spec_mmap_entries(data@, q as int, k as int, n as int, oe, de, items_view(items@), keys),
        decreases n - k,
    {
        if data.len() - q < 20 {
            return Err(Error::Io);
        }
        let item = match read_mmap_entry(data, q, k, oe, de) {
            Ok(item) => item,
            Err(e) => return Err(e),
        };
        let ghost old_items = items_view(items@);
        if keys.is_none() && item.os_type == KEYS && item.flags & FLAG_VALID == 0 {
            keys = Some(item.offset);
        }
        items.push(item);
        assert(items_view(items@) =~= old_items.push(item@));
        q = q + 20;
        k = k + 1;
    }
    Ok((items, keys))
}

/// The exec form of the maps read from an `imap`.
struct Maps2 {
    items: Vec<MemoryMapItem>,
    next_junk: ChunkIndex,
    next_free: ChunkIndex,
    resources: Vec<(ResourceId, ChunkIndex)>,
}

/// Reads the `imap` chunk whose data starts at `pos`.
fn read_imap(data: &[u8], pos: usize, oe: bool, de: bool) -> (r: Option<Result<Maps2, Error>>)
    requires
        pos <= data.len(),
    ensures
        match (r, spec_imap(data@, pos as int, oe, de)) {
            (Some(Ok(maps)), Outcome::Done(v)) => {
                &&& items_view(maps.items@) == v.items
                &&& maps.next_junk == v.next_junk
                &&& maps.next_free == v.next_free
                &&& maps.resources@ == v.resources
            },
            (Some(Err(e)), Outcome::Failed(f)) => e == f,
            (None, Outcome::Undefined) => true,
            _ => false,
        },
        r matches Some(Ok(maps)) ==> maps.items@.len() <= MMAP_MAX_ENTRIES,
        r matches Some(Ok(maps)) ==> map_unique(maps.resources@),
        r matches Some(Ok(maps)) ==> forall|i: int| 0 <= i < maps.items@.len() ==> (#[trigger] maps.items@[i]).data is Free,
{
    reveal(spec_imap);
    if data.len() - pos < 12 {
        return Some(Err(Error::Io));
    }
    let m = read_u32(data, pos + 8, de) as usize;
    if m > data.len() {
        return Some(Err(Error::MmapSeekFailure));
    }
    if data.len() - m < 4 {
        return Some(Err(Error::Io));
    }
    let os_type = read_u32(data, m, oe);
    if os_type != MMAP {
        return Some(Err(Error::ResourceMapNotFound(os_type)));
    }
    if data.len() - m < 10 {
        return Some(Err(Error::Io));
    }
    let header_size = read_u16(data, m + 8, de);
    if header_size != 0x18 {
        return Some(Err(Error::BadMmapHeaderSize(header_size)));
    }
    if data.len() - m < 12 {
        return Some(Err(Error::Io));
    }
    let entry_size = read_u16(data, m + 10, de);
    if entry_size != 0x14 {
        return Some(Err(Error::BadMmapEntrySize(entry_size)));
    }
    if data.len() - m < 20 {
        return Some(Err(Error::Io));
    }
    let num_entries = read_u32(data, m + 16, de);
    if num_entries > MMAP_MAX_ENTRIES {
        return Some(Err(Error::BadMmapEntryCount(num_entries)));
    }
    if data.len() - m < 32 {
        return Some(Err(Error::Io));
    }
    let next_junk = ChunkIndex(read_i32(data, m + 20, de));
    let next_free = ChunkIndex(read_i32(data, m + 28, de));
    let (items, keys) = match read_mmap_entries(data, m + 32, num_entries, oe, de) {
        Ok(v) => v,
        Err(e) => return Some(Err(e)),
    };
    let resources = match keys {
        None => Vec::new(),
        Some(offset) => {
            if offset as usize > data.len() {
                return Some(Err(Error::KeysSeekFailure));
            }
            match read_keys(data, offset as usize, oe, de) {
                Some(Ok(map)) => map,
                Some(Err(e)) => return Some(Err(e)),
                None => return None,
            }
        },
    };
    Some(Ok(Maps2 { items, next_junk, next_free, resources }))
}


/// Where a RIFF file sits: at the top level, or as a chunk of another.
#[derive(Clone, Copy, Debug, PartialEq, Eq, Structural)]
pub enum Identity {
    Parent,
    Child(ChunkIndex),
}

/// The maps of a RIFF read from the chunk at `pos`, which follows a header of
/// the given detection info: a `CFTC` index or an `imap`.
pub open spec fn spec_riff_maps(data: Seq<u8>, pos: int, info: DetectionInfo) -> Outcome<Maps2View> {
    let oe = info.os_type_endianness == Endian::Big;
    let de = info.data_endianness == Endian::Big;
    if pos + 4 > data.len() {
        Outcome::Failed(Error::Io)
    } else {
        let os_type = u32_at(data, pos, oe);
        if os_type == CFTC {
            match spec_cftc(data, pos + 4, oe, de) {
                Outcome::Undefined => Outcome::Undefined,
                Outcome::Failed(e) => Outcome::Failed(e),
                Outcome::Done((items, resources)) => Outcome::Done(
                    Maps2View { items, next_junk: ChunkIndex(-1i32), next_free: ChunkIndex(-1i32), resources },
                ),
            }
        } else if os_type == IMAP {
            spec_imap(data, pos + 4, oe, de)
        } else {
            Outcome::Failed(Error::ResourceMapNotFound(os_type as u32))
        }
    }
}

/// What opening the RIFF file whose header is at `pos` gives: its detection
/// info and its maps.
pub open spec fn spec_riff(data: Seq<u8>, pos: int) -> Outcome<(DetectionInfo, Maps2View)> {
    match spec_detect(data, pos) {
        Err(e) => Outcome::Failed(e),
        Ok(info) => match spec_riff_maps(data, pos + 12, info) {
            Outcome::Undefined => Outcome::Undefined,
            Outcome::Failed(e) => Outcome::Failed(e),
            Outcome::Done(maps) => Outcome::Done((info, maps)),
        },
    }
}

/// Whether opening the RIFF file at `pos` has a defined result.
pub open spec fn spec_riff_defined(data: Seq<u8>, pos: int) -> bool {
    &&& 0 <= pos <= data.len()
    &&& spec_detect_defined(data, pos)
    &&& !(spec_riff(data, pos) is Undefined)
}

/// The bytes of a chunk after its header. A Director 3 chunk starts with a
/// resource number and a Pascal string name padded to an odd length, which
/// are skipped and taken off the size.
#[verifier::opaque]
pub open spec fn spec_chunk_bytes(data: Seq<u8>, d3: bool, index: ChunkIndex, item: ItemView) -> Result<Seq<u8>, Error> {
    let start = item.offset + CHUNK_HEADER_SIZE;
    if start > data.len() {
        Err(Error::SeekFailure(index, item.offset))
    } else if !d3 {
        Ok(data.subrange(start, if start + item.size <= data.len() { start + item.size } else { data.len() as int }))
    } else if start + 4 > data.len() {
        Err(Error::D3ResourceIdSkipIo(index))
    } else if start + 5 > data.len() {
        Err(Error::D3ResourceNameSizeReadIo(index))
    } else {
        let name_size = if data[start + 4] % 2 == 0 { data[start + 4] + 1 } else { data[start + 4] as int };
        let size = item.size - (name_size + 5);
        let body = start + 5 + name_size;
        if body > data.len() {
            Err(Error::D3ResourceNameSkipIo(index))
        } else {
            Ok(data.subrange(body, if body + size <= data.len() { body + size } else { data.len() as int }))
        }
    }
}

/// Whether reading a chunk has a defined result: the size of a Director 3
/// chunk must cover its resource number and name.
pub open spec fn spec_chunk_defined(data: Seq<u8>, d3: bool, item: ItemView) -> bool {
    let start = item.offset + CHUNK_HEADER_SIZE;
    d3 && start + 5 <= data.len() ==> {
        let name_size = if data[start + 4] % 2 == 0 { data[start + 4] + 1 } else { data[start + 4] as int };
        item.size >= name_size + 5
    }
}

/// A memory map entry with other data.
pub open spec fn with_data(item: ItemView, data: ChunkDataView) -> ItemView {
    ItemView { data, ..item }
}

/// A memory map entry turned into a free entry that links to `next_free`.
pub open spec fn free_item(next_free: ChunkIndex) -> ItemView {
    ItemView {
        os_type: FREE,
        size: 0,
        offset: 0,
        flags: FLAG_VALID | FLAG_FREE,
        field_e: 0,
        data: ChunkDataView::Free { next_free },
    }
}

/// A memory map entry turned into a junk entry that links to `next_junk`.
pub open spec fn junk_item(item: ItemView, next_junk: ChunkIndex) -> ItemView {
    ItemView { os_type: JUNK, flags: FLAG_VALID, field_e: 0, data: ChunkDataView::Free { next_free: next_junk }, ..item }
}

/// Reads the bytes of a chunk.
fn read_chunk(data: &[u8], d3: bool, index: ChunkIndex, size: u32, offset: u32) -> (r: Result<Vec<u8>, Error>)
    requires
        spec_chunk_defined(data@, d3, ItemView { os_type: 0, size, offset, flags: 0, field_e: 0, data: ChunkDataView::Free { next_free: index } }),
    ensures
        match r {
            Ok(v) => spec_chunk_bytes(data@, d3, index, ItemView { os_type: 0, size, offset, flags: 0, field_e: 0, data: ChunkDataView::Free { next_free: index } }) == Ok::<Seq<u8>, Error>(v@),
            Err(e) => spec_chunk_bytes(data@, d3, index, ItemView { os_type: 0, size, offset, flags: 0, field_e: 0, data: ChunkDataView::Free { next_free: index } }) == Err::<Seq<u8>, Error>(e),
        },
{
    reveal(spec_chunk_bytes);
    let len = data.len();
    if offset as usize > len || len - (offset as usize) < 8 {
        return Err(Error::SeekFailure(index, offset));
    }
    let mut start: usize = offset as usize + 8;
    let mut size: u32 = size;
    if d3 {
        if len - start < 4 {
            return Err(Error::D3ResourceIdSkipIo(index));
        }
        if len - start < 5 {
            return Err(Error::D3ResourceNameSizeReadIo(index));
        }
        let mut name_size: u8 = data[start + 4];
        if name_size & 1 == 0 {
            assert(name_size & 1 == 0 ==> name_size % 2 == 0 && name_size < 255) by (bit_vector);
            name_size = name_size + 1;
        } else {
            assert(name_size & 1 != 0 ==> name_size % 2 == 1) by (bit_vector);
        }
        size = size - (name_size as u32 + 5);
        if len - (start + 5) < name_size as usize {
            return Err(Error::D3ResourceNameSkipIo(index));
        }
        start = start + 5 + name_size as usize;
    }
    let end: usize = if len - start >= size as usize { start + size as usize } else { len };
    let body = vstd::slice::slice_subrange(data, start, end);
    Ok(vstd::slice::slice_to_vec(body))
}

/// The entry for `id` in a resource map, found by the library's lookup.
pub open spec fn map_lookup(map: Seq<(ResourceId, ChunkIndex)>, id: ResourceId) -> Option<ChunkIndex> {
    if map_has(map, id) {
        Some(map[choose|i: int| 0 <= i < map.len() && (#[trigger] map[i]).0 == id].1)
    } else {
        None
    }
}

/// Reads the maps of a RIFF from the chunk at `pos`.
fn read_maps(data: &[u8], pos: usize, info: DetectionInfo) -> (r: Option<Result<Maps2, Error>>)
    requires
        pos <= data.len(),
    ensures
        match (r, spec_riff_maps(data@, pos as int, info)) {
            (Some(Ok(maps)), Outcome::Done(v)) => {
                &&& items_view(maps.items@) == v.items
                &&& maps.next_junk == v.next_junk
                &&& maps.next_free == v.next_free
                &&& maps.resources@ == v.resources
            },
            (Some(Err(e)), Outcome::Failed(f)) => e == f,
            (None, Outcome::Undefined) => true,
            _ => false,
        },
        r matches Some(Ok(maps)) ==> maps.items@.len() <= 0x1000_0000,
        r matches Some(Ok(maps)) ==> map_unique(maps.resources@),
        r matches Some(Ok(maps)) ==> forall|i: int| 0 <= i < maps.items@.len() ==> (#[trigger] maps.items@[i]).data is Free,
{
    reveal(spec_riff_maps);
    let oe = info.os_type_endianness == Endian::Big;
    let de = info.data_endianness == Endian::Big;
    if data.len() - pos < 4 {
        return Some(Err(Error::Io));
    }
    let os_type = read_u32(data, pos, oe);
    if os_type == CFTC {
        match read_cftc(data, pos + 4, oe, de) {
            Some(Ok((items, resources))) => Some(Ok(Maps2 { items, next_junk: ChunkIndex(-1), next_free: ChunkIndex(-1), resources })),
            Some(Err(e)) => Some(Err(e)),
            None => None,
        }
    } else if os_type == IMAP {
        read_imap(data, pos + 4, oe, de)
    } else {
        Some(Err(Error::ResourceMapNotFound(os_type)))
    }
}

/// A Director RIFF file: its bytes, the memory map that locates its chunks,
/// and the resource map from resource IDs to chunks.
pub struct Riff {
    id: Identity,
    data: Vec<u8>,
    endianness: Endian,
    items: Vec<MemoryMapItem>,
    next_junk: ChunkIndex,
    next_free: ChunkIndex,
    resources: Vec<(ResourceId, ChunkIndex)>,
    info: DetectionInfo,
}

impl Riff {
    /// Where the file sits.
    pub closed spec fn identity(&self) -> Identity {
        self.id
    }

    /// The bytes that hold the file.
    pub closed spec fn bytes(&self) -> Seq<u8> {
        self.data@
    }

    /// What the file's header says.
    pub closed spec fn info(&self) -> DetectionInfo {
        self.info
    }

    /// The memory map.
    pub closed spec fn memory_map(&self) -> Seq<ItemView> {
        items_view(self.items@)
    }

    /// The head of the junk list.
    pub closed spec fn next_junk(&self) -> ChunkIndex {
        self.next_junk
    }

    /// The head of the free list.
    pub closed spec fn next_free(&self) -> ChunkIndex {
        self.next_free
    }

    /// The resource map.
    pub closed spec fn resource_map(&self) -> Seq<(ResourceId, ChunkIndex)> {
        self.resources@
    }

    /// Whether the file's chunks carry a Director 3 header.
    pub open spec fn is_d3(&self) -> bool {
        self.info().version == Version::D3
    }

    /// Every loaded chunk holds the bytes that reading it gives, and the map
    /// is small enough to be indexed by an `i32`.
    #[verifier::type_invariant]
    spec fn well_formed(&self) -> bool {
        &&& self.items@.len() <= 0x1000_0000
        &&& self.endianness == self.info.data_endianness
        &&& map_unique(self.resources@)
        &&& forall|i: int| 0 <= i < self.items@.len() ==> {
            let item = #[trigger] self.items@[i]@;
            item.data matches ChunkDataView::Loaded(bytes) ==> spec_chunk_bytes(
                self.data@,
                self.info.version == Version::D3,
                ChunkIndex(i as i32),
                item,
            ) == Ok::<Seq<u8>, Error>(bytes)
        }
    }

    /// Whether the chunk at `index` can be asked for: the memory map is
    /// indexed by the index converted to `usize`, which a negative index
    /// cannot be, and the header of a Director 3 chunk is taken off its size,
    /// which must cover it.
    pub open spec fn chunk_loadable(&self, index: ChunkIndex) -> bool {
        &&& index.0 >= 0
        &&& index.0 < self.memory_map().len() ==> spec_chunk_defined(self.bytes(), self.is_d3(), self.memory_map()[index.0 as int])
    }

    /// Whether loading the chunk at `index` has a defined result: whether
    /// `load_chunk` may be called.
    pub fn chunk_is_loadable(&self, index: ChunkIndex) -> (r: bool)
        ensures
            r == self.chunk_loadable(index),
    {
        proof { use_type_invariant(self); }
        if index.0 < 0 {
            return false;
        }
        if index.0 as usize >= self.items.len() {
            return true;
        }
        let item = &self.items[index.0 as usize];
        if self.info.version != Version::D3 {
            return true;
        }
        let start: u64 = item.offset as u64 + CHUNK_HEADER_SIZE as u64;
        if start + 5 > self.data.len() as u64 {
            return true;
        }
        let raw = self.data[start as usize + 4];
        let name_size: u64 = if raw % 2 == 0 { raw as u64 + 1 } else { raw as u64 };
        item.size as u64 >= name_size + 5
    }

    /// Opens the RIFF file whose header is at `pos` of `data`.
    pub fn with_identity(id: Identity, data: Vec<u8>, pos: usize) -> (r: Result<Riff, Error>)
        requires
            spec_riff_defined(data@, pos as int),
        ensures
            match (r, spec_riff(data@, pos as int)) {
                (Ok(riff), Outcome::Done((info, maps))) => {
                    &&& riff.identity() == id
                    &&& riff.bytes() == data@
                    &&& riff.info() == info
                    &&& riff.memory_map() == maps.items
                    &&& riff.next_junk() == maps.next_junk
                    &&& riff.next_free() == maps.next_free
                    &&& riff.resource_map() == maps.resources
                },
                (Err(e), Outcome::Failed(f)) => e == f,
                _ => false,
            },
    {
        let info = match detect(data.as_slice(), pos) {
            Ok(info) => info,
            Err(e) => return Err(e),
        };
        assert(spec_detect_subtype(data@, pos + 4) is Some);
        assert(pos + 12 <= data@.len());
        let len = data.len();
        assert(pos + 12 <= len);
        let start: usize = pos + 12;
        let maps = match read_maps(data.as_slice(), start, info) {
            Some(Ok(maps)) => maps,
            Some(Err(e)) => return Err(e),
            None => {
                proof {
                    assert(false);
                }
                return Err(Error::Io);
            },
        };
        let Maps2 { items, next_junk, next_free, resources } = maps;
        Ok(Riff { id, data, endianness: info.data_endianness, items, next_junk, next_free, resources, info })
    }

    /// Whether opening the RIFF file whose header is at `pos` of `data` has
    /// a defined result: whether `new` may be called.
    pub fn is_defined(data: &[u8], pos: usize) -> (r: bool)
        ensures
            r == spec_riff_defined(data@, pos as int),
    {
        if pos > data.len() || !detect_is_defined(data, pos) {
            return false;
        }
        match detect(data, pos) {
            Err(_) => true,
            Ok(info) => {
                assert(spec_detect_subtype(data@, pos + 4) is Some);
                read_maps(data, pos + 12, info).is_some()
            },
        }
    }

    /// Opens the RIFF file whose header is at `pos` of `data`.
    pub fn new(data: Vec<u8>, pos: usize) -> (r: Result<Riff, Error>)
        requires
            spec_riff_defined(data@, pos as int),
        ensures
            match (r, spec_riff(data@, pos as int)) {
                (Ok(riff), Outcome::Done((info, maps))) => {
                    &&& riff.identity() == Identity::Parent
                    &&& riff.bytes() == data@
                    &&& riff.info() == info
                    &&& riff.memory_map() == maps.items
                    &&& riff.next_junk() == maps.next_junk
                    &&& riff.next_free() == maps.next_free
                    &&& riff.resource_map() == maps.resources
                },
                (Err(e), Outcome::Failed(f)) => e == f,
                _ => false,
            },
    {
        Riff::with_identity(Identity::Parent, data, pos)
    }

    /// The index of the first chunk of the given type, or -1 where there is
    /// none.
    pub fn first_of_kind(&self, kind: OsType) -> (r: ChunkIndex)
        ensures
            r.0 == -1 || (0 <= r.0 < self.memory_map().len() && self.memory_map()[r.0 as int].os_type == kind),
            r.0 == -1 <==> forall|i: int| 0 <= i < self.memory_map().len() ==> (#[trigger] self.memory_map()[i]).os_type != kind,
            forall|i: int| 0 <= i < r.0 ==> (#[trigger] self.memory_map()[i]).os_type != kind,
    {
        proof { use_type_invariant(self); }
        let mut i: usize = 0;
        while i < self.items.len()
            invariant
                i <= self.items@.len() <= 0x1000_0000,
                forall|k: int| 0 <= k < i ==> (#[trigger] self.items@[k]).os_type != kind,
            decreases self.items@.len() - i,
        {
            if self.items[i].os_type == kind {
                return ChunkIndex(i as i32);
            }
            i = i + 1;
        }
        ChunkIndex(-1)
    }

    /// The resources of the file, each with where its chunk is.
    pub fn iter(&self) -> (r: Vec<Iter>)
        ensures
            r@.len() == self.resource_map().len(),
            forall|i: int| 0 <= i < r@.len() ==> {
                let (id, index) = #[trigger] self.resource_map()[i];
                &&& r@[i].id == id
                &&& r@[i].chunk_index == index
                &&& r@[i].entry == self.entry_at(index)
            },
    {
        let mut r: Vec<Iter> = Vec::new();
        let mut i: usize = 0;
        while i < self.resources.len()
            invariant
                i <= self.resources@.len(),
                r@.len() == i,
                forall|k: int| 0 <= k < i ==> {
                    let (id, index) = #[trigger] self.resources@[k];
                    &&& r@[k].id == id
                    &&& r@[k].chunk_index == index
                    &&& r@[k].entry == self.entry_at(index)
                },
            decreases self.resources@.len() - i,
        {
            let (id, index) = self.resources[i];
            let entry = self.entry(index);
            r.push(Iter { id, chunk_index: index, entry });
            i = i + 1;
        }
        r
    }

    /// The memory map entry at `index`, as its type, size and offset.
    pub open spec fn entry_at(&self, index: ChunkIndex) -> Option<(OsType, u32, u32)> {
        if 0 <= index.0 < self.memory_map().len() {
            let item = self.memory_map()[index.0 as int];
            Some((item.os_type, item.size, item.offset))
        } else {
            None
        }
    }

    fn entry(&self, index: ChunkIndex) -> (r: Option<(OsType, u32, u32)>)
        ensures
            r == self.entry_at(index),
    {
        if index.0 < 0 || index.0 as usize >= self.items.len() {
            None
        } else {
            let item = &self.items[index.0 as usize];
            proof { assert(self.memory_map()[index.0 as int] == item@); }
            Some((item.os_type, item.size, item.offset))
        }
    }

    /// The kind of the file.
    pub fn kind(&self) -> (r: MovieKind)
        ensures
            r == self.info().kind,
    {
        self.info.kind()
    }

    /// The size of the file, as its header gives it.
    pub fn size(&self) -> (r: u32)
        ensures
            r == self.info().size,
    {
        self.info.size()
    }

    /// The Director version that wrote the file.
    pub fn version(&self) -> (r: Version)
        ensures
            r == self.info().version,
    {
        self.info.version()
    }

    /// The memory map entry at `index`, if there is one.
    pub fn metadata(&self, index: ChunkIndex) -> (r: Option<&MemoryMapItem>)
        requires
            index.0 >= 0,
        ensures
            match r {
                Some(item) => index.0 < self.memory_map().len() && item@ == self.memory_map()[index.0 as int],
                None => index.0 >= self.memory_map().len(),
            },
    {
        if index.0 as usize >= self.items.len() {
            None
        } else {
            let item = &self.items[index.0 as usize];
            proof { assert(self.memory_map()[index.0 as int] == item@); }
            Some(item)
        }
    }

    /// Whether the resource map has an entry for `id`.
    pub fn contains(&self, id: ResourceId) -> (r: bool)
        ensures
            r == map_has(self.resource_map(), id),
    {
        find_resource(&self.resources, id).is_some()
    }

    /// Loads the bytes of the chunk at `index`, after its header (and, in a
    /// Director 3 file, after its resource number and name). The bytes are
    /// kept, and given back by later loads.
    pub fn load_chunk(&mut self, index: ChunkIndex) -> (r: Result<Vec<u8>, Error>)
        requires
            old(self).chunk_loadable(index),
        ensures
            final(self).identity() == old(self).identity(),
            final(self).bytes() == old(self).bytes(),
            final(self).info() == old(self).info(),
            final(self).next_junk() == old(self).next_junk(),
            final(self).next_free() == old(self).next_free(),
            final(self).resource_map() == old(self).resource_map(),
            index.0 >= old(self).memory_map().len() ==> r == Err::<Vec<u8>, Error>(Error::BadIndex(index)),
            index.0 < old(self).memory_map().len() ==> match r {
                Ok(v) => spec_chunk_bytes(old(self).bytes(), old(self).is_d3(), index, old(self).memory_map()[index.0 as int]) == Ok::<Seq<u8>, Error>(v@),
                Err(e) => spec_chunk_bytes(old(self).bytes(), old(self).is_d3(), index, old(self).memory_map()[index.0 as int]) == Err::<Seq<u8>, Error>(e),
            },
            final(self).memory_map() == match r {
                Ok(v) => old(self).memory_map().update(index.0 as int, with_data(old(self).memory_map()[index.0 as int], ChunkDataView::Loaded(v@))),
                Err(_) => old(self).memory_map(),
            },
    {
        proof { use_type_invariant(&*self); }
        let i = index.0 as usize;
        if i >= self.items.len() {
            return Err(Error::BadIndex(index));
        }
        let ghost item = self.items@[i as int]@;
        let ghost d3 = self.info.version == Version::D3;
        let ghost old_map = self.memory_map();
        assert(old_map[i as int] == item);
        if let ChunkData::Loaded(bytes) = &self.items[i].data {
            let v = vstd::slice::slice_to_vec(bytes.as_slice());
            proof {
                assert(old_map.update(i as int, with_data(item, ChunkDataView::Loaded(v@))) =~= old_map);
            }
            return Ok(v);
        }
        let os_type = self.items[i].os_type;
        let size = self.items[i].size;
        let offset = self.items[i].offset;
        let flags = self.items[i].flags;
        let field_e = self.items[i].field_e;
        let d3_exec = self.info.version == Version::D3;
        let result = read_chunk(self.data.as_slice(), d3_exec, index, size, offset);
        proof {
            reveal(spec_chunk_bytes);
        }
        match result {
            Ok(v) => {
                let kept = vstd::slice::slice_to_vec(v.as_slice());
                let new_item = MemoryMapItem { os_type, size, offset, flags, field_e, data: ChunkData::Loaded(kept) };
                let ghost old_items = self.items@;
                let mut items: Vec<MemoryMapItem> = Vec::new();
                std::mem::swap(&mut items, &mut self.items);
                items.set(i, new_item);
                self.items = items;
                proof {
                    assert(items_view(self.items@) =~= old_map.update(i as int, with_data(item, ChunkDataView::Loaded(v@))));
                    assert forall|k: int| 0 <= k < self.items@.len() implies ({
                        let it = #[trigger] self.items@[k]@;
                        it.data matches ChunkDataView::Loaded(bytes) ==> spec_chunk_bytes(self.data@, d3, ChunkIndex(k as i32), it) == Ok::<Seq<u8>, Error>(bytes)
                    }) by {
                        if k != i {
                            assert(self.items@[k] == old_items[k]);
                        }
                    }
                }
                Ok(v)
            },
            Err(e) => Err(e),
        }
    }

    /// Puts the chunk at `index` on the free list: it becomes an empty
    /// `free` chunk that links to the old head of the list.
    pub fn make_free(&mut self, index: ChunkIndex)
        requires
            0 <= index.0 < old(self).memory_map().len(),
        ensures
            final(self).memory_map() == old(self).memory_map().update(index.0 as int, free_item(old(self).next_free())),
            final(self).next_free() == index,
            final(self).next_junk() == old(self).next_junk(),
            final(self).identity() == old(self).identity(),
            final(self).bytes() == old(self).bytes(),
            final(self).info() == old(self).info(),
            final(self).resource_map() == old(self).resource_map(),
    {
        proof { use_type_invariant(&*self); }
        let i = index.0 as usize;
        let ghost old_map = self.memory_map();
        let ghost old_items = self.items@;
        let item = MemoryMapItem {
            os_type: FREE,
            size: 0,
            offset: 0,
            flags: FLAG_VALID | FLAG_FREE,
            field_e: 0,
            data: ChunkData::Free { next_free: self.next_free },
        };
        let mut items: Vec<MemoryMapItem> = Vec::new();
        std::mem::swap(&mut items, &mut self.items);
        items.set(i, item);
        self.items = items;
        self.next_free = index;
        proof {
            assert(items_view(self.items@) =~= old_map.update(i as int, free_item(old(self).next_free())));
            assert forall|k: int| 0 <= k < self.items@.len() && k != i implies #[trigger] self.items@[k] == old_items[k] by {}
        }
    }

    /// Puts the chunk at `index` on the junk list: it becomes a `junk` chunk,
    /// keeping its size and offset, that links to the old head of the list.
    pub fn make_junk(&mut self, index: ChunkIndex)
        requires
            0 <= index.0 < old(self).memory_map().len(),
        ensures
            final(self).memory_map() == old(self).memory_map().update(
                index.0 as int,
                junk_item(old(self).memory_map()[index.0 as int], old(self).next_junk()),
            ),
            final(self).next_junk() == index,
            final(self).next_free() == old(self).next_free(),
            final(self).identity() == old(self).identity(),
            final(self).bytes() == old(self).bytes(),
            final(self).info() == old(self).info(),
            final(self).resource_map() == old(self).resource_map(),
    {
        proof { use_type_invariant(&*self); }
        let i = index.0 as usize;
        let ghost old_map = self.memory_map();
        let ghost old_items = self.items@;
        assert(old_map[i as int] == old_items[i as int]@);
        let item = MemoryMapItem {
            os_type: JUNK,
            size: self.items[i].size,
            offset: self.items[i].offset,
            flags: FLAG_VALID,
            field_e: 0,
            data: ChunkData::Free { next_free: self.next_junk },
        };
        let mut items: Vec<MemoryMapItem> = Vec::new();
        std::mem::swap(&mut items, &mut self.items);
        items.set(i, item);
        self.items = items;
        self.next_junk = index;
        proof {
            assert(items_view(self.items@) =~= old_map.update(i as int, junk_item(old_map[i as int], old(self).next_junk())));
            assert forall|k: int| 0 <= k < self.items@.len() && k != i implies #[trigger] self.items@[k] == old_items[k] by {}
        }
    }

    /// Whether opening the chunk at `index` as a RIFF file of its own can be
    /// asked for (see `chunk_loadable` and `spec_riff_defined`).
    pub open spec fn riff_loadable(&self, index: ChunkIndex) -> bool {
        &&& index.0 >= 0
        &&& index.0 < self.memory_map().len() && self.memory_map()[index.0 as int].offset <= self.bytes().len()
            ==> spec_riff_defined(self.bytes(), self.memory_map()[index.0 as int].offset as int)
    }

    /// Opens the chunk at `index` as a RIFF file of its own.
    pub fn load_riff(&self, index: ChunkIndex) -> (r: Result<Riff, Error>)
        requires
            self.riff_loadable(index),
        ensures
            index.0 >= self.memory_map().len() ==> r == Err::<Riff, Error>(Error::BadIndex(index)),
            index.0 < self.memory_map().len() ==> {
                let offset = self.memory_map()[index.0 as int].offset;
                if offset > self.bytes().len() {
                    r == Err::<Riff, Error>(Error::SeekFailure(index, offset))
                } else {
                    match (r, spec_riff(self.bytes(), offset as int)) {
                        (Ok(riff), Outcome::Done((info, maps))) => {
                            &&& riff.identity() == Identity::Child(index)
                            &&& riff.bytes() == self.bytes()
                            &&& riff.info() == info
                            &&& riff.memory_map() == maps.items
                            &&& riff.next_junk() == maps.next_junk
                            &&& riff.next_free() == maps.next_free
                            &&& riff.resource_map() == maps.resources
                        },
                        (Err(e), Outcome::Failed(f)) => e == f,
                        _ => false,
                    }
                }
            },
    {
        let i = index.0 as usize;
        if i >= self.items.len() {
            return Err(Error::BadIndex(index));
        }
        let offset = self.items[i].offset;
        proof { assert(self.memory_map()[i as int] == self.items@[i as int]@); }
        if offset as usize > self.data.len() {
            return Err(Error::SeekFailure(index, offset));
        }
        let data = vstd::slice::slice_to_vec(self.data.as_slice());
        Riff::with_identity(Identity::Child(index), data, offset as usize)
    }

    /// Whether the resource `id` can be asked for: each chunk that the
    /// resource map gives for it must be loadable.
    pub open spec fn resource_loadable(&self, id: ResourceId) -> bool {
        forall|i: int| 0 <= i < self.resource_map().len() && (#[trigger] self.resource_map()[i]).0 == id
            ==> self.chunk_loadable(self.resource_map()[i].1)
    }

    /// Whether loading the resource `id` has a defined result: whether
    /// `load_resource` may be called.
    pub fn resource_is_loadable(&self, id: ResourceId) -> (r: bool)
        ensures
            r == self.resource_loadable(id),
    {
        let mut i: usize = 0;
        while i < self.resources.len()
            invariant
                i <= self.resources@.len(),
                self.resources@ == self.resource_map(),
                forall|k: int| 0 <= k < i && (#[trigger] self.resource_map()[k]).0 == id
                    ==> self.chunk_loadable(self.resource_map()[k].1),
            decreases self.resources@.len() - i,
        {
            if self.resources[i].0 == id && !self.chunk_is_loadable(self.resources[i].1) {
                return false;
            }
            i = i + 1;
        }
        true
    }

    /// Whether opening the chunk at `index` as a RIFF file has a defined
    /// result: whether `load_riff` may be called.
    pub fn riff_is_loadable(&self, index: ChunkIndex) -> (r: bool)
        ensures
            r == self.riff_loadable(index),
    {
        if index.0 < 0 {
            return false;
        }
        if index.0 as usize >= self.items.len() {
            return true;
        }
        let offset = self.items[index.0 as usize].offset;
        if offset as usize > self.data.len() {
            return true;
        }
        Riff::is_defined(self.data.as_slice(), offset as usize)
    }

    /// Loads the bytes of the resource `id`.
    pub fn load_resource(&mut self, id: ResourceId) -> (r: Result<Vec<u8>, ResourceError>)
        requires
            old(self).resource_loadable(id),
        ensures
            final(self).bytes() == old(self).bytes(),
            final(self).info() == old(self).info(),
            final(self).resource_map() == old(self).resource_map(),
            !map_has(old(self).resource_map(), id) ==> r == Err::<Vec<u8>, ResourceError>(ResourceError::NotFound(id)),
            map_has(old(self).resource_map(), id) ==> {
                let index = map_lookup(old(self).resource_map(), id)->0;
                match r {
                    Ok(v) => 0 <= index.0 < old(self).memory_map().len()
                        && spec_chunk_bytes(old(self).bytes(), old(self).is_d3(), index, old(self).memory_map()[index.0 as int]) == Ok::<Seq<u8>, Error>(v@),
                    Err(e) => if index.0 >= old(self).memory_map().len() {
                        e == ResourceError::NotFound(id)
                    } else {
                        spec_chunk_bytes(old(self).bytes(), old(self).is_d3(), index, old(self).memory_map()[index.0 as int]) matches Err(f)
                            && e == resource_error(f, id)
                    },
                }
            },
    {
        proof { use_type_invariant(&*self); }
        let found = find_resource(&self.resources, id);
        match found {
            None => Err(ResourceError::NotFound(id)),
            Some(i) => {
                let index = self.resources[i].1;
                proof {
                    let j = choose|j: int| 0 <= j < self.resources@.len() && (#[trigger] self.resources@[j]).0 == id;
                    assert(self.resources@[i as int].0 == id);
                    if j != i as int {
                        if j < i {
                            assert(self.resources@[j].0 != id);
                        } else {
                            assert(self.resources@[i as int].0 != self.resources@[j].0);
                        }
                    }
                }
                match self.load_chunk(index) {
                    Ok(v) => Ok(v),
                    Err(e) => Err(resource_error_of(e, id)),
                }
            },
        }
    }
}

/// Loading a chunk again gives what the first load gave: the first load
/// keeps the chunk's offset and size, and reading those again reads the same
/// bytes (and the kept bytes are what later loads give back).
pub proof fn lemma_load_chunk_again(before: Riff, after: Riff, index: ChunkIndex, v: Seq<u8>)
    requires
        0 <= index.0 < before.memory_map().len(),
        spec_chunk_bytes(before.bytes(), before.is_d3(), index, before.memory_map()[index.0 as int]) == Ok::<Seq<u8>, Error>(v),
        after.bytes() == before.bytes(),
        after.info() == before.info(),
        after.memory_map() == before.memory_map().update(
            index.0 as int,
            with_data(before.memory_map()[index.0 as int], ChunkDataView::Loaded(v)),
        ),
    ensures
        spec_chunk_bytes(after.bytes(), after.is_d3(), index, after.memory_map()[index.0 as int]) == Ok::<Seq<u8>, Error>(v),
        after.memory_map()[index.0 as int].data == ChunkDataView::Loaded(v),
        forall|j: int| 0 <= j < before.memory_map().len() && j != index.0 ==> #[trigger] after.memory_map()[j] == before.memory_map()[j],
{
    reveal(spec_chunk_bytes);
}

/// Why a resource could not be loaded.
#[derive(Clone, Copy, Debug, PartialEq, Eq, Structural)]
pub enum ResourceError {
    /// The data ended.
    Io,
    /// No resource has the given ID.
    NotFound(ResourceId),
    /// A seek to the resource failed.
    SeekFailure(ResourceId),
    /// The size of the resource could not be read.
    ReadSizeFailure(ResourceId),
}

/// The resource error that a chunk error becomes.
pub open spec fn resource_error(e: Error, id: ResourceId) -> ResourceError {
    match e {
        Error::BadIndex(_) => ResourceError::NotFound(id),
        Error::D3ResourceNameSizeReadIo(_) => ResourceError::ReadSizeFailure(id),
        Error::SeekFailure(_, _) | Error::D3ResourceIdSkipIo(_) | Error::D3ResourceNameSkipIo(_) => ResourceError::SeekFailure(id),
        _ => ResourceError::Io,
    }
}

fn resource_error_of(e: Error, id: ResourceId) -> (r: ResourceError)
    ensures
        r == resource_error(e, id),
{
    match e {
        Error::BadIndex(_) => ResourceError::NotFound(id),
        Error::D3ResourceNameSizeReadIo(_) => ResourceError::ReadSizeFailure(id),
        Error::SeekFailure(_, _) | Error::D3ResourceIdSkipIo(_) | Error::D3ResourceNameSkipIo(_) => ResourceError::SeekFailure(id),
        _ => ResourceError::Io,
    }
}

/// A resource of a RIFF file, with where its chunk is.
pub struct Iter {
    pub id: ResourceId,
    pub chunk_index: ChunkIndex,
    /// The type, size and offset of the chunk, if the memory map has it.
    pub entry: Option<(OsType, u32, u32)>,
}

impl Iter {
    /// The resource ID.
    pub fn id(&self) -> (r: ResourceId)
        ensures
            r == self.id,
    {
        self.id
    }

    /// Whether the chunk is empty.
    pub fn is_empty(&self) -> (r: bool)
        requires
            self.entry is Some,
        ensures
            self.entry matches Some((_, size, _)) && r == (size == 0),
    {
        match self.entry {
            Some((_, size, _)) => size == 0,
            None => false,
        }
    }

    /// The size of the chunk.
    pub fn len(&self) -> (r: u32)
        requires
            self.entry is Some,
        ensures
            self.entry matches Some((_, size, _)) && r == size,
    {
        match self.entry {
            Some((_, size, _)) => size,
            None => 0,
        }
    }

    /// The offset of the chunk in the file.
    pub fn offset(&self) -> (r: u32)
        requires
            self.entry is Some,
        ensures
            self.entry matches Some((_, _, offset)) && r == offset,
    {
        match self.entry {
            Some((_, _, offset)) => offset,
            None => 0,
        }
    }

    /// Loads the chunk of the resource from the file it came from.
    pub fn load(&self, owner: &mut Riff) -> (r: Result<Vec<u8>, Error>)
        requires
            old(owner).chunk_loadable(self.chunk_index),
        ensures
            index_load_result(*old(owner), *final(owner), self.chunk_index, r),
    {
        owner.load_chunk(self.chunk_index)
    }
}

/// What loading the chunk at `index` gives and leaves, as `Riff::load_chunk`
/// states it.
pub open spec fn index_load_result(before: Riff, after: Riff, index: ChunkIndex, r: Result<Vec<u8>, Error>) -> bool {
    &&& after.identity() == before.identity()
    &&& after.bytes() == before.bytes()
    &&& after.info() == before.info()
    &&& after.next_junk() == before.next_junk()
    &&& after.next_free() == before.next_free()
    &&& after.resource_map() == before.resource_map()
    &&& index.0 >= before.memory_map().len() ==> r == Err::<Vec<u8>, Error>(Error::BadIndex(index))
    &&& index.0 < before.memory_map().len() ==> match r {
        Ok(v) => spec_chunk_bytes(before.bytes(), before.is_d3(), index, before.memory_map()[index.0 as int]) == Ok::<Seq<u8>, Error>(v@),
        Err(e) => spec_chunk_bytes(before.bytes(), before.is_d3(), index, before.memory_map()[index.0 as int]) == Err::<Seq<u8>, Error>(e),
    }
    &&& after.memory_map() == match r {
        Ok(v) => before.memory_map().update(index.0 as int, with_data(before.memory_map()[index.0 as int], ChunkDataView::Loaded(v@))),
        Err(_) => before.memory_map(),
    }
}

} // verus!

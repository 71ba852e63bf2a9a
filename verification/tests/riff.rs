use libearthquake::collections::riff::{
    detect, detect_is_defined, ChunkData, ChunkIndex, Error, ResourceError, ResourceId, Riff, FREE, JUNK,
};
use libearthquake::collections::riff_container::{ChunkFile, ChunkFileError, ChunkFileKind};
use libearthquake::detection::movie::Kind as MovieKind;
use libearthquake::detection::Version;

const STXT: u32 = 0x5354_5854;

fn put_u32_be(v: &mut Vec<u8>, x: u32) {
    v.extend_from_slice(&x.to_be_bytes());
}

fn put_u16_be(v: &mut Vec<u8>, x: u16) {
    v.extend_from_slice(&x.to_be_bytes());
}

fn put_entry(v: &mut Vec<u8>, os_type: &[u8; 4], size: u32, offset: u32, flags: u16) {
    v.extend_from_slice(os_type);
    put_u32_be(v, size);
    put_u32_be(v, offset);
    put_u16_be(v, flags);
    put_u16_be(v, 0);
    v.extend_from_slice(&(-1i32).to_be_bytes());
}

/// A big-endian Director 4 movie with an `imap`, an `mmap` of five entries,
/// a `KEY*` with one resource, and one `STXT` chunk holding "hi!\n".
fn rifx_movie() -> Vec<u8> {
    let mut v = Vec::new();
    v.extend_from_slice(b"RIFX");
    put_u32_be(&mut v, 196);
    v.extend_from_slice(b"MV93");
    v.extend_from_slice(b"imap");
    put_u32_be(&mut v, 12);
    put_u32_be(&mut v, 1);
    put_u32_be(&mut v, 28);
    assert_eq!(v.len(), 28);
    v.extend_from_slice(b"mmap");
    put_u32_be(&mut v, 124);
    put_u16_be(&mut v, 0x18);
    put_u16_be(&mut v, 0x14);
    put_u32_be(&mut v, 5);
    put_u32_be(&mut v, 5);
    v.extend_from_slice(&(-1i32).to_be_bytes());
    put_u32_be(&mut v, 0);
    v.extend_from_slice(&(-1i32).to_be_bytes());
    assert_eq!(v.len(), 60);
    put_entry(&mut v, b"RIFX", 196, 0, 0);
    put_entry(&mut v, b"imap", 12, 12, 0);
    put_entry(&mut v, b"mmap", 124, 28, 0);
    put_entry(&mut v, b"KEY*", 24, 160, 0);
    put_entry(&mut v, b"STXT", 4, 192, 0);
    assert_eq!(v.len(), 160);
    v.extend_from_slice(b"KEY*");
    put_u32_be(&mut v, 24);
    put_u16_be(&mut v, 12);
    put_u16_be(&mut v, 12);
    put_u32_be(&mut v, 1);
    put_u32_be(&mut v, 1);
    put_u32_be(&mut v, 4);
    put_u32_be(&mut v, 1024);
    v.extend_from_slice(b"STXT");
    assert_eq!(v.len(), 192);
    v.extend_from_slice(b"STXT");
    put_u32_be(&mut v, 4);
    v.extend_from_slice(b"hi!\n");
    v
}

/// A Director 3 movie: big-endian type codes, little-endian data, a `CFTC`
/// index with one `VWSC` resource whose chunk carries a resource number and
/// the name "ab" before "abcdef".
fn rmmp_movie() -> Vec<u8> {
    let mut v = Vec::new();
    v.extend_from_slice(b"RIFX");
    v.extend_from_slice(&78u32.to_le_bytes());
    v.extend_from_slice(b"RMMP");
    v.extend_from_slice(b"CFTC");
    v.extend_from_slice(&36u32.to_le_bytes());
    v.extend_from_slice(&0u32.to_le_bytes());
    v.extend_from_slice(b"VWSC");
    v.extend_from_slice(&14u32.to_le_bytes());
    v.extend_from_slice(&1024i32.to_le_bytes());
    v.extend_from_slice(&56u32.to_le_bytes());
    v.extend_from_slice(&[0u8; 16]);
    assert_eq!(v.len(), 56);
    v.extend_from_slice(b"VWSC");
    v.extend_from_slice(&14u32.to_le_bytes());
    v.extend_from_slice(&1024i32.to_le_bytes());
    v.push(2);
    v.extend_from_slice(b"ab\0");
    v.extend_from_slice(b"abcdef");
    assert_eq!(v.len(), 78);
    v
}

#[test]
fn riff_opens_imap_movie() {
    let riff = Riff::new(rifx_movie(), 0).unwrap();
    assert_eq!(riff.version(), Version::D4);
    assert_eq!(riff.kind(), MovieKind::Movie);
    assert_eq!(riff.size(), 196);
    assert_eq!(riff.first_of_kind(STXT), ChunkIndex(4));
    assert_eq!(riff.first_of_kind(0x5857_4158), ChunkIndex(-1));
    assert!(riff.contains(ResourceId { os_type: STXT, id: 1024 }));
    assert!(!riff.contains(ResourceId { os_type: STXT, id: 1025 }));
}

#[test]
fn riff_loads_chunk_and_keeps_it() {
    let mut riff = Riff::new(rifx_movie(), 0).unwrap();
    assert_eq!(riff.load_chunk(ChunkIndex(4)).unwrap(), b"hi!\n".to_vec());
    match &riff.metadata(ChunkIndex(4)).unwrap().data {
        ChunkData::Loaded(bytes) => assert_eq!(bytes, &b"hi!\n".to_vec()),
        ChunkData::Free { .. } => panic!("chunk not kept"),
    }
    assert_eq!(riff.load_chunk(ChunkIndex(4)).unwrap(), b"hi!\n".to_vec());
    assert_eq!(riff.load_chunk(ChunkIndex(9)), Err(Error::BadIndex(ChunkIndex(9))));
}

#[test]
fn riff_loads_resource() {
    let mut riff = Riff::new(rifx_movie(), 0).unwrap();
    let id = ResourceId { os_type: STXT, id: 1024 };
    assert_eq!(riff.load_resource(id).unwrap(), b"hi!\n".to_vec());
    let missing = ResourceId { os_type: STXT, id: 7 };
    assert_eq!(riff.load_resource(missing), Err(ResourceError::NotFound(missing)));
}

#[test]
fn riff_iterates_resources() {
    let mut riff = Riff::new(rifx_movie(), 0).unwrap();
    let items = riff.iter();
    assert_eq!(items.len(), 1);
    assert_eq!(items[0].id(), ResourceId { os_type: STXT, id: 1024 });
    assert_eq!(items[0].chunk_index, ChunkIndex(4));
    assert_eq!(items[0].len(), 4);
    assert_eq!(items[0].offset(), 192);
    assert!(!items[0].is_empty());
    assert_eq!(items[0].load(&mut riff).unwrap(), b"hi!\n".to_vec());
}

#[test]
fn riff_make_free_and_junk() {
    let mut riff = Riff::new(rifx_movie(), 0).unwrap();
    riff.make_free(ChunkIndex(4));
    let item = riff.metadata(ChunkIndex(4)).unwrap();
    assert_eq!(item.os_type, FREE);
    assert_eq!(item.size, 0);
    assert_eq!(item.offset, 0);
    assert_eq!(item.flags, 4 | 8);
    match item.data {
        ChunkData::Free { next_free } => assert_eq!(next_free, ChunkIndex(-1)),
        ChunkData::Loaded(_) => panic!("free chunk is loaded"),
    }
    riff.make_free(ChunkIndex(3));
    match riff.metadata(ChunkIndex(3)).unwrap().data {
        ChunkData::Free { next_free } => assert_eq!(next_free, ChunkIndex(4)),
        ChunkData::Loaded(_) => panic!("free chunk is loaded"),
    }
    riff.make_junk(ChunkIndex(2));
    let item = riff.metadata(ChunkIndex(2)).unwrap();
    assert_eq!(item.os_type, JUNK);
    assert_eq!(item.offset, 28);
    assert_eq!(item.flags, 4);
}

#[test]
fn riff_opens_chunk_as_riff() {
    let riff = Riff::new(rifx_movie(), 0).unwrap();
    let inner = riff.load_riff(ChunkIndex(0)).unwrap();
    assert_eq!(inner.version(), Version::D4);
    assert_eq!(riff.load_riff(ChunkIndex(7)).err(), Some(Error::BadIndex(ChunkIndex(7))));
    assert_eq!(riff.load_riff(ChunkIndex(1)).err(), Some(Error::NotRiff));
}

#[test]
fn riff_reads_d3_chunk_after_name() {
    let mut riff = Riff::new(rmmp_movie(), 0).unwrap();
    assert_eq!(riff.version(), Version::D3);
    assert_eq!(riff.size(), 70);
    assert_eq!(riff.load_chunk(ChunkIndex(0)).unwrap(), b"abcdef".to_vec());
    assert_eq!(riff.load_resource(ResourceId { os_type: 0x5657_5343, id: 1024 }).unwrap(), b"abcdef".to_vec());
}

#[test]
fn riff_detect_errors() {
    assert_eq!(detect(b"RIF", 0), Err(Error::Io));
    assert_eq!(detect(b"JUNKxxxxxxxx", 0), Err(Error::NotRiff));
    assert_eq!(detect(b"FFIRxxxxxxxx", 0), Err(Error::UnsupportedRiff));
    assert_eq!(detect(b"RIFX\0\0\0\0XXXX", 0), Err(Error::NotDirectorRiff));
    let info = detect(b"XFIR\x10\0\0\0LPPA", 0).unwrap();
    assert_eq!(info.kind, MovieKind::Embedded);
    assert_eq!(info.size, 16);
    let info = detect(b"RIFX\0\0\0\x20MC95", 0).unwrap();
    assert_eq!(info.kind, MovieKind::Cast);
    assert_eq!(info.size, 32);
}

#[test]
fn riff_missing_resource_map() {
    let mut v = rifx_movie();
    v[12..16].copy_from_slice(b"junk");
    assert_eq!(Riff::new(v, 0).err(), Some(Error::ResourceMapNotFound(0x6a75_6e6b)));
}

#[test]
fn riff_bad_mmap_header() {
    let mut v = rifx_movie();
    v[36] = 0;
    v[37] = 0x20;
    assert_eq!(Riff::new(v, 0).err(), Some(Error::BadMmapHeaderSize(0x20)));
    let mut v = rifx_movie();
    v[73] = 0x10;
    assert_eq!(Riff::new(v, 0).err(), Some(Error::BadMmapEntryFlags(ChunkIndex(0), 0x10)));
}

#[test]
fn chunk_file_reads_entries() {
    let mut entry = ChunkFile::read(&[0, 0, 0, 5], 0, true).unwrap();
    assert_eq!(entry.chunk_index(), ChunkIndex(5));
    assert_eq!(entry.kind(), ChunkFileKind::Movie);
    let mut entry = ChunkFile::read(&[5, 0, 0, 0, 1, 0, 0, 0], 0, false).unwrap();
    assert_eq!(entry.chunk_index(), ChunkIndex(5));
    assert_eq!(entry.kind(), ChunkFileKind::Cast);
    assert_eq!(ChunkFile::read(&[0, 0, 0], 0, true), Err(ChunkFileError::BadSize(3)));
    assert_eq!(ChunkFile::read(&[0; 9], 0, true), Err(ChunkFileError::BadSize(9)));
    assert_eq!(ChunkFile::read(&[0; 6], 0, true), Err(ChunkFileError::Io));
    assert_eq!(ChunkFile::read(&[0, 0, 0, 1, 0, 0, 0, 9], 0, true), Err(ChunkFileError::BadKind(9)));
    assert_eq!(ChunkFileKind::default(), ChunkFileKind::Movie);
}

#[test]
fn riff_map_errors() {
    let mut v = rifx_movie();
    v[38] = 0;
    v[39] = 0x18;
    assert_eq!(Riff::new(v, 0).err(), Some(Error::BadMmapEntrySize(0x18)));
    let mut v = rifx_movie();
    v[44..48].copy_from_slice(&5000u32.to_be_bytes());
    assert_eq!(Riff::new(v, 0).err(), Some(Error::BadMmapEntryCount(5000)));
    let mut v = rifx_movie();
    v[24..28].copy_from_slice(&10_000u32.to_be_bytes());
    assert_eq!(Riff::new(v, 0).err(), Some(Error::MmapSeekFailure));
    let mut v = rifx_movie();
    v[128..132].copy_from_slice(&10_000u32.to_be_bytes());
    assert_eq!(Riff::new(v, 0).err(), Some(Error::KeysSeekFailure));
    let mut v = rifx_movie();
    v[128..132].copy_from_slice(&192u32.to_be_bytes());
    assert_eq!(Riff::new(v, 0).err(), Some(Error::BadKeysOffset));
    let mut v = rifx_movie();
    v[176..180].copy_from_slice(&2u32.to_be_bytes());
    v.truncate(192);
    v.extend_from_slice(&4u32.to_be_bytes());
    v.extend_from_slice(&1024u32.to_be_bytes());
    v.extend_from_slice(b"STXT");
    assert_eq!(
        Riff::new(v, 0).err(),
        Some(Error::DuplicateResourceId(ResourceId { os_type: STXT, id: 1024 }, libearthquake::collections::riff::MapKind::Keys)),
    );
}

#[test]
fn riff_chunk_errors() {
    let mut v = rifx_movie();
    v[148..152].copy_from_slice(&10_000u32.to_be_bytes());
    let mut riff = Riff::new(v, 0).unwrap();
    assert_eq!(riff.load_chunk(ChunkIndex(4)), Err(Error::SeekFailure(ChunkIndex(4), 10_000)));
    let id = ResourceId { os_type: STXT, id: 1024 };
    assert_eq!(riff.load_resource(id), Err(ResourceError::SeekFailure(id)));
    let mut short = rmmp_movie();
    short.truncate(66);
    let mut riff = Riff::new(short, 0).unwrap();
    assert_eq!(riff.load_chunk(ChunkIndex(0)), Err(Error::D3ResourceIdSkipIo(ChunkIndex(0))));
    let mut short = rmmp_movie();
    short.truncate(68);
    let mut riff = Riff::new(short, 0).unwrap();
    assert_eq!(riff.load_chunk(ChunkIndex(0)), Err(Error::D3ResourceNameSizeReadIo(ChunkIndex(0))));
    assert_eq!(
        riff.load_resource(ResourceId { os_type: 0x5657_5343, id: 1024 }),
        Err(ResourceError::ReadSizeFailure(ResourceId { os_type: 0x5657_5343, id: 1024 })),
    );
    let mut short = rmmp_movie();
    short.truncate(70);
    let mut riff = Riff::new(short, 0).unwrap();
    assert_eq!(riff.load_chunk(ChunkIndex(0)), Err(Error::D3ResourceNameSkipIo(ChunkIndex(0))));
}

#[test]
fn riff_definedness_is_tested() {
    assert!(Riff::is_defined(&rifx_movie(), 0));
    assert!(Riff::is_defined(&rmmp_movie(), 0));
    let mut short = rmmp_movie();
    short[4..8].copy_from_slice(&4u32.to_le_bytes());
    assert!(!detect_is_defined(&short, 0));
    assert!(!Riff::is_defined(&short, 0));
    let mut empty_index = rmmp_movie();
    empty_index[16..20].copy_from_slice(&0u32.to_le_bytes());
    assert!(!Riff::is_defined(&empty_index, 0));
    assert!(Riff::is_defined(b"JUNK", 0));
}

#[test]
fn riff_chunk_loadability_is_tested() {
    let riff = Riff::new(rmmp_movie(), 0).unwrap();
    let vwsc = ResourceId { os_type: 0x5657_5343, id: 1024 };
    assert!(riff.resource_is_loadable(vwsc));
    assert!(!riff.chunk_is_loadable(ChunkIndex(-1)));
    assert!(riff.chunk_is_loadable(ChunkIndex(5)));
    assert!(!riff.riff_is_loadable(ChunkIndex(-1)));
    let mut small = rmmp_movie();
    small[28..32].copy_from_slice(&7u32.to_le_bytes());
    let riff = Riff::new(small, 0).unwrap();
    assert!(!riff.resource_is_loadable(vwsc));
    assert!(riff.resource_is_loadable(ResourceId { os_type: 0x5657_5343, id: 1 }));
}

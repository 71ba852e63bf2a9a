use libearthquake::string;
use libearthquake::string::{read_utf16_c_str, StringContext, StringError, StringKind};

#[test]
fn read_c_str() {
    let data = b"ok\0x";
    assert_eq!(string::read_c_str(data, 0).unwrap().0, b"ok".to_vec());
}

#[test]
fn read_pascal_str() {
    let data = b"\x02okx";
    assert_eq!(string::read_pascal_str(data, 0).unwrap().0, b"ok".to_vec());
}

#[test]
fn read_pascal_16_le_str() {
    let data = b"\x02\x00okx";
    assert_eq!(string::read_pascal_16_str(data, 0, false).unwrap().0, b"ok".to_vec());
}

#[test]
fn read_pascal_16_be_str() {
    let data = b"\x00\x02okx";
    assert_eq!(string::read_pascal_16_str(data, 0, true).unwrap().0, b"ok".to_vec());
}

#[test]
fn string_ends_and_positions() {
    assert_eq!(string::read_c_str(b"ok", 0), Err(StringError::UnexpectedEof));
    assert_eq!(string::read_c_str(b"a\0b\0", 2), Ok((b"b".to_vec(), 4)));
    assert_eq!(string::read_pascal_str(b"", 0), Err(StringError::UnexpectedEof));
    assert_eq!(string::read_pascal_str(b"\x05ab", 0), Ok((b"ab".to_vec(), 3)));
    assert_eq!(string::read_pascal_16_str(b"\x00", 0, true), Err(StringError::UnexpectedEof));
    assert_eq!(string::read_pascal_int(b"abcdef", 2, 3), (b"cde".to_vec(), 5));
}

#[test]
fn read_utf16_c_str_little_endian() {
    let data = b"o\0k\0\0\0x";
    assert_eq!(read_utf16_c_str(data, 0, false).unwrap(), ("ok".to_string(), 6));
}

#[test]
fn read_utf16_c_str_big_endian() {
    let data = b"\0o\0k\0\0";
    assert_eq!(read_utf16_c_str(data, 0, true).unwrap(), ("ok".to_string(), 6));
}

#[test]
fn read_utf16_c_str_surrogate_pair() {
    let data = [0x3d, 0xd8, 0x00, 0xde, 0, 0];
    assert_eq!(read_utf16_c_str(&data, 0, false).unwrap(), ("\u{1f600}".to_string(), 6));
}

#[test]
fn read_utf16_c_str_unpaired_surrogate_is_invalid() {
    let data = [0x00, 0xdc, 0x41, 0x00, 0, 0];
    assert_eq!(read_utf16_c_str(&data, 0, false), Err(StringError::InvalidData));
}

#[test]
fn read_utf16_c_str_without_terminator() {
    let data = b"o\0k\0x";
    assert_eq!(read_utf16_c_str(data, 0, false), Err(StringError::UnexpectedEof));
}

#[test]
fn string_context_loads_each_kind() {
    let data = b"\x02okx\0y";
    assert_eq!(StringContext::default().load(data, 3).unwrap(), b"\x02ok".to_vec());
    assert_eq!(StringContext(StringKind::Sized).load(data, 100).unwrap(), data.to_vec());
    assert_eq!(StringContext(StringKind::CStr).load(data, 6).unwrap(), b"\x02okx".to_vec());
    assert_eq!(StringContext(StringKind::PascalStr).load(data, 6).unwrap(), b"ok".to_vec());
    assert_eq!(StringContext(StringKind::CStr).load(b"abc", 3), Err(StringError::UnexpectedEof));
    assert_eq!(StringContext(StringKind::PascalStr).load(b"", 0), Err(StringError::UnexpectedEof));
}

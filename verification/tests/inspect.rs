use libearthquake::cast::MemberId;
use libearthquake::collections::riff::ResourceId;
use libearthquake::inspect::{parse_fields, parse_frames, parse_i16, parse_member_id, parse_resource_id, split_bytes, ArgError};
use libearthquake::{name, version};

#[test]
fn fields_split_at_commas() {
    assert_eq!(parse_fields("a,bc,,d"), vec!["a".to_string(), "bc".to_string(), String::new(), "d".to_string()]);
    assert_eq!(parse_fields(""), vec![String::new()]);
    assert_eq!(parse_fields("é,ü"), vec!["é".to_string(), "ü".to_string()]);
    assert_eq!(split_bytes(b",x,"), vec![Vec::new(), b"x".to_vec(), Vec::new()]);
}

#[test]
fn i16_parsing() {
    assert_eq!(parse_i16(b"12"), Some(12));
    assert_eq!(parse_i16(b"+7"), Some(7));
    assert_eq!(parse_i16(b"-32768"), Some(-32768));
    assert_eq!(parse_i16(b"32767"), Some(32767));
    assert_eq!(parse_i16(b"32768"), None);
    assert_eq!(parse_i16(b"-"), None);
    assert_eq!(parse_i16(b""), None);
    assert_eq!(parse_i16(b"1x"), None);
    assert_eq!(parse_i16(b"99999999999"), None);
}

#[test]
fn frame_ranges() {
    assert_eq!(parse_frames("5"), Ok((4, 5)));
    assert_eq!(parse_frames("2,10"), Ok((1, 9)));
    assert_eq!(parse_frames("2,"), Ok((1, i16::MAX - 1)));
    assert_eq!(parse_frames("10,2"), Err(ArgError::StartNotBeforeEnd(10, 2)));
    assert_eq!(parse_frames("x,2"), Err(ArgError::MalformedStartFrame));
    assert_eq!(parse_frames("1,y"), Err(ArgError::MalformedEndFrame));
    assert_eq!(parse_frames("z"), Err(ArgError::MalformedFrame));
    assert_eq!(parse_frames("1,2,3"), Err(ArgError::MalformedFrameRange));
}

#[test]
fn member_ids() {
    assert_eq!(parse_member_id("12"), Ok(MemberId { lib: 0, num: 12 }));
    assert_eq!(parse_member_id("2,12"), Ok(MemberId { lib: 2, num: 12 }));
    assert_eq!(parse_member_id("a,12"), Err(ArgError::MalformedLibNum));
    assert_eq!(parse_member_id("2,b"), Err(ArgError::MalformedMemberNum));
    assert_eq!(parse_member_id("1,2,3"), Err(ArgError::MalformedMemberId));
}

#[test]
fn resource_ids() {
    assert_eq!(parse_resource_id("STXT,1024"), Ok(ResourceId { os_type: 0x5354_5854, id: 1024 }));
    assert_eq!(parse_resource_id("STX,1"), Err(ArgError::MalformedResourceKind));
    assert_eq!(parse_resource_id("STXT,x"), Err(ArgError::MalformedResourceNum));
    assert_eq!(parse_resource_id("STXT"), Err(ArgError::MalformedResourceId));
}

#[test]
fn player_name_and_version() {
    assert_eq!(version(None, None, "0.1.0"), "0.1.0");
    assert_eq!(version(Some("1.2.3"), Some("abc1234"), "0.1.0"), "1.2.3 (abc1234)");
    assert_eq!(version(Some("UNKNOWN"), Some("abc1234"), "0.1.0"), "0.1.0 (abc1234)");
    assert_eq!(version(Some("UNKNOWN"), None, "0.1.0"), "0.1.0");
    assert_eq!(version(Some("2.0.0"), None, "0.1.0"), "2.0.0");
    assert_eq!(name(false, "0.1.0 (abc1234)"), "Earthquake");
    assert_eq!(name(true, "0.1.0 (abc1234)"), "Earthquake 0.1.0 (abc1234)");
}

#[test]
fn frame_definedness_is_tested() {
    assert!(libearthquake::inspect::frames_are_defined("3,5"));
    assert!(!libearthquake::inspect::frames_are_defined("-32768"));
    assert!(!libearthquake::inspect::frames_are_defined("-32768,4"));
    assert!(libearthquake::inspect::frames_are_defined("x,y,z"));
}

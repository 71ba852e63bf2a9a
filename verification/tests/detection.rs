use libearthquake::detection::projector::{detect_mac_is_defined, detect_win_is_defined, try_detect_mac, try_detect_win};
use libearthquake::detection::route_is_defined;
use libearthquake::collections::riff::{Error as RiffError, ResourceId};
use libearthquake::detection::movie::{detect_mac as detect_mac_movie, Kind as MovieKind, MovieError};
use libearthquake::detection::projector::{
    data_version, detect_mac, detect_win, MacCPU, MacString, Movie, Platform, ProjectorError, WinVersion,
};
use libearthquake::detection::projector_settings::SettingsError;
use libearthquake::detection::{detect, DetectError, FileType, Version};
use libearthquake::player::{choose_charset, detection_to_playlist, PlaylistError, PlaylistPlan, ROMAN};
use libearthquake::detection::projector::ScriptCode;
use libearthquake::resource_fork::{Resource, ResourceFork};

fn put(v: &mut Vec<u8>, at: usize, bytes: &[u8]) {
    if v.len() < at + bytes.len() {
        v.resize(at + bytes.len(), 0);
    }
    v[at..at + bytes.len()].copy_from_slice(bytes);
}

fn le16(x: u16) -> [u8; 2] {
    x.to_le_bytes()
}

fn le32(x: u32) -> [u8; 4] {
    x.to_le_bytes()
}

fn finish(mut v: Vec<u8>, offset: u32) -> Vec<u8> {
    v.extend_from_slice(&le32(offset));
    v
}

fn ne_header(v: &mut Vec<u8>, name: Option<&[u8]>) {
    put(v, 0, b"MZ");
    put(v, 0x3c, &le16(0x40));
    put(v, 0x40, b"NE");
    match name {
        Some(name) => {
            put(v, 0x60, &le16(name.len() as u16));
            put(v, 0x6c, &le32(0x80));
            let mut p = vec![name.len() as u8];
            p.extend_from_slice(name);
            put(v, 0x80, &p);
        },
        None => {
            put(v, 0x60, &le16(0));
            put(v, 0x6c, &le32(0));
        },
    }
}

/// A Director 4 Windows projector in an NE executable named "Proj".
fn d4_win_projector() -> Vec<u8> {
    let mut v = Vec::new();
    ne_header(&mut v, Some(b"Proj"));
    put(&mut v, 0x100, b"PJ93");
    put(&mut v, 0x104, &le32(0x200));
    put(&mut v, 0x108, &le32(0x18c));
    put(&mut v, 0x110, &le32(0x300));
    put(&mut v, 0x114, &le32(0x304));
    put(&mut v, 0x180, &[0x09, 0, 0, 0, 0, 0, 0, 0, 0x80, 2, 0xe0, 1]);
    put(&mut v, 0x200, b"RIFX\0\0\0\x10MV93");
    put(&mut v, 0x300, b"RSRC");
    finish(v, 0x100)
}

/// A Director 3 Windows projector with two embedded movies.
fn d3_win_projector() -> Vec<u8> {
    let mut v = Vec::new();
    ne_header(&mut v, None);
    put(&mut v, 0x80, &[2, 0, 1, 0, 0, 0, 253]);
    put(&mut v, 0x87, &le32(3));
    put(&mut v, 0x8b, b"\x05A.DIR");
    put(&mut v, 0x91, b"\x04C:\\M");
    put(&mut v, 0x96, b"xyz");
    put(&mut v, 0x99, &le32(0));
    put(&mut v, 0x9d, b"\x01B\x00");
    assert_eq!(v.len(), 0xa0);
    finish(v, 0x80)
}

fn utf16(s: &str) -> Vec<u8> {
    let mut v = Vec::new();
    for u in s.encode_utf16() {
        v.extend_from_slice(&u.to_le_bytes());
    }
    v.extend_from_slice(&[0, 0]);
    v
}

/// A Director 5 Windows projector in a PE executable whose version resource
/// names the product "Foo".
fn d5_pe_projector() -> Vec<u8> {
    let mut v = Vec::new();
    put(&mut v, 0, b"MZ");
    put(&mut v, 0x3c, &le16(0x40));
    put(&mut v, 0x40, b"PE\0\0");
    put(&mut v, 0x46, &le16(1));
    put(&mut v, 0x54, &le16(0));
    put(&mut v, 0x58, b".rsrc\0\0\0");
    put(&mut v, 0x58 + 12, &le32(0x1000));
    put(&mut v, 0x58 + 20, &le32(0x200));
    put(&mut v, 0x200 + 14, &le16(1));
    put(&mut v, 0x200 + 16, &le32(0x10));
    put(&mut v, 0x200 + 20, &le32(0x8000_0018));
    put(&mut v, 0x218 + 14, &le16(1));
    put(&mut v, 0x218 + 16, &le32(1));
    put(&mut v, 0x218 + 20, &le32(0x8000_0030));
    put(&mut v, 0x230 + 14, &le16(1));
    put(&mut v, 0x230 + 16, &le32(1033));
    put(&mut v, 0x230 + 20, &le32(0x48));
    put(&mut v, 0x248, &le32(0x1100));
    put(&mut v, 0x300, &le16(0x8c));
    put(&mut v, 0x302, &le16(0));
    put(&mut v, 0x304, &le16(0));
    put(&mut v, 0x306, &utf16("VS_VERSION_INFO"));
    put(&mut v, 0x328, &le16(0x64));
    put(&mut v, 0x32a, &le16(0));
    put(&mut v, 0x32c, &le16(1));
    put(&mut v, 0x32e, &utf16("StringFileInfo"));
    put(&mut v, 0x34c, &le16(0x40));
    put(&mut v, 0x34e, &le16(0));
    put(&mut v, 0x350, &le16(1));
    put(&mut v, 0x352, &utf16("040904b0"));
    put(&mut v, 0x364, &le16(0x28));
    put(&mut v, 0x366, &le16(4));
    put(&mut v, 0x368, &le16(1));
    put(&mut v, 0x36a, &utf16("ProductName"));
    put(&mut v, 0x384, &utf16("Foo"));
    put(&mut v, 0x400, b"PJ95");
    put(&mut v, 0x404, &le32(0xa40));
    put(&mut v, 0x408, &[0x10, 0, 0, 0, 1, 0, 0, 0, 0, 0, 0, 0]);
    put(&mut v, 0x828, &le32(0xb00));
    put(&mut v, 0xa2c, &le32(0xb04));
    put(&mut v, 0xa40, b"RIFX\0\0\0\x10MV93");
    put(&mut v, 0xb00, b"RSRC");
    finish(v, 0x400)
}

#[test]
fn detects_d4_windows_projector() {
    let info = detect_win(&d4_win_projector()).unwrap();
    assert_eq!(info.version(), Version::D4);
    match info.movie() {
        Movie::Internal(offset) => assert_eq!(*offset, 0x200),
        _ => panic!("wrong movie"),
    }
    assert_eq!(info.system_resources().unwrap(), &b"RSRC".to_vec());
    match info.name() {
        Some(MacString::Raw(name)) => assert_eq!(name, &b"Proj".to_vec()),
        _ => panic!("wrong name"),
    }
    assert!(info.config().full_screen);
    assert!(info.config().play_every_movie);
    assert_eq!(info.config().platform(), Platform::Win(WinVersion::Win3));
    assert!(info.charset().is_none());
    assert!(!info.is_mac_embedded());
}

#[test]
fn detects_d3_windows_projector() {
    let info = detect_win(&d3_win_projector()).unwrap();
    assert_eq!(info.version(), Version::D3);
    assert!(info.name().is_none());
    assert!(info.system_resources().is_none());
    assert_eq!(info.config().num_movies(), 2);
    assert!(!info.config().use_external_files());
    match info.movie() {
        Movie::D3Win(movies) => {
            assert_eq!(movies.len(), 2);
            match &movies[0].filename {
                MacString::Raw(name) => assert_eq!(name, &b"C:/M/A.DIR".to_vec()),
                _ => panic!("wrong name"),
            }
            assert_eq!(movies[0].offset, 0x96);
            assert_eq!(movies[0].size, 3);
            match &movies[1].filename {
                MacString::Raw(name) => assert_eq!(name, &b"/B".to_vec()),
                _ => panic!("wrong name"),
            }
            assert_eq!(movies[1].offset, 0xa0);
            assert_eq!(movies[1].size, 0);
        },
        _ => panic!("wrong movie"),
    }
}

#[test]
fn detects_pe_product_name() {
    let info = detect_win(&d5_pe_projector()).unwrap();
    assert_eq!(info.version(), Version::D5);
    match info.name() {
        Some(MacString::Decoded(name)) => assert_eq!(name, "Foo"),
        _ => panic!("wrong name"),
    }
    assert_eq!(info.config().platform(), Platform::Win(WinVersion::Win95));
    assert_eq!(info.system_resources().unwrap(), &b"RSRC".to_vec());
    match info.movie() {
        Movie::Internal(offset) => assert_eq!(*offset, 0xa40),
        _ => panic!("wrong movie"),
    }
}

#[test]
fn d5_tag_with_d6_settings_is_d6() {
    let mut v = d5_pe_projector();
    v[0x408] = 0x20;
    v.truncate(v.len() - 4);
    put(&mut v, 0x830, &le32(0xb00));
    put(&mut v, 0x834, &le32(4));
    let v = finish(v, 0x400);
    let info = detect_win(&v).unwrap();
    assert_eq!(info.version(), Version::D6);
    assert_eq!(info.system_resources().unwrap(), &b"RSRC".to_vec());
}

#[test]
fn windows_detection_errors() {
    assert_eq!(detect_win(b"M").err(), Some(ProjectorError::Io));
    assert_eq!(detect_win(b"ZM\0\0\0\0\0\0").err(), Some(ProjectorError::NotWindowsExe));
    let mut v = d3_win_projector();
    v[0x86] = 0;
    assert_eq!(detect_win(&v).err(), Some(ProjectorError::BadChecksum));
    let mut v = d4_win_projector();
    v[0x40] = b'X';
    assert_eq!(detect_win(&v).err(), Some(ProjectorError::NotWindowsExe));
    let mut v = d4_win_projector();
    v[0x201] = b'X';
    assert_eq!(detect_win(&v).err(), Some(ProjectorError::Riff(RiffError::NotRiff)));
    let mut v = d4_win_projector();
    v[0x181] = 1;
    assert_eq!(
        detect_win(&v).err(),
        Some(ProjectorError::Settings(SettingsError::UnexpectedBytes { first: 1, last: 3 })),
    );
    let mut v = d4_win_projector();
    put(&mut v, 0x114, &le32(0x310));
    assert_eq!(detect_win(&v).err(), Some(ProjectorError::SizeMismatch(0x10, 8)));
}

#[test]
fn data_version_tags() {
    assert_eq!(data_version(b"PJ93"), Some(Version::D4));
    assert_eq!(data_version(b"39JP"), Some(Version::D4));
    assert_eq!(data_version(b"PJ95"), Some(Version::D5));
    assert_eq!(data_version(b"PJ00"), Some(Version::D7));
    assert_eq!(data_version(b"XXXX"), None);
    assert!(!libearthquake::detection::projector::data_version_is_defined(b"PJ97"));
    assert!(libearthquake::detection::projector::data_version_is_defined(b"PJ95"));
}

fn resource(os_type: &[u8; 4], id: i16, name: Option<&[u8]>, data: &[u8]) -> Resource {
    Resource {
        id: ResourceId { os_type: u32::from_be_bytes(*os_type), id },
        name: name.map(|n| n.to_vec()),
        data: data.to_vec(),
    }
}

fn d4_mac_fork() -> ResourceFork {
    ResourceFork {
        resources: vec![
            resource(b"PJ93", 0, None, b""),
            resource(b"PJst", 0, None, &[0, 0, 1, 1, 0, 0, 0, 0, 0, 1, 0x40, 5]),
        ],
        name: Some(b"Proj".to_vec()),
        bytes: b"FORK".to_vec(),
    }
}

#[test]
fn detects_d4_mac_projector() {
    let fork = d4_mac_fork();
    let data = b"RIFX\0\0\0\x10MV93".to_vec();
    let info = detect_mac(&fork, Some(&data)).unwrap();
    assert_eq!(info.version(), Version::D4);
    match info.movie() {
        Movie::Internal(offset) => assert_eq!(*offset, 0),
        _ => panic!("wrong movie"),
    }
    assert_eq!(info.system_resources().unwrap(), &b"FORK".to_vec());
    assert!(info.config().resize_stage);
    assert!(info.config().switch_color_depth);
    assert_eq!(info.config().platform(), Platform::Mac(MacCPU(1)));
    assert_eq!(detect_mac(&fork, None).err(), Some(ProjectorError::NoDataFork));
}

#[test]
fn detects_d3_mac_projector() {
    let fork = ResourceFork {
        resources: vec![
            resource(b"VWst", 0, None, &[0, 1, 0, 0, 1, 0, 0, 2, 0, 0, 3, 0]),
            resource(b"STR#", 0, None, b"\x00\x02\x03a:b\x01c"),
        ],
        name: None,
        bytes: Vec::new(),
    };
    let info = detect_mac(&fork, None).unwrap();
    assert_eq!(info.version(), Version::D3);
    assert!(info.system_resources().is_none());
    match info.movie() {
        Movie::External(names) => {
            assert_eq!(names.len(), 2);
            match (&names[0], &names[1]) {
                (MacString::Raw(a), MacString::Raw(b)) => {
                    assert_eq!(a, &b"a/b".to_vec());
                    assert_eq!(b, &b"c".to_vec());
                },
                _ => panic!("wrong names"),
            }
        },
        _ => panic!("wrong movie"),
    }
    let embedded = ResourceFork {
        resources: vec![resource(b"VWst", 0, None, &[0, 1, 0, 0, 0, 0, 0, 2, 0, 0, 3, 0])],
        name: None,
        bytes: Vec::new(),
    };
    let info = detect_mac(&embedded, None).unwrap();
    assert!(info.is_mac_embedded());
    let missing = ResourceFork { resources: Vec::new(), name: None, bytes: Vec::new() };
    assert_eq!(detect_mac(&missing, None).err(), Some(ProjectorError::NoSettingsResource));
    let no_list = ResourceFork {
        resources: vec![resource(b"VWst", 0, None, &[0, 1, 0, 0, 1, 0, 0, 2, 0, 0, 3, 0])],
        name: None,
        bytes: Vec::new(),
    };
    assert_eq!(detect_mac(&no_list, None).err(), Some(ProjectorError::MissingFileList));
    let bad_accel = ResourceFork {
        resources: vec![resource(b"VWst", 0, None, &[0, 1, 0, 0, 0, 0, 0, 2, 0, 0, 9, 0])],
        name: None,
        bytes: Vec::new(),
    };
    assert_eq!(
        detect_mac(&bad_accel, None).err(),
        Some(ProjectorError::Settings(SettingsError::UnknownAccelMode(9))),
    );
}

#[test]
fn detects_mac_movies() {
    let accel = ResourceFork { resources: vec![resource(b"EMPO", 256, None, b"")], name: None, bytes: Vec::new() };
    assert_eq!(detect_mac_movie(&accel).unwrap().kind(), MovieKind::Accelerator);
    let movie = ResourceFork { resources: vec![resource(b"VWCF", 1024, None, b"")], name: None, bytes: Vec::new() };
    assert_eq!(detect_mac_movie(&movie).unwrap().kind(), MovieKind::Embedded);
    let tiles = ResourceFork {
        resources: vec![resource(b"VWCF", 1024, Some(b"Tiles"), b"")],
        name: None,
        bytes: Vec::new(),
    };
    assert_eq!(detect_mac_movie(&tiles).err(), Some(MovieError::NoConfigResource));
}

#[test]
fn detection_routes() {
    let exe = d4_win_projector();
    let found = detect(None, Some(&exe), None).unwrap();
    assert!(!found.resource_fork && found.data_fork);
    match &found.info {
        FileType::Projector(info) => assert_eq!(info.version(), Version::D4),
        _ => panic!("wrong kind"),
    }
    let riff = b"RIFX\0\0\0\x10MV93".to_vec();
    let found = detect(None, Some(&riff), None).unwrap();
    match &found.info {
        FileType::Movie(m) => assert_eq!(m.version(), Version::D4),
        _ => panic!("wrong kind"),
    }
    let junk = b"junk junk junk".to_vec();
    assert_eq!(
        detect(None, Some(&junk), None).err(),
        Some(DetectError::NotDirector(ProjectorError::NotWindowsExe, RiffError::NotRiff)),
    );
    assert_eq!(detect(None, None, None).err(), Some(DetectError::NoDataFile));
    let fork = d4_mac_fork();
    let found = detect(Some(&fork), Some(&riff), None).unwrap();
    assert!(found.resource_fork && found.data_fork);
    let accel = ResourceFork { resources: vec![resource(b"EMPO", 256, None, b"")], name: None, bytes: Vec::new() };
    let found = detect(Some(&accel), None, None).unwrap();
    match &found.info {
        FileType::Movie(m) => assert_eq!(m.kind(), MovieKind::Accelerator),
        _ => panic!("wrong kind"),
    }
    let found = detect(None, Some(&junk), Some(&accel)).unwrap();
    assert!(!found.resource_fork && found.data_fork);
}

#[test]
fn playlists_from_detection() {
    let exe = d3_win_projector();
    let found = detect(None, Some(&exe), None).unwrap();
    let source = detection_to_playlist(&found).unwrap();
    match source.plan {
        PlaylistPlan::D3Win(movies) => assert_eq!(movies.len(), 2),
        _ => panic!("wrong plan"),
    }
    let riff = b"RIFX\0\0\0\x10MV93".to_vec();
    let found = detect(None, Some(&riff), None).unwrap();
    let source = detection_to_playlist(&found).unwrap();
    assert!(matches!(source.plan, PlaylistPlan::SingleRiff));
    let fork = ResourceFork {
        resources: vec![resource(b"VWst", 0, None, &[0, 1, 0, 0, 0, 0, 0, 2, 0, 0, 3, 0])],
        name: None,
        bytes: Vec::new(),
    };
    let found = detect(Some(&fork), None, None).unwrap();
    let source = detection_to_playlist(&found).unwrap();
    assert!(matches!(source.plan, PlaylistPlan::Embeds(2)));
    let mut found = detect(None, Some(&exe), None).unwrap();
    found.data_fork = false;
    let exe4 = d4_win_projector();
    let mut found4 = detect(None, Some(&exe4), None).unwrap();
    found4.data_fork = false;
    assert_eq!(detection_to_playlist(&found4).err(), Some(PlaylistError::MissingDataFork));
    assert!(detection_to_playlist(&found).is_ok());
}

#[test]
fn charset_choice() {
    assert_eq!(choose_charset(Some(ScriptCode(1)), Some(ScriptCode(2))), ScriptCode(1));
    assert_eq!(choose_charset(None, Some(ScriptCode(2))), ScriptCode(2));
    assert_eq!(choose_charset(None, None), ScriptCode(ROMAN));
}

#[test]
fn mac_projector_errors() {
    let mut fork = d4_mac_fork();
    fork.resources[1].data[7] = 1;
    let data = b"PJ95\0\0\0\x08RIFX\0\0\0\x10MV93".to_vec();
    assert_eq!(detect_mac(&fork, Some(&data)).err(), Some(ProjectorError::VersionMismatch));
    let good = b"PJ93\0\0\0\x08RIFX\0\0\0\x10MV93".to_vec();
    let info = detect_mac(&fork, Some(&good)).unwrap();
    match info.movie() {
        Movie::Internal(offset) => assert_eq!(*offset, 8),
        _ => panic!("wrong movie"),
    }
    fork.resources[1].data[7] = 4;
    assert_eq!(detect_mac(&fork, Some(&good)).err(), Some(ProjectorError::Settings(SettingsError::UnknownCpu(4))));
}

#[test]
fn embedded_movies_need_resource_fork() {
    let fork = ResourceFork {
        resources: vec![resource(b"VWst", 0, None, &[0, 1, 0, 0, 0, 0, 0, 2, 0, 0, 3, 0])],
        name: None,
        bytes: Vec::new(),
    };
    let mut found = detect(Some(&fork), None, None).unwrap();
    found.resource_fork = false;
    assert_eq!(detection_to_playlist(&found).err(), Some(PlaylistError::MissingResourceFork));
}

#[test]
fn reads_product_name_from_version_resource() {
    let v = d5_pe_projector();
    assert_eq!(libearthquake::detection::pe::read_product_name(&v, 0x44), Some("Foo".to_string()));
}

#[test]
fn product_name_with_unpaired_surrogate_is_replaced() {
    let mut v = d5_pe_projector();
    put(&mut v, 0x384, &le16(0xd800));
    assert_eq!(libearthquake::detection::pe::read_product_name(&v, 0x44), Some("\u{fffd}oo".to_string()));
}

#[test]
fn product_name_absent_without_resource_section() {
    let mut v = d5_pe_projector();
    put(&mut v, 0x58, b".text\0\0\0");
    assert_eq!(libearthquake::detection::pe::read_product_name(&v, 0x44), None);
}

#[test]
fn product_name_absent_for_other_language() {
    let mut v = d5_pe_projector();
    put(&mut v, 0x230 + 16, &le32(1031));
    assert_eq!(libearthquake::detection::pe::read_product_name(&v, 0x44), None);
}

#[test]
fn names_platforms() {
    assert_eq!(MacCPU(1).to_string(), "68000");
    assert_eq!(MacCPU(2).to_string(), "PowerPC");
    assert_eq!(MacCPU(3).to_string(), "68000/PowerPC");
    assert_eq!(Platform::Mac(MacCPU(3)).to_string(), "Mac 68000/PowerPC");
    assert_eq!(Platform::Mac(MacCPU(1)).to_string(), "Mac 68000");
    assert_eq!(Platform::Win(WinVersion::Win3).to_string(), "Windows 3");
    assert_eq!(Platform::Win(WinVersion::Win95).to_string(), "Windows 95");
}

#[test]
fn casts_are_not_playable() {
    let cast = b"RIFX\0\0\0\x10MC95".to_vec();
    let found = detect(None, Some(&cast), None).unwrap();
    assert!(!found.info.is_playable());
    let movie = b"RIFX\0\0\0\x10MV93".to_vec();
    assert!(detect(None, Some(&movie), None).unwrap().info.is_playable());
    assert!(detect(None, Some(&d4_win_projector()), None).unwrap().info.is_playable());
}

#[test]
fn windows_detection_definedness_is_tested() {
    let good = d4_win_projector();
    assert!(detect_win_is_defined(&good));
    assert!(route_is_defined(None, Some(&good), None));
    let mut low = d4_win_projector();
    put(&mut low, 0x108, &le32(4));
    assert!(!detect_win_is_defined(&low));
    assert!(try_detect_win(&low).is_none());
    assert!(!route_is_defined(None, Some(&low), None));
    let mut tag97 = d4_win_projector();
    put(&mut tag97, 0x100, b"PJ97");
    assert!(!detect_win_is_defined(&tag97));
    let mut backwards = d4_win_projector();
    put(&mut backwards, 0x114, &le32(0x2ff));
    assert!(!detect_win_is_defined(&backwards));
    assert!(route_is_defined(None, Some(b"nothing here"), None));
}

#[test]
fn mac_detection_definedness_is_tested() {
    let fork = d4_mac_fork();
    assert!(detect_mac_is_defined(&fork, None));
    let short = ResourceFork {
        resources: vec![resource(b"PJ93", 0, None, b""), resource(b"PJst", 0, None, &[0, 0, 1])],
        name: None,
        bytes: Vec::new(),
    };
    assert!(!detect_mac_is_defined(&short, None));
    assert!(try_detect_mac(&short, None).is_none());
    assert!(!route_is_defined(Some(&short), None, None));
}

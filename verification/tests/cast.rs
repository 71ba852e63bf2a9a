use libearthquake::cast::manager::{GlobalLibNum, Manager, SharedCastId};
use libearthquake::config::Platform;

#[test]
fn cast_libraries_are_numbered_in_order() {
    let mut casts = Manager::new(Platform::Win);
    assert!(casts.get(GlobalLibNum(0)).is_none());
    assert_eq!(casts.insert_new(), GlobalLibNum(0));
    let internal = casts.get(GlobalLibNum(0)).unwrap();
    assert_eq!(internal.embedded_file_index, -1);
    assert_eq!(internal.ref_count, 1);
    assert!(!internal.is_external_cast);
    let shared = SharedCastId::Path(b"SHARED.CST".to_vec());
    assert_eq!(casts.get_index(&shared), None);
    assert_eq!(casts.get_or_insert_index(&shared), GlobalLibNum(1));
    assert_eq!(casts.get_or_insert_index(&shared), GlobalLibNum(1));
    let cast = casts.get(GlobalLibNum(1)).unwrap();
    assert!(cast.is_external_cast);
    assert_eq!(cast.own_path, b"SHARED.CST".to_vec());
    assert_eq!(cast.platform, Platform::Win);
    assert_eq!(casts.get_or_insert_index(&SharedCastId::Index(3)), GlobalLibNum(2));
    assert_eq!(casts.get_index(&SharedCastId::PathAndIndex(b"X".to_vec(), 3)), Some(GlobalLibNum(2)));
    assert_eq!(casts.get(GlobalLibNum(2)).unwrap().embedded_file_index, 3);
    assert_eq!(casts.get_index(&SharedCastId::Index(-1)), Some(GlobalLibNum(0)));
}

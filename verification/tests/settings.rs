use libearthquake::detection::projector::{MacCPU, Platform, WinVersion};
use libearthquake::detection::projector_settings::{AccelMode, D3Settings, D6Settings, ProjectorSettings, SettingsError};
use libearthquake::detection::Version;

#[test]
fn d3_settings() {
    let mac = D3Settings::from_bits_mac(&[0, 1, 1, 1, 0, 1, 0, 3, 0, 0, 2, 0]).unwrap();
    assert!(mac.loop_playback && mac.resize_stage && mac.switch_color_depth);
    assert!(!mac.use_external_files && !mac.wait_for_click);
    assert_eq!(mac.num_movies, 3);
    assert_eq!(mac.accel_mode, AccelMode::Frame);
    assert_eq!(
        D3Settings::from_bits_mac(&[0, 0, 0, 0, 0, 0, 0, 0, 0, 0, 1, 7]).err(),
        Some(SettingsError::UnexpectedBytes { first: 11, last: 11 }),
    );
    let win = D3Settings::from_bits_win(&[4, 1, 0, 1, 0, 5]).unwrap();
    assert_eq!(win.num_movies, 0x104);
    assert!(win.full_screen && win.loop_playback && win.use_external_files && win.hide_desktop);
    assert_eq!(win.platform, Platform::Win(WinVersion::Win3));
}

#[test]
fn d6_settings() {
    let mac = D6Settings::from_bits_mac(&[0, 0, 1, 1, 0, 0, 0x27, 2, 0, 1, 0, 1], Version::D6).unwrap();
    assert!(mac.compressed && mac.full_screen && mac.has_xtras == false);
    assert!(mac.play_every_movie && mac.play_in_background && mac.center_stage_on_screen && mac.resize_stage);
    assert!(mac.has_extended_data_fork);
    assert_eq!(mac.platform, Platform::Mac(MacCPU(2)));
    assert_eq!(
        D6Settings::from_bits_mac(&[0, 0, 0, 0, 0, 0, 0, 0, 0, 0, 0, 0], Version::D6).err(),
        Some(SettingsError::UnexpectedBytes { first: 6, last: 6 }),
    );
    assert_eq!(
        D6Settings::from_bits_mac(&[0, 1, 0, 0, 0, 0, 0, 0, 0, 0, 0, 4], Version::D4).err(),
        Some(SettingsError::UnexpectedBytes { first: 0, last: 1 }),
    );
    let win = D6Settings::from_bits_win(&[0x23, 0, 0, 0, 0x0f, 0, 0, 0, 0, 0, 0, 0], Version::D6, Platform::Win(WinVersion::Win95)).unwrap();
    assert!(win.compressed && win.full_screen && win.show_title_bar && win.resize_stage);
    assert_eq!(win.platform, Platform::Win(WinVersion::Win95));
    assert_eq!(
        D6Settings::from_bits_win(&[0x10, 0, 0, 0, 0, 1, 0, 0, 0, 0, 0, 0], Version::D5, Platform::Win(WinVersion::Win3)).err(),
        Some(SettingsError::UnexpectedBytes { first: 5, last: 11 }),
    );
}

#[test]
fn settings_from_any_version() {
    let s = ProjectorSettings::read(&[0, 0, 0, 0, 1, 0, 0, 5, 0, 0, 3, 0], Version::D3, Platform::Mac(MacCPU(3))).unwrap();
    assert!(s.use_external_files());
    assert_eq!(s.num_movies(), 5);
    assert!(!s.has_extended_data_fork());
    assert_eq!(s.platform(), Platform::Mac(MacCPU(1)));
    let s = ProjectorSettings::read(&[0x08, 0, 0, 0, 0, 0, 0, 0, 0x80, 2, 0xe0, 1], Version::D4, Platform::Win(WinVersion::Win3)).unwrap();
    assert!(s.full_screen);
    assert_eq!(s.num_movies(), 0);
    assert_eq!(MacCPU::from_bits(3), Some(MacCPU(3)));
    assert_eq!(MacCPU::from_bits(4), None);
}

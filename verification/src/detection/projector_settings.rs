//! The settings stored in a projector.

use super::projector::{MacCPU, Platform, WinVersion, ANY_CPU, M68K};
use super::Version;
use vstd::prelude::*;

verus! {

/// Why projector settings could not be read.
#[derive(Clone, Copy, Debug, PartialEq, Eq, Structural)]
pub enum SettingsError {
    /// The bytes from `first` to `last` hold values that no known projector
    /// writes.
    UnexpectedBytes { first: u8, last: u8 },
    /// An unknown accelerator loading strategy.
    UnknownAccelMode(u8),
    /// An unknown Macintosh processor kind.
    UnknownCpu(u8),
}

/// The strategy used when an accelerator does not fit in memory.
#[derive(Clone, Copy, Debug, PartialEq, Eq, Structural)]
pub enum AccelMode {
    /// Play only the part of the accelerator which fits in memory.
    FillMemory,
    /// Load into memory frame by frame.
    Frame,
    /// Load into memory in chunks.
    Chunk,
}

/// The settings of a projector, whatever its version.
#[derive(Clone, Copy, Debug, PartialEq, Eq, Structural)]
pub struct ProjectorSettings {
    /// Resize the stage when a new movie plays.
    pub resize_stage: bool,
    /// Change the system colour depth.
    pub switch_color_depth: bool,
    /// The platform the projector was made for.
    pub platform: Platform,
    /// Run in full screen mode.
    pub full_screen: bool,
    /// Loop the movies (Director 3 only).
    pub loop_playback: bool,
    /// Wait for a click before playing (Director 3 only).
    pub wait_for_click: bool,
    /// The movies are files beside the projector (Director 3 only).
    pub use_external_files: bool,
    /// The number of movies (Director 3 only).
    pub num_movies: u16,
    /// The data fork starts with a header that locates the movies.
    pub has_extended_data_fork: bool,
    /// Centre the stage on the screen.
    pub center_stage_on_screen: bool,
    /// Play every movie of the playlist in turn.
    pub play_every_movie: bool,
    /// The projector was made with duplicated cast members (Director 5 only).
    pub duplicate_cast: bool,
    /// The movie is compressed (Director 6 on).
    pub compressed: bool,
    /// Movie Xtras were added (Director 6 on).
    pub has_xtras: bool,
    /// Network Xtras were added (Director 6 on).
    pub has_network_xtras: bool,
}

/// The settings of a Director 3 projector.
#[derive(Clone, Copy, Debug, PartialEq, Eq, Structural)]
pub struct D3Settings {
    pub resize_stage: bool,
    pub switch_color_depth: bool,
    pub platform: Platform,
    pub full_screen: bool,
    pub loop_playback: bool,
    pub use_external_files: bool,
    pub num_movies: u16,
    /// Mac only.
    pub wait_for_click: bool,
    /// Mac only.
    pub accel_mode: AccelMode,
    /// Windows only.
    pub hide_desktop: bool,
}

/// The settings of a Director 4 to 6 projector.
#[derive(Clone, Copy, Debug, PartialEq, Eq, Structural)]
pub struct D6Settings {
    pub resize_stage: bool,
    pub switch_color_depth: bool,
    pub platform: Platform,
    pub full_screen: bool,
    pub center_stage_on_screen: bool,
    pub play_every_movie: bool,
    pub play_in_background: bool,
    /// Windows only.
    pub show_title_bar: bool,
    pub has_extended_data_fork: bool,
    pub duplicate_cast: bool,
    pub compressed: bool,
    pub has_xtras: bool,
    pub has_network_xtras: bool,
}

/// The unexpected-bytes error for the given range.
pub open spec fn unexpected(first: u8, last: u8) -> SettingsError {
    SettingsError::UnexpectedBytes { first, last }
}

/// Whether bit mask `m` is set in `b`.
pub open spec fn flag(b: u8, m: u8) -> bool {
    b & m != 0
}

/// The Director 3 Macintosh settings stored in `bits`.
pub open spec fn spec_d3_mac(bits: Seq<u8>) -> Result<D3Settings, SettingsError> {
    if bits[11] != 0 {
        Err(unexpected(11, 11))
    } else if !(1 <= bits[10] <= 3) {
        Err(SettingsError::UnknownAccelMode(bits[10]))
    } else {
        Ok(D3Settings {
            resize_stage: flag(bits[2], 1),
            switch_color_depth: flag(bits[3], 1),
            platform: Platform::Mac(MacCPU(M68K)),
            full_screen: false,
            loop_playback: flag(bits[1], 1),
            use_external_files: flag(bits[4], 1),
            num_movies: (bits[6] * 256 + bits[7]) as u16,
            wait_for_click: !flag(bits[5], 1),
            accel_mode: if bits[10] == 1 {
                AccelMode::FillMemory
            } else if bits[10] == 2 {
                AccelMode::Frame
            } else {
                AccelMode::Chunk
            },
            hide_desktop: false,
        })
    }
}

/// The Director 3 Windows settings stored in `bits`.
pub open spec fn spec_d3_win(bits: Seq<u8>) -> D3Settings {
    D3Settings {
        resize_stage: false,
        switch_color_depth: false,
        full_screen: !flag(bits[2], 1),
        platform: Platform::Win(WinVersion::Win3),
        loop_playback: flag(bits[3], 1),
        use_external_files: flag(bits[5], 1),
        num_movies: (bits[1] * 256 + bits[0]) as u16,
        hide_desktop: flag(bits[5], 4),
        wait_for_click: false,
        accel_mode: AccelMode::Chunk,
    }
}

impl D3Settings {
    /// Reads the settings of a Director 3 Macintosh projector.
    pub fn from_bits_mac(bits: &[u8]) -> (r: Result<Self, SettingsError>)
        requires
            bits.len() >= 12,
        ensures
            r == spec_d3_mac(bits@),
    {
        if bits[11] != 0 {
            return Err(SettingsError::UnexpectedBytes { first: 11, last: 11 });
        }
        let accel_mode = match bits[10] {
            1 => AccelMode::FillMemory,
            2 => AccelMode::Frame,
            3 => AccelMode::Chunk,
            mode => return Err(SettingsError::UnknownAccelMode(mode)),
        };
        Ok(D3Settings {
            resize_stage: bits[2] & 1 != 0,
            switch_color_depth: bits[3] & 1 != 0,
            platform: Platform::Mac(MacCPU(M68K)),
            full_screen: false,
            loop_playback: bits[1] & 1 != 0,
            use_external_files: bits[4] & 1 != 0,
            num_movies: bits[6] as u16 * 256 + bits[7] as u16,
            wait_for_click: bits[5] & 1 == 0,
            accel_mode,
            hide_desktop: false,
        })
    }

    /// Reads the settings of a Director 3 Windows projector.
    pub fn from_bits_win(bits: &[u8]) -> (r: Result<Self, SettingsError>)
        requires
            bits.len() >= 6,
        ensures
            r == Ok::<D3Settings, SettingsError>(spec_d3_win(bits@)),
    {
        Ok(D3Settings {
            resize_stage: false,
            switch_color_depth: false,
            full_screen: bits[2] & 1 == 0,
            platform: Platform::Win(WinVersion::Win3),
            loop_playback: bits[3] & 1 != 0,
            use_external_files: bits[5] & 1 != 0,
            num_movies: bits[1] as u16 * 256 + bits[0] as u16,
            hide_desktop: bits[5] & 4 != 0,
            wait_for_click: false,
            accel_mode: AccelMode::Chunk,
        })
    }
}

/// The Director 4 to 6 Macintosh settings stored in `bits`.
pub open spec fn spec_d6_mac(bits: Seq<u8>, version: Version) -> Result<D6Settings, SettingsError> {
    if bits[0] != 0 || bits[1] != 0 {
        Err(unexpected(0, 1))
    } else if bits[4] != 0 || bits[5] != 0 {
        Err(unexpected(4, 5))
    } else if bits[8] != 0 {
        Err(unexpected(8, 8))
    } else if version == Version::D4 && !flag(bits[11], 4) {
        Err(unexpected(11, 11))
    } else if version == Version::D6 && bits[6] & 0x24 != 0x24 {
        Err(unexpected(6, 6))
    } else if bits[7] != 0 && bits[7] & !ANY_CPU != 0 {
        Err(SettingsError::UnknownCpu(bits[7]))
    } else {
        Ok(D6Settings {
            resize_stage: flag(bits[11], 1),
            switch_color_depth: flag(bits[10], 0x40),
            center_stage_on_screen: flag(bits[9], 1),
            play_every_movie: flag(bits[3], 1),
            play_in_background: flag(bits[2], 1),
            show_title_bar: false,
            platform: Platform::Mac(if bits[7] == 0 { MacCPU(M68K) } else { MacCPU(bits[7]) }),
            has_extended_data_fork: bits[7] != 0,
            full_screen: version != Version::D4 && flag(bits[6], 2),
            duplicate_cast: version == Version::D5 && flag(bits[6], 1),
            compressed: version == Version::D6 && flag(bits[6], 1),
            has_xtras: version == Version::D6 && flag(bits[6], 0x80),
            has_network_xtras: version == Version::D6 && flag(bits[6], 0x40),
        })
    }
}

/// Director 5 and 6 Mac settings: the full-screen flag is bit 0x02 of
/// byte 6 (Director 4 has none). Director 5 keeps its duplicate-cast flag in
/// bit 0x01 of that byte, where Director 6 keeps its compression flag, and
/// Director 6 keeps its Xtras flags in bits 0x80 and 0x40. Settings whose
/// reserved bytes are zero and whose processor byte names known processors
/// are read without error.
pub proof fn lemma_d6_mac_flags(bits: Seq<u8>, version: Version)
    requires
        bits.len() >= 12,
        version == Version::D4 || version == Version::D5 || version == Version::D6,
    ensures
        spec_d6_mac(bits, version) matches Ok(s) ==> {
            &&& s.full_screen == (version != Version::D4 && bits[6] & 2 != 0)
            &&& s.duplicate_cast == (version == Version::D5 && bits[6] & 1 != 0)
            &&& s.compressed == (version == Version::D6 && bits[6] & 1 != 0)
            &&& s.has_xtras == (version == Version::D6 && bits[6] & 0x80 != 0)
            &&& s.has_network_xtras == (version == Version::D6 && bits[6] & 0x40 != 0)
            &&& s.play_in_background == (bits[2] & 1 != 0)
            &&& s.play_every_movie == (bits[3] & 1 != 0)
        },
        version == Version::D5 && bits[0] == 0 && bits[1] == 0 && bits[4] == 0 && bits[5] == 0 && bits[8] == 0
            && bits[7] & !ANY_CPU == 0 ==> spec_d6_mac(bits, version) is Ok,
{
}

/// The Director 4 to 6 Windows settings stored in `bits`.
pub open spec fn spec_d6_win(bits: Seq<u8>, version: Version, platform: Platform) -> Result<D6Settings, SettingsError> {
    if version == Version::D4 && (bits[1] != 0 || bits[2] != 0 || bits[3] != 0) {
        Err(unexpected(1, 3))
    } else if version == Version::D4 && !(bits[6] == 0 && bits[7] == 0 && bits[8] == 0x80 && bits[9] == 2
        && bits[10] == 0xe0 && bits[11] == 1) {
        Err(unexpected(6, 11))
    } else if version == Version::D5 && !flag(bits[0], 0x10) {
        Err(unexpected(0, 0))
    } else if version == Version::D5 && (bits[1] != 0 || bits[2] != 0 || bits[3] != 0) {
        Err(unexpected(1, 3))
    } else if version == Version::D6 && !flag(bits[0], 0x20) {
        Err(unexpected(0, 0))
    } else if version != Version::D4 && (exists|i: int| 5 <= i <= 11 && #[trigger] bits[i] != 0) {
        Err(unexpected(5, 11))
    } else if version == Version::D4 {
        Ok(D6Settings {
            resize_stage: flag(bits[0], 4),
            switch_color_depth: false,
            full_screen: flag(bits[0], 8),
            platform: Platform::Win(WinVersion::Win3),
            center_stage_on_screen: true,
            play_every_movie: flag(bits[0], 1),
            play_in_background: flag(bits[0], 2),
            has_extended_data_fork: false,
            show_title_bar: flag(bits[0], 0x10),
            duplicate_cast: false,
            compressed: false,
            has_xtras: false,
            has_network_xtras: false,
        })
    } else {
        Ok(D6Settings {
            resize_stage: flag(bits[4], 4),
            switch_color_depth: false,
            full_screen: flag(bits[0], 2),
            platform,
            center_stage_on_screen: true,
            play_every_movie: flag(bits[4], 1),
            play_in_background: flag(bits[4], 2),
            has_extended_data_fork: false,
            show_title_bar: flag(bits[4], 8),
            duplicate_cast: version == Version::D5 && flag(bits[0], 1),
            compressed: version == Version::D6 && flag(bits[0], 1),
            has_xtras: version == Version::D6 && flag(bits[0], 0x80),
            has_network_xtras: version == Version::D6 && flag(bits[0], 0x40),
        })
    }
}

/// Whether the bytes from `first` to `last` are all zero.
fn all_zero(bits: &[u8], first: usize, last: usize) -> (r: bool)
    requires
        first <= last < bits.len(),
    ensures
        r == forall|i: int| first <= i <= last ==> #[trigger] bits@[i] == 0,
{
    let mut i = first;
    while i <= last
        invariant
            first <= i <= last + 1,
            last < bits.len(),
            forall|k: int| first <= k < i ==> #[trigger] bits@[k] == 0,
        decreases last + 1 - i,
    {
        if bits[i] != 0 {
            return false;
        }
        i = i + 1;
    }
    true
}

impl D6Settings {
    /// Reads the settings of a Director 4 to 6 Macintosh projector.
    pub fn from_bits_mac(bits: &[u8], version: Version) -> (r: Result<Self, SettingsError>)
        requires
            bits.len() >= 12,
            version == Version::D4 || version == Version::D5 || version == Version::D6,
        ensures
            r == spec_d6_mac(bits@, version),
    {
        if bits[0] != 0 || bits[1] != 0 {
            return Err(SettingsError::UnexpectedBytes { first: 0, last: 1 });
        }
        if bits[4] != 0 || bits[5] != 0 {
            return Err(SettingsError::UnexpectedBytes { first: 4, last: 5 });
        }
        if bits[8] != 0 {
            return Err(SettingsError::UnexpectedBytes { first: 8, last: 8 });
        }
        match version {
            Version::D4 => {
                if bits[11] & 4 == 0 {
                    return Err(SettingsError::UnexpectedBytes { first: 11, last: 11 });
                }
            },
            Version::D6 => {
                if bits[6] & 0x24 != 0x24 {
                    return Err(SettingsError::UnexpectedBytes { first: 6, last: 6 });
                }
            },
            _ => {},
        }
        let cpu = if bits[7] == 0 {
            MacCPU(M68K)
        } else {
            match MacCPU::from_bits(bits[7]) {
                Some(cpu) => cpu,
                None => return Err(SettingsError::UnknownCpu(bits[7])),
            }
        };
        let full_screen;
        let duplicate_cast;
        let compressed;
        let has_xtras;
        let has_network_xtras;
        match version {
            Version::D4 => {
                full_screen = false;
                duplicate_cast = false;
                compressed = false;
                has_xtras = false;
                has_network_xtras = false;
            },
            Version::D5 => {
                full_screen = bits[6] & 2 != 0;
                duplicate_cast = bits[6] & 1 != 0;
                compressed = false;
                has_xtras = false;
                has_network_xtras = false;
            },
            _ => {
                full_screen = bits[6] & 2 != 0;
                duplicate_cast = false;
                compressed = bits[6] & 1 != 0;
                has_xtras = bits[6] & 0x80 != 0;
                has_network_xtras = bits[6] & 0x40 != 0;
            },
        }
        Ok(D6Settings {
            resize_stage: bits[11] & 1 != 0,
            switch_color_depth: bits[10] & 0x40 != 0,
            platform: Platform::Mac(cpu),
            full_screen,
            center_stage_on_screen: bits[9] & 1 != 0,
            play_every_movie: bits[3] & 1 != 0,
            play_in_background: bits[2] & 1 != 0,
            has_extended_data_fork: bits[7] != 0,
            show_title_bar: false,
            duplicate_cast,
            compressed,
            has_xtras,
            has_network_xtras,
        })
    }

    /// Reads the settings of a Director 4 to 6 Windows projector.
    pub fn from_bits_win(bits: &[u8], version: Version, platform: Platform) -> (r: Result<Self, SettingsError>)
        requires
            bits.len() >= 12,
            version == Version::D4 || version == Version::D5 || version == Version::D6,
        ensures
            r == spec_d6_win(bits@, version, platform),
    {
        match version {
            Version::D4 => {
                if !all_zero(bits, 1, 3) {
                    return Err(SettingsError::UnexpectedBytes { first: 1, last: 3 });
                }
                if !(bits[6] == 0 && bits[7] == 0 && bits[8] == 0x80 && bits[9] == 2 && bits[10] == 0xe0
                    && bits[11] == 1) {
                    return Err(SettingsError::UnexpectedBytes { first: 6, last: 11 });
                }
            },
            Version::D5 => {
                if bits[0] & 0x10 == 0 {
                    return Err(SettingsError::UnexpectedBytes { first: 0, last: 0 });
                }
                if !all_zero(bits, 1, 3) {
                    return Err(SettingsError::UnexpectedBytes { first: 1, last: 3 });
                }
                if !all_zero(bits, 5, 11) {
                    return Err(SettingsError::UnexpectedBytes { first: 5, last: 11 });
                }
            },
            _ => {
                if bits[0] & 0x20 == 0 {
                    return Err(SettingsError::UnexpectedBytes { first: 0, last: 0 });
                }
                if !all_zero(bits, 5, 11) {
                    return Err(SettingsError::UnexpectedBytes { first: 5, last: 11 });
                }
            },
        }
        if version == Version::D4 {
            Ok(D6Settings {
                resize_stage: bits[0] & 4 != 0,
                switch_color_depth: false,
                full_screen: bits[0] & 8 != 0,
                platform: Platform::Win(WinVersion::Win3),
                center_stage_on_screen: true,
                play_every_movie: bits[0] & 1 != 0,
                play_in_background: bits[0] & 2 != 0,
                has_extended_data_fork: false,
                show_title_bar: bits[0] & 0x10 != 0,
                duplicate_cast: false,
                compressed: false,
                has_xtras: false,
                has_network_xtras: false,
            })
        } else {
            let d5 = version == Version::D5;
            Ok(D6Settings {
                resize_stage: bits[4] & 4 != 0,
                switch_color_depth: false,
                full_screen: bits[0] & 2 != 0,
                platform,
                center_stage_on_screen: true,
                play_every_movie: bits[4] & 1 != 0,
                play_in_background: bits[4] & 2 != 0,
                has_extended_data_fork: false,
                show_title_bar: bits[4] & 8 != 0,
                duplicate_cast: d5 && bits[0] & 1 != 0,
                compressed: !d5 && bits[0] & 1 != 0,
                has_xtras: !d5 && bits[0] & 0x80 != 0,
                has_network_xtras: !d5 && bits[0] & 0x40 != 0,
            })
        }
    }
}

/// The common settings of a Director 3 projector.
pub open spec fn spec_settings_from_d3(other: D3Settings) -> ProjectorSettings {
    ProjectorSettings {
        resize_stage: other.resize_stage,
        switch_color_depth: other.switch_color_depth,
        platform: other.platform,
        full_screen: other.full_screen,
        loop_playback: other.loop_playback,
        use_external_files: other.use_external_files,
        num_movies: other.num_movies,
        wait_for_click: other.wait_for_click,
        has_extended_data_fork: false,
        center_stage_on_screen: false,
        play_every_movie: true,
        duplicate_cast: false,
        compressed: false,
        has_xtras: false,
        has_network_xtras: false,
    }
}

/// The common settings of a Director 4 to 6 projector.
pub open spec fn spec_settings_from_d6(other: D6Settings) -> ProjectorSettings {
    ProjectorSettings {
        resize_stage: other.resize_stage,
        switch_color_depth: other.switch_color_depth,
        platform: other.platform,
        full_screen: other.full_screen,
        loop_playback: false,
        use_external_files: false,
        num_movies: 0,
        wait_for_click: false,
        has_extended_data_fork: other.has_extended_data_fork,
        center_stage_on_screen: other.center_stage_on_screen,
        play_every_movie: other.play_every_movie,
        duplicate_cast: other.duplicate_cast,
        compressed: other.compressed,
        has_xtras: other.has_xtras,
        has_network_xtras: other.has_network_xtras,
    }
}

impl From<D3Settings> for ProjectorSettings {
    fn from(other: D3Settings) -> (r: Self) {
        ProjectorSettings {
            resize_stage: other.resize_stage,
            switch_color_depth: other.switch_color_depth,
            platform: other.platform,
            full_screen: other.full_screen,
            loop_playback: other.loop_playback,
            use_external_files: other.use_external_files,
            num_movies: other.num_movies,
            wait_for_click: other.wait_for_click,
            has_extended_data_fork: false,
            center_stage_on_screen: false,
            play_every_movie: true,
            duplicate_cast: false,
            compressed: false,
            has_xtras: false,
            has_network_xtras: false,
        }
    }
}

impl vstd::std_specs::convert::FromSpecImpl<D3Settings> for ProjectorSettings {
    open spec fn obeys_from_spec() -> bool {
        true
    }

    open spec fn from_spec(other: D3Settings) -> Self {
        spec_settings_from_d3(other)
    }
}

impl From<D6Settings> for ProjectorSettings {
    fn from(other: D6Settings) -> (r: Self) {
        ProjectorSettings {
            resize_stage: other.resize_stage,
            switch_color_depth: other.switch_color_depth,
            platform: other.platform,
            full_screen: other.full_screen,
            loop_playback: false,
            use_external_files: false,
            num_movies: 0,
            wait_for_click: false,
            has_extended_data_fork: other.has_extended_data_fork,
            center_stage_on_screen: other.center_stage_on_screen,
            play_every_movie: other.play_every_movie,
            duplicate_cast: other.duplicate_cast,
            compressed: other.compressed,
            has_xtras: other.has_xtras,
            has_network_xtras: other.has_network_xtras,
        }
    }
}

impl vstd::std_specs::convert::FromSpecImpl<D6Settings> for ProjectorSettings {
    open spec fn obeys_from_spec() -> bool {
        true
    }

    open spec fn from_spec(other: D6Settings) -> Self {
        spec_settings_from_d6(other)
    }
}

/// The smallest number of settings bytes that the given version and
/// platform read.
pub open spec fn spec_settings_min_len(version: Version, platform: Platform) -> int {
    if version == Version::D3 && platform is Win { 6 } else { 12 }
}

/// The projector settings stored in `bits`.
pub open spec fn spec_projector_settings(bits: Seq<u8>, version: Version, platform: Platform) -> Result<ProjectorSettings, SettingsError> {
    if version == Version::D3 {
        if platform is Mac {
            match spec_d3_mac(bits) {
                Ok(s) => Ok(spec_settings_from_d3(s)),
                Err(e) => Err(e),
            }
        } else {
            Ok(spec_settings_from_d3(spec_d3_win(bits)))
        }
    } else {
        match if platform is Win { spec_d6_win(bits, version, platform) } else { spec_d6_mac(bits, version) } {
            Ok(s) => Ok(spec_settings_from_d6(s)),
            Err(e) => Err(e),
        }
    }
}

impl ProjectorSettings {
    /// Reads projector settings of the given version made for the given
    /// platform.
    pub fn read(bits: &[u8], version: Version, platform: Platform) -> (r: Result<Self, SettingsError>)
        requires
            version != Version::D7,
            bits.len() >= spec_settings_min_len(version, platform),
        ensures
            r == spec_projector_settings(bits@, version, platform),
    {
        if version == Version::D3 {
            if let Platform::Mac(..) = platform {
                match D3Settings::from_bits_mac(bits) {
                    Ok(s) => Ok(ProjectorSettings::from(s)),
                    Err(e) => Err(e),
                }
            } else {
                match D3Settings::from_bits_win(bits) {
                    Ok(s) => Ok(ProjectorSettings::from(s)),
                    Err(e) => Err(e),
                }
            }
        } else {
            let settings = match platform {
                Platform::Win(..) => D6Settings::from_bits_win(bits, version, platform),
                Platform::Mac(..) => D6Settings::from_bits_mac(bits, version),
            };
            match settings {
                Ok(s) => Ok(ProjectorSettings::from(s)),
                Err(e) => Err(e),
            }
        }
    }

    /// Whether the data fork starts with a header that locates the movies.
    pub fn has_extended_data_fork(&self) -> (r: bool)
        ensures
            r == self.has_extended_data_fork,
    {
        self.has_extended_data_fork
    }

    /// The number of movies.
    pub fn num_movies(&self) -> (r: u16)
        ensures
            r == self.num_movies,
    {
        self.num_movies
    }

    /// The platform the projector was made for.
    pub fn platform(&self) -> (r: Platform)
        ensures
            r == self.platform,
    {
        self.platform
    }

    /// Whether the movies are files beside the projector.
    pub fn use_external_files(&self) -> (r: bool)
        ensures
            r == self.use_external_files,
    {
        self.use_external_files
    }
}

} // verus!

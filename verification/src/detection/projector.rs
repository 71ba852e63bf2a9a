//! Director projectors: the player applications that movies are packaged
//! into.

use bstr::ByteSlice;
use crate::bytes::{be_u16_at, be_u32_at, le_u16_at, le_u32_at, read_be_u16, read_be_u32, read_le_u16, read_le_u32};
use crate::collections::riff::{detect as detect_riff, detect_is_defined, spec_detect as spec_detect_riff, spec_detect_defined, Error as RiffError};
use super::projector_settings::{spec_projector_settings, ProjectorSettings, SettingsError};
use crate::collections::riff::ResourceId;
use crate::resource_fork::{read_string_list, spec_find, spec_string_list, ResourceFork};
use super::pe::{read_product_name, spec_product_units};
use crate::string::utf16_lossy;
use super::Version;
use vstd::prelude::*;

verus! {

/// A set of Macintosh processor kinds.
#[derive(Clone, Copy, Debug, PartialEq, Eq, Structural)]
pub struct MacCPU(pub u8);

/// The Motorola 68000 family.
pub const M68K: u8 = 1;
/// The PowerPC family.
pub const PPC: u8 = 2;
/// Either family.
pub const ANY_CPU: u8 = 3;

impl MacCPU {
    /// The set of processor kinds with the given bits, if every bit names a
    /// kind.
    pub fn from_bits(bits: u8) -> (r: Option<MacCPU>)
        ensures
            r == if bits & !ANY_CPU == 0 { Some(MacCPU(bits)) } else { None::<MacCPU> },
    {
        if bits & !ANY_CPU == 0 { Some(MacCPU(bits)) } else { None }
    }

    /// The name of the processor kinds in the set, which is not empty.
    pub fn to_string(&self) -> (r: String)
        requires
            M68K <= self.0 <= ANY_CPU,
        ensures
            r@ == mac_cpu_text(*self),
    {
        if self.0 == M68K {
            "68000".to_owned()
        } else if self.0 == PPC {
            "PowerPC".to_owned()
        } else {
            "68000/PowerPC".to_owned()
        }
    }
}

/// The name of a set of processor kinds.
pub open spec fn mac_cpu_text(cpu: MacCPU) -> Seq<char> {
    if cpu.0 == M68K {
        "68000"@
    } else if cpu.0 == PPC {
        "PowerPC"@
    } else {
        "68000/PowerPC"@
    }
}

/// The version of Windows a projector was made for.
#[derive(Clone, Copy, Debug, PartialEq, Eq, Structural)]
pub enum WinVersion {
    Win3,
    Win95,
}

/// The platform a projector was made for.
#[derive(Clone, Copy, Debug, PartialEq, Eq, Structural)]
pub enum Platform {
    Mac(MacCPU),
    Win(WinVersion),
}

/// The name of a platform.
pub open spec fn platform_text(platform: Platform) -> Seq<char> {
    match platform {
        Platform::Mac(cpu) => "Mac "@ + mac_cpu_text(cpu),
        Platform::Win(WinVersion::Win3) => "Windows 3"@,
        Platform::Win(WinVersion::Win95) => "Windows 95"@,
    }
}

impl Platform {
    /// The name of the platform; a Mac platform names a non-empty set of
    /// processor kinds.
    pub fn to_string(&self) -> (r: String)
        requires
            self matches Platform::Mac(cpu) ==> M68K <= cpu.0 <= ANY_CPU,
        ensures
            r@ == platform_text(*self),
    {
        match self {
            Platform::Mac(cpu) => {
                proof {
                    reveal_strlit("Mac 68000");
                    reveal_strlit("Mac PowerPC");
                    reveal_strlit("Mac 68000/PowerPC");
                    reveal_strlit("Mac ");
                    reveal_strlit("68000");
                    reveal_strlit("PowerPC");
                    reveal_strlit("68000/PowerPC");
                }
                if cpu.0 == M68K {
                    let r = "Mac 68000".to_owned();
                    assert(r@ =~= platform_text(*self));
                    r
                } else if cpu.0 == PPC {
                    let r = "Mac PowerPC".to_owned();
                    assert(r@ =~= platform_text(*self));
                    r
                } else {
                    let r = "Mac 68000/PowerPC".to_owned();
                    assert(r@ =~= platform_text(*self));
                    r
                }
            },
            Platform::Win(WinVersion::Win3) => "Windows 3".to_owned(),
            Platform::Win(WinVersion::Win95) => "Windows 95".to_owned(),
        }
    }
}


/// A string in a Macintosh character set, or decoded text.
#[derive(Clone, Debug)]
pub enum MacString {
    /// Bytes in the character set of the system that wrote them.
    Raw(Vec<u8>),
    /// Decoded text.
    Decoded(String),
}

/// A string in a Macintosh character set, or decoded text, as values.
pub enum MacStringView {
    Raw(Seq<u8>),
    Decoded(Seq<char>),
}

impl View for MacString {
    type V = MacStringView;

    open spec fn view(&self) -> MacStringView {
        match self {
            MacString::Raw(bytes) => MacStringView::Raw(bytes@),
            MacString::Decoded(text) => MacStringView::Decoded(text@),
        }
    }
}

/// A Macintosh script system, which decides a character set.
#[derive(Clone, Copy, Debug, PartialEq, Eq, Structural)]
pub struct ScriptCode(pub i16);

/// A movie embedded in a Director 3 Windows projector.
#[derive(Clone, Debug)]
pub struct D3WinMovie {
    pub filename: MacString,
    pub offset: u32,
    pub size: u32,
}

/// A movie embedded in a Director 3 Windows projector, as values.
pub struct D3WinMovieView {
    pub filename: MacStringView,
    pub offset: u32,
    pub size: u32,
}

impl View for D3WinMovie {
    type V = D3WinMovieView;

    open spec fn view(&self) -> D3WinMovieView {
        D3WinMovieView { filename: self.filename@, offset: self.offset, size: self.size }
    }
}

/// Where the movies of a projector are.
#[derive(Clone, Debug)]
pub enum Movie {
    /// The number of movies embedded as resources in a Director 3 Mac
    /// projector.
    Embedded(u16),
    /// Movies embedded in a Director 3 Windows projector.
    D3Win(Vec<D3WinMovie>),
    /// The offset of a RIFF container embedded in a Director 4+ projector.
    Internal(u32),
    /// External movies referenced by a Director 3 projector.
    External(Vec<MacString>),
}

/// Where the movies of a projector are, as values.
pub enum MovieView {
    Embedded(u16),
    D3Win(Seq<D3WinMovieView>),
    Internal(u32),
    External(Seq<MacStringView>),
}

impl View for Movie {
    type V = MovieView;

    open spec fn view(&self) -> MovieView {
        match self {
            Movie::Embedded(n) => MovieView::Embedded(*n),
            Movie::D3Win(movies) => MovieView::D3Win(Seq::new(movies@.len(), |i: int| movies@[i]@)),
            Movie::Internal(offset) => MovieView::Internal(*offset),
            Movie::External(names) => MovieView::External(Seq::new(names@.len(), |i: int| names@[i]@)),
        }
    }
}

/// What detection found out about a projector.
#[derive(Clone, Debug)]
pub struct DetectionInfo {
    name: Option<MacString>,
    charset: Option<ScriptCode>,
    version: Version,
    movie: Movie,
    system_resources: Option<Vec<u8>>,
    config: ProjectorSettings,
}

/// What detection found out about a projector, as values.
pub struct DetectionInfoView {
    pub name: Option<MacStringView>,
    pub charset: Option<ScriptCode>,
    pub version: Version,
    pub movie: MovieView,
    pub system_resources: Option<Seq<u8>>,
    pub config: ProjectorSettings,
}

/// The view of an optional string.
pub open spec fn opt_string_view(s: Option<MacString>) -> Option<MacStringView> {
    match s {
        Some(s) => Some(s@),
        None => None,
    }
}

/// The view of optional bytes.
pub open spec fn opt_bytes_view(b: Option<Vec<u8>>) -> Option<Seq<u8>> {
    match b {
        Some(b) => Some(b@),
        None => None,
    }
}

impl View for DetectionInfo {
    type V = DetectionInfoView;

    closed spec fn view(&self) -> DetectionInfoView {
        DetectionInfoView {
            name: opt_string_view(self.name),
            charset: self.charset,
            version: self.version,
            movie: self.movie@,
            system_resources: opt_bytes_view(self.system_resources),
            config: self.config,
        }
    }
}

impl DetectionInfo {
    /// The projector settings.
    pub fn config(&self) -> (r: &ProjectorSettings)
        ensures
            *r == self@.config,
    {
        &self.config
    }

    /// The character set of the projector's strings, where known.
    pub fn charset(&self) -> (r: Option<ScriptCode>)
        ensures
            r == self@.charset,
    {
        self.charset
    }

    /// Whether the movies are resources of a Director 3 Mac projector.
    pub fn is_mac_embedded(&self) -> (r: bool)
        ensures
            r == (self@.movie is Embedded),
    {
        match self.movie {
            Movie::Embedded(_) => true,
            _ => false,
        }
    }

    /// Where the movies are.
    pub fn movie(&self) -> (r: &Movie)
        ensures
            r@ == self@.movie,
    {
        &self.movie
    }

    /// The name of the projector, where it has one.
    pub fn name(&self) -> (r: Option<&MacString>)
        ensures
            match r {
                Some(s) => self@.name == Some(s@),
                None => self@.name is None,
            },
    {
        match &self.name {
            Some(s) => Some(s),
            None => None,
        }
    }

    /// The system resources that the projector carries, where it has them.
    pub fn system_resources(&self) -> (r: Option<&Vec<u8>>)
        ensures
            match r {
                Some(b) => self@.system_resources == Some(b@),
                None => self@.system_resources is None,
            },
    {
        match &self.system_resources {
            Some(b) => Some(b),
            None => None,
        }
    }

    /// The Director version that made the projector.
    pub fn version(&self) -> (r: Version)
        ensures
            r == self@.version,
    {
        self.version
    }
}

/// Why a projector could not be recognised.
#[derive(Clone, Copy, Debug, PartialEq, Eq, Structural)]
pub enum ProjectorError {
    /// The data ended, or a seek went before its start.
    Io,
    /// The file is not a Windows executable.
    NotWindowsExe,
    /// The Director 3 header checksum is wrong.
    BadChecksum,
    /// A movie offset does not fit in 32 bits.
    OffsetTooLarge,
    /// The system resources are shorter than their recorded size (expected,
    /// read).
    SizeMismatch(u32, u32),
    /// The projector settings are malformed.
    Settings(SettingsError),
    /// The embedded RIFF container is not a Director file.
    Riff(RiffError),
    /// The resource fork has no projector settings.
    NoSettingsResource,
    /// The list of external movies is missing or malformed.
    MissingFileList,
    /// The data fork's version differs from the resource fork's.
    VersionMismatch,
    /// A Director 4+ Mac projector has no data fork.
    NoDataFork,
}

/// The outcome of recognising a projector.
pub enum Detected<T> {
    Done(T),
    Failed(ProjectorError),
    /// Recognition has no defined result here: an arithmetic overflow, or a
    /// version that is not supported.
    Undefined,
}

/// `PJ93`
pub const PJ93: u32 = 0x504a3933;
/// `39JP`
pub const PJ93_LE: u32 = 0x33394a50;
/// `PJ95`
pub const PJ95: u32 = 0x504a3935;
/// `59JP`
pub const PJ95_LE: u32 = 0x35394a50;
/// `PJ97`
pub const PJ97: u32 = 0x504a3937;
/// `79JP`
pub const PJ97_LE: u32 = 0x37394a50;
/// `PJ00`
pub const PJ00: u32 = 0x504a3030;
/// `00JP`
pub const PJ00_LE: u32 = 0x30304a50;

/// The Director version that a data fork version tag names. `PJ97` is used
/// by no known projector.
pub open spec fn spec_data_version(tag: int) -> Option<Version> {
    if tag == PJ93 || tag == PJ93_LE {
        Some(Version::D4)
    } else if tag == PJ95 || tag == PJ95_LE {
        Some(Version::D5)
    } else if tag == PJ00 || tag == PJ00_LE {
        Some(Version::D7)
    } else {
        None
    }
}

/// Whether a version tag is one that detection handles.
pub open spec fn data_version_defined(tag: int) -> bool {
    tag != PJ97 && tag != PJ97_LE
}

/// Whether the version tag at the start of `raw` is one that detection
/// handles: whether `data_version` may be called.
pub fn data_version_is_defined(raw: &[u8]) -> (r: bool)
    requires
        raw.len() >= 4,
    ensures
        r == data_version_defined(be_u32_at(raw@, 0)),
{
    let tag = read_be_u32(raw, 0);
    tag != PJ97 && tag != PJ97_LE
}

/// The Director version that the version tag at the start of `raw` names.
pub fn data_version(raw: &[u8]) -> (r: Option<Version>)
    requires
        raw.len() >= 4,
        data_version_defined(be_u32_at(raw@, 0)),
    ensures
        r == spec_data_version(be_u32_at(raw@, 0)),
{
    let tag = read_be_u32(raw, 0);
    if tag == PJ93 || tag == PJ93_LE {
        Some(Version::D4)
    } else if tag == PJ95 || tag == PJ95_LE {
        Some(Version::D5)
    } else if tag == PJ00 || tag == PJ00_LE {
        Some(Version::D7)
    } else {
        None
    }
}


/// `bytes` with every `needle` byte turned into `replacement`.
pub open spec fn replaced(bytes: Seq<u8>, needle: u8, replacement: u8) -> Seq<u8> {
    bytes.map_values(|b: u8| if b == needle { replacement } else { b })
}

/// A path with every backslash turned into a slash.
pub open spec fn slashes(path: Seq<u8>) -> Seq<u8> {
    replaced(path, 0x5c, 0x2f)
}

/// `ByteSlice::replace` of bstr 0.2 with a one-byte needle and a one-byte
/// replacement: bstr documents that every match of the needle is replaced,
/// so every `needle` byte becomes `replacement` and nothing else changes.
#[verifier::external_body]
fn replace_byte(bytes: &[u8], needle: u8, replacement: u8) -> (r: Vec<u8>)
    ensures
        r@ == replaced(bytes@, needle, replacement),
{
    bytes.replace([needle], [replacement])
}

/// The Pascal string at `p` (a length byte, then the bytes), and the position
/// after it.
pub open spec fn spec_pstring(data: Seq<u8>, p: int) -> Option<(Seq<u8>, int)> {
    if p + 1 > data.len() {
        None
    } else if p + 1 + data[p] > data.len() {
        None
    } else {
        Some((data.subrange(p + 1, p + 1 + data[p]), p + 1 + data[p]))
    }
}

/// Reads the Pascal string at `p`.
fn read_pstring(data: &[u8], p: usize) -> (r: Option<(Vec<u8>, usize)>)
    requires
        p <= data.len(),
    ensures
        match (r, spec_pstring(data@, p as int)) {
            (Some((s, q)), Some((vs, vq))) => s@ == vs && q == vq,
            (None, None) => true,
            _ => false,
        },
{
    if data.len() - p < 1 {
        return None;
    }
    let n = data[p] as usize;
    if data.len() - (p + 1) < n {
        return None;
    }
    let bytes = vstd::slice::slice_to_vec(vstd::slice::slice_subrange(data, p + 1, p + 1 + n));
    Some((bytes, p + 1 + n))
}

/// The kind of Windows executable `data` is, from its `PE` or `NE` header,
/// and, for an `NE` executable, the module description from its non-resident
/// name table.
pub open spec fn spec_exe_info(data: Seq<u8>) -> Result<(WinVersion, Option<Seq<u8>>), ProjectorError> {
    if 0x3e > data.len() {
        Err(ProjectorError::Io)
    } else {
        let eho = le_u16_at(data, 0x3c);
        if eho + 4 > data.len() {
            Err(ProjectorError::Io)
        } else if data[eho] == 0x50 && data[eho + 1] == 0x45 && data[eho + 2] == 0 && data[eho + 3] == 0 {
            Ok((WinVersion::Win95, None))
        } else if data[eho] == 0x4e && data[eho + 1] == 0x45 {
            if eho + 48 > data.len() {
                Err(ProjectorError::Io)
            } else if le_u16_at(data, eho + 32) == 0 {
                Ok((WinVersion::Win3, None))
            } else {
                match spec_pstring(data, le_u32_at(data, eho + 44)) {
                    None => Err(ProjectorError::Io),
                    Some((name, _)) => Ok((WinVersion::Win3, Some(name))),
                }
            }
        } else {
            Err(ProjectorError::NotWindowsExe)
        }
    }
}

/// The name that a projector is given: for a `PE` executable, the product
/// name from its version resource; for an `NE` executable, its module
/// description.
pub open spec fn exe_name(version: WinVersion, ne_name: Option<Seq<u8>>, pe_name: Option<MacStringView>) -> Option<MacStringView> {
    if version == WinVersion::Win95 {
        pe_name
    } else {
        match ne_name {
            Some(name) => Some(MacStringView::Raw(name)),
            None => None,
        }
    }
}

/// The product name that the version resource of a `PE` executable gives,
/// decoded from UTF-16.
pub open spec fn spec_pe_name(data: Seq<u8>) -> Option<MacStringView> {
    match spec_product_units(data, le_u16_at(data, 0x3c) + 4) {
        None => None,
        Some(units) => Some(MacStringView::Decoded(utf16_lossy(units))),
    }
}

/// Reads the executable header of `data`: the kind of executable and its
/// name.
fn get_exe_info(data: &[u8]) -> (r: Result<(WinVersion, Option<MacString>), ProjectorError>)
    ensures
        match (r, spec_exe_info(data@)) {
            (Ok((version, name)), Ok((v, ne_name))) => {
                &&& version == v
                &&& (v == WinVersion::Win3 ==> opt_string_view(name) == exe_name(v, ne_name, None))
                &&& (v == WinVersion::Win95 ==> opt_string_view(name) == spec_pe_name(data@))
            },
            (Err(e), Err(f)) => e == f,
            _ => false,
        },
{
    if data.len() < 0x3e {
        return Err(ProjectorError::Io);
    }
    let eho = read_le_u16(data, 0x3c) as usize;
    if eho > data.len() || data.len() - eho < 4 {
        return Err(ProjectorError::Io);
    }
    if data[eho] == 0x50 && data[eho + 1] == 0x45 && data[eho + 2] == 0 && data[eho + 3] == 0 {
        let name = match read_product_name(data, eho + 4) {
            Some(text) => Some(MacString::Decoded(text)),
            None => None,
        };
        Ok((WinVersion::Win95, name))
    } else if data[eho] == 0x4e && data[eho + 1] == 0x45 {
        if data.len() - eho < 48 {
            return Err(ProjectorError::Io);
        }
        let table_size = read_le_u16(data, eho + 32);
        let table_offset = read_le_u32(data, eho + 44);
        if table_size == 0 {
            Ok((WinVersion::Win3, None))
        } else if table_offset as usize > data.len() {
            Err(ProjectorError::Io)
        } else {
            match read_pstring(data, table_offset as usize) {
                Some((name, _)) => Ok((WinVersion::Win3, Some(MacString::Raw(name)))),
                None => Err(ProjectorError::Io),
            }
        }
    } else {
        Err(ProjectorError::NotWindowsExe)
    }
}


/// The entry of a Director 3 Windows movie at `p`: its size, its file name
/// (the path, with slashes, a slash, then the name), and the position after
/// the entry.
pub open spec fn spec_d3_entry(data: Seq<u8>, p: int) -> Option<(u32, Seq<u8>, int)> {
    if p + 4 > data.len() {
        None
    } else {
        match spec_pstring(data, p + 4) {
            None => None,
            Some((name, q)) => match spec_pstring(data, q) {
                None => None,
                Some((path, next)) => Some((le_u32_at(data, p) as u32, slashes(path).push(0x2f).add(name), next)),
            },
        }
    }
}

/// Reads the entries of movies `k` to `n` of a Director 3 Windows projector,
/// the first at `p`. External movies are names only; embedded movies are
/// followed by their data, which is skipped.
pub open spec fn spec_d3_movies(
    data: Seq<u8>,
    p: int,
    k: int,
    n: int,
    external: bool,
    names: Seq<MacStringView>,
    movies: Seq<D3WinMovieView>,
) -> Result<MovieView, ProjectorError>
    decreases (if n > k { n - k } else { 0 }),
{
    if k >= n {
        Ok(if external { MovieView::External(names) } else { MovieView::D3Win(movies) })
    } else {
        match spec_d3_entry(data, p) {
            None => Err(ProjectorError::Io),
            Some((size, name, q)) => if external {
                spec_d3_movies(data, q, k + 1, n, external, names.push(MacStringView::Raw(name)), movies)
            } else if q > u32::MAX {
                Err(ProjectorError::OffsetTooLarge)
            } else {
                spec_d3_movies(
                    data,
                    q + size,
                    k + 1,
                    n,
                    external,
                    names,
                    movies.push(D3WinMovieView { filename: MacStringView::Raw(name), offset: q as u32, size }),
                )
            },
        }
    }
}

/// Reads the entry of a Director 3 Windows movie at `p`.
fn d3_win_movie_info(data: &[u8], p: usize) -> (r: Option<(u32, Vec<u8>, usize)>)
    requires
        p <= data.len(),
    ensures
        match (r, spec_d3_entry(data@, p as int)) {
            (Some((size, name, next)), Some((vsize, vname, vnext))) => size == vsize && name@ == vname && next == vnext,
            (None, None) => true,
            _ => false,
        },
{
    if data.len() - p < 4 {
        return None;
    }
    let size = read_le_u32(data, p);
    let (name, q) = match read_pstring(data, p + 4) {
        Some(found) => found,
        None => return None,
    };
    let (path, next) = match read_pstring(data, q) {
        Some(found) => found,
        None => return None,
    };
    let mut filename = replace_byte(path.as_slice(), 0x5c, 0x2f);
    filename.push(0x2f);
    let mut i: usize = 0;
    let ghost start = filename@;
    while i < name.len()
        invariant
            i <= name@.len(),
            filename@ == start + name@.subrange(0, i as int),
        decreases name@.len() - i,
    {
        filename.push(name[i]);
        i = i + 1;
        assert(filename@ =~= start + name@.subrange(0, i as int));
    }
    assert(name@.subrange(0, name@.len() as int) =~= name@);
    Some((size, filename, next))
}

/// The views of a list of strings.
pub open spec fn strings_view(names: Seq<MacString>) -> Seq<MacStringView> {
    Seq::new(names.len(), |i: int| names[i]@)
}

/// The views of a list of movies.
pub open spec fn movies_view(movies: Seq<D3WinMovie>) -> Seq<D3WinMovieView> {
    Seq::new(movies.len(), |i: int| movies[i]@)
}

/// Reads the entries of the `n` movies of a Director 3 Windows projector,
/// the first at `p`.
fn read_d3_movies(data: &[u8], p: usize, n: u16, external: bool) -> (r: Result<Movie, ProjectorError>)
    requires
        p <= data.len(),
    ensures
        match (r, spec_d3_movies(data@, p as int, 0, n as int, external, Seq::empty(), Seq::empty())) {
            (Ok(movie), Ok(v)) => movie@ == v,
            (Err(e), Err(f)) => e == f,
            _ => false,
        },
{
    let mut names: Vec<MacString> = Vec::new();
    let mut movies: Vec<D3WinMovie> = Vec::new();
    let mut pos: usize = p;
    let mut beyond: bool = false;
    let ghost mut gpos: int = p as int;
    let mut k: u16 = 0;
    let ghost goal = spec_d3_movies(data@, p as int, 0, n as int, external, Seq::empty(), Seq::empty());
    assert(strings_view(names@) =~= Seq::<MacStringView>::empty());
    assert(movies_view(movies@) =~= Seq::<D3WinMovieView>::empty());
    while k < n
        invariant
            pos <= data.len(),
            k <= n,
            beyond ==> gpos > data.len(),
            !beyond ==> gpos == pos,
            goal == spec_d3_movies(data@, p as int, 0, n as int, external, Seq::empty(), Seq::empty()),
            goal == spec_d3_movies(data@, gpos, k as int, n as int, external, strings_view(names@), movies_view(movies@)),
        decreases n - k,
    {
        if beyond {
            return Err(ProjectorError::Io);
        }
        let (size, name, next) = match d3_win_movie_info(data, pos) {
            Some(found) => found,
            None => return Err(ProjectorError::Io),
        };
        if external {
            let ghost old_names = strings_view(names@);
            let ghost name_view = name@;
            names.push(MacString::Raw(name));
            assert(strings_view(names@) =~= old_names.push(MacStringView::Raw(name_view)));
            pos = next;
            proof { gpos = next as int; }
        } else {
            if next as u64 > 0xffff_ffff {
                return Err(ProjectorError::OffsetTooLarge);
            }
            let ghost old_movies = movies_view(movies@);
            let ghost name_view = name@;
            movies.push(D3WinMovie { filename: MacString::Raw(name), offset: next as u32, size });
            assert(movies_view(movies@) =~= old_movies.push(D3WinMovieView { filename: MacStringView::Raw(name_view), offset: next as u32, size }));
            proof { gpos = next + size; }
            if size as usize > data.len() - next {
                beyond = true;
                pos = next;
            } else {
                pos = next + size as usize;
            }
        }
        k = k + 1;
    }
    if external {
        let r = Movie::External(names);
        assert(r@ == MovieView::External(strings_view(names@)));
        Ok(r)
    } else {
        let r = Movie::D3Win(movies);
        assert(r@ == MovieView::D3Win(movies_view(movies@)));
        Ok(r)
    }
}


/// The size of the projector header at the Director data offset.
pub const HEADER_SIZE: u32 = 8;
/// The size of the projector settings.
pub const SETTINGS_SIZE: u32 = 12;

/// The `size` bytes at `offset`, or how many of them there are when the data
/// ends before them.
pub open spec fn spec_read_exact(data: Seq<u8>, offset: int, size: int) -> Detected<Seq<u8>> {
    let actual = if offset >= data.len() { 0 } else if offset + size <= data.len() { size } else { data.len() - offset };
    if actual != size {
        Detected::Failed(ProjectorError::SizeMismatch(size as u32, actual as u32))
    } else if size == 0 {
        Detected::Done(Seq::empty())
    } else {
        Detected::Done(data.subrange(offset, offset + size))
    }
}

/// The system resource file (`PROJECTR.RSR`) of a Director 4 to 6 Windows
/// projector whose data starts at `offset`, located by the table of system
/// files that follows the settings.
pub open spec fn spec_projector_rsrc(data: Seq<u8>, offset: int, version: Version) -> Detected<Seq<u8>> {
    if version == Version::D4 {
        let at = offset + HEADER_SIZE + 8;
        if at > u32::MAX {
            Detected::Undefined
        } else if at + 8 > data.len() {
            Detected::Failed(ProjectorError::Io)
        } else if le_u32_at(data, at + 4) < le_u32_at(data, at) {
            Detected::Undefined
        } else {
            spec_read_exact(data, le_u32_at(data, at), le_u32_at(data, at + 4) - le_u32_at(data, at))
        }
    } else if version == Version::D5 || version == Version::D6 {
        let entry_size: int = if version == Version::D5 { 0x204 } else { 0x208 };
        let at = offset + HEADER_SIZE + SETTINGS_SIZE + 12 + entry_size * 2;
        if at > u32::MAX {
            Detected::Undefined
        } else if at + 4 > data.len() {
            Detected::Failed(ProjectorError::Io)
        } else if version == Version::D5 {
            if at + entry_size + 4 > data.len() {
                Detected::Failed(ProjectorError::Io)
            } else if le_u32_at(data, at + entry_size) < le_u32_at(data, at) {
                Detected::Undefined
            } else {
                spec_read_exact(data, le_u32_at(data, at), le_u32_at(data, at + entry_size) - le_u32_at(data, at))
            }
        } else if at + 8 > data.len() {
            Detected::Failed(ProjectorError::Io)
        } else {
            spec_read_exact(data, le_u32_at(data, at), le_u32_at(data, at + 4))
        }
    } else {
        Detected::Undefined
    }
}

/// Copies the `size` bytes at `offset`.
fn read_exact(data: &[u8], offset: u32, size: u32) -> (r: Result<Vec<u8>, ProjectorError>)
    ensures
        match (r, spec_read_exact(data@, offset as int, size as int)) {
            (Ok(bytes), Detected::Done(v)) => bytes@ == v,
            (Err(e), Detected::Failed(f)) => e == f,
            _ => false,
        },
{
    let len = data.len();
    let actual: usize = if offset as usize >= len {
        0
    } else if size as usize <= len - offset as usize {
        size as usize
    } else {
        len - offset as usize
    };
    if actual != size as usize {
        return Err(ProjectorError::SizeMismatch(size, actual as u32));
    }
    if actual == 0 {
        return Ok(Vec::new());
    }
    Ok(vstd::slice::slice_to_vec(vstd::slice::slice_subrange(data, offset as usize, offset as usize + actual)))
}

/// Reads the system resource file of a Director 4 to 6 Windows projector;
/// `None` where reading it has no defined result.
fn get_projector_rsrc(data: &[u8], offset: u32, version: Version) -> (r: Option<Result<Vec<u8>, ProjectorError>>)
    ensures
        match (r, spec_projector_rsrc(data@, offset as int, version)) {
            (Some(Ok(bytes)), Detected::Done(v)) => bytes@ == v,
            (Some(Err(e)), Detected::Failed(f)) => e == f,
            (None, Detected::Undefined) => true,
            _ => false,
        },
{
    let len = data.len();
    if let Version::D4 = version {
        let at: u64 = offset as u64 + 16;
        if at > 0xffff_ffff {
            return None;
        }
        let at = at as usize;
        if at > len || len - at < 8 {
            return Some(Err(ProjectorError::Io));
        }
        let rsrc_offset = read_le_u32(data, at);
        let next_offset = read_le_u32(data, at + 4);
        if next_offset < rsrc_offset {
            return None;
        }
        Some(read_exact(data, rsrc_offset, next_offset - rsrc_offset))
    } else if let Version::D5 = version {
        let at: u64 = offset as u64 + 8 + 12 + 12 + 0x204 * 2;
        if at > 0xffff_ffff {
            return None;
        }
        let at = at as usize;
        if at > len || len - at < 4 {
            return Some(Err(ProjectorError::Io));
        }
        let rsrc_offset = read_le_u32(data, at);
        if len - at < 0x204 + 4 {
            return Some(Err(ProjectorError::Io));
        }
        let next_offset = read_le_u32(data, at + 0x204);
        if next_offset < rsrc_offset {
            return None;
        }
        Some(read_exact(data, rsrc_offset, next_offset - rsrc_offset))
    } else if let Version::D6 = version {
        let at: u64 = offset as u64 + 8 + 12 + 12 + 0x208 * 2;
        if at > 0xffff_ffff {
            return None;
        }
        let at = at as usize;
        if at > len || len - at < 4 {
            return Some(Err(ProjectorError::Io));
        }
        let rsrc_offset = read_le_u32(data, at);
        if len - at < 8 {
            return Some(Err(ProjectorError::Io));
        }
        let size = read_le_u32(data, at + 4);
        Some(read_exact(data, rsrc_offset, size))
    } else {
        None
    }
}


/// The sum, wrapping at 256, of the seven header bytes at `offset`.
pub open spec fn header_checksum(data: Seq<u8>, offset: int) -> int {
    (data[offset] + data[offset + 1] + data[offset + 2] + data[offset + 3] + data[offset + 4] + data[offset + 5]
        + data[offset + 6]) % 256
}

/// Recognising a Director 3 Windows projector whose header is at `offset`:
/// the settings are in the header, and the movie entries follow it.
pub open spec fn spec_detect_win_d3(data: Seq<u8>, offset: int, name: Option<MacStringView>) -> Detected<DetectionInfoView> {
    if offset + 7 > u32::MAX {
        Detected::Undefined
    } else {
        match spec_projector_settings(data.subrange(offset, offset + 8), Version::D3, Platform::Win(WinVersion::Win3)) {
            Err(e) => Detected::Failed(ProjectorError::Settings(e)),
            Ok(config) => match spec_d3_movies(data, offset + 7, 0, config.num_movies as int, config.use_external_files, Seq::empty(), Seq::empty()) {
                Err(e) => Detected::Failed(e),
                Ok(movie) => Detected::Done(DetectionInfoView {
                    name,
                    charset: None,
                    version: Version::D3,
                    movie,
                    system_resources: None,
                    config,
                }),
            },
        }
    }
}

/// Where the settings of a Director 4 to 7 Windows projector whose header
/// is at `offset` are: for Director 4, just before the first system file,
/// whose offset follows the header; later, just after the header.
pub open spec fn spec_settings_offset(data: Seq<u8>, offset: int, version: Version) -> Detected<int> {
    if version == Version::D4 {
        if offset + 12 > data.len() {
            Detected::Failed(ProjectorError::Io)
        } else if le_u32_at(data, offset + 8) < SETTINGS_SIZE {
            Detected::Undefined
        } else {
            Detected::Done(le_u32_at(data, offset + 8) - SETTINGS_SIZE)
        }
    } else {
        Detected::Done(offset + HEADER_SIZE)
    }
}

/// Recognising a Director 4 to 6 Windows projector whose header is at
/// `offset`. Directors 5 and 6 share a version tag; a clear bit of the first
/// settings byte tells Director 6.
pub open spec fn spec_detect_win_d4(
    data: Seq<u8>,
    offset: int,
    version0: Version,
    exe: WinVersion,
    name: Option<MacStringView>,
) -> Detected<DetectionInfoView> {
    if offset + HEADER_SIZE > u32::MAX {
        Detected::Undefined
    } else {
        match spec_settings_offset(data, offset, version0) {
            Detected::Undefined => Detected::Undefined,
            Detected::Failed(e) => Detected::Failed(e),
            Detected::Done(at) => if at + SETTINGS_SIZE > data.len() {
                Detected::Failed(ProjectorError::Io)
            } else {
                let version = if version0 == Version::D5 && (data[at] / 16) % 2 == 0 { Version::D6 } else { version0 };
                if version == Version::D7 {
                    Detected::Undefined
                } else {
                    match spec_projector_settings(data.subrange(at, at + SETTINGS_SIZE), version, Platform::Win(exe)) {
                        Err(e) => Detected::Failed(ProjectorError::Settings(e)),
                        Ok(config) => {
                            let riff_offset = le_u32_at(data, offset + 4);
                            if !spec_detect_defined(data, riff_offset) {
                                Detected::Undefined
                            } else {
                                match spec_detect_riff(data, riff_offset) {
                                    Err(e) => Detected::Failed(ProjectorError::Riff(e)),
                                    Ok(_) => match spec_projector_rsrc(data, offset, version) {
                                        Detected::Undefined => Detected::Undefined,
                                        Detected::Failed(e) => Detected::Failed(e),
                                        Detected::Done(rsrc) => Detected::Done(DetectionInfoView {
                                            name,
                                            charset: None,
                                            version,
                                            movie: MovieView::Internal(riff_offset as u32),
                                            system_resources: Some(rsrc),
                                            config,
                                        }),
                                    },
                                }
                            }
                        },
                    }
                }
            },
        }
    }
}

/// Recognising a Windows projector. The last four bytes of the executable
/// give the offset of the Director data, which starts with a version tag
/// (Director 4 on) or a header with a checksum (Director 3). `pe_name` is the
/// product name that a `PE` executable's version resource gives.
pub open spec fn spec_detect_win(data: Seq<u8>, pe_name: Option<MacStringView>) -> Detected<DetectionInfoView> {
    if data.len() < 2 {
        Detected::Failed(ProjectorError::Io)
    } else if be_u16_at(data, 0) != 0x4d5a {
        Detected::Failed(ProjectorError::NotWindowsExe)
    } else if data.len() < 4 {
        Detected::Failed(ProjectorError::Io)
    } else {
        let offset = le_u32_at(data, data.len() - 4);
        if offset + HEADER_SIZE > data.len() {
            Detected::Failed(ProjectorError::Io)
        } else if !data_version_defined(be_u32_at(data, offset)) {
            Detected::Undefined
        } else if spec_data_version(be_u32_at(data, offset)) is None && header_checksum(data, offset) != 0 {
            Detected::Failed(ProjectorError::BadChecksum)
        } else {
            let version0 = match spec_data_version(be_u32_at(data, offset)) {
                Some(v) => v,
                None => Version::D3,
            };
            match spec_exe_info(data) {
                Err(e) => Detected::Failed(e),
                Ok((exe, ne_name)) => {
                    let name = exe_name(exe, ne_name, pe_name);
                    if version0 == Version::D3 {
                        spec_detect_win_d3(data, offset, name)
                    } else {
                        spec_detect_win_d4(data, offset, version0, exe, name)
                    }
                },
            }
        }
    }
}

/// Sums the seven header bytes at `offset`, wrapping at 256.
fn checksum(data: &[u8], offset: usize) -> (r: u8)
    requires
        offset + 7 <= data.len(),
    ensures
        r == header_checksum(data@, offset as int),
{
    let mut sum: u8 = 0;
    let mut i: usize = 0;
    let ghost mut exact: int = 0;
    while i < 7
        invariant
            i <= 7,
            offset + 7 <= data.len(),
            sum == exact % 256,
            exact == (if i >= 1 { data@[offset as int] as int } else { 0 })
                + (if i >= 2 { data@[offset + 1] as int } else { 0 })
                + (if i >= 3 { data@[offset + 2] as int } else { 0 })
                + (if i >= 4 { data@[offset + 3] as int } else { 0 })
                + (if i >= 5 { data@[offset + 4] as int } else { 0 })
                + (if i >= 6 { data@[offset + 5] as int } else { 0 })
                + (if i >= 7 { data@[offset + 6] as int } else { 0 }),
        decreases 7 - i,
    {
        let b = data[offset + i];
        proof {
            exact = exact + b;
        }
        sum = sum.wrapping_add(b);
        i = i + 1;
    }
    sum
}


/// Recognises a Director 4 to 6 Windows projector whose header is at
/// `offset`; `None` where recognition has no defined result.
fn detect_win_d4(data: &[u8], offset: u32, version0: Version, exe: WinVersion, name: Option<MacString>) -> (r: Option<Result<DetectionInfo, ProjectorError>>)
    requires
        offset + HEADER_SIZE <= data.len(),
        version0 != Version::D3,
    ensures
        match (r, spec_detect_win_d4(data@, offset as int, version0, exe, opt_string_view(name))) {
            (Some(Ok(info)), Detected::Done(v)) => info@ == v,
            (Some(Err(e)), Detected::Failed(f)) => e == f,
            (None, Detected::Undefined) => true,
            _ => false,
        },
{
    let len = data.len();
    if offset as u64 + HEADER_SIZE as u64 > 0xffff_ffff {
        return None;
    }
    let at: usize = if let Version::D4 = version0 {
        if len - (offset as usize) < 12 {
            return Some(Err(ProjectorError::Io));
        }
        let end_offset = read_le_u32(data, offset as usize + 8);
        if end_offset < SETTINGS_SIZE {
            return None;
        }
        (end_offset - SETTINGS_SIZE) as usize
    } else {
        offset as usize + 8
    };
    if at > len || len - at < 12 {
        return Some(Err(ProjectorError::Io));
    }
    let buffer = vstd::slice::slice_subrange(data, at, at + 12);
    let first = data[at];
    let version = if let Version::D5 = version0 {
        if first & 0x10 == 0 {
            assert(first & 0x10 == 0 ==> (first / 16) % 2 == 0) by (bit_vector);
            Version::D6
        } else {
            assert(first & 0x10 != 0 ==> (first / 16) % 2 == 1) by (bit_vector);
            version0
        }
    } else {
        version0
    };
    if let Version::D7 = version {
        return None;
    }
    let config = match ProjectorSettings::read(buffer, version, Platform::Win(exe)) {
        Ok(config) => config,
        Err(e) => return Some(Err(ProjectorError::Settings(e))),
    };
    let riff_offset = read_le_u32(data, offset as usize + 4);
    if riff_offset as usize > len {
        return Some(Err(ProjectorError::Riff(RiffError::Io)));
    }
    if !detect_is_defined(data, riff_offset as usize) {
        return None;
    }
    match detect_riff(data, riff_offset as usize) {
        Ok(_) => {},
        Err(e) => return Some(Err(ProjectorError::Riff(e))),
    }
    let rsrc = match get_projector_rsrc(data, offset, version) {
        Some(Ok(rsrc)) => rsrc,
        Some(Err(e)) => return Some(Err(e)),
        None => return None,
    };
    Some(Ok(DetectionInfo {
        name,
        charset: None,
        version,
        movie: Movie::Internal(riff_offset),
        system_resources: Some(rsrc),
        config,
    }))
}

/// Recognises a Windows projector: a Director 3 projector, whose data has a
/// header with a checksum, or a Director 4 to 6 projector, whose data starts
/// with a version tag. `None` where recognition has no defined result.
pub fn try_detect_win(data: &[u8]) -> (r: Option<Result<DetectionInfo, ProjectorError>>)
    ensures
        r is None <==> spec_detect_win(data@, None) is Undefined,
        match r {
            Some(Ok(info)) => spec_detect_win(data@, spec_pe_name(data@)) == Detected::Done(info@),
            Some(Err(e)) => spec_detect_win(data@, None) == Detected::<DetectionInfoView>::Failed(e),
            None => true,
        },
{
    let len = data.len();
    if len < 2 {
        return Some(Err(ProjectorError::Io));
    }
    if read_be_u16(data, 0) != 0x4d5a {
        return Some(Err(ProjectorError::NotWindowsExe));
    }
    if len < 4 {
        return Some(Err(ProjectorError::Io));
    }
    let offset = read_le_u32(data, len - 4);
    if offset as usize > len || len - (offset as usize) < 8 {
        return Some(Err(ProjectorError::Io));
    }
    let header = vstd::slice::slice_subrange(data, offset as usize, offset as usize + 8);
    proof {
        assert(be_u32_at(header@, 0) == be_u32_at(data@, offset as int));
    }
    if !data_version_is_defined(header) {
        return None;
    }
    let version0 = match data_version(header) {
        Some(version) => version,
        None => {
            if checksum(data, offset as usize) != 0 {
                return Some(Err(ProjectorError::BadChecksum));
            }
            Version::D3
        },
    };
    let (exe, name) = match get_exe_info(data) {
        Ok(info) => info,
        Err(e) => return Some(Err(e)),
    };
    let ghost name_view = opt_string_view(name);
    proof {
        lemma_name_independent(data@, name_view);
    }
    if let Version::D3 = version0 {
        if offset as u64 + 7 > 0xffff_ffff {
            return None;
        }
        let config = match ProjectorSettings::read(header, Version::D3, Platform::Win(WinVersion::Win3)) {
            Ok(config) => config,
            Err(e) => return Some(Err(ProjectorError::Settings(e))),
        };
        let movie = match read_d3_movies(data, offset as usize + 7, config.num_movies, config.use_external_files) {
            Ok(movie) => movie,
            Err(e) => return Some(Err(e)),
        };
        Some(Ok(DetectionInfo { name, charset: None, version: Version::D3, movie, system_resources: None, config }))
    } else {
        detect_win_d4(data, offset, version0, exe, name)
    }
}

/// Whether recognising a Windows projector in `data` has a defined result:
/// whether `detect_win` may be called.
pub fn detect_win_is_defined(data: &[u8]) -> (r: bool)
    ensures
        r == !(spec_detect_win(data@, None) is Undefined),
{
    try_detect_win(data).is_some()
}

/// Recognises a Windows projector: a Director 3 projector, whose data has a
/// header with a checksum, or a Director 4 to 6 projector, whose data starts
/// with a version tag.
pub fn detect_win(data: &[u8]) -> (r: Result<DetectionInfo, ProjectorError>)
    requires
        !(spec_detect_win(data@, None) is Undefined),
    ensures
        match r {
            Ok(info) => spec_detect_win(data@, spec_pe_name(data@)) == Detected::Done(info@),
            Err(e) => spec_detect_win(data@, None) == Detected::<DetectionInfoView>::Failed(e),
        },
{
    match try_detect_win(data) {
        Some(r) => r,
        None => {
            proof {
                assert(false);
            }
            Err(ProjectorError::Io)
        },
    }
}

/// The name that a `PE` executable's version resource gives changes only the
/// name in the outcome of recognising a projector: not whether it fails, nor
/// how, nor whether it is defined.
pub proof fn lemma_name_independent(data: Seq<u8>, pe_name: Option<MacStringView>)
    ensures
        spec_detect_win(data, pe_name) is Undefined <==> spec_detect_win(data, None) is Undefined,
        spec_detect_win(data, pe_name) matches Detected::Failed(e) ==> spec_detect_win(data, None) == Detected::<DetectionInfoView>::Failed(e),
        spec_detect_win(data, None) matches Detected::Failed(e) ==> spec_detect_win(data, pe_name) == Detected::<DetectionInfoView>::Failed(e),
{
}


/// `PJst`: the settings resource of a Director 4+ Mac projector.
pub const PJST: u32 = 0x504a7374;
/// `VWst`: the settings resource of a Director 3 Mac projector.
pub const VWST: u32 = 0x56577374;
/// `STR#`: a string list resource.
pub const STR_LIST: u32 = 0x53545223;

/// Whether a resource fork has a resource of the given type numbered zero.
pub open spec fn has0(fork: ResourceFork, os_type: u32) -> bool {
    spec_find(fork.resources_view(), ResourceId { os_type, id: 0 }) is Some
}

/// The Director version of a Mac projector, from the resources its resource
/// fork has.
pub open spec fn spec_mac_version(fork: ResourceFork) -> Option<Version> {
    if has0(fork, PJ97) && has0(fork, PJST) {
        Some(Version::D6)
    } else if has0(fork, PJ95) && has0(fork, PJST) {
        Some(Version::D5)
    } else if has0(fork, PJ93) && has0(fork, PJST) {
        Some(Version::D4)
    } else if has0(fork, VWST) {
        Some(Version::D3)
    } else {
        None
    }
}

/// The version of a Mac projector follows from the resources of its fork:
/// a settings resource (`PJst` #0) with `PJ97` #0 is Director 6, with
/// `PJ95` #0 (and no `PJ97`) Director 5, with `PJ93` #0 alone Director 4. And
/// the version so found agrees with a data fork tag naming the same
/// version (`PJ93` for Director 4, `PJ95` for Director 5 and 6), so a
/// consistent projector never fails with a version mismatch.
pub proof fn lemma_mac_version_from_tags(fork: ResourceFork)
    ensures
        has0(fork, PJST) && has0(fork, PJ97) ==> spec_mac_version(fork) == Some(Version::D6)
            && !version_mismatch(Version::D6, spec_data_version(PJ95 as int))
            && !version_mismatch(Version::D6, spec_data_version(PJ95_LE as int)),
        has0(fork, PJST) && has0(fork, PJ95) && !has0(fork, PJ97) ==> spec_mac_version(fork) == Some(Version::D5)
            && !version_mismatch(spec_mac_version(fork)->0, spec_data_version(PJ95 as int))
            && !version_mismatch(spec_mac_version(fork)->0, spec_data_version(PJ95_LE as int)),
        has0(fork, PJST) && has0(fork, PJ93) && !has0(fork, PJ95) && !has0(fork, PJ97) ==> spec_mac_version(fork) == Some(Version::D4)
            && !version_mismatch(spec_mac_version(fork)->0, spec_data_version(PJ93 as int))
            && !version_mismatch(spec_mac_version(fork)->0, spec_data_version(PJ93_LE as int)),
{
}

/// The movie of a Director 4+ projector: the RIFF container at `offset` of
/// the data fork.
pub open spec fn spec_internal_movie(data: Seq<u8>, offset: int) -> Detected<MovieView> {
    if !spec_detect_defined(data, offset) {
        Detected::Undefined
    } else {
        match spec_detect_riff(data, offset) {
            Err(e) => Detected::Failed(ProjectorError::Riff(e)),
            Ok(_) => Detected::Done(MovieView::Internal(offset as u32)),
        }
    }
}

/// Whether a data fork's version tag disagrees with the resource fork's
/// version. Director 6 writes the Director 5 tag.
pub open spec fn version_mismatch(version: Version, data_version: Option<Version>) -> bool {
    match data_version {
        Some(Version::D5) => version != Version::D5 && version != Version::D6,
        Some(v) => version != v,
        None => true,
    }
}

/// The movies of a Mac projector of the given version and settings.
pub open spec fn spec_mac_movie(
    fork: ResourceFork,
    data_fork: Option<Seq<u8>>,
    version: Version,
    config: ProjectorSettings,
) -> Detected<MovieView> {
    if version == Version::D3 {
        if config.use_external_files {
            match spec_find(fork.resources_view(), ResourceId { os_type: STR_LIST, id: 0 }) {
                None => Detected::Failed(ProjectorError::MissingFileList),
                Some(list) => match spec_string_list(list) {
                    None => Detected::Failed(ProjectorError::MissingFileList),
                    Some(names) => Detected::Done(MovieView::External(
                        Seq::new(names.len(), |i: int| MacStringView::Raw(replaced(names[i], 0x3a, 0x2f))),
                    )),
                },
            }
        } else {
            Detected::Done(MovieView::Embedded(config.num_movies))
        }
    } else {
        match data_fork {
            None => Detected::Failed(ProjectorError::NoDataFork),
            Some(data) => if config.has_extended_data_fork {
                if data.len() < 8 {
                    Detected::Failed(ProjectorError::Io)
                } else if !data_version_defined(be_u32_at(data, 0)) {
                    Detected::Undefined
                } else if version_mismatch(version, spec_data_version(be_u32_at(data, 0))) {
                    Detected::Failed(ProjectorError::VersionMismatch)
                } else {
                    spec_internal_movie(data, be_u32_at(data, 4))
                }
            } else {
                spec_internal_movie(data, 0)
            },
        }
    }
}

/// Recognising a Mac projector from its resource fork and, for Director 4+,
/// its data fork.
pub open spec fn spec_detect_mac(fork: ResourceFork, data_fork: Option<Seq<u8>>) -> Detected<DetectionInfoView> {
    match spec_mac_version(fork) {
        None => Detected::Failed(ProjectorError::NoSettingsResource),
        Some(version) => {
            let settings = spec_find(fork.resources_view(), ResourceId { os_type: if version == Version::D3 { VWST } else { PJST }, id: 0 })->0;
            if settings.len() < 12 {
                Detected::Undefined
            } else {
                match spec_projector_settings(settings, version, Platform::Mac(MacCPU(ANY_CPU))) {
                    Err(e) => Detected::Failed(ProjectorError::Settings(e)),
                    Ok(config) => match spec_mac_movie(fork, data_fork, version, config) {
                        Detected::Undefined => Detected::Undefined,
                        Detected::Failed(e) => Detected::Failed(e),
                        Detected::Done(movie) => Detected::Done(DetectionInfoView {
                            name: match fork.name {
                                Some(name) => Some(MacStringView::Raw(name@)),
                                None => None,
                            },
                            charset: None,
                            version,
                            movie,
                            system_resources: if version == Version::D3 { None } else { Some(fork.bytes@) },
                            config,
                        }),
                    },
                }
            }
        },
    }
}

/// Reads the movie of a Director 4+ projector at `offset` of the data fork.
fn internal_movie(data: &[u8], offset: u32) -> (r: Option<Result<Movie, ProjectorError>>)
    ensures
        match (r, spec_internal_movie(data@, offset as int)) {
            (Some(Ok(movie)), Detected::Done(v)) => movie@ == v,
            (Some(Err(e)), Detected::Failed(f)) => e == f,
            (None, Detected::Undefined) => true,
            _ => false,
        },
{
    if offset as usize > data.len() {
        return Some(Err(ProjectorError::Riff(RiffError::Io)));
    }
    if !detect_is_defined(data, offset as usize) {
        return None;
    }
    match detect_riff(data, offset as usize) {
        Ok(_) => Some(Ok(Movie::Internal(offset))),
        Err(e) => Some(Err(ProjectorError::Riff(e))),
    }
}

/// Reads the movies of a Mac projector.
fn mac_movie(fork: &ResourceFork, data_fork: Option<&[u8]>, version: Version, config: &ProjectorSettings) -> (r: Option<Result<Movie, ProjectorError>>)
    ensures
        match (r, spec_mac_movie(*fork, opt_slice_view(data_fork), version, *config)) {
            (Some(Ok(movie)), Detected::Done(v)) => movie@ == v,
            (Some(Err(e)), Detected::Failed(f)) => e == f,
            (None, Detected::Undefined) => true,
            _ => false,
        },
{
    if let Version::D3 = version {
        if config.use_external_files {
            let list = match fork.find(ResourceId { os_type: STR_LIST, id: 0 }) {
                Some(list) => list,
                None => return Some(Err(ProjectorError::MissingFileList)),
            };
            let names = match read_string_list(list.as_slice()) {
                Some(names) => names,
                None => return Some(Err(ProjectorError::MissingFileList)),
            };
            let ghost vnames = spec_string_list(list@)->0;
            let mut movies: Vec<MacString> = Vec::new();
            let mut i: usize = 0;
            while i < names.len()
                invariant
                    i <= names@.len() == vnames.len(),
                    movies@.len() == i,
                    forall|k: int| 0 <= k < names@.len() ==> #[trigger] names@[k]@ == vnames[k],
                    forall|k: int| 0 <= k < i ==> (#[trigger] movies@[k])@ == MacStringView::Raw(replaced(vnames[k], 0x3a, 0x2f)),
                decreases names@.len() - i,
            {
                assert(names@[i as int]@ == vnames[i as int]);
                movies.push(MacString::Raw(replace_byte(names[i].as_slice(), 0x3a, 0x2f)));
                i = i + 1;
            }
            let r = Movie::External(movies);
            assert(strings_view(movies@) =~= Seq::new(vnames.len(), |k: int| MacStringView::Raw(replaced(vnames[k], 0x3a, 0x2f))));
            Some(Ok(r))
        } else {
            Some(Ok(Movie::Embedded(config.num_movies)))
        }
    } else {
        let data = match data_fork {
            Some(data) => data,
            None => return Some(Err(ProjectorError::NoDataFork)),
        };
        if config.has_extended_data_fork {
            if data.len() < 8 {
                return Some(Err(ProjectorError::Io));
            }
            if !data_version_is_defined(data) {
                return None;
            }
            let data_version = data_version(data);
            let mismatch = match data_version {
                Some(Version::D5) => !(matches!(version, Version::D5) || matches!(version, Version::D6)),
                Some(v) => !version_eq(version, v),
                None => true,
            };
            if mismatch {
                return Some(Err(ProjectorError::VersionMismatch));
            }
            internal_movie(data, read_be_u32(data, 4))
        } else {
            internal_movie(data, 0)
        }
    }
}

/// Whether two versions are the same.
fn version_eq(a: Version, b: Version) -> (r: bool)
    ensures
        r == (a == b),
{
    a == b
}

/// The view of an optional byte slice.
pub open spec fn opt_slice_view(data: Option<&[u8]>) -> Option<Seq<u8>> {
    match data {
        Some(d) => Some(d@),
        None => None,
    }
}

/// Recognises a Mac projector from its resource fork and, for Director 4+,
/// its data fork. `None` where recognition has no defined result.
pub fn try_detect_mac(fork: &ResourceFork, data_fork: Option<&[u8]>) -> (r: Option<Result<DetectionInfo, ProjectorError>>)
    ensures
        match (r, spec_detect_mac(*fork, opt_slice_view(data_fork))) {
            (Some(Ok(info)), Detected::Done(v)) => info@ == v,
            (Some(Err(e)), Detected::Failed(f)) => e == f,
            (None, Detected::Undefined) => true,
            _ => false,
        },
{
    let has_pjst = fork.contains(ResourceId { os_type: PJST, id: 0 });
    let version = if fork.contains(ResourceId { os_type: PJ97, id: 0 }) && has_pjst {
        Version::D6
    } else if fork.contains(ResourceId { os_type: PJ95, id: 0 }) && has_pjst {
        Version::D5
    } else if fork.contains(ResourceId { os_type: PJ93, id: 0 }) && has_pjst {
        Version::D4
    } else if fork.contains(ResourceId { os_type: VWST, id: 0 }) {
        Version::D3
    } else {
        return Some(Err(ProjectorError::NoSettingsResource));
    };
    let settings_type = if let Version::D3 = version { VWST } else { PJST };
    let settings = match fork.find(ResourceId { os_type: settings_type, id: 0 }) {
        Some(settings) => settings,
        None => return Some(Err(ProjectorError::NoSettingsResource)),
    };
    if settings.len() < 12 {
        return None;
    }
    let config = match ProjectorSettings::read(settings.as_slice(), version, Platform::Mac(MacCPU(ANY_CPU))) {
        Ok(config) => config,
        Err(e) => return Some(Err(ProjectorError::Settings(e))),
    };
    let movie = match mac_movie(fork, data_fork, version, &config) {
        Some(Ok(movie)) => movie,
        Some(Err(e)) => return Some(Err(e)),
        None => return None,
    };
    let name = match &fork.name {
        Some(name) => Some(MacString::Raw(vstd::slice::slice_to_vec(name.as_slice()))),
        None => None,
    };
    let system_resources = if let Version::D3 = version {
        None
    } else {
        Some(vstd::slice::slice_to_vec(fork.bytes.as_slice()))
    };
    Some(Ok(DetectionInfo { name, charset: None, version, movie, system_resources, config }))
}

/// Whether recognising a Mac projector has a defined result: whether
/// `detect_mac` may be called.
pub fn detect_mac_is_defined(fork: &ResourceFork, data_fork: Option<&[u8]>) -> (r: bool)
    ensures
        r == !(spec_detect_mac(*fork, opt_slice_view(data_fork)) is Undefined),
{
    try_detect_mac(fork, data_fork).is_some()
}

/// Recognises a Mac projector from its resource fork and, for Director 4+,
/// its data fork.
pub fn detect_mac(fork: &ResourceFork, data_fork: Option<&[u8]>) -> (r: Result<DetectionInfo, ProjectorError>)
    requires
        !(spec_detect_mac(*fork, opt_slice_view(data_fork)) is Undefined),
    ensures
        match (r, spec_detect_mac(*fork, opt_slice_view(data_fork))) {
            (Ok(info), Detected::Done(v)) => info@ == v,
            (Err(e), Detected::Failed(f)) => e == f,
            _ => false,
        },
{
    match try_detect_mac(fork, data_fork) {
        Some(r) => r,
        None => {
            proof {
                assert(false);
            }
            Err(ProjectorError::Io)
        },
    }
}


} // verus!

//! Recognising Director movies and projectors.

pub mod movie;
pub mod pe;
pub mod projector;
pub mod projector_settings;

use crate::collections::riff::{detect as detect_riff, detect_is_defined, spec_detect as spec_detect_riff, spec_detect_defined, Error as RiffError};
use crate::resource_fork::ResourceFork;
use self::projector::{opt_slice_view, spec_detect_mac, spec_detect_win, spec_pe_name, Detected, DetectionInfoView, ProjectorError};
use vstd::prelude::*;

verus! {

/// The version of Director that made a file.
#[derive(Clone, Copy, Debug, PartialEq, Eq, Structural)]
pub enum Version {
    D3,
    D4,
    D5,
    D6,
    D7,
}

impl Version {
    /// The major version number, by which versions are ordered.
    pub open spec fn spec_num(self) -> int {
        match self {
            Version::D3 => 3,
            Version::D4 => 4,
            Version::D5 => 5,
            Version::D6 => 6,
            Version::D7 => 7,
        }
    }

    /// The major version number, by which versions are ordered.
    pub fn num(self) -> (r: u8)
        ensures
            r == self.spec_num(),
    {
        match self {
            Version::D3 => 3,
            Version::D4 => 4,
            Version::D5 => 5,
            Version::D6 => 6,
            Version::D7 => 7,
        }
    }
}


/// What a detected file is.
#[derive(Clone, Debug)]
pub enum FileType {
    Projector(projector::DetectionInfo),
    Movie(movie::DetectionInfo),
}

impl FileType {
    /// Whether the player can play the file: any projector, and any movie
    /// but a cast library.
    pub fn is_playable(&self) -> (r: bool)
        ensures
            r == match self {
                FileType::Projector(_) => true,
                FileType::Movie(info) => info.kind != movie::Kind::Cast,
            },
    {
        match self {
            FileType::Projector(_) => true,
            FileType::Movie(info) => !matches!(info.kind(), movie::Kind::Cast),
        }
    }
}

/// What detection found: the kind of file, and which of its forks the
/// player keeps open.
#[derive(Clone, Debug)]
pub struct Detection {
    pub info: FileType,
    pub resource_fork: bool,
    pub data_fork: bool,
}

/// Why a file is not a Director file.
#[derive(Clone, Copy, Debug, PartialEq, Eq, Structural)]
pub enum DetectError {
    /// The resource fork is not a Director file, and there is no data fork.
    NoDataFile,
    /// The data fork is neither a Windows projector (the first error), nor a
    /// Mac file, nor a RIFF movie (the second error).
    NotDirector(ProjectorError, RiffError),
}

/// The way detection goes through the forks of a file.
pub enum Route {
    /// The resource fork is a Mac projector.
    MacProjector(DetectionInfoView),
    /// The resource fork is a Director 3 Mac movie.
    MacMovie(movie::DetectionInfo),
    /// The data fork is a Windows projector.
    WinProjector,
    /// The data fork, read as a resource fork, is a Mac projector.
    DataProjector(DetectionInfoView),
    /// The data fork, read as a resource fork, is a Director 3 Mac movie.
    DataMovie(movie::DetectionInfo),
    /// The data fork is a RIFF movie.
    RiffMovie(movie::DetectionInfo),
    /// Detection fails.
    Failed(DetectError),
}

/// The view of an optional resource fork.
pub open spec fn opt_fork(fork: Option<&ResourceFork>) -> Option<ResourceFork> {
    match fork {
        Some(f) => Some(*f),
        None => None,
    }
}

/// What the data fork, read as a resource fork, is.
pub open spec fn spec_data_as_fork(data_as_fork: Option<ResourceFork>) -> Option<Route> {
    match data_as_fork {
        None => None,
        Some(f) => match spec_detect_mac(f, None) {
            Detected::Done(v) => Some(Route::DataProjector(v)),
            _ => match movie::spec_detect_mac(f) {
                Ok(m) => Some(Route::DataMovie(m)),
                Err(_) => None,
            },
        },
    }
}

/// The way detection goes: the resource fork as a Mac projector, then as a
/// Mac movie; then the data fork as a Windows projector, as a resource fork
/// (a Mac file without a resource fork), and as a RIFF movie.
pub open spec fn spec_route(fork: Option<ResourceFork>, data: Option<Seq<u8>>, data_as_fork: Option<ResourceFork>) -> Route {
    let mac = match fork {
        None => None,
        Some(f) => match spec_detect_mac(f, data) {
            Detected::Done(v) => Some(Route::MacProjector(v)),
            _ => match movie::spec_detect_mac(f) {
                Ok(m) => Some(Route::MacMovie(m)),
                Err(_) => None,
            },
        },
    };
    match mac {
        Some(route) => route,
        None => match data {
            None => Route::Failed(DetectError::NoDataFile),
            Some(d) => match spec_detect_win(d, None) {
                Detected::Failed(win) => match spec_data_as_fork(data_as_fork) {
                    Some(route) => route,
                    None => match spec_detect_riff(d, 0) {
                        Ok(m) => Route::RiffMovie(m),
                        Err(e) => Route::Failed(DetectError::NotDirector(win, e)),
                    },
                },
                _ => Route::WinProjector,
            },
        },
    }
}

/// Whether each step that detection takes has a defined result.
pub open spec fn spec_route_defined(fork: Option<ResourceFork>, data: Option<Seq<u8>>, data_as_fork: Option<ResourceFork>) -> bool {
    let mac_done = match fork {
        None => false,
        Some(f) => spec_detect_mac(f, data) is Done || movie::spec_detect_mac(f) is Ok,
    };
    &&& (fork matches Some(f) ==> !(spec_detect_mac(f, data) is Undefined))
    &&& (!mac_done ==> match data {
        None => true,
        Some(d) => {
            &&& !(spec_detect_win(d, None) is Undefined)
            &&& (spec_detect_win(d, None) is Failed ==> {
                &&& (data_as_fork matches Some(f) ==> !(spec_detect_mac(f, None) is Undefined))
                &&& (spec_data_as_fork(data_as_fork) is None ==> spec_detect_defined(d, 0))
            })
        },
    })
}

/// Whether detection has a defined result on these forks: whether `detect`
/// may be called.
pub fn route_is_defined(fork: Option<&ResourceFork>, data: Option<&[u8]>, data_as_fork: Option<&ResourceFork>) -> (r: bool)
    ensures
        r == spec_route_defined(opt_fork(fork), opt_slice_view(data), opt_fork(data_as_fork)),
{
    let mut mac_done = false;
    if let Some(f) = fork {
        match projector::try_detect_mac(f, data) {
            None => return false,
            Some(Ok(_)) => {
                mac_done = true;
            },
            Some(Err(_)) => {
                mac_done = movie::detect_mac(f).is_ok();
            },
        }
    }
    if mac_done {
        return true;
    }
    let d = match data {
        None => return true,
        Some(d) => d,
    };
    match projector::try_detect_win(d) {
        None => false,
        Some(Ok(_)) => true,
        Some(Err(_)) => {
            let mut found = false;
            if let Some(f) = data_as_fork {
                match projector::try_detect_mac(f, None) {
                    None => return false,
                    Some(Ok(_)) => {
                        found = true;
                    },
                    Some(Err(_)) => {
                        found = movie::detect_mac(f).is_ok();
                    },
                }
            }
            found || detect_is_defined(d, 0)
        },
    }
}

/// Recognises a Director file from its resource fork, its data fork, and
/// the data fork read as a resource fork, where these exist.
pub fn detect(fork: Option<&ResourceFork>, data: Option<&[u8]>, data_as_fork: Option<&ResourceFork>) -> (r: Result<Detection, DetectError>)
    requires
        spec_route_defined(opt_fork(fork), opt_slice_view(data), opt_fork(data_as_fork)),
    ensures
        match (r, spec_route(opt_fork(fork), opt_slice_view(data), opt_fork(data_as_fork))) {
            (Ok(d), Route::MacProjector(v)) => d.info matches FileType::Projector(info) && info@ == v
                && d.resource_fork && d.data_fork == data is Some,
            (Ok(d), Route::MacMovie(m)) => d.info == FileType::Movie(m) && d.resource_fork && d.data_fork == data is Some,
            (Ok(d), Route::WinProjector) => d.info matches FileType::Projector(info)
                && spec_detect_win(opt_slice_view(data)->0, spec_pe_name(opt_slice_view(data)->0)) == Detected::Done(info@)
                && !d.resource_fork && d.data_fork,
            (Ok(d), Route::DataProjector(v)) => d.info matches FileType::Projector(info) && info@ == v
                && !d.resource_fork && d.data_fork,
            (Ok(d), Route::DataMovie(m)) => d.info == FileType::Movie(m) && !d.resource_fork && d.data_fork,
            (Ok(d), Route::RiffMovie(m)) => d.info == FileType::Movie(m) && !d.resource_fork && d.data_fork,
            (Err(e), Route::Failed(f)) => e == f,
            _ => false,
        },
{
    if let Some(f) = fork {
        match projector::detect_mac(f, data) {
            Ok(info) => return Ok(Detection { info: FileType::Projector(info), resource_fork: true, data_fork: data.is_some() }),
            Err(_) => {},
        }
        match movie::detect_mac(f) {
            Ok(m) => return Ok(Detection { info: FileType::Movie(m), resource_fork: true, data_fork: data.is_some() }),
            Err(_) => {},
        }
    }
    let d = match data {
        Some(d) => d,
        None => return Err(DetectError::NoDataFile),
    };
    let win = match projector::detect_win(d) {
        Ok(info) => return Ok(Detection { info: FileType::Projector(info), resource_fork: false, data_fork: true }),
        Err(e) => e,
    };
    if let Some(f) = data_as_fork {
        match projector::detect_mac(f, None) {
            Ok(info) => return Ok(Detection { info: FileType::Projector(info), resource_fork: false, data_fork: true }),
            Err(_) => {},
        }
        match movie::detect_mac(f) {
            Ok(m) => return Ok(Detection { info: FileType::Movie(m), resource_fork: false, data_fork: true }),
            Err(_) => {},
        }
    }
    match detect_riff(d, 0) {
        Ok(m) => Ok(Detection { info: FileType::Movie(m), resource_fork: false, data_fork: true }),
        Err(e) => Err(DetectError::NotDirector(win, e)),
    }
}

} // verus!

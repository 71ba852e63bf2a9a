//! Movie playback.

pub mod score;

use crate::config::Platform;
use crate::detection::movie::DetectionInfo as MovieInfo;
use crate::detection::projector::{D3WinMovie, MacString, Movie as ProjectorMovie, MovieView, Platform as ProjectorPlatform, ScriptCode};
use crate::detection::{Detection, FileType, Version};
use vstd::prelude::*;

verus! {

/// The number of the Roman script, which the player falls back on.
pub const ROMAN: i16 = 0;

/// How the player goes through the movies of a detected file.
#[derive(Clone, Debug)]
pub enum PlaylistPlan {
    /// The movies of the RIFF container at this offset of the data fork.
    RiffContainer(u32),
    /// The one movie of the data fork, a RIFF file.
    SingleRiff,
    /// The movies embedded in a Director 3 Windows projector.
    D3Win(Vec<D3WinMovie>),
    /// The external movies of a Director 3 Mac projector.
    D3Mac(Vec<MacString>),
    /// The given number of movies embedded as resources of the resource fork.
    Embeds(u16),
}

/// How the player goes through the movies of a detected file, as values.
pub enum PlaylistPlanView {
    RiffContainer(u32),
    SingleRiff,
    D3Win(MovieView),
    D3Mac(MovieView),
    Embeds(u16),
}

impl View for PlaylistPlan {
    type V = PlaylistPlanView;

    open spec fn view(&self) -> PlaylistPlanView {
        match self {
            PlaylistPlan::RiffContainer(offset) => PlaylistPlanView::RiffContainer(*offset),
            PlaylistPlan::SingleRiff => PlaylistPlanView::SingleRiff,
            PlaylistPlan::D3Win(movies) => PlaylistPlanView::D3Win(ProjectorMovie::D3Win(*movies)@),
            PlaylistPlan::D3Mac(names) => PlaylistPlanView::D3Mac(ProjectorMovie::External(*names)@),
            PlaylistPlan::Embeds(count) => PlaylistPlanView::Embeds(*count),
        }
    }
}

/// Why the movies of a detected file cannot be played.
#[derive(Clone, Copy, Debug, PartialEq, Eq, Structural)]
pub enum PlaylistError {
    /// The movies are resources, and the file has no resource fork.
    MissingResourceFork,
    /// The movies are in the data fork, and the file has no data fork.
    MissingDataFork,
}

/// The platform that a projector platform belongs to.
pub open spec fn spec_platform(platform: ProjectorPlatform) -> Platform {
    match platform {
        ProjectorPlatform::Mac(_) => Platform::Mac,
        ProjectorPlatform::Win(_) => Platform::Win,
    }
}

/// The platform that a projector platform belongs to.
pub fn platform_of(platform: ProjectorPlatform) -> (r: Platform)
    ensures
        r == spec_platform(platform),
{
    match platform {
        ProjectorPlatform::Mac(_) => Platform::Mac,
        ProjectorPlatform::Win(_) => Platform::Win,
    }
}

/// The platform, character set, system resources and movies of a detected
/// file, as the player takes them.
pub struct PlaylistSource {
    pub platform: Platform,
    pub charset: Option<ScriptCode>,
    pub system_resources: Option<Vec<u8>>,
    pub plan: PlaylistPlan,
}

/// The plan for a movie file: a Director 3 movie is the first resource
/// movie of its resource fork; a later one is the RIFF file of its data fork.
pub open spec fn spec_movie_plan(m: MovieInfo, resource_fork: bool, data_fork: bool) -> Result<PlaylistPlanView, PlaylistError> {
    if m.version == Version::D3 {
        if resource_fork { Ok(PlaylistPlanView::Embeds(1)) } else { Err(PlaylistError::MissingResourceFork) }
    } else if data_fork {
        Ok(PlaylistPlanView::SingleRiff)
    } else {
        Err(PlaylistError::MissingDataFork)
    }
}

/// The plan for a projector whose movies are as given.
pub open spec fn spec_projector_plan(movie: MovieView, resource_fork: bool, data_fork: bool) -> Result<PlaylistPlanView, PlaylistError> {
    match movie {
        MovieView::Embedded(count) => if resource_fork {
            Ok(PlaylistPlanView::Embeds(count))
        } else {
            Err(PlaylistError::MissingResourceFork)
        },
        MovieView::D3Win(_) => Ok(PlaylistPlanView::D3Win(movie)),
        MovieView::Internal(offset) => if data_fork {
            Ok(PlaylistPlanView::RiffContainer(offset))
        } else {
            Err(PlaylistError::MissingDataFork)
        },
        MovieView::External(_) => Ok(PlaylistPlanView::D3Mac(movie)),
    }
}

/// Decides how the player goes through the movies of a detected file, and
/// takes from the detection the platform, the character set and the system
/// resources.
pub fn detection_to_playlist(file: &Detection) -> (r: Result<PlaylistSource, PlaylistError>)
    ensures
        match file.info {
            FileType::Projector(p) => match (r, spec_projector_plan(p@.movie, file.resource_fork, file.data_fork)) {
                (Ok(source), Ok(plan)) => {
                    &&& source.plan@ == plan
                    &&& source.platform == spec_platform(p@.config.platform)
                    &&& source.charset == p@.charset
                    &&& match source.system_resources {
                        Some(b) => p@.system_resources == Some(b@),
                        None => p@.system_resources is None,
                    }
                },
                (Err(e), Err(f)) => e == f,
                _ => false,
            },
            FileType::Movie(m) => match (r, spec_movie_plan(m, file.resource_fork, file.data_fork)) {
                (Ok(source), Ok(plan)) => {
                    &&& source.plan@ == plan
                    &&& source.platform == (if m.data_endianness == crate::config::Endian::Big
                        && m.os_type_endianness == crate::config::Endian::Big { Platform::Mac } else { Platform::Win })
                    &&& source.charset is None
                    &&& source.system_resources is None
                },
                (Err(e), Err(f)) => e == f,
                _ => false,
            },
        },
{
    match &file.info {
        FileType::Projector(p) => {
            let platform = platform_of(p.config().platform());
            let charset = p.charset();
            let system_resources = match p.system_resources() {
                Some(b) => Some(vstd::slice::slice_to_vec(b.as_slice())),
                None => None,
            };
            let plan = match p.movie() {
                ProjectorMovie::Embedded(count) => {
                    if !file.resource_fork {
                        return Err(PlaylistError::MissingResourceFork);
                    }
                    PlaylistPlan::Embeds(*count)
                },
                ProjectorMovie::D3Win(movies) => PlaylistPlan::D3Win(clone_movies(movies)),
                ProjectorMovie::Internal(offset) => {
                    if !file.data_fork {
                        return Err(PlaylistError::MissingDataFork);
                    }
                    PlaylistPlan::RiffContainer(*offset)
                },
                ProjectorMovie::External(names) => PlaylistPlan::D3Mac(clone_strings(names)),
            };
            Ok(PlaylistSource { platform, charset, system_resources, plan })
        },
        FileType::Movie(m) => {
            let plan = if let Version::D3 = m.version() {
                if !file.resource_fork {
                    return Err(PlaylistError::MissingResourceFork);
                }
                PlaylistPlan::Embeds(1)
            } else {
                if !file.data_fork {
                    return Err(PlaylistError::MissingDataFork);
                }
                PlaylistPlan::SingleRiff
            };
            Ok(PlaylistSource { platform: m.platform(), charset: None, system_resources: None, plan })
        },
    }
}

/// A copy of a string.
fn clone_string(s: &MacString) -> (r: MacString)
    ensures
        r@ == s@,
{
    match s {
        MacString::Raw(bytes) => MacString::Raw(vstd::slice::slice_to_vec(bytes.as_slice())),
        MacString::Decoded(text) => MacString::Decoded(text.clone()),
    }
}

/// A copy of a list of strings.
fn clone_strings(names: &Vec<MacString>) -> (r: Vec<MacString>)
    ensures
        ProjectorMovie::External(r)@ == ProjectorMovie::External(*names)@,
{
    let mut r: Vec<MacString> = Vec::new();
    let mut i: usize = 0;
    while i < names.len()
        invariant
            i <= names@.len(),
            r@.len() == i,
            forall|k: int| 0 <= k < i ==> (#[trigger] r@[k])@ == names@[k]@,
        decreases names@.len() - i,
    {
        r.push(clone_string(&names[i]));
        i = i + 1;
    }
    assert(ProjectorMovie::External(r)@ == ProjectorMovie::External(*names)@) by {
        assert(Seq::new(r@.len(), |k: int| r@[k]@) =~= Seq::new(names@.len(), |k: int| names@[k]@));
    }
    r
}

/// A copy of a list of Director 3 Windows movies.
fn clone_movies(movies: &Vec<D3WinMovie>) -> (r: Vec<D3WinMovie>)
    ensures
        ProjectorMovie::D3Win(r)@ == ProjectorMovie::D3Win(*movies)@,
{
    let mut r: Vec<D3WinMovie> = Vec::new();
    let mut i: usize = 0;
    while i < movies.len()
        invariant
            i <= movies@.len(),
            r@.len() == i,
            forall|k: int| 0 <= k < i ==> (#[trigger] r@[k])@ == movies@[k]@,
        decreases movies@.len() - i,
    {
        let m = &movies[i];
        r.push(D3WinMovie { filename: clone_string(&m.filename), offset: m.offset, size: m.size });
        i = i + 1;
    }
    assert(ProjectorMovie::D3Win(r)@ == ProjectorMovie::D3Win(*movies)@) by {
        assert(Seq::new(r@.len(), |k: int| r@[k]@) =~= Seq::new(movies@.len(), |k: int| movies@[k]@));
    }
    r
}

/// The character set the player uses: the one asked for, else the one
/// detected, else Roman.
pub fn choose_charset(asked: Option<ScriptCode>, detected: Option<ScriptCode>) -> (r: ScriptCode)
    ensures
        r == match asked {
            Some(c) => c,
            None => match detected {
                Some(c) => c,
                None => ScriptCode(ROMAN),
            },
        },
{
    match asked {
        Some(c) => c,
        None => match detected {
            Some(c) => c,
            None => ScriptCode(ROMAN),
        },
    }
}

} // verus!

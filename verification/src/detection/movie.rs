//! Director movie files.

use crate::config::{Endian, Platform};
use crate::collections::riff::ResourceId;
use crate::resource_fork::{spec_count, spec_find, spec_id_of_name, ResourceFork};
use super::Version;
use vstd::prelude::*;

verus! {

/// The kind of a movie file.
#[derive(Clone, Copy, Debug, PartialEq, Eq, Structural)]
pub enum Kind {
    Accelerator,
    Embedded,
    Movie,
    Cast,
}

/// What detection found out about a movie file.
#[derive(Clone, Copy, Debug, PartialEq, Eq, Structural)]
pub struct DetectionInfo {
    pub os_type_endianness: Endian,
    pub data_endianness: Endian,
    pub version: Version,
    pub kind: Kind,
    pub size: u32,
}

impl DetectionInfo {
    /// The byte order of the data.
    pub fn data_endianness(&self) -> (r: Endian)
        ensures
            r == self.data_endianness,
    {
        self.data_endianness
    }

    /// The byte order of type codes.
    pub fn os_type_endianness(&self) -> (r: Endian)
        ensures
            r == self.os_type_endianness,
    {
        self.os_type_endianness
    }

    /// The kind of the file.
    pub fn kind(&self) -> (r: Kind)
        ensures
            r == self.kind,
    {
        self.kind
    }

    /// The platform the movie was made on, inferred from the byte orders:
    /// Macintosh when both are big-endian.
    pub fn platform(&self) -> (r: Platform)
        ensures
            r == if self.data_endianness == Endian::Big && self.os_type_endianness == Endian::Big {
                Platform::Mac
            } else {
                Platform::Win
            },
    {
        if self.data_endianness == Endian::Big && self.os_type_endianness == Endian::Big {
            Platform::Mac
        } else {
            Platform::Win
        }
    }

    /// The size of the file's data.
    pub fn size(&self) -> (r: u32)
        ensures
            r == self.size,
    {
        self.size
    }

    /// The Director version that made the file.
    pub fn version(&self) -> (r: Version)
        ensures
            r == self.version,
    {
        self.version
    }
}


/// `EMPO`: the resource that marks a Director 3 accelerator.
pub const EMPO: u32 = 0x454d504f;
/// `VWCF`: the configuration resource of a Director 3 movie.
pub const VWCF: u32 = 0x56574346;

/// `Tiles`, the name of the configuration resource that Director's own files
/// carry.
pub open spec fn tiles() -> Seq<u8> {
    seq![0x54u8, 0x69, 0x6c, 0x65, 0x73]
}

/// Why a resource fork is not a Director 3 movie.
#[derive(Clone, Copy, Debug, PartialEq, Eq, Structural)]
pub enum MovieError {
    /// The fork has no movie configuration resource.
    NoConfigResource,
}

/// Recognising a Director 3 Mac movie or accelerator from its resource fork.
pub open spec fn spec_detect_mac(fork: ResourceFork) -> Result<DetectionInfo, MovieError> {
    let resources = fork.resources_view();
    if spec_find(resources, ResourceId { os_type: EMPO, id: 256 }) is Some {
        Ok(DetectionInfo {
            data_endianness: Endian::Big,
            os_type_endianness: Endian::Big,
            version: Version::D3,
            kind: Kind::Accelerator,
            size: 0,
        })
    } else if spec_count(resources, VWCF) > 1 || (spec_count(resources, VWCF) == 1 && spec_id_of_name(resources, VWCF, tiles()) is None) {
        Ok(DetectionInfo {
            data_endianness: Endian::Big,
            os_type_endianness: Endian::Big,
            version: Version::D3,
            kind: Kind::Embedded,
            size: 0,
        })
    } else {
        Err(MovieError::NoConfigResource)
    }
}

/// Recognises a Director 3 Mac movie or accelerator from its resource fork.
pub fn detect_mac(fork: &ResourceFork) -> (r: Result<DetectionInfo, MovieError>)
    ensures
        r == spec_detect_mac(*fork),
{
    if fork.contains(ResourceId { os_type: EMPO, id: 256 }) {
        return Ok(DetectionInfo {
            data_endianness: Endian::Big,
            os_type_endianness: Endian::Big,
            version: Version::D3,
            kind: Kind::Accelerator,
            size: 0,
        });
    }
    let count = fork.count(VWCF);
    let tiles_name: [u8; 5] = [0x54, 0x69, 0x6c, 0x65, 0x73];
    assert(tiles_name@ =~= tiles());
    if count > 1 || (count == 1 && fork.id_of_name(VWCF, &tiles_name).is_none()) {
        Ok(DetectionInfo {
            data_endianness: Endian::Big,
            os_type_endianness: Endian::Big,
            version: Version::D3,
            kind: Kind::Embedded,
            size: 0,
        })
    } else {
        Err(MovieError::NoConfigResource)
    }
}

} // verus!

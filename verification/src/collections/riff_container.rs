//! The index entries of a RIFF file used as a container for other files.
//!
//! When movies and casts are packaged into a projector, each is embedded as a
//! chunk of one RIFF container, and a list chunk says which chunk holds which
//! file.

use crate::bytes::{as_signed32, read_i32, read_u32, u32_at};
use super::riff::ChunkIndex;
use vstd::prelude::*;

verus! {

/// The kind of a file embedded in a RIFF container.
#[derive(Clone, Copy, Debug, PartialEq, Eq, Structural)]
pub enum ChunkFileKind {
    Movie,
    Cast,
    Xtra,
}

impl Default for ChunkFileKind {
    fn default() -> (r: ChunkFileKind)
        ensures
            r == ChunkFileKind::Movie,
    {
        ChunkFileKind::Movie
    }
}

/// The kind that a stored kind number names.
pub open spec fn spec_chunk_file_kind(raw: int) -> Option<ChunkFileKind> {
    if raw == 0 {
        Some(ChunkFileKind::Movie)
    } else if raw == 1 {
        Some(ChunkFileKind::Cast)
    } else if raw == 2 {
        Some(ChunkFileKind::Xtra)
    } else {
        None
    }
}

/// Why an index entry could not be read.
#[derive(Clone, Copy, Debug, PartialEq, Eq, Structural)]
pub enum ChunkFileError {
    /// An entry is four to eight bytes long; this one has the given size.
    BadSize(usize),
    /// The data ended.
    Io,
    /// The kind number names no kind.
    BadKind(u32),
}

/// An index entry for a file embedded in a RIFF container.
#[derive(Clone, Copy, Debug, PartialEq, Eq, Structural)]
pub struct ChunkFile {
    /// The index of the chunk that holds the file.
    pub chunk_index: ChunkIndex,
    /// The kind of the file.
    pub kind: ChunkFileKind,
}

/// The entry stored in `data` from `pos` to its end: a chunk index, then,
/// where there are more than four bytes, a kind number.
pub open spec fn spec_chunk_file(data: Seq<u8>, pos: int, big: bool) -> Result<ChunkFile, ChunkFileError> {
    let size = data.len() - pos;
    if !(4 <= size <= 8) {
        Err(ChunkFileError::BadSize(size as usize))
    } else {
        let chunk_index = ChunkIndex(as_signed32(u32_at(data, pos, big)) as i32);
        if size == 4 {
            Ok(ChunkFile { chunk_index, kind: ChunkFileKind::Movie })
        } else if size < 8 {
            Err(ChunkFileError::Io)
        } else {
            match spec_chunk_file_kind(u32_at(data, pos + 4, big)) {
                Some(kind) => Ok(ChunkFile { chunk_index, kind }),
                None => Err(ChunkFileError::BadKind(u32_at(data, pos + 4, big) as u32)),
            }
        }
    }
}

impl ChunkFile {
    /// The index of the chunk that holds the file.
    pub fn chunk_index(&mut self) -> (r: ChunkIndex)
        ensures
            r == old(self).chunk_index,
            *final(self) == *old(self),
    {
        self.chunk_index
    }

    /// The kind of the file.
    pub fn kind(&mut self) -> (r: ChunkFileKind)
        ensures
            r == old(self).kind,
            *final(self) == *old(self),
    {
        self.kind
    }

    /// Reads the entry stored in `data` from `pos` to its end.
    pub fn read(data: &[u8], pos: usize, big: bool) -> (r: Result<ChunkFile, ChunkFileError>)
        requires
            pos <= data.len(),
        ensures
            r == spec_chunk_file(data@, pos as int, big),
    {
        let size = data.len() - pos;
        if size < 4 || size > 8 {
            return Err(ChunkFileError::BadSize(size));
        }
        let chunk_index = ChunkIndex(read_i32(data, pos, big));
        if size == 4 {
            return Ok(ChunkFile { chunk_index, kind: ChunkFileKind::Movie });
        }
        if size < 8 {
            return Err(ChunkFileError::Io);
        }
        let raw = read_u32(data, pos + 4, big);
        if raw == 0 {
            Ok(ChunkFile { chunk_index, kind: ChunkFileKind::Movie })
        } else if raw == 1 {
            Ok(ChunkFile { chunk_index, kind: ChunkFileKind::Cast })
        } else if raw == 2 {
            Ok(ChunkFile { chunk_index, kind: ChunkFileKind::Xtra })
        } else {
            Err(ChunkFileError::BadKind(raw))
        }
    }
}

} // verus!

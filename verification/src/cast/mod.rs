//! Cast members and cast libraries.

use crate::bytes::{as_signed16, be_u16_at, read_be_i16};
use vstd::prelude::*;

pub mod manager;

verus! {

/// A cast library number.
#[derive(Clone, Copy, Debug, PartialEq, Eq, Structural)]
pub struct LibNum(pub i16);

/// A cast member number within a cast library.
#[derive(Clone, Copy, Debug, PartialEq, Eq, Structural)]
pub struct MemberNum(pub i16);

/// A reference to a cast member: a cast library number and a member number.
#[derive(Clone, Copy, Debug, PartialEq, Eq, Structural)]
pub struct MemberId {
    pub lib: i16,
    pub num: i16,
}

impl MemberId {
    /// A member reference from its library and member numbers.
    pub fn new(lib: i16, num: i16) -> (r: Self)
        ensures
            r == (MemberId { lib, num }),
    {
        MemberId { lib, num }
    }

    /// A reference to a member number in the library numbered zero, which is
    /// how score data written before cast libraries existed refers to members.
    pub fn from_member_num(num: MemberNum) -> (r: Self)
        ensures
            r == (MemberId { lib: 0, num: num.0 }),
    {
        MemberId { lib: 0, num: num.0 }
    }
}

impl Default for MemberId {
    /// The null reference: library zero, member zero.
    fn default() -> (r: Self)
        ensures
            r == (MemberId { lib: 0, num: 0 }),
    {
        MemberId { lib: 0, num: 0 }
    }
}

/// The member reference stored big-endian at `pos`: the library number, then
/// the member number.
pub open spec fn spec_member_id_at(buf: Seq<u8>, pos: int) -> MemberId {
    MemberId {
        lib: as_signed16(be_u16_at(buf, pos)) as i16,
        num: as_signed16(be_u16_at(buf, pos + 2)) as i16,
    }
}

/// Reads the big-endian member reference at `pos`.
pub fn read_member_id(buf: &[u8], pos: usize) -> (r: MemberId)
    requires
        pos + 4 <= buf.len(),
    ensures
        r == spec_member_id_at(buf@, pos as int),
{
    let lib = read_be_i16(buf, pos);
    let num = read_be_i16(buf, pos + 2);
    MemberId { lib, num }
}

/// The member reference, in library zero, of the big-endian member number at
/// `pos`.
pub open spec fn spec_member_num_id_at(buf: Seq<u8>, pos: int) -> MemberId {
    MemberId { lib: 0, num: as_signed16(be_u16_at(buf, pos)) as i16 }
}

/// Reads the big-endian member number at `pos` as a member reference in
/// library zero.
pub fn read_member_num_id(buf: &[u8], pos: usize) -> (r: MemberId)
    requires
        pos + 2 <= buf.len(),
    ensures
        r == spec_member_num_id_at(buf@, pos as int),
{
    MemberId::from_member_num(MemberNum(read_be_i16(buf, pos)))
}

} // verus!

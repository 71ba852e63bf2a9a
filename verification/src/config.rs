//! Movie configuration values shared by several modules.

use vstd::prelude::*;

verus! {

/// A byte order.
#[derive(Clone, Copy, Debug, PartialEq, Eq, Structural)]
pub enum Endian {
    Big,
    Little,
}

/// The platform a movie was authored on.
#[derive(Clone, Copy, Debug, PartialEq, Eq, Structural)]
pub enum Platform {
    Mac,
    Win,
}

/// Four ASCII characters packed into a number, first character most
/// significant: the type code of a resource or chunk.
pub type OsType = u32;

/// The type code whose characters are `a`, `b`, `c`, `d`.
pub open spec fn os_type(a: u8, b: u8, c: u8, d: u8) -> int {
    ((a * 256 + b) * 256 + c) * 256 + d
}

} // verus!

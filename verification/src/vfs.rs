//! Files with two forks.

use vstd::prelude::*;

verus! {

/// A fork of a Macintosh file.
#[derive(Clone, Copy, Debug, PartialEq, Eq, Structural)]
pub enum ForkKind {
    Data,
    Resource,
}

} // verus!

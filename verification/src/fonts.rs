//! Font maps, which convert fonts and character sets between Mac and
//! Windows.

use vstd::prelude::*;

verus! {

/// The text of an extended font map (`FXmp`), which Director copies from
/// `FONTMAP.TXT`.
#[derive(Clone, Debug, Default)]
pub struct Source(pub Vec<u8>);

/// One entry of a font map list: a value and what it maps to.
#[derive(Clone, Copy, Debug, PartialEq, Eq, Structural)]
pub struct Value {
    pub from: u16,
    pub to: u16,
}

/// A font map list.
#[derive(Clone, Debug, Default)]
pub struct MapList(pub Vec<Value>);

} // verus!

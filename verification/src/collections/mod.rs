//! Director container file formats.

pub mod riff;
pub mod riff_container;

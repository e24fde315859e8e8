//! The audio encodings that a format tag names.
use crate::chunk::{le16, read_le16};
use vstd::prelude::*;

verus! {

/// An audio encoding.
#[derive(Debug, PartialEq, Eq, Structural, Clone, Copy)]
pub enum Format {
    Pcm,
    IeeeFloat,
    Alaw,
    Mulaw,
    Extensible,
    Unknown,
}

/// The encoding that a numeric format tag names.
pub open spec fn format_of_tag(tag: u16) -> Format {
    if tag == 0x0001 {
        Format::Pcm
    } else if tag == 0x0003 {
        Format::IeeeFloat
    } else if tag == 0x0006 {
        Format::Alaw
    } else if tag == 0x0007 {
        Format::Mulaw
    } else if tag == 0xFFFE {
        Format::Extensible
    } else {
        Format::Unknown
    }
}

impl Format {
    /// The encoding that a numeric format tag names.
    pub fn from_tag(tag: u16) -> (r: Format)
        ensures
            r == format_of_tag(tag),
    {
        if tag == 0x0001 {
            Format::Pcm
        } else if tag == 0x0003 {
            Format::IeeeFloat
        } else if tag == 0x0006 {
            Format::Alaw
        } else if tag == 0x0007 {
            Format::Mulaw
        } else if tag == 0xFFFE {
            Format::Extensible
        } else {
            Format::Unknown
        }
    }

    /// The encoding that a little-endian two-byte format tag names.
    pub fn from_bytes(bytes: &[u8; 2]) -> (r: Format)
        ensures
            r == format_of_tag(le16(bytes@, 0)),
    {
        Format::from_tag(read_le16(bytes.as_slice(), 0))
    }

    /// Every encoding but plain PCM needs a `fact` chunk.
    pub fn requires_fact_chunk(&self) -> (r: bool)
        ensures
            r == (*self != Format::Pcm),
    {
        !matches!(self, Format::Pcm)
    }
}

} // verus!

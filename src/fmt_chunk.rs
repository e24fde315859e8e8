//! The `fmt ` chunk: how the samples are encoded.
use crate::chunk::{field_fault, le16, le32, short_fault, Chunk, ChunkView};
use crate::errors::{ChunkError, Fault};
use crate::text::{decimal, push_decimal};
use vstd::prelude::*;
use vstd::string::*;

verus! {

/// A decoded `fmt ` chunk. The last three fields are present exactly when the
/// extension size is 22.
#[derive(Debug, PartialEq, Clone, Copy)]
pub struct Fmt {
    pub format_tag: [u8; 2],
    pub channels: u16,
    pub samples_per_sec: u32,
    pub avg_bytes_per_sec: u32,
    pub block_align: u16,
    pub bits_per_sample: u16,
    pub extension_size: Option<u16>,
    pub valid_bits_per_sample: Option<u16>,
    pub channel_mask: Option<u32>,
    pub sub_format: Option<[u8; 16]>,
}

/// A decoded `fmt ` chunk as mathematical values.
pub struct FmtView {
    pub format_tag: Seq<u8>,
    pub channels: u16,
    pub samples_per_sec: u32,
    pub avg_bytes_per_sec: u32,
    pub block_align: u16,
    pub bits_per_sample: u16,
    pub extension_size: Option<u16>,
    pub valid_bits_per_sample: Option<u16>,
    pub channel_mask: Option<u32>,
    pub sub_format: Option<Seq<u8>>,
}

impl View for Fmt {
    type V = FmtView;

    open spec fn view(&self) -> FmtView {
        FmtView {
            format_tag: self.format_tag@,
            channels: self.channels,
            samples_per_sec: self.samples_per_sec,
            avg_bytes_per_sec: self.avg_bytes_per_sec,
            block_align: self.block_align,
            bits_per_sample: self.bits_per_sample,
            extension_size: self.extension_size,
            valid_bits_per_sample: self.valid_bits_per_sample,
            channel_mask: self.channel_mask,
            sub_format: match self.sub_format {
                Some(g) => Some(g@),
                None => None,
            },
        }
    }
}

/// The extension size that a payload of `p.len()` bytes declares, if any.
pub open spec fn extension_size_of(p: Seq<u8>) -> Option<u16> {
    if p.len() > 16 {
        Some(le16(p, 16))
    } else {
        None
    }
}

/// The record that a well-formed `fmt ` payload `p` holds.
pub open spec fn fmt_view(p: Seq<u8>) -> FmtView {
    let extended = extension_size_of(p) == Some(22u16);
    FmtView {
        format_tag: p.take(2),
        channels: le16(p, 2),
        samples_per_sec: le32(p, 4),
        avg_bytes_per_sec: le32(p, 8),
        block_align: le16(p, 12),
        bits_per_sample: le16(p, 14),
        extension_size: extension_size_of(p),
        valid_bits_per_sample: if extended { Some(le16(p, 18)) } else { None },
        channel_mask: if extended { Some(le32(p, 20)) } else { None },
        sub_format: if extended { Some(p.subrange(24, 40)) } else { None },
    }
}

/// Why an extension size that is not the count of the bytes after it fails.
pub open spec fn mismatch_reason(reported: nat, found: nat) -> Seq<char> {
    "Extension size mismatch. Reported: "@ + decimal(reported) + ". Found: "@ + decimal(found)
}

/// Why an extension size other than 0 or 22 fails.
pub open spec fn invalid_extension_reason(reported: nat) -> Seq<char> {
    "Invalid fmt extension size: "@ + decimal(reported)
}

/// Why `c` cannot be decoded as a `fmt ` chunk, if it cannot: a wrong code,
/// a field cut short, or an extension size that is not the count of bytes
/// after it or is neither 0 nor 22.
pub open spec fn fmt_fault(c: ChunkView) -> Option<Fault> {
    let p = c.payload;
    if c.id != "fmt "@ {
        Some(Fault::IncorrectChunk { expected: "fmt "@, actual: c.id })
    } else if p.len() < 2 {
        short_fault(c, "wFormatTag"@, 2)
    } else if p.len() < 4 {
        short_fault(c.skip(2), "wChannels"@, 2)
    } else if p.len() < 8 {
        short_fault(c.skip(4), "dwSamplesPerSec"@, 4)
    } else if p.len() < 12 {
        short_fault(c.skip(8), "dwAvgBytesPerSec"@, 4)
    } else if p.len() < 14 {
        short_fault(c.skip(12), "wBlockAlign"@, 2)
    } else if p.len() < 16 {
        short_fault(c.skip(14), "wBitsPerSample"@, 2)
    } else if p.len() == 16 {
        None
    } else if p.len() < 18 {
        short_fault(c.skip(16), "cbSize"@, 2)
    } else if le16(p, 16) != p.len() - 18 {
        let reason = mismatch_reason(le16(p, 16) as nat, (p.len() - 18) as nat);
        Some(field_fault(c.skip(18), "cbSize"@, reason))
    } else if le16(p, 16) == 0 || le16(p, 16) == 22 {
        None
    } else {
        Some(field_fault(c.skip(18), "cbSize"@, invalid_extension_reason(le16(p, 16) as nat)))
    }
}

/// `r` is what decoding the chunk `c` as a `fmt ` chunk gives.
pub open spec fn fmt_decoded(c: ChunkView, r: Result<Fmt, ChunkError>) -> bool {
    match fmt_fault(c) {
        Some(f) => r matches Err(e) && e@ == f,
        None => r matches Ok(v) && v@ == fmt_view(c.payload),
    }
}

impl Fmt {
    /// Decodes a `fmt ` chunk: tag, channels, sample rate, byte rate, block
    /// alignment and sample width, then, where more bytes follow, an
    /// extension size that must count them exactly: 0, or 22 for the valid
    /// sample width, the channel mask and the sub-format GUID.
    pub fn from_chunk(chunk: Chunk) -> (r: Result<Fmt, ChunkError>)
        ensures
            fmt_decoded(chunk@, r),
    {
        let ghost c = chunk@;
        let ghost p = c.payload;
        let mut chunk = chunk;
        if let Err(e) = chunk.validate_type("fmt ") {
            return Err(ChunkError::IncorrectChunk(e));
        }
        let format_tag = match chunk.data_bytes::<2>("wFormatTag") {
            Ok(v) => v,
            Err(e) => return Err(ChunkError::FieldParse(e)),
        };
        assert(chunk@ == c.skip(2));
        let channels = match chunk.data_u16("wChannels") {
            Ok(v) => v,
            Err(e) => return Err(ChunkError::FieldParse(e)),
        };
        assert(chunk@.payload =~= p.skip(4));
        assert(chunk@ == c.skip(4));
        let samples_per_sec = match chunk.data_u32("dwSamplesPerSec") {
            Ok(v) => v,
            Err(e) => return Err(ChunkError::FieldParse(e)),
        };
        assert(chunk@.payload =~= p.skip(8));
        assert(chunk@ == c.skip(8));
        let avg_bytes_per_sec = match chunk.data_u32("dwAvgBytesPerSec") {
            Ok(v) => v,
            Err(e) => return Err(ChunkError::FieldParse(e)),
        };
        assert(chunk@.payload =~= p.skip(12));
        assert(chunk@ == c.skip(12));
        let block_align = match chunk.data_u16("wBlockAlign") {
            Ok(v) => v,
            Err(e) => return Err(ChunkError::FieldParse(e)),
        };
        assert(chunk@.payload =~= p.skip(14));
        assert(chunk@ == c.skip(14));
        let bits_per_sample = match chunk.data_u16("wBitsPerSample") {
            Ok(v) => v,
            Err(e) => return Err(ChunkError::FieldParse(e)),
        };
        assert(chunk@.payload =~= p.skip(16));
        assert(chunk@ == c.skip(16));
        let remaining = crate::buffer::as_slice(&chunk.data).len();
        if remaining == 0 {
            return Ok(Fmt {
                format_tag,
                channels,
                samples_per_sec,
                avg_bytes_per_sec,
                block_align,
                bits_per_sample,
                extension_size: None,
                valid_bits_per_sample: None,
                channel_mask: None,
                sub_format: None,
            });
        }
        let extension_size = match chunk.data_u16("cbSize") {
            Ok(v) => v,
            Err(e) => return Err(ChunkError::FieldParse(e)),
        };
        assert(chunk@.payload =~= p.skip(18));
        assert(chunk@ == c.skip(18));
        let found = crate::buffer::as_slice(&chunk.data).len();
        if extension_size as usize != found {
            let mut reason = String::from_str("Extension size mismatch. Reported: ");
            push_decimal(&mut reason, extension_size as u64);
            reason.append(". Found: ");
            push_decimal(&mut reason, found as u64);
            return Err(ChunkError::FieldParse(chunk.field_error("cbSize", reason)));
        }
        if extension_size == 0 {
            return Ok(Fmt {
                format_tag,
                channels,
                samples_per_sec,
                avg_bytes_per_sec,
                block_align,
                bits_per_sample,
                extension_size: Some(0),
                valid_bits_per_sample: None,
                channel_mask: None,
                sub_format: None,
            });
        }
        if extension_size != 22 {
            let mut reason = String::from_str("Invalid fmt extension size: ");
            push_decimal(&mut reason, extension_size as u64);
            return Err(ChunkError::FieldParse(chunk.field_error("cbSize", reason)));
        }
        let valid_bits_per_sample = match chunk.data_u16("wValidBitsPerSample") {
            Ok(v) => v,
            Err(e) => return Err(ChunkError::FieldParse(e)),
        };
        assert(chunk@.payload =~= p.skip(20));
        let channel_mask = match chunk.data_u32("dwChannelMask") {
            Ok(v) => v,
            Err(e) => return Err(ChunkError::FieldParse(e)),
        };
        assert(chunk@.payload =~= p.skip(24));
        let sub_format = match chunk.data_bytes::<16>("SubFormat") {
            Ok(v) => v,
            Err(e) => return Err(ChunkError::FieldParse(e)),
        };
        assert(sub_format@ =~= p.subrange(24, 40));
        Ok(Fmt {
            format_tag,
            channels,
            samples_per_sec,
            avg_bytes_per_sec,
            block_align,
            bits_per_sample,
            extension_size: Some(22),
            valid_bits_per_sample: Some(valid_bits_per_sample),
            channel_mask: Some(channel_mask),
            sub_format: Some(sub_format),
        })
    }
}

/// Decoding is a function of the chunk: two decodings of equal chunks give
/// equal records, or equal faults.
pub proof fn lemma_fmt_decoding_repeatable(
    c1: ChunkView,
    c2: ChunkView,
    r1: Result<Fmt, ChunkError>,
    r2: Result<Fmt, ChunkError>,
)
    requires
        c1 == c2,
        fmt_decoded(c1, r1),
        fmt_decoded(c2, r2),
    ensures
        match (r1, r2) {
            (Ok(a), Ok(b)) => a == b,
            (Err(e1), Err(e2)) => e1@ == e2@,
            _ => false,
        },
{
    if let (Ok(a), Ok(b)) = (r1, r2) {
        assert(a.format_tag@ =~= b.format_tag@);
        assert(a.format_tag == b.format_tag);
        if let (Some(g), Some(h)) = (a.sub_format, b.sub_format) {
            assert(g@ =~= h@);
            assert(g == h);
        }
    }
}

/// A `fmt ` chunk, read from its start, with an extension size that is not
/// the count of the bytes after it, or is neither 0 nor 22, fails with a field
/// error naming `cbSize` at offset 18, just past the extension size.
pub proof fn lemma_bad_extension_size(c: ChunkView, r: Result<Fmt, ChunkError>)
    requires
        c.id == "fmt "@,
        c.size == c.payload.len(),
        c.payload.len() >= 18,
        le16(c.payload, 16) != c.payload.len() - 18 || (le16(c.payload, 16) != 0 && le16(
            c.payload,
            16,
        ) != 22),
        fmt_decoded(c, r),
    ensures
        r matches Err(e) && e@ matches Fault::FieldParse { code, field, position, .. }
            && code == "fmt "@ && field == "cbSize"@ && position == 18,
{
}

} // verus!

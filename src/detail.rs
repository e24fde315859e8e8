//! The summary of a WAVE file: the raw fields of its format chunk and the
//! values derived from them.
use crate::chunk::{le16, read_le16};
use crate::formats::{format_of_tag, Format};
use crate::text::{guid_text, parse_guid};
use vstd::prelude::*;

verus! {

/// The number of named speaker positions.
pub const SPEAKER_COUNT: usize = 18;

/// The role of a channel, each named one with its bit of a channel mask.
#[derive(Debug, PartialEq, Eq, Structural, Clone, Copy)]
#[allow(non_camel_case_types, clippy::upper_case_acronyms)]
pub enum SpeakerPosition {
    FRONT_LEFT,
    FRONT_RIGHT,
    FRONT_CENTER,
    LOW_FREQUENCY,
    BACK_LEFT,
    BACK_RIGHT,
    FRONT_LEFT_OF_CENTER,
    FRONT_RIGHT_OF_CENTER,
    BACK_CENTER,
    SIDE_LEFT,
    SIDE_RIGHT,
    TOP_CENTER,
    TOP_FRONT_LEFT,
    TOP_FRONT_CENTER,
    TOP_FRONT_RIGHT,
    TOP_BACK_LEFT,
    TOP_BACK_CENTER,
    TOP_BACK_RIGHT,
    /// A channel that the mask gives no position.
    RESERVED,
}

/// The bit of a position in a channel mask (all bits for `RESERVED`).
pub open spec fn speaker_bit(p: SpeakerPosition) -> u32 {
    match p {
        SpeakerPosition::FRONT_LEFT => 0x00000001,
        SpeakerPosition::FRONT_RIGHT => 0x00000002,
        SpeakerPosition::FRONT_CENTER => 0x00000004,
        SpeakerPosition::LOW_FREQUENCY => 0x00000008,
        SpeakerPosition::BACK_LEFT => 0x00000010,
        SpeakerPosition::BACK_RIGHT => 0x00000020,
        SpeakerPosition::FRONT_LEFT_OF_CENTER => 0x00000040,
        SpeakerPosition::FRONT_RIGHT_OF_CENTER => 0x00000080,
        SpeakerPosition::BACK_CENTER => 0x00000100,
        SpeakerPosition::SIDE_LEFT => 0x00000200,
        SpeakerPosition::SIDE_RIGHT => 0x00000400,
        SpeakerPosition::TOP_CENTER => 0x00000800,
        SpeakerPosition::TOP_FRONT_LEFT => 0x00001000,
        SpeakerPosition::TOP_FRONT_CENTER => 0x00002000,
        SpeakerPosition::TOP_FRONT_RIGHT => 0x00004000,
        SpeakerPosition::TOP_BACK_LEFT => 0x00008000,
        SpeakerPosition::TOP_BACK_CENTER => 0x00010000,
        SpeakerPosition::TOP_BACK_RIGHT => 0x00020000,
        SpeakerPosition::RESERVED => 0xFFFF_FFFF,
    }
}

/// The named position at place `i`, in ascending order of bits.
pub open spec fn speaker_at(i: int) -> SpeakerPosition {
    if i == 0 {
        SpeakerPosition::FRONT_LEFT
    } else     if i == 1 {
        SpeakerPosition::FRONT_RIGHT
    } else     if i == 2 {
        SpeakerPosition::FRONT_CENTER
    } else     if i == 3 {
        SpeakerPosition::LOW_FREQUENCY
    } else     if i == 4 {
        SpeakerPosition::BACK_LEFT
    } else     if i == 5 {
        SpeakerPosition::BACK_RIGHT
    } else     if i == 6 {
        SpeakerPosition::FRONT_LEFT_OF_CENTER
    } else     if i == 7 {
        SpeakerPosition::FRONT_RIGHT_OF_CENTER
    } else     if i == 8 {
        SpeakerPosition::BACK_CENTER
    } else     if i == 9 {
        SpeakerPosition::SIDE_LEFT
    } else     if i == 10 {
        SpeakerPosition::SIDE_RIGHT
    } else     if i == 11 {
        SpeakerPosition::TOP_CENTER
    } else     if i == 12 {
        SpeakerPosition::TOP_FRONT_LEFT
    } else     if i == 13 {
        SpeakerPosition::TOP_FRONT_CENTER
    } else     if i == 14 {
        SpeakerPosition::TOP_FRONT_RIGHT
    } else     if i == 15 {
        SpeakerPosition::TOP_BACK_LEFT
    } else     if i == 16 {
        SpeakerPosition::TOP_BACK_CENTER
    } else     if i == 17 {
        SpeakerPosition::TOP_BACK_RIGHT
    } else {
        SpeakerPosition::RESERVED
    }
}

/// The mask that assigns positions: an absent or zero mask stands for all
/// positions.
pub open spec fn effective_mask(mask: Option<u32>) -> u32 {
    match mask {
        Some(m) => if m == 0 { 0xFFFF_FFFF } else { m },
        None => 0xFFFF_FFFF,
    }
}

/// The positions among the first `n` whose bits `m` sets, in order.
pub open spec fn chosen(m: u32, n: nat) -> Seq<SpeakerPosition>
    decreases n,
{
    if n == 0 {
        Seq::empty()
    } else {
        let before = chosen(m, (n - 1) as nat);
        let p = speaker_at(n - 1);
        if m & speaker_bit(p) != 0 {
            before.push(p)
        } else {
            before
        }
    }
}

/// The positions of `channels` channels under `mask`: the first of the
/// positions that the mask selects, then `RESERVED` for each channel left.
pub open spec fn positions_for(mask: Option<u32>, channels: nat) -> Seq<SpeakerPosition> {
    let c = chosen(effective_mask(mask), SPEAKER_COUNT as nat);
    if c.len() >= channels {
        c.take(channels as int)
    } else {
        c + Seq::new((channels - c.len()) as nat, |i: int| SpeakerPosition::RESERVED)
    }
}

/// Positions chosen among fewer places are a prefix of those chosen among
/// more.
pub proof fn lemma_chosen_prefix(m: u32, i: nat, j: nat)
    requires
        i <= j,
    ensures
        chosen(m, i).len() <= chosen(m, j).len(),
        chosen(m, j).take(chosen(m, i).len() as int) == chosen(m, i),
    decreases j,
{
    if i < j {
        lemma_chosen_prefix(m, i, (j - 1) as nat);
        let a = chosen(m, i);
        let b = chosen(m, (j - 1) as nat);
        assert(chosen(m, j).take(a.len() as int) =~= b.take(a.len() as int));
    } else {
        assert(chosen(m, j).take(chosen(m, i).len() as int) =~= chosen(m, i));
    }
}

impl SpeakerPosition {
    /// The bit of this position in a channel mask (all bits for `RESERVED`).
    pub fn bits(&self) -> (r: u32)
        ensures
            r == speaker_bit(*self),
    {
        match self {
            SpeakerPosition::FRONT_LEFT => 0x00000001,
            SpeakerPosition::FRONT_RIGHT => 0x00000002,
            SpeakerPosition::FRONT_CENTER => 0x00000004,
            SpeakerPosition::LOW_FREQUENCY => 0x00000008,
            SpeakerPosition::BACK_LEFT => 0x00000010,
            SpeakerPosition::BACK_RIGHT => 0x00000020,
            SpeakerPosition::FRONT_LEFT_OF_CENTER => 0x00000040,
            SpeakerPosition::FRONT_RIGHT_OF_CENTER => 0x00000080,
            SpeakerPosition::BACK_CENTER => 0x00000100,
            SpeakerPosition::SIDE_LEFT => 0x00000200,
            SpeakerPosition::SIDE_RIGHT => 0x00000400,
            SpeakerPosition::TOP_CENTER => 0x00000800,
            SpeakerPosition::TOP_FRONT_LEFT => 0x00001000,
            SpeakerPosition::TOP_FRONT_CENTER => 0x00002000,
            SpeakerPosition::TOP_FRONT_RIGHT => 0x00004000,
            SpeakerPosition::TOP_BACK_LEFT => 0x00008000,
            SpeakerPosition::TOP_BACK_CENTER => 0x00010000,
            SpeakerPosition::TOP_BACK_RIGHT => 0x00020000,
            SpeakerPosition::RESERVED => 0xFFFF_FFFF,
        }
    }

    /// The named position at place `i`, in ascending order of bits.
    pub fn at(i: usize) -> (r: SpeakerPosition)
        requires
            i < SPEAKER_COUNT,
        ensures
            r == speaker_at(i as int),
    {
        if i == 0 {
            SpeakerPosition::FRONT_LEFT
        } else         if i == 1 {
            SpeakerPosition::FRONT_RIGHT
        } else         if i == 2 {
            SpeakerPosition::FRONT_CENTER
        } else         if i == 3 {
            SpeakerPosition::LOW_FREQUENCY
        } else         if i == 4 {
            SpeakerPosition::BACK_LEFT
        } else         if i == 5 {
            SpeakerPosition::BACK_RIGHT
        } else         if i == 6 {
            SpeakerPosition::FRONT_LEFT_OF_CENTER
        } else         if i == 7 {
            SpeakerPosition::FRONT_RIGHT_OF_CENTER
        } else         if i == 8 {
            SpeakerPosition::BACK_CENTER
        } else         if i == 9 {
            SpeakerPosition::SIDE_LEFT
        } else         if i == 10 {
            SpeakerPosition::SIDE_RIGHT
        } else         if i == 11 {
            SpeakerPosition::TOP_CENTER
        } else         if i == 12 {
            SpeakerPosition::TOP_FRONT_LEFT
        } else         if i == 13 {
            SpeakerPosition::TOP_FRONT_CENTER
        } else         if i == 14 {
            SpeakerPosition::TOP_FRONT_RIGHT
        } else         if i == 15 {
            SpeakerPosition::TOP_BACK_LEFT
        } else         if i == 16 {
            SpeakerPosition::TOP_BACK_CENTER
        } else {
            SpeakerPosition::TOP_BACK_RIGHT
        }
    }

    /// Assigns positions to `channels` channels: the named positions in
    /// ascending order of bits, those whose bit `mask` sets (all of them for
    /// an absent or zero mask), one per channel; `RESERVED` for channels left
    /// over.
    pub fn from_mask(mask: Option<u32>, channels: usize) -> (r: Vec<SpeakerPosition>)
        ensures
            r@ == positions_for(mask, channels as nat),
    {
        let m: u32 = match mask {
            Some(x) => if x == 0 { 0xFFFF_FFFF } else { x },
            None => 0xFFFF_FFFF,
        };
        let mut positions: Vec<SpeakerPosition> = Vec::new();
        let mut i: usize = 0;
        while i < SPEAKER_COUNT && positions.len() < channels
            invariant
                i <= SPEAKER_COUNT,
                m == effective_mask(mask),
                positions@ == chosen(m, i as nat),
                positions@.len() <= channels,
            decreases SPEAKER_COUNT - i,
        {
            let p = SpeakerPosition::at(i);
            if m & p.bits() != 0 {
                positions.push(p);
            }
            i = i + 1;
        }
        proof {
            lemma_chosen_prefix(m, i as nat, SPEAKER_COUNT as nat);
        }
        let ghost c = chosen(m, SPEAKER_COUNT as nat);
        let ghost found = positions@.len();
        while positions.len() < channels
            invariant
                found <= positions@.len() <= channels,
                found == c.len() || found == channels,
                positions@.take(found as int) == c.take(found as int),
                found <= c.len(),
                forall|k: int|
                    found <= k < positions@.len() ==> positions@[k] == SpeakerPosition::RESERVED,
            decreases channels - positions@.len(),
        {
            positions.push(SpeakerPosition::RESERVED);
            assert(positions@.take(found as int) =~= c.take(found as int));
        }
        assert(positions@ =~= positions_for(mask, channels as nat));
        positions
    }
}

/// The raw fields of a WAVE file's format, and its sample count.
#[derive(Debug, PartialEq, Clone, Copy)]
pub struct RawDetail {
    pub format_tag: u16,
    pub channels: usize,
    pub sample_rate: usize,
    pub data_rate: usize,
    pub block_size: usize,
    /// Valid bits per sample where the format gives them, else bits per sample.
    pub sample_depth: usize,
    pub channel_mask: Option<u32>,
    pub subformat: Option<[u8; 16]>,
    /// Samples per channel.
    pub total_samples: usize,
}

/// What the summary of a file says: its encoding, size and channel layout.
/// The duration in seconds is `total_samples / sample_rate`.
#[derive(Debug, PartialEq)]
pub struct WavDetail {
    pub format: Format,
    pub channels: usize,
    pub bit_depth: usize,
    pub sample_rate: usize,
    pub total_samples: usize,
    pub channel_positions: Vec<SpeakerPosition>,
}

/// The last 14 bytes of a sub-format GUID that carries a format tag in its
/// first two.
pub open spec fn base_guid_tail() -> Seq<u8> {
    seq![0x00u8, 0x00, 0x00, 0x00, 0x10, 0x00, 0x80, 0x00, 0x00, 0xAA, 0x00, 0x38, 0x9B, 0x71]
}

/// The encoding of a file: the one its tag names, except that an extensible
/// format takes it from the first two bytes of the sub-format GUID, where the
/// rest of the GUID is the base one; any other GUID, or none, is unknown.
pub open spec fn resolved_format(tag: u16, subformat: Option<Seq<u8>>) -> Format {
    if format_of_tag(tag) == Format::Extensible {
        match subformat {
            Some(g) => if g.subrange(2, 16) == base_guid_tail() {
                format_of_tag(le16(g, 0))
            } else {
                Format::Unknown
            },
            None => Format::Unknown,
        }
    } else {
        format_of_tag(tag)
    }
}

impl RawDetail {
    /// The sub-format GUID written as text, if the format has one.
    pub fn get_subformat(&self) -> (r: Option<String>)
        ensures
            r is Some <==> self.subformat is Some,
            r matches Some(t) ==> t@ == guid_text(self.subformat->Some_0@),
    {
        match self.subformat {
            Some(g) => Some(parse_guid(g)),
            None => None,
        }
    }

    /// The sub-format GUID as a sequence, if the format has one.
    pub open spec fn subformat_view(&self) -> Option<Seq<u8>> {
        match self.subformat {
            Some(g) => Some(g@),
            None => None,
        }
    }
}

/// Whether the last 14 bytes of `g` are those of the base GUID.
fn has_base_guid_tail(g: &[u8; 16]) -> (r: bool)
    ensures
        r == (g@.subrange(2, 16) == base_guid_tail()),
{
    let tail: [u8; 14] = [
        0x00, 0x00, 0x00, 0x00, 0x10, 0x00, 0x80, 0x00, 0x00, 0xAA, 0x00, 0x38, 0x9B, 0x71,
    ];
    assert(tail@ =~= base_guid_tail());
    let mut k: usize = 0;
    while k < 14
        invariant
            k <= 14,
            tail@ == base_guid_tail(),
            forall|j: int| 0 <= j < k ==> g@[j + 2] == tail@[j],
        decreases 14 - k,
    {
        if g[k + 2] != tail[k] {
            assert(g@.subrange(2, 16)[k as int] != base_guid_tail()[k as int]);
            return false;
        }
        k = k + 1;
    }
    assert(g@.subrange(2, 16) =~= base_guid_tail());
    true
}

/// The encoding of a file with format tag `tag` and sub-format GUID `subformat`.
pub fn resolve_format(tag: u16, subformat: &Option<[u8; 16]>) -> (r: Format)
    ensures
        r == resolved_format(
            tag,
            match subformat {
                Some(g) => Some(g@),
                None => None,
            },
        ),
{
    match Format::from_tag(tag) {
        Format::Extensible => match subformat {
            Some(g) => if has_base_guid_tail(g) {
                Format::from_tag(read_le16(g.as_slice(), 0))
            } else {
                Format::Unknown
            },
            None => Format::Unknown,
        },
        other => other,
    }
}

impl WavDetail {
    /// The summary of the raw fields: the resolved encoding, the sample depth
    /// as bit depth, and a position for each channel.
    pub fn from_raw(raw: &RawDetail) -> (r: WavDetail)
        ensures
            r.format == resolved_format(raw.format_tag, raw.subformat_view()),
            r.channels == raw.channels,
            r.bit_depth == raw.sample_depth,
            r.sample_rate == raw.sample_rate,
            r.total_samples == raw.total_samples,
            r.channel_positions@ == positions_for(raw.channel_mask, raw.channels as nat),
    {
        let format = resolve_format(raw.format_tag, &raw.subformat);
        WavDetail {
            format,
            channels: raw.channels,
            bit_depth: raw.sample_depth,
            sample_rate: raw.sample_rate,
            total_samples: raw.total_samples,
            channel_positions: SpeakerPosition::from_mask(raw.channel_mask, raw.channels),
        }
    }
}

} // verus!

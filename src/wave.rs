//! Walking a RIFF/WAVE file: the envelope, the format chunk, the optional
//! sample count, the tags, and the size of the audio data.
use crate::buffer::{bytes_view, chars_of};
use crate::chunk::{
    after_chunk, field_fault, front_chunk, header_fault, le16, lemma_after_chunk_shorter,
    read_le16, text_fault, Chunk, ChunkView,
};
use crate::detail::{positions_for, resolve_format, resolved_format, RawDetail, WavDetail};
use crate::errors::{ChunkError, FatalError, Fault, IncorrectChunkError, MissingChunkError};
use crate::fact_chunk::{fact_outcome, Fact};
use crate::fmt_chunk::{fmt_fault, fmt_view, Fmt, FmtView};
use crate::formats::Format;
use crate::list_chunk::{list_outcome, list_tags, InfoChunk, List, TagMap};
use bytes::Bytes;
use vstd::prelude::*;
use vstd::string::*;

verus! {

/// What a walk over a WAVE body collects up to its `data` chunk.
pub struct Collected {
    pub fmt: FmtView,
    pub fact: Option<u32>,
    pub tags: Map<InfoChunk, Seq<char>>,
    pub data_size: nat,
}

/// Where a walk over a WAVE body stands.
pub enum Stage {
    /// No format chunk yet.
    SeekingFormat,
    /// Past the format chunk, before the `data` chunk.
    Collecting { fmt: FmtView, fact: Option<u32>, tags: Map<InfoChunk, Seq<char>> },
}

/// What one chunk does to a walk.
pub enum Step {
    Continue(Stage),
    Done(Collected),
    Fail(Fault),
}

/// One of the chunk codes that a walk decodes.
pub open spec fn is_known_code(id: Seq<char>) -> bool {
    id == "fmt "@ || id == "fact"@ || id == "data"@ || id == "LIST"@
}

/// The encoding that a format chunk resolves to.
pub open spec fn fmt_format(f: FmtView) -> Format {
    resolved_format(le16(f.format_tag, 0), f.sub_format)
}

/// The tags after a `LIST` chunk `c`: those of an `INFO` list that decodes
/// replace the earlier ones of the same tags; any other list leaves them.
pub open spec fn tags_after_list(tags: Map<InfoChunk, Seq<char>>, c: ChunkView) -> Map<
    InfoChunk,
    Seq<char>,
> {
    match list_outcome(c) {
        Ok(l) => match list_tags(l) {
            Some(m) => tags.union_prefer_right(m),
            None => tags,
        },
        Err(_) => tags,
    }
}

/// What the chunk `c` does to a walk at `stage`. Before the format chunk,
/// chunks of unknown codes are skipped and one of another known code is an
/// error. After it, a second format or `fact` chunk is an error, a `LIST`
/// chunk adds its tags, unknown chunks are skipped, and the `data` chunk ends
/// the walk, unless the format needs a `fact` chunk that has not come.
pub open spec fn step(stage: Stage, c: ChunkView) -> Step {
    match stage {
        Stage::SeekingFormat => if c.id == "fmt "@ {
            match fmt_fault(c) {
                Some(f) => Step::Fail(f),
                None => Step::Continue(
                    Stage::Collecting { fmt: fmt_view(c.payload), fact: None, tags: Map::empty() },
                ),
            }
        } else if is_known_code(c.id) {
            Step::Fail(Fault::IncorrectChunk { expected: "fmt "@, actual: c.id })
        } else {
            Step::Continue(stage)
        },
        Stage::Collecting { fmt, fact, tags } => if c.id == "fmt "@ {
            Step::Fail(Fault::IncorrectChunk { expected: "Non-fmt"@, actual: "fmt"@ })
        } else if c.id == "fact"@ {
            if fact is Some {
                Step::Fail(Fault::IncorrectChunk { expected: "Non-fact"@, actual: "fact"@ })
            } else {
                match fact_outcome(c) {
                    Ok(n) => Step::Continue(Stage::Collecting { fmt, fact: Some(n), tags }),
                    Err(f) => Step::Fail(f),
                }
            }
        } else if c.id == "LIST"@ {
            Step::Continue(Stage::Collecting { fmt, fact, tags: tags_after_list(tags, c) })
        } else if c.id == "data"@ {
            if fmt_format(fmt) != Format::Pcm && fact is None {
                Step::Fail(Fault::MissingChunk { expected: "fact"@ })
            } else {
                Step::Done(Collected { fmt, fact, tags, data_size: c.size })
            }
        } else {
            Step::Continue(stage)
        },
    }
}

/// The outcome of walking the chunks of `s` from `stage`.
pub open spec fn walk(stage: Stage, s: Seq<u8>) -> Result<Collected, Fault>
    decreases s.len(),
{
    if s.len() == 0 {
        Err(
            Fault::MissingChunk {
                expected: match stage {
                    Stage::SeekingFormat => "fmt"@,
                    Stage::Collecting { .. } => "data"@,
                },
            },
        )
    } else {
        match header_fault(s) {
            Some(f) => Err(f),
            None => match step(stage, front_chunk(s)) {
                Step::Fail(f) => Err(f),
                Step::Done(c) => Ok(c),
                Step::Continue(next) => walk(next, after_chunk(s)),
            },
        }
    }
}

/// Samples per channel: the `fact` chunk's count where there is one, else
/// as many whole samples as the `data` chunk holds; `None` where the format
/// gives samples no width.
pub open spec fn sample_total(c: Collected) -> Option<nat> {
    match c.fact {
        Some(n) => Some(n as nat),
        None => {
            let width = (c.fmt.bits_per_sample as nat) * (c.fmt.channels as nat);
            if width == 0 {
                None
            } else {
                Some(((8 * c.data_size) / width) as nat)
            }
        },
    }
}

/// Why no sample count can be given where samples have no width.
pub open spec fn zero_width_reason() -> Seq<char> {
    "Sample count undefined: sample width is zero"@
}

/// Why a sample count that `usize` cannot hold is refused.
pub open spec fn too_many_samples_reason() -> Seq<char> {
    "Sample count too large for this platform"@
}

/// The outcome of parsing the WAVE file `s`: what its walk collects and its
/// sample count, or the fault that ends it.
pub open spec fn wave_outcome(s: Seq<u8>) -> Result<(Collected, nat), Fault> {
    match header_fault(s) {
        Some(f) => Err(f),
        None => {
            let riff = front_chunk(s);
            if riff.id != "RIFF"@ {
                Err(Fault::IncorrectChunk { expected: "RIFF"@, actual: riff.id })
            } else {
                match text_fault(riff, "WAVEID"@, 4) {
                    Some(f) => Err(f),
                    None => if chars_of(riff.payload.take(4)) != "WAVE"@ {
                        Err(field_fault(riff.skip(4), "WAVEID"@, "Incorrect RIFF type"@))
                    } else {
                        match walk(Stage::SeekingFormat, riff.payload.skip(4)) {
                            Err(f) => Err(f),
                            Ok(c) => match sample_total(c) {
                                Some(n) => if n <= usize::MAX {
                                    Ok((c, n))
                                } else {
                                    let reason = too_many_samples_reason();
                                    Err(Fault::NumericOverflow { reason })
                                },
                                None => Err(Fault::NumericOverflow { reason: zero_width_reason() }),
                            },
                        }
                    },
                }
            }
        },
    }
}

/// `r` holds the raw fields of the format chunk of `c`, and `n` samples.
pub open spec fn raw_matches(r: RawDetail, c: Collected, n: nat) -> bool {
    &&& r.format_tag == le16(c.fmt.format_tag, 0)
    &&& r.channels == c.fmt.channels
    &&& r.sample_rate == c.fmt.samples_per_sec
    &&& r.data_rate == c.fmt.avg_bytes_per_sec
    &&& r.block_size == c.fmt.block_align
    &&& r.sample_depth == match c.fmt.valid_bits_per_sample {
        Some(v) => v,
        None => c.fmt.bits_per_sample,
    }
    &&& r.channel_mask == c.fmt.channel_mask
    &&& r.subformat_view() == c.fmt.sub_format
    &&& r.total_samples == n
}

/// The stage of a walk that holds the format chunk `fmt`, if any.
pub open spec fn stage_of(
    fmt: Option<Fmt>,
    fact: Option<u32>,
    tags: Map<InfoChunk, Seq<char>>,
) -> Stage {
    match fmt {
        None => Stage::SeekingFormat,
        Some(f) => Stage::Collecting { fmt: f@, fact, tags },
    }
}

/// A parsed WAVE file: the raw fields of its format and its tags.
#[derive(Debug)]
pub struct WavFile {
    pub raw_details: RawDetail,
    pub info: TagMap,
}

/// Whether `id` is one of the chunk codes that a walk decodes.
fn is_known_code_exec(id: &String) -> (r: bool)
    ensures
        r == is_known_code(id@),
{
    *id == "fmt ".to_string() || *id == "fact".to_string() || *id == "data".to_string() || *id
        == "LIST".to_string()
}

/// A chunk of code `actual` where one of code `expected` was required.
fn incorrect(expected: &str, actual: &str) -> (r: ChunkError)
    ensures
        r@ == (Fault::IncorrectChunk { expected: expected@, actual: actual@ }),
{
    ChunkError::IncorrectChunk(
        IncorrectChunkError {
            expected_chunk_code: expected.to_string(),
            actual_chunk_code: actual.to_string(),
        },
    )
}

impl WavFile {
    /// Walks the sub-chunks of a WAVE body up to its `data` chunk, collecting
    /// the format chunk, the `fact` count and the tags; gives the size of the
    /// `data` chunk.
    fn collect(
        body: &mut Chunk,
        fmt: &mut Option<Fmt>,
        fact: &mut Option<u32>,
        tags: &mut TagMap,
    ) -> (r: Result<usize, ChunkError>)
        requires
            *old(fmt) is None,
            *old(fact) is None,
            old(tags).wf(),
            old(tags)@ == Map::<InfoChunk, Seq<char>>::empty(),
        ensures
            match walk(Stage::SeekingFormat, old(body)@.payload) {
                Ok(c) => r matches Ok(size) && *final(fmt) matches Some(f) && f@ == c.fmt
                    && *final(fact) == c.fact && final(tags).wf() && final(tags)@ == c.tags
                    && size == c.data_size && size <= u32::MAX,
                Err(f) => r matches Err(e) && e@ == f,
            },
    {
        let ghost target = walk(Stage::SeekingFormat, body@.payload);
        let mut outcome: Option<Result<usize, ChunkError>> = None;
        loop
            invariant_except_break
                outcome is None,
                *fmt is None ==> *fact is None && tags@ == Map::<InfoChunk, Seq<char>>::empty(),
                walk(stage_of(*fmt, *fact, tags@), body@.payload) == target,
            invariant
                tags.wf(),
            ensures
                match outcome {
                    Some(Ok(size)) => target matches Ok(c) && *fmt matches Some(f) && f@ == c.fmt
                        && *fact == c.fact && tags@ == c.tags && size == c.data_size
                        && size <= u32::MAX,
                    Some(Err(e)) => target == Err::<Collected, Fault>(e@),
                    None => false,
                },
            decreases body@.payload.len(),
        {
            let ghost s = body@.payload;
            match body.next() {
                None => {
                    let missing = if fmt.is_none() {
                        MissingChunkError::new("fmt")
                    } else {
                        MissingChunkError::new("data")
                    };
                    outcome = Some(Err(ChunkError::MissingChunk(missing)));
                    break;
                },
                Some(Err(e)) => {
                    outcome = Some(Err(e));
                    break;
                },
                Some(Ok(c)) => {
                    proof {
                        lemma_after_chunk_shorter(s);
                    }
                    if fmt.is_none() {
                        if c.id == "fmt ".to_string() {
                            match Fmt::from_chunk(c) {
                                Ok(f) => {
                                    *fmt = Some(f);
                                },
                                Err(e) => {
                                    outcome = Some(Err(e));
                                    break;
                                },
                            }
                        } else if is_known_code_exec(&c.id) {
                            outcome = Some(Err(incorrect("fmt ", c.id.as_str())));
                            break;
                        }
                    } else if c.id == "fmt ".to_string() {
                        outcome = Some(Err(incorrect("Non-fmt", "fmt")));
                        break;
                    } else if c.id == "fact".to_string() {
                        if fact.is_some() {
                            outcome = Some(Err(incorrect("Non-fact", "fact")));
                            break;
                        }
                        match Fact::from_chunk(c) {
                            Ok(f) => {
                                *fact = Some(f.samples);
                            },
                            Err(e) => {
                                outcome = Some(Err(e));
                                break;
                            },
                        }
                    } else if c.id == "LIST".to_string() {
                        if let Ok(l) = List::from_chunk(c) {
                            if let Some(m) = l.info_tags() {
                                tags.merge(m);
                            }
                        }
                    } else if c.id == "data".to_string() {
                        let f = fmt.unwrap();
                        let format = resolve_format(read_tag(&f.format_tag), &f.sub_format);
                        if format.requires_fact_chunk() && fact.is_none() {
                            let missing = MissingChunkError::new("fact");
                            outcome = Some(Err(ChunkError::MissingChunk(missing)));
                            break;
                        }
                        outcome = Some(Ok(c.size));
                        break;
                    }
                },
            }
        }
        outcome.unwrap()
    }

    /// Parses a WAVE file: a `RIFF` chunk of form `WAVE` whose sub-chunks
    /// give the format, the optional sample count, the tags and the audio
    /// data. Bytes after the `RIFF` chunk are ignored.
    pub fn parse(data: Bytes) -> (r: Result<WavFile, FatalError>)
        ensures
            match wave_outcome(bytes_view(data)) {
                Ok((c, n)) => r matches Ok(w) && raw_matches(w.raw_details, c, n)
                    && w.info.wf() && w.info@ == c.tags,
                Err(f) => r matches Err(e) && e.inner@ == f,
            },
    {
        let mut bytes = data;
        let mut riff = match Chunk::pop_from_data(&mut bytes) {
            Ok(c) => c,
            Err(e) => return Err(FatalError { inner: e }),
        };
        if let Err(e) = riff.validate_type("RIFF") {
            return Err(FatalError { inner: ChunkError::IncorrectChunk(e) });
        }
        let wave_id = match riff.data_string::<4>("WAVEID") {
            Ok(t) => t,
            Err(e) => return Err(FatalError { inner: ChunkError::FieldParse(e) }),
        };
        if !(wave_id == "WAVE".to_string()) {
            return Err(riff.fatal_field_error("WAVEID", String::from_str("Incorrect RIFF type")));
        }
        let mut fmt: Option<Fmt> = None;
        let mut fact: Option<u32> = None;
        let mut tags = TagMap::new();
        let size = match WavFile::collect(&mut riff, &mut fmt, &mut fact, &mut tags) {
            Ok(size) => size,
            Err(e) => return Err(FatalError { inner: e }),
        };
        let f = fmt.unwrap();
        let total: usize = match fact {
            Some(n) => n as usize,
            None => {
                assert(f.bits_per_sample as u64 * f.channels as u64 <= 0xFFFF_u64 * 0xFFFF_u64)
                    by (nonlinear_arith);
                let width = f.bits_per_sample as u64 * f.channels as u64;
                if width == 0 {
                    let reason = String::from_str("Sample count undefined: sample width is zero");
                    return Err(FatalError { inner: ChunkError::NumericOverflow(reason) });
                }
                let count = (8 * size as u64) / width;
                if count > usize::MAX as u64 {
                    let reason = String::from_str("Sample count too large for this platform");
                    return Err(FatalError { inner: ChunkError::NumericOverflow(reason) });
                }
                count as usize
            },
        };
        let sample_depth: usize = match f.valid_bits_per_sample {
            Some(v) => v as usize,
            None => f.bits_per_sample as usize,
        };
        let raw_details = RawDetail {
            format_tag: read_tag(&f.format_tag),
            channels: f.channels as usize,
            sample_rate: f.samples_per_sec as usize,
            data_rate: f.avg_bytes_per_sec as usize,
            block_size: f.block_align as usize,
            sample_depth,
            channel_mask: f.channel_mask,
            subformat: f.sub_format,
            total_samples: total,
        };
        Ok(WavFile { raw_details, info: tags })
    }

    /// The summary of this file.
    pub fn detail(&self) -> (r: WavDetail)
        ensures
            r.format == resolved_format(
                self.raw_details.format_tag,
                self.raw_details.subformat_view(),
            ),
            r.channels == self.raw_details.channels,
            r.bit_depth == self.raw_details.sample_depth,
            r.sample_rate == self.raw_details.sample_rate,
            r.total_samples == self.raw_details.total_samples,
            r.channel_positions@ == positions_for(
                self.raw_details.channel_mask,
                self.raw_details.channels as nat,
            ),
    {
        WavDetail::from_raw(&self.raw_details)
    }
}

impl RawDetail {
    /// The raw fields of the WAVE file `data`.
    pub fn new(data: Bytes) -> (r: Result<RawDetail, FatalError>)
        ensures
            match wave_outcome(bytes_view(data)) {
                Ok((c, n)) => r matches Ok(d) && raw_matches(d, c, n),
                Err(f) => r matches Err(e) && e.inner@ == f,
            },
    {
        match WavFile::parse(data) {
            Ok(w) => Ok(w.raw_details),
            Err(e) => Err(e),
        }
    }
}

impl WavDetail {
    /// The summary of the WAVE file `data`.
    pub fn new(data: Bytes) -> (r: Result<WavDetail, FatalError>)
        ensures
            match wave_outcome(bytes_view(data)) {
                Ok((c, n)) => r matches Ok(d) && exists|raw: RawDetail|
                    raw_matches(raw, c, n) && d.format == resolved_format(
                        raw.format_tag,
                        raw.subformat_view(),
                    ) && d.channels == raw.channels && d.bit_depth == raw.sample_depth
                        && d.sample_rate == raw.sample_rate && d.total_samples == n
                        && d.channel_positions@ == positions_for(
                            raw.channel_mask,
                            raw.channels as nat,
                        ),
                Err(f) => r matches Err(e) && e.inner@ == f,
            },
    {
        match WavFile::parse(data) {
            Ok(w) => Ok(w.detail()),
            Err(e) => Err(e),
        }
    }
}

/// The numeric value of a two-byte format tag.
fn read_tag(tag: &[u8; 2]) -> (r: u16)
    ensures
        r == le16(tag@, 0),
{
    read_le16(tag.as_slice(), 0)
}

} // verus!

//! Structural metadata of RIFF/WAVE audio files: chunk tokenizing, typed
//! chunk decoding and the summary derived from a file's format chunk.

pub mod buffer;
pub mod text;
pub mod errors;
pub mod chunk;
pub mod fact_chunk;
pub mod fmt_chunk;
pub mod list_chunk;
pub mod chunk_type;
pub mod formats;
pub mod detail;
pub mod wave;

pub use chunk::Chunk;
pub use chunk_type::{ChunkType, ChunkTypeIter};
pub use detail::{RawDetail, SpeakerPosition, WavDetail};
pub use errors::{
    ChunkError, ChunkParseError, FatalError, FieldParseError, IncorrectChunkError,
    MissingChunkError,
};
pub use fact_chunk::Fact;
pub use fmt_chunk::Fmt;
pub use formats::Format;
pub use list_chunk::{InfoChunk, List, TagMap};
pub use text::parse_guid;
pub use wave::WavFile;

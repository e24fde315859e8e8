//! The `fact` chunk: the number of samples per channel.
use crate::chunk::{le32, short_fault, Chunk, ChunkView};
use crate::errors::{ChunkError, Fault};
use vstd::prelude::*;

verus! {

/// A decoded `fact` chunk.
#[derive(Debug, PartialEq, Clone, Copy)]
pub struct Fact {
    pub samples: u32,
}

/// What decoding `c` as a `fact` chunk gives.
pub open spec fn fact_outcome(c: ChunkView) -> Result<u32, Fault> {
    if c.id != "fact"@ {
        Err(Fault::IncorrectChunk { expected: "fact"@, actual: c.id })
    } else {
        match short_fault(c, "dwSampleLength"@, 4) {
            Some(f) => Err(f),
            None => Ok(le32(c.payload, 0)),
        }
    }
}

impl Fact {
    /// Decodes a `fact` chunk: one little-endian 32-bit sample count.
    pub fn from_chunk(chunk: Chunk) -> (r: Result<Fact, ChunkError>)
        ensures
            match fact_outcome(chunk@) {
                Ok(n) => r == Ok::<Fact, ChunkError>(Fact { samples: n }),
                Err(f) => r matches Err(e) && e@ == f,
            },
    {
        let mut chunk = chunk;
        if let Err(e) = chunk.validate_type("fact") {
            return Err(ChunkError::IncorrectChunk(e));
        }
        match chunk.data_u32("dwSampleLength") {
            Ok(samples) => Ok(Fact { samples }),
            Err(e) => Err(ChunkError::FieldParse(e)),
        }
    }
}

} // verus!

//! The closed set of failures that tokenizing and decoding report.
use crate::text::{decimal, push_decimal};
use vstd::prelude::*;
use vstd::string::*;

verus! {

/// A chunk header could not be read: too short, a non-ASCII code, or a
/// declared size past the end of the data.
#[derive(Debug, PartialEq)]
pub struct ChunkParseError {
    pub chunk_code: String,
    pub reason: String,
}

/// A typed field of a chunk's payload could not be read.
#[derive(Debug, PartialEq)]
pub struct FieldParseError {
    pub chunk_code: String,
    pub field_name: String,
    /// Offset in the chunk's payload at which the field was read.
    pub position: usize,
    pub reason: String,
}

/// A chunk turned up where one of another code was required.
#[derive(Debug, PartialEq)]
pub struct IncorrectChunkError {
    pub expected_chunk_code: String,
    pub actual_chunk_code: String,
}

/// The data ended before a required chunk turned up.
#[derive(Debug, PartialEq)]
pub struct MissingChunkError {
    pub expected_chunk_code: String,
}

/// Any failure of tokenizing, decoding or assembling.
#[derive(Debug, PartialEq)]
pub enum ChunkError {
    ChunkParse(ChunkParseError),
    IncorrectChunk(IncorrectChunkError),
    MissingChunk(MissingChunkError),
    FieldParse(FieldParseError),
    /// A size or count that cannot be represented: one that the platform's
    /// `usize` cannot hold, or a sample count of samples without width.
    /// Holds the reason.
    NumericOverflow(String),
}

/// The failure that ends the parse of a file.
#[derive(Debug, PartialEq)]
pub struct FatalError {
    pub inner: ChunkError,
}

/// What a `ChunkError` says, as mathematical values.
pub enum Fault {
    ChunkParse { code: Seq<char>, reason: Seq<char> },
    FieldParse { code: Seq<char>, field: Seq<char>, position: int, reason: Seq<char> },
    IncorrectChunk { expected: Seq<char>, actual: Seq<char> },
    MissingChunk { expected: Seq<char> },
    NumericOverflow { reason: Seq<char> },
}

impl View for ChunkError {
    type V = Fault;

    open spec fn view(&self) -> Fault {
        match self {
            ChunkError::ChunkParse(e) => Fault::ChunkParse {
                code: e.chunk_code@,
                reason: e.reason@,
            },
            ChunkError::IncorrectChunk(e) => Fault::IncorrectChunk {
                expected: e.expected_chunk_code@,
                actual: e.actual_chunk_code@,
            },
            ChunkError::MissingChunk(e) => Fault::MissingChunk { expected: e.expected_chunk_code@ },
            ChunkError::FieldParse(e) => e@,
            ChunkError::NumericOverflow(reason) => Fault::NumericOverflow { reason: reason@ },
        }
    }
}

impl View for FieldParseError {
    type V = Fault;

    open spec fn view(&self) -> Fault {
        Fault::FieldParse {
            code: self.chunk_code@,
            field: self.field_name@,
            position: self.position as int,
            reason: self.reason@,
        }
    }
}

/// The one-line message that reports a fault.
pub open spec fn fault_message(f: Fault) -> Seq<char> {
    match f {
        Fault::ChunkParse { code, reason } => "Unable to parse "@ + code + " chunk: "@ + reason,
        Fault::FieldParse { code, field, position, reason } => "Unable to parse "@ + code
            + " chunk field "@ + field + " byte "@ + decimal(position as nat) + ": "@ + reason,
        Fault::IncorrectChunk { expected, actual } => "Expected a "@ + expected
            + " chunk, got a "@ + actual + " chunk"@,
        Fault::MissingChunk { expected } => "No "@ + expected + " chunk found"@,
        Fault::NumericOverflow { reason } => reason,
    }
}

impl ChunkParseError {
    /// An error for a chunk whose code is not known.
    pub fn new(reason: String) -> (r: Self)
        ensures
            r.chunk_code@ == "Unknown"@,
            r.reason == reason,
    {
        ChunkParseError { chunk_code: "Unknown".to_string(), reason }
    }

    /// An error for the chunk of code `id`.
    pub fn new_with_id(id: String, reason: String) -> (r: Self)
        ensures
            r.chunk_code == id,
            r.reason == reason,
    {
        ChunkParseError { chunk_code: id, reason }
    }

    /// An error for a chunk whose code could not be read.
    pub fn new_idless(reason: String) -> (r: Self)
        ensures
            r.chunk_code@ == "Unknown"@,
            r.reason == reason,
    {
        ChunkParseError { chunk_code: "Unknown".to_string(), reason }
    }
}

impl MissingChunkError {
    /// The data ended before a chunk of code `chunk`.
    pub fn new(chunk: &str) -> (r: Self)
        ensures
            r.expected_chunk_code@ == chunk@,
    {
        MissingChunkError { expected_chunk_code: chunk.to_string() }
    }
}

impl ChunkError {
    /// The message that reports this error.
    pub fn describe(&self) -> (r: String)
        ensures
            r@ == fault_message(self@),
    {
        match self {
            ChunkError::ChunkParse(e) => {
                let mut s = String::from_str("Unable to parse ");
                s.append(e.chunk_code.as_str());
                s.append(" chunk: ");
                s.append(e.reason.as_str());
                s
            },
            ChunkError::FieldParse(e) => {
                let mut s = String::from_str("Unable to parse ");
                s.append(e.chunk_code.as_str());
                s.append(" chunk field ");
                s.append(e.field_name.as_str());
                s.append(" byte ");
                push_decimal(&mut s, e.position as u64);
                s.append(": ");
                s.append(e.reason.as_str());
                s
            },
            ChunkError::IncorrectChunk(e) => {
                let mut s = String::from_str("Expected a ");
                s.append(e.expected_chunk_code.as_str());
                s.append(" chunk, got a ");
                s.append(e.actual_chunk_code.as_str());
                s.append(" chunk");
                s
            },
            ChunkError::MissingChunk(e) => {
                let mut s = String::from_str("No ");
                s.append(e.expected_chunk_code.as_str());
                s.append(" chunk found");
                s
            },
            ChunkError::NumericOverflow(reason) => reason.clone(),
        }
    }
}

impl FatalError {
    /// The message that reports this error.
    pub fn describe(&self) -> (r: String)
        ensures
            r@ == fault_message(self.inner@),
    {
        self.inner.describe()
    }
}

} // verus!

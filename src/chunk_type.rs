//! Chunks decoded by their code.
use crate::chunk::{after_chunk, front_chunk, header_fault, Chunk, ChunkView};
use crate::errors::{ChunkError, Fault};
use crate::fact_chunk::{fact_outcome, Fact};
use crate::fmt_chunk::{fmt_fault, fmt_view, Fmt, FmtView};
use crate::list_chunk::{list_outcome, List, ListView};
use vstd::prelude::*;

verus! {

/// A chunk decoded as the type its code names; chunks of other codes stay
/// undecoded.
#[derive(Debug, PartialEq)]
pub enum ChunkType {
    Fmt(Fmt),
    Fact(Fact),
    Data(Chunk),
    List(List),
    Unknown(Chunk),
}

/// A decoded chunk as mathematical values.
pub enum ChunkTypeView {
    Fmt(FmtView),
    Fact(u32),
    Data(ChunkView),
    List(ListView),
    Unknown(ChunkView),
}

impl View for ChunkType {
    type V = ChunkTypeView;

    open spec fn view(&self) -> ChunkTypeView {
        match self {
            ChunkType::Fmt(f) => ChunkTypeView::Fmt(f@),
            ChunkType::Fact(f) => ChunkTypeView::Fact(f.samples),
            ChunkType::Data(c) => ChunkTypeView::Data(c@),
            ChunkType::List(l) => ChunkTypeView::List(l@),
            ChunkType::Unknown(c) => ChunkTypeView::Unknown(c@),
        }
    }
}

/// What decoding `c` by its code gives.
pub open spec fn load_outcome(c: ChunkView) -> Result<ChunkTypeView, Fault> {
    if c.id == "fmt "@ {
        match fmt_fault(c) {
            Some(f) => Err(f),
            None => Ok(ChunkTypeView::Fmt(fmt_view(c.payload))),
        }
    } else if c.id == "fact"@ {
        match fact_outcome(c) {
            Ok(n) => Ok(ChunkTypeView::Fact(n)),
            Err(f) => Err(f),
        }
    } else if c.id == "data"@ {
        Ok(ChunkTypeView::Data(c))
    } else if c.id == "LIST"@ {
        match list_outcome(c) {
            Ok(l) => Ok(ChunkTypeView::List(l)),
            Err(f) => Err(f),
        }
    } else {
        Ok(ChunkTypeView::Unknown(c))
    }
}

/// `r` is what decoding `c` by its code gives.
pub open spec fn loaded(c: ChunkView, r: Result<ChunkType, ChunkError>) -> bool {
    match load_outcome(c) {
        Ok(v) => r matches Ok(t) && t@ == v,
        Err(f) => r matches Err(e) && e@ == f,
    }
}

impl Chunk {
    /// Decodes this chunk as the type its code names: `fmt `, `fact`, `data`
    /// or `LIST`; a chunk of another code stays as it is.
    pub fn load_type(self) -> (r: Result<ChunkType, ChunkError>)
        ensures
            loaded(self@, r),
    {
        if self.id == "fmt ".to_string() {
            match Fmt::from_chunk(self) {
                Ok(f) => Ok(ChunkType::Fmt(f)),
                Err(e) => Err(e),
            }
        } else if self.id == "fact".to_string() {
            match Fact::from_chunk(self) {
                Ok(f) => Ok(ChunkType::Fact(f)),
                Err(e) => Err(e),
            }
        } else if self.id == "data".to_string() {
            Ok(ChunkType::Data(self))
        } else if self.id == "LIST".to_string() {
            match List::from_chunk(self) {
                Ok(l) => Ok(ChunkType::List(l)),
                Err(e) => Err(e),
            }
        } else {
            Ok(ChunkType::Unknown(self))
        }
    }

    /// Walks this chunk's sub-chunks, decoding each by its code.
    pub fn typed_iter(self) -> (r: ChunkTypeIter)
        ensures
            r.chunk == self,
    {
        ChunkTypeIter { chunk: self }
    }
}

/// A walk over the sub-chunks of a container chunk, decoding each.
pub struct ChunkTypeIter {
    pub chunk: Chunk,
}

impl ChunkTypeIter {
    /// Tokenizes and decodes the next sub-chunk, or gives `None` where no
    /// byte is left.
    pub fn next(&mut self) -> (r: Option<Result<ChunkType, ChunkError>>)
        ensures
            r is None <==> old(self).chunk@.payload.len() == 0,
            final(self).chunk.id == old(self).chunk.id,
            final(self).chunk.size == old(self).chunk.size,
            r is None ==> final(self).chunk@ == old(self).chunk@,
            r matches Some(x) ==> match header_fault(old(self).chunk@.payload) {
                Some(f) => x matches Err(e) && e@ == f
                    && final(self).chunk@ == old(self).chunk@,
                None => loaded(front_chunk(old(self).chunk@.payload), x)
                    && final(self).chunk@.payload == after_chunk(old(self).chunk@.payload),
            },
    {
        match self.chunk.next() {
            None => None,
            Some(Err(e)) => Some(Err(e)),
            Some(Ok(c)) => Some(c.load_type()),
        }
    }

    /// Like `next`, but a sub-chunk that cannot be tokenized or decoded
    /// gives `None` too.
    pub fn next_ok(&mut self) -> (r: Option<ChunkType>)
        ensures
            final(self).chunk.id == old(self).chunk.id,
            final(self).chunk.size == old(self).chunk.size,
            r matches Some(t) ==> old(self).chunk@.payload.len() > 0
                && header_fault(old(self).chunk@.payload) is None
                && load_outcome(front_chunk(old(self).chunk@.payload)) == Ok::<
                    ChunkTypeView,
                    Fault,
                >(t@)
                && final(self).chunk@.payload == after_chunk(old(self).chunk@.payload),
            r is None ==> old(self).chunk@.payload.len() == 0
                || header_fault(old(self).chunk@.payload) is Some
                || load_outcome(front_chunk(old(self).chunk@.payload)) is Err,
    {
        match self.next() {
            Some(Ok(t)) => Some(t),
            _ => None,
        }
    }
}

} // verus!

//! Tokenizing chunks off a byte buffer, and reading typed fields off a
//! chunk's payload.
use crate::buffer::{
    advance, as_slice, ascii_text, bytes_view, chars_of, is_ascii_bytes, share, split_to,
    utf8_text,
};
use crate::errors::{
    ChunkError, ChunkParseError, FatalError, Fault, FieldParseError, IncorrectChunkError,
};
use crate::text::{decimal, push_decimal};
use bytes::Bytes;
use vstd::array::*;
use vstd::prelude::*;
use vstd::slice::slice_subrange;
use vstd::string::*;
use vstd::utf8::*;

verus! {

/// The little-endian 16-bit value of the two bytes at `i`.
pub open spec fn le16(b: Seq<u8>, i: int) -> u16 {
    (b[i] as int + 256 * b[i + 1] as int) as u16
}

/// The little-endian 32-bit value of the four bytes at `i`.
pub open spec fn le32(b: Seq<u8>, i: int) -> u32 {
    (b[i] as int + 0x100 * b[i + 1] as int + 0x1_0000 * b[i + 2] as int + 0x100_0000
        * b[i + 3] as int) as u32
}

/// Reads the little-endian 16-bit value of the two bytes at `i`.
pub fn read_le16(b: &[u8], i: usize) -> (r: u16)
    requires
        i + 2 <= b@.len(),
    ensures
        r == le16(b@, i as int),
{
    b[i] as u16 + 256 * (b[i + 1] as u16)
}

/// Reads the little-endian 32-bit value of the four bytes at `i`.
pub fn read_le32(b: &[u8], i: usize) -> (r: u32)
    requires
        i + 4 <= b@.len(),
    ensures
        r == le32(b@, i as int),
{
    b[i] as u32 + 0x100 * (b[i + 1] as u32) + 0x1_0000 * (b[i + 2] as u32) + 0x100_0000 * (
    b[i + 3] as u32)
}

/// A chunk as mathematical values: its code, its declared size and the part
/// of its payload not yet read.
pub struct ChunkView {
    pub id: Seq<char>,
    pub size: nat,
    pub payload: Seq<u8>,
}

impl ChunkView {
    /// Offset of the first unread payload byte (zero where more bytes remain
    /// than were declared).
    pub open spec fn position(self) -> int {
        if self.size >= self.payload.len() {
            self.size - self.payload.len()
        } else {
            0
        }
    }

    /// The same chunk with its first `n` unread bytes read.
    pub open spec fn skip(self, n: int) -> ChunkView {
        ChunkView { payload: self.payload.skip(n), ..self }
    }
}

/// The size that a chunk header at the front of `s` declares.
pub open spec fn declared_size(s: Seq<u8>) -> nat {
    le32(s, 4) as nat
}

/// One padding byte follows a payload of odd size, where the data holds it.
pub open spec fn padding(s: Seq<u8>) -> nat {
    if declared_size(s) % 2 == 1 && s.len() > 8 + declared_size(s) {
        1
    } else {
        0
    }
}

/// The bytes that tokenizing the chunk at the front of `s` consumes.
pub open spec fn chunk_extent(s: Seq<u8>) -> nat {
    8 + declared_size(s) + padding(s)
}

/// Every byte is a printable ASCII character, from space to tilde.
pub open spec fn is_printable_bytes(b: Seq<u8>) -> bool {
    forall|i: int| 0 <= i < b.len() ==> 0x20 <= #[trigger] b[i] <= 0x7E
}

/// Whether every byte of `b` is a printable ASCII character.
fn all_printable(b: &[u8]) -> (r: bool)
    ensures
        r == is_printable_bytes(b@),
{
    let mut i: usize = 0;
    while i < b.len()
        invariant
            i <= b@.len(),
            forall|j: int| 0 <= j < i ==> 0x20 <= #[trigger] b@[j] <= 0x7E,
        decreases b@.len() - i,
    {
        if b[i] < 0x20 || b[i] > 0x7E {
            return false;
        }
        i = i + 1;
    }
    true
}

/// Why no chunk can be tokenized from the front of `s`, if it cannot.
pub open spec fn header_fault(s: Seq<u8>) -> Option<Fault> {
    if s.len() < 8 {
        Some(Fault::ChunkParse { code: "Unknown"@, reason: "Invalid chunk: too short"@ })
    } else if !is_ascii_bytes(s.take(4)) {
        Some(Fault::ChunkParse { code: "Unknown"@, reason: "Invalid chunk code: not ASCII"@ })
    } else if !is_printable_bytes(s.take(4)) {
        Some(
            Fault::ChunkParse {
                code: "Unknown"@,
                reason: "Invalid chunk code: not printable ASCII"@,
            },
        )
    } else if declared_size(s) > s.len() - 8 {
        Some(
            Fault::ChunkParse {
                code: chars_of(s.take(4)),
                reason: "Requested chunk size too large"@,
            },
        )
    } else {
        None
    }
}

/// The chunk at the front of `s`, where `header_fault(s)` is `None`.
pub open spec fn front_chunk(s: Seq<u8>) -> ChunkView {
    ChunkView {
        id: chars_of(s.take(4)),
        size: declared_size(s),
        payload: s.subrange(8, 8 + declared_size(s) as int),
    }
}

/// What is left of `s` once its front chunk is tokenized.
pub open spec fn after_chunk(s: Seq<u8>) -> Seq<u8> {
    s.skip(chunk_extent(s) as int)
}

/// A chunk that tokenizes leaves fewer bytes behind.
pub proof fn lemma_after_chunk_shorter(s: Seq<u8>)
    requires
        s.len() > 0,
        header_fault(s) is None,
    ensures
        after_chunk(s).len() < s.len(),
        after_chunk(s).len() == s.len() - chunk_extent(s),
{
}

/// `r` and `rest` are what tokenizing the front of `s` gives: the front chunk
/// and the bytes after it, or the header's fault and `s` untouched.
pub open spec fn popped(s: Seq<u8>, r: Result<Chunk, ChunkError>, rest: Seq<u8>) -> bool {
    match header_fault(s) {
        Some(f) => r matches Err(e) && e@ == f && rest == s,
        None => r matches Ok(c) && c@ == front_chunk(s) && rest == after_chunk(s),
    }
}

/// A chunk: a four-character code, the size its header declares, and the
/// unread part of its payload, shared with the buffer it came from.
#[derive(Debug, PartialEq)]
pub struct Chunk {
    pub id: String,
    pub size: usize,
    pub data: Bytes,
}

impl View for Chunk {
    type V = ChunkView;

    open spec fn view(&self) -> ChunkView {
        ChunkView { id: self.id@, size: self.size as nat, payload: bytes_view(self.data) }
    }
}

/// Why a field of `n` bytes cannot be read with `remaining` bytes left.
pub open spec fn short_reason(n: nat, remaining: nat) -> Seq<char> {
    decimal(n) + " bytes expected, "@ + decimal(remaining) + " left remaining in chunk."@
}

/// A field fault of the chunk `c` at its current position.
pub open spec fn field_fault(c: ChunkView, field: Seq<char>, reason: Seq<char>) -> Fault {
    Fault::FieldParse { code: c.id, field, position: c.position(), reason }
}

/// The fault of reading a field of `n` bytes from `c`, if too few are left.
pub open spec fn short_fault(c: ChunkView, field: Seq<char>, n: nat) -> Option<Fault> {
    if c.payload.len() < n {
        Some(field_fault(c, field, short_reason(n, c.payload.len())))
    } else {
        None
    }
}

/// The fault of reading `n` bytes of ASCII text from `c`, if it cannot be read.
pub open spec fn text_fault(c: ChunkView, field: Seq<char>, n: nat) -> Option<Fault> {
    if c.payload.len() < n {
        short_fault(c, field, n)
    } else if !is_ascii_bytes(c.payload.take(n as int)) {
        Some(field_fault(c, field, "Text is not ASCII"@))
    } else {
        None
    }
}

/// `k` is the index of the first zero byte of `p`.
pub open spec fn is_first_nul(p: Seq<u8>, k: int) -> bool {
    &&& 0 <= k < p.len()
    &&& p[k] == 0
    &&& forall|j: int| 0 <= j < k ==> p[j] != 0
}

/// `p` holds a zero byte.
pub open spec fn has_nul(p: Seq<u8>) -> bool {
    exists|k: int| is_first_nul(p, k)
}

/// The index of the first zero byte of `p`, where `has_nul(p)`.
pub open spec fn nul_index(p: Seq<u8>) -> int {
    choose|k: int| is_first_nul(p, k)
}

/// The first zero byte is the one `nul_index` picks.
pub proof fn lemma_first_nul_unique(p: Seq<u8>, k: int)
    requires
        is_first_nul(p, k),
    ensures
        has_nul(p),
        nul_index(p) == k,
{
    let c = nul_index(p);
    assert(is_first_nul(p, c));
    if c < k {
        assert(p[c] != 0);
    } else if k < c {
        assert(p[k] != 0);
    }
}

/// The text of the null-terminated string at the front of `p`, if `p` holds a
/// terminator and the bytes before it are UTF-8.
pub open spec fn zstring_value(p: Seq<u8>) -> Option<Seq<char>> {
    if has_nul(p) && valid_utf8(p.take(nul_index(p))) {
        Some(decode_utf8(p.take(nul_index(p))))
    } else {
        None
    }
}

/// The fault of reading a null-terminated string from `c`, if it cannot be read.
pub open spec fn zstring_fault(c: ChunkView, field: Seq<char>) -> Option<Fault> {
    if !has_nul(c.payload) {
        Some(field_fault(c, field, "String not null terminated"@))
    } else if !valid_utf8(c.payload.take(nul_index(c.payload))) {
        Some(field_fault(c, field, "String is not valid UTF-8"@))
    } else {
        None
    }
}

impl Chunk {
    /// Pops one chunk off the front of `chunk_data`: an 8-byte header (code
    /// and little-endian size), the payload, and the padding byte that
    /// follows a payload of odd size. On failure `chunk_data` is untouched.
    pub fn pop_from_data(chunk_data: &mut Bytes) -> (r: Result<Self, ChunkError>)
        ensures
            popped(bytes_view(*old(chunk_data)), r, bytes_view(*final(chunk_data))),
    {
        let ghost s = bytes_view(*chunk_data);
        let b = as_slice(chunk_data);
        let n = b.len();
        if n < 8 {
            let e = ChunkParseError::new_idless(String::from_str("Invalid chunk: too short"));
            return Err(ChunkError::ChunkParse(e));
        }
        let code = slice_subrange(b, 0, 4);
        assert(code@ =~= s.take(4));
        let id = match ascii_text(code) {
            Some(t) => t,
            None => {
                let e = ChunkParseError::new_idless(
                    String::from_str("Invalid chunk code: not ASCII"),
                );
                return Err(ChunkError::ChunkParse(e));
            },
        };
        if !all_printable(code) {
            let e = ChunkParseError::new_idless(
                String::from_str("Invalid chunk code: not printable ASCII"),
            );
            return Err(ChunkError::ChunkParse(e));
        }
        let size = read_le32(b, 4) as usize;
        if size > n - 8 {
            let e = ChunkParseError::new_with_id(
                id,
                String::from_str("Requested chunk size too large"),
            );
            return Err(ChunkError::ChunkParse(e));
        }
        let pad = size % 2 == 1 && n - 8 > size;
        advance(chunk_data, 8);
        let data = split_to(chunk_data, size);
        if pad {
            advance(chunk_data, 1);
        }
        proof {
            assert(bytes_view(data) =~= s.subrange(8, 8 + size));
            assert(bytes_view(*chunk_data) =~= after_chunk(s));
        }
        Ok(Chunk { id, size, data })
    }

    /// A second chunk with the same code, size and unread bytes, sharing
    /// this one's buffer.
    pub fn share(&self) -> (r: Chunk)
        ensures
            r@ == self@,
    {
        Chunk { id: self.id.clone(), size: self.size, data: share(&self.data) }
    }

    /// Pops the next sub-chunk off this chunk's unread payload, or gives
    /// `None` where no byte is left.
    pub fn next(&mut self) -> (r: Option<Result<Chunk, ChunkError>>)
        ensures
            r is None <==> old(self)@.payload.len() == 0,
            final(self).id == old(self).id,
            final(self).size == old(self).size,
            r matches Some(x) ==> popped(old(self)@.payload, x, final(self)@.payload),
            r is None ==> final(self)@ == old(self)@,
    {
        if as_slice(&self.data).len() == 0 {
            None
        } else {
            Some(Chunk::pop_from_data(&mut self.data))
        }
    }

    /// Fails unless this chunk's code is `expected_type`.
    pub fn validate_type(&self, expected_type: &str) -> (r: Result<(), IncorrectChunkError>)
        ensures
            r is Ok <==> self.id@ == expected_type@,
            r matches Err(e) ==> e.expected_chunk_code@ == expected_type@
                && e.actual_chunk_code@ == self.id@,
    {
        let expected = expected_type.to_string();
        if self.id == expected {
            Ok(())
        } else {
            Err(
                IncorrectChunkError {
                    expected_chunk_code: expected,
                    actual_chunk_code: self.id.clone(),
                },
            )
        }
    }

    /// A field error of this chunk at its current position.
    pub(crate) fn field_error(&self, field_name: &str, reason: String) -> (r: FieldParseError)
        ensures
            r@ == field_fault(self@, field_name@, reason@),
    {
        let remaining = as_slice(&self.data).len();
        let position = if self.size >= remaining {
            self.size - remaining
        } else {
            0
        };
        FieldParseError {
            chunk_code: self.id.clone(),
            field_name: field_name.to_string(),
            position,
            reason,
        }
    }

    /// A field error of this chunk at its current position, as the failure
    /// of the whole parse.
    pub fn fatal_field_error(&self, field_name: &str, reason: String) -> (r: FatalError)
        ensures
            r.inner@ == field_fault(self@, field_name@, reason@),
    {
        FatalError { inner: ChunkError::FieldParse(self.field_error(field_name, reason)) }
    }

    /// Fails unless `len` unread bytes are left.
    fn validate_field_length(&self, len: usize, field_name: &str) -> (r: Result<
        (),
        FieldParseError,
    >)
        ensures
            match short_fault(self@, field_name@, len as nat) {
                Some(f) => r matches Err(e) && e@ == f,
                None => r is Ok,
            },
    {
        let remaining = as_slice(&self.data).len();
        if remaining >= len {
            Ok(())
        } else {
            let mut reason = String::new();
            push_decimal(&mut reason, len as u64);
            reason.append(" bytes expected, ");
            push_decimal(&mut reason, remaining as u64);
            reason.append(" left remaining in chunk.");
            assert(reason@ =~= short_reason(len as nat, remaining as nat));
            Err(self.field_error(field_name, reason))
        }
    }

    /// Reads the next `N` bytes.
    pub fn data_bytes<const N: usize>(&mut self, field_name: &str) -> (r: Result<
        [u8; N],
        FieldParseError,
    >)
        ensures
            match short_fault(old(self)@, field_name@, N as nat) {
                Some(f) => r matches Err(e) && e@ == f && final(self)@ == old(self)@,
                None => r matches Ok(a) && a@ == old(self)@.payload.take(N as int)
                    && final(self)@ == old(self)@.skip(N as int),
            },
    {
        self.validate_field_length(N, field_name)?;
        let b = as_slice(&self.data);
        let mut a: [u8; N] = array_fill_for_copy_types(0u8);
        let mut i: usize = 0;
        while i < N
            invariant
                i <= N <= b@.len(),
                forall|j: int| 0 <= j < i ==> a@[j] == b@[j],
            decreases N - i,
        {
            a[i] = b[i];
            i = i + 1;
        }
        advance(&mut self.data, N);
        assert(a@ =~= old(self)@.payload.take(N as int));
        Ok(a)
    }

    /// Reads the next `N` bytes as ASCII text. On failure nothing is read.
    pub fn data_string<const N: usize>(&mut self, field_name: &str) -> (r: Result<
        String,
        FieldParseError,
    >)
        ensures
            match text_fault(old(self)@, field_name@, N as nat) {
                Some(f) => r matches Err(e) && e@ == f && final(self)@ == old(self)@,
                None => r matches Ok(t) && t@ == chars_of(old(self)@.payload.take(N as int))
                    && final(self)@ == old(self)@.skip(N as int),
            },
    {
        self.validate_field_length(N, field_name)?;
        let b = as_slice(&self.data);
        let code = slice_subrange(b, 0, N);
        assert(code@ =~= b@.take(N as int));
        match ascii_text(code) {
            Some(t) => {
                advance(&mut self.data, N);
                Ok(t)
            },
            None => Err(self.field_error(field_name, String::from_str("Text is not ASCII"))),
        }
    }

    /// Reads a null-terminated UTF-8 string, and its terminator. On failure
    /// nothing is read.
    pub fn data_zstring(&mut self, field_name: &str) -> (r: Result<String, FieldParseError>)
        ensures
            match zstring_fault(old(self)@, field_name@) {
                Some(f) => r matches Err(e) && e@ == f && final(self)@ == old(self)@,
                None => r matches Ok(t) && Some(t@) == zstring_value(old(self)@.payload)
                    && final(self)@ == old(self)@.skip(nul_index(old(self)@.payload) + 1),
            },
    {
        let b = as_slice(&self.data);
        let mut i: usize = 0;
        while i < b.len() && b[i] != 0
            invariant
                i <= b@.len(),
                forall|j: int| 0 <= j < i ==> b@[j] != 0,
            decreases b@.len() - i,
        {
            i = i + 1;
        }
        if i == b.len() {
            assert(!has_nul(b@)) by {
                if has_nul(b@) {
                    let k = choose|k: int| is_first_nul(b@, k);
                    assert(b@[k] != 0);
                }
            }
            let reason = String::from_str("String not null terminated");
            return Err(self.field_error(field_name, reason));
        }
        proof {
            lemma_first_nul_unique(b@, i as int);
        }
        let text = slice_subrange(b, 0, i);
        assert(text@ =~= b@.take(i as int));
        match utf8_text(text) {
            Some(t) => {
                advance(&mut self.data, i + 1);
                Ok(t)
            },
            None => {
                let reason = String::from_str("String is not valid UTF-8");
                Err(self.field_error(field_name, reason))
            },
        }
    }

    /// Reads the next two bytes as a little-endian integer.
    pub fn data_u16(&mut self, field_name: &str) -> (r: Result<u16, FieldParseError>)
        ensures
            match short_fault(old(self)@, field_name@, 2) {
                Some(f) => r matches Err(e) && e@ == f && final(self)@ == old(self)@,
                None => r == Ok::<u16, FieldParseError>(le16(old(self)@.payload, 0))
                    && final(self)@ == old(self)@.skip(2),
            },
    {
        self.validate_field_length(2, field_name)?;
        let v = read_le16(as_slice(&self.data), 0);
        advance(&mut self.data, 2);
        Ok(v)
    }

    /// Reads the next four bytes as a little-endian integer.
    pub fn data_u32(&mut self, field_name: &str) -> (r: Result<u32, FieldParseError>)
        ensures
            match short_fault(old(self)@, field_name@, 4) {
                Some(f) => r matches Err(e) && e@ == f && final(self)@ == old(self)@,
                None => r == Ok::<u32, FieldParseError>(le32(old(self)@.payload, 0))
                    && final(self)@ == old(self)@.skip(4),
            },
    {
        self.validate_field_length(4, field_name)?;
        let v = read_le32(as_slice(&self.data), 0);
        advance(&mut self.data, 4);
        Ok(v)
    }
}

/// Tokenizing a well-formed chunk (a header with a printable ASCII code, then as
/// many bytes as it declares, then a padding byte where that count is odd)
/// succeeds and consumes exactly 8 header bytes, the declared size, and one
/// more byte where the size is odd.
pub proof fn lemma_pop_consumes_chunk(s: Seq<u8>, r: Result<Chunk, ChunkError>, rest: Seq<u8>)
    requires
        s.len() >= 8,
        is_printable_bytes(s.take(4)),
        s.len() >= 8 + declared_size(s) + declared_size(s) % 2,
        popped(s, r, rest),
    ensures
        r is Ok,
        s.len() - rest.len() == 8 + declared_size(s) + declared_size(s) % 2,
{
}

} // verus!

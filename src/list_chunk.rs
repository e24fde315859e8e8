//! The `LIST` chunk, and the descriptive tags of an `INFO` list.
use crate::buffer::chars_of;
use crate::chunk::{
    after_chunk, front_chunk, header_fault, lemma_after_chunk_shorter, text_fault, zstring_value,
    Chunk, ChunkView,
};
use crate::errors::{ChunkError, Fault};
use vstd::prelude::*;

verus! {

/// The number of known `INFO` tag codes.
pub const INFO_TAG_COUNT: usize = 23;

/// A known `INFO` tag code.
#[derive(Debug, PartialEq, Eq, Structural, Clone, Copy)]
#[allow(clippy::upper_case_acronyms)]
pub enum InfoChunk {
    IARL,
    IART,
    ICMS,
    ICMT,
    ICOP,
    ICRD,
    ICRP,
    IDIM,
    IDPI,
    IENG,
    IGNR,
    IKEY,
    ILGT,
    IMED,
    INAM,
    IPLT,
    IPRD,
    ISBJ,
    ISFT,
    ISHP,
    ISRC,
    ISRF,
    ITCH,
}

/// The four-character code of a tag.
pub open spec fn info_code(t: InfoChunk) -> Seq<char> {
    match t {
        InfoChunk::IARL => "IARL"@,
        InfoChunk::IART => "IART"@,
        InfoChunk::ICMS => "ICMS"@,
        InfoChunk::ICMT => "ICMT"@,
        InfoChunk::ICOP => "ICOP"@,
        InfoChunk::ICRD => "ICRD"@,
        InfoChunk::ICRP => "ICRP"@,
        InfoChunk::IDIM => "IDIM"@,
        InfoChunk::IDPI => "IDPI"@,
        InfoChunk::IENG => "IENG"@,
        InfoChunk::IGNR => "IGNR"@,
        InfoChunk::IKEY => "IKEY"@,
        InfoChunk::ILGT => "ILGT"@,
        InfoChunk::IMED => "IMED"@,
        InfoChunk::INAM => "INAM"@,
        InfoChunk::IPLT => "IPLT"@,
        InfoChunk::IPRD => "IPRD"@,
        InfoChunk::ISBJ => "ISBJ"@,
        InfoChunk::ISFT => "ISFT"@,
        InfoChunk::ISHP => "ISHP"@,
        InfoChunk::ISRC => "ISRC"@,
        InfoChunk::ISRF => "ISRF"@,
        InfoChunk::ITCH => "ITCH"@,
    }
}

/// The human-readable label of a tag.
pub open spec fn info_label(t: InfoChunk) -> Seq<char> {
    match t {
        InfoChunk::IARL => "Archival Location"@,
        InfoChunk::IART => "Artist"@,
        InfoChunk::ICMS => "Commissioned"@,
        InfoChunk::ICMT => "Comments"@,
        InfoChunk::ICOP => "Copyright"@,
        InfoChunk::ICRD => "Creation date"@,
        InfoChunk::ICRP => "Cropped"@,
        InfoChunk::IDIM => "Dimensions"@,
        InfoChunk::IDPI => "Dots Per Inch"@,
        InfoChunk::IENG => "Engineer"@,
        InfoChunk::IGNR => "Genre"@,
        InfoChunk::IKEY => "Keywords"@,
        InfoChunk::ILGT => "Lightness"@,
        InfoChunk::IMED => "Medium"@,
        InfoChunk::INAM => "Name"@,
        InfoChunk::IPLT => "Palette Setting"@,
        InfoChunk::IPRD => "Product"@,
        InfoChunk::ISBJ => "Subject"@,
        InfoChunk::ISFT => "Software"@,
        InfoChunk::ISHP => "Sharpness"@,
        InfoChunk::ISRC => "Source"@,
        InfoChunk::ISRF => "Source Form"@,
        InfoChunk::ITCH => "Technician"@,
    }
}

/// The place of a tag in code order.
pub open spec fn info_index(t: InfoChunk) -> int {
    match t {
        InfoChunk::IARL => 0,
        InfoChunk::IART => 1,
        InfoChunk::ICMS => 2,
        InfoChunk::ICMT => 3,
        InfoChunk::ICOP => 4,
        InfoChunk::ICRD => 5,
        InfoChunk::ICRP => 6,
        InfoChunk::IDIM => 7,
        InfoChunk::IDPI => 8,
        InfoChunk::IENG => 9,
        InfoChunk::IGNR => 10,
        InfoChunk::IKEY => 11,
        InfoChunk::ILGT => 12,
        InfoChunk::IMED => 13,
        InfoChunk::INAM => 14,
        InfoChunk::IPLT => 15,
        InfoChunk::IPRD => 16,
        InfoChunk::ISBJ => 17,
        InfoChunk::ISFT => 18,
        InfoChunk::ISHP => 19,
        InfoChunk::ISRC => 20,
        InfoChunk::ISRF => 21,
        InfoChunk::ITCH => 22,
    }
}

/// The tag at place `i` in code order.
pub open spec fn info_at(i: int) -> InfoChunk {
    if i == 0 {
        InfoChunk::IARL
    } else if i == 1 {
        InfoChunk::IART
    } else if i == 2 {
        InfoChunk::ICMS
    } else if i == 3 {
        InfoChunk::ICMT
    } else if i == 4 {
        InfoChunk::ICOP
    } else if i == 5 {
        InfoChunk::ICRD
    } else if i == 6 {
        InfoChunk::ICRP
    } else if i == 7 {
        InfoChunk::IDIM
    } else if i == 8 {
        InfoChunk::IDPI
    } else if i == 9 {
        InfoChunk::IENG
    } else if i == 10 {
        InfoChunk::IGNR
    } else if i == 11 {
        InfoChunk::IKEY
    } else if i == 12 {
        InfoChunk::ILGT
    } else if i == 13 {
        InfoChunk::IMED
    } else if i == 14 {
        InfoChunk::INAM
    } else if i == 15 {
        InfoChunk::IPLT
    } else if i == 16 {
        InfoChunk::IPRD
    } else if i == 17 {
        InfoChunk::ISBJ
    } else if i == 18 {
        InfoChunk::ISFT
    } else if i == 19 {
        InfoChunk::ISHP
    } else if i == 20 {
        InfoChunk::ISRC
    } else if i == 21 {
        InfoChunk::ISRF
    } else {
        InfoChunk::ITCH
    }
}

/// The tag whose code is `id`, if any.
pub open spec fn info_tag_of(id: Seq<char>) -> Option<InfoChunk> {
    if id == "IARL"@ {
        Some(InfoChunk::IARL)
    } else if id == "IART"@ {
        Some(InfoChunk::IART)
    } else if id == "ICMS"@ {
        Some(InfoChunk::ICMS)
    } else if id == "ICMT"@ {
        Some(InfoChunk::ICMT)
    } else if id == "ICOP"@ {
        Some(InfoChunk::ICOP)
    } else if id == "ICRD"@ {
        Some(InfoChunk::ICRD)
    } else if id == "ICRP"@ {
        Some(InfoChunk::ICRP)
    } else if id == "IDIM"@ {
        Some(InfoChunk::IDIM)
    } else if id == "IDPI"@ {
        Some(InfoChunk::IDPI)
    } else if id == "IENG"@ {
        Some(InfoChunk::IENG)
    } else if id == "IGNR"@ {
        Some(InfoChunk::IGNR)
    } else if id == "IKEY"@ {
        Some(InfoChunk::IKEY)
    } else if id == "ILGT"@ {
        Some(InfoChunk::ILGT)
    } else if id == "IMED"@ {
        Some(InfoChunk::IMED)
    } else if id == "INAM"@ {
        Some(InfoChunk::INAM)
    } else if id == "IPLT"@ {
        Some(InfoChunk::IPLT)
    } else if id == "IPRD"@ {
        Some(InfoChunk::IPRD)
    } else if id == "ISBJ"@ {
        Some(InfoChunk::ISBJ)
    } else if id == "ISFT"@ {
        Some(InfoChunk::ISFT)
    } else if id == "ISHP"@ {
        Some(InfoChunk::ISHP)
    } else if id == "ISRC"@ {
        Some(InfoChunk::ISRC)
    } else if id == "ISRF"@ {
        Some(InfoChunk::ISRF)
    } else if id == "ITCH"@ {
        Some(InfoChunk::ITCH)
    } else {
        None
    }
}

/// Places in code order tell tags apart.
pub proof fn lemma_info_index(t: InfoChunk)
    ensures
        0 <= info_index(t) < INFO_TAG_COUNT,
        info_at(info_index(t)) == t,
{
}

impl InfoChunk {
    /// The tag whose code is `code`, if it is a known one.
    pub fn from_code(code: &str) -> (r: Option<InfoChunk>)
        ensures
            r == info_tag_of(code@),
    {
        let code = code.to_string();
        if code == "IARL".to_string() {
            Some(InfoChunk::IARL)
        } else if code == "IART".to_string() {
            Some(InfoChunk::IART)
        } else if code == "ICMS".to_string() {
            Some(InfoChunk::ICMS)
        } else if code == "ICMT".to_string() {
            Some(InfoChunk::ICMT)
        } else if code == "ICOP".to_string() {
            Some(InfoChunk::ICOP)
        } else if code == "ICRD".to_string() {
            Some(InfoChunk::ICRD)
        } else if code == "ICRP".to_string() {
            Some(InfoChunk::ICRP)
        } else if code == "IDIM".to_string() {
            Some(InfoChunk::IDIM)
        } else if code == "IDPI".to_string() {
            Some(InfoChunk::IDPI)
        } else if code == "IENG".to_string() {
            Some(InfoChunk::IENG)
        } else if code == "IGNR".to_string() {
            Some(InfoChunk::IGNR)
        } else if code == "IKEY".to_string() {
            Some(InfoChunk::IKEY)
        } else if code == "ILGT".to_string() {
            Some(InfoChunk::ILGT)
        } else if code == "IMED".to_string() {
            Some(InfoChunk::IMED)
        } else if code == "INAM".to_string() {
            Some(InfoChunk::INAM)
        } else if code == "IPLT".to_string() {
            Some(InfoChunk::IPLT)
        } else if code == "IPRD".to_string() {
            Some(InfoChunk::IPRD)
        } else if code == "ISBJ".to_string() {
            Some(InfoChunk::ISBJ)
        } else if code == "ISFT".to_string() {
            Some(InfoChunk::ISFT)
        } else if code == "ISHP".to_string() {
            Some(InfoChunk::ISHP)
        } else if code == "ISRC".to_string() {
            Some(InfoChunk::ISRC)
        } else if code == "ISRF".to_string() {
            Some(InfoChunk::ISRF)
        } else if code == "ITCH".to_string() {
            Some(InfoChunk::ITCH)
        } else {
            None
        }
    }

    /// The human-readable label of this tag.
    pub fn label(&self) -> (r: &'static str)
        ensures
            r@ == info_label(*self),
    {
        match self {
            InfoChunk::IARL => "Archival Location",
            InfoChunk::IART => "Artist",
            InfoChunk::ICMS => "Commissioned",
            InfoChunk::ICMT => "Comments",
            InfoChunk::ICOP => "Copyright",
            InfoChunk::ICRD => "Creation date",
            InfoChunk::ICRP => "Cropped",
            InfoChunk::IDIM => "Dimensions",
            InfoChunk::IDPI => "Dots Per Inch",
            InfoChunk::IENG => "Engineer",
            InfoChunk::IGNR => "Genre",
            InfoChunk::IKEY => "Keywords",
            InfoChunk::ILGT => "Lightness",
            InfoChunk::IMED => "Medium",
            InfoChunk::INAM => "Name",
            InfoChunk::IPLT => "Palette Setting",
            InfoChunk::IPRD => "Product",
            InfoChunk::ISBJ => "Subject",
            InfoChunk::ISFT => "Software",
            InfoChunk::ISHP => "Sharpness",
            InfoChunk::ISRC => "Source",
            InfoChunk::ISRF => "Source Form",
            InfoChunk::ITCH => "Technician",
        }
    }

    /// The four-character code of this tag.
    pub fn code(&self) -> (r: &'static str)
        ensures
            r@ == info_code(*self),
    {
        match self {
            InfoChunk::IARL => "IARL",
            InfoChunk::IART => "IART",
            InfoChunk::ICMS => "ICMS",
            InfoChunk::ICMT => "ICMT",
            InfoChunk::ICOP => "ICOP",
            InfoChunk::ICRD => "ICRD",
            InfoChunk::ICRP => "ICRP",
            InfoChunk::IDIM => "IDIM",
            InfoChunk::IDPI => "IDPI",
            InfoChunk::IENG => "IENG",
            InfoChunk::IGNR => "IGNR",
            InfoChunk::IKEY => "IKEY",
            InfoChunk::ILGT => "ILGT",
            InfoChunk::IMED => "IMED",
            InfoChunk::INAM => "INAM",
            InfoChunk::IPLT => "IPLT",
            InfoChunk::IPRD => "IPRD",
            InfoChunk::ISBJ => "ISBJ",
            InfoChunk::ISFT => "ISFT",
            InfoChunk::ISHP => "ISHP",
            InfoChunk::ISRC => "ISRC",
            InfoChunk::ISRF => "ISRF",
            InfoChunk::ITCH => "ITCH",
        }
    }

    /// The place of this tag in code order.
    pub fn index(&self) -> (r: usize)
        ensures
            r == info_index(*self),
    {
        match self {
            InfoChunk::IARL => 0,
            InfoChunk::IART => 1,
            InfoChunk::ICMS => 2,
            InfoChunk::ICMT => 3,
            InfoChunk::ICOP => 4,
            InfoChunk::ICRD => 5,
            InfoChunk::ICRP => 6,
            InfoChunk::IDIM => 7,
            InfoChunk::IDPI => 8,
            InfoChunk::IENG => 9,
            InfoChunk::IGNR => 10,
            InfoChunk::IKEY => 11,
            InfoChunk::ILGT => 12,
            InfoChunk::IMED => 13,
            InfoChunk::INAM => 14,
            InfoChunk::IPLT => 15,
            InfoChunk::IPRD => 16,
            InfoChunk::ISBJ => 17,
            InfoChunk::ISFT => 18,
            InfoChunk::ISHP => 19,
            InfoChunk::ISRC => 20,
            InfoChunk::ISRF => 21,
            InfoChunk::ITCH => 22,
        }
    }

    /// The tag at place `i` in code order.
    pub fn at(i: usize) -> (r: InfoChunk)
        requires
            i < INFO_TAG_COUNT,
        ensures
            r == info_at(i as int),
            info_index(r) == i,
    {
        if i == 0 {
            InfoChunk::IARL
        } else         if i == 1 {
            InfoChunk::IART
        } else         if i == 2 {
            InfoChunk::ICMS
        } else         if i == 3 {
            InfoChunk::ICMT
        } else         if i == 4 {
            InfoChunk::ICOP
        } else         if i == 5 {
            InfoChunk::ICRD
        } else         if i == 6 {
            InfoChunk::ICRP
        } else         if i == 7 {
            InfoChunk::IDIM
        } else         if i == 8 {
            InfoChunk::IDPI
        } else         if i == 9 {
            InfoChunk::IENG
        } else         if i == 10 {
            InfoChunk::IGNR
        } else         if i == 11 {
            InfoChunk::IKEY
        } else         if i == 12 {
            InfoChunk::ILGT
        } else         if i == 13 {
            InfoChunk::IMED
        } else         if i == 14 {
            InfoChunk::INAM
        } else         if i == 15 {
            InfoChunk::IPLT
        } else         if i == 16 {
            InfoChunk::IPRD
        } else         if i == 17 {
            InfoChunk::ISBJ
        } else         if i == 18 {
            InfoChunk::ISFT
        } else         if i == 19 {
            InfoChunk::ISHP
        } else         if i == 20 {
            InfoChunk::ISRC
        } else         if i == 21 {
            InfoChunk::ISRF
        } else {
            InfoChunk::ITCH
        }
    }
}

/// The descriptive tags of a file: at most one text value per known tag.
#[derive(Debug)]
pub struct TagMap {
    slots: Vec<Option<String>>,
}

impl TagMap {
    /// Each known tag has its slot.
    pub closed spec fn wf(&self) -> bool {
        self.slots.len() == INFO_TAG_COUNT
    }
}

impl View for TagMap {
    type V = Map<InfoChunk, Seq<char>>;

    closed spec fn view(&self) -> Map<InfoChunk, Seq<char>> {
        Map::new(
            |t: InfoChunk| self.slots@[info_index(t)] is Some,
            |t: InfoChunk| self.slots@[info_index(t)]->Some_0@,
        )
    }
}

impl TagMap {
    /// A map with no tags.
    pub fn new() -> (r: TagMap)
        ensures
            r.wf(),
            r@ == Map::<InfoChunk, Seq<char>>::empty(),
    {
        let mut slots: Vec<Option<String>> = Vec::new();
        let mut i: usize = 0;
        while i < INFO_TAG_COUNT
            invariant
                i <= INFO_TAG_COUNT,
                slots@.len() == i,
                forall|j: int| 0 <= j < i ==> slots@[j] is None,
            decreases INFO_TAG_COUNT - i,
        {
            slots.push(None);
            i = i + 1;
        }
        let r = TagMap { slots };
        assert forall|t: InfoChunk| !r@.contains_key(t) by {
            lemma_info_index(t);
        }
        assert(r@ =~= Map::<InfoChunk, Seq<char>>::empty());
        r
    }

    /// The value of `tag`, if it has one.
    pub fn get(&self, tag: InfoChunk) -> (r: Option<String>)
        requires
            self.wf(),
        ensures
            r is Some <==> self@.contains_key(tag),
            r matches Some(v) ==> v@ == self@[tag],
    {
        proof {
            lemma_info_index(tag);
        }
        match &self.slots[tag.index()] {
            Some(v) => Some(v.clone()),
            None => None,
        }
    }

    /// Sets the value of `tag`, replacing any earlier one.
    pub fn insert(&mut self, tag: InfoChunk, value: String)
        requires
            old(self).wf(),
        ensures
            final(self).wf(),
            final(self)@ == old(self)@.insert(tag, value@),
    {
        proof {
            lemma_info_index(tag);
        }
        let i = tag.index();
        self.slots.set(i, Some(value));
        proof {
            assert forall|t: InfoChunk| t != tag implies info_index(t) != info_index(tag) by {
                lemma_info_index(t);
            }
            assert(self@ =~= old(self)@.insert(tag, value@));
        }
    }

    /// Takes over every value of `other`, replacing those of the same tags.
    pub fn merge(&mut self, other: TagMap)
        requires
            old(self).wf(),
            other.wf(),
        ensures
            final(self).wf(),
            final(self)@ == old(self)@.union_prefer_right(other@),
    {
        let mut i: usize = 0;
        while i < INFO_TAG_COUNT
            invariant
                i <= INFO_TAG_COUNT,
                self.slots@.len() == INFO_TAG_COUNT,
                other.slots@.len() == INFO_TAG_COUNT,
                old(self).slots@.len() == INFO_TAG_COUNT,
                forall|j: int|
                    0 <= j < INFO_TAG_COUNT ==> self.slots@[j] == if j < i && other.slots@[j] is Some {
                        other.slots@[j]
                    } else {
                        old(self).slots@[j]
                    },
            decreases INFO_TAG_COUNT - i,
        {
            if let Some(v) = &other.slots[i] {
                self.slots.set(i, Some(v.clone()));
            }
            i = i + 1;
        }
        proof {
            assert forall|t: InfoChunk| 0 <= #[trigger] info_index(t) < INFO_TAG_COUNT by {
                lemma_info_index(t);
            }
            assert(self@ =~= old(self)@.union_prefer_right(other@));
        }
    }

    /// The label and value of each tag that has a value, in code order.
    pub fn pairs(&self) -> (r: Vec<(String, String)>)
        requires
            self.wf(),
        ensures
            pair_views(r@) == tag_pairs(self@, INFO_TAG_COUNT as nat),
    {
        let mut r: Vec<(String, String)> = Vec::new();
        let mut i: usize = 0;
        while i < INFO_TAG_COUNT
            invariant
                i <= INFO_TAG_COUNT,
                self.slots@.len() == INFO_TAG_COUNT,
                pair_views(r@) == tag_pairs(self@, i as nat),
            decreases INFO_TAG_COUNT - i,
        {
            let tag = InfoChunk::at(i);
            let ghost before = r@;
            if let Some(v) = &self.slots[i] {
                r.push((tag.label().to_string(), v.clone()));
            }
            assert(pair_views(r@) =~= tag_pairs(self@, (i + 1) as nat));
            i = i + 1;
        }
        r
    }
}

/// The views of (label, value) pairs of strings.
pub open spec fn pair_views(r: Seq<(String, String)>) -> Seq<(Seq<char>, Seq<char>)> {
    r.map_values(|p: (String, String)| (p.0@, p.1@))
}

/// The (label, value) pairs of the tags of `m` among the first `n` in code
/// order.
pub open spec fn tag_pairs(m: Map<InfoChunk, Seq<char>>, n: nat) -> Seq<(Seq<char>, Seq<char>)>
    decreases n,
{
    if n == 0 {
        Seq::empty()
    } else {
        let t = info_at(n - 1);
        let before = tag_pairs(m, (n - 1) as nat);
        if m.contains_key(t) {
            before.push((info_label(t), m[t]))
        } else {
            before
        }
    }
}

/// The chunks that tokenizing all of `s` gives, in order, or the first fault.
pub open spec fn split_chunks(s: Seq<u8>) -> Result<Seq<ChunkView>, Fault>
    decreases s.len(),
{
    if s.len() == 0 {
        Ok(Seq::empty())
    } else {
        match header_fault(s) {
            Some(f) => Err(f),
            None => match split_chunks(after_chunk(s)) {
                Ok(rest) => Ok(seq![front_chunk(s)] + rest),
                Err(f) => Err(f),
            },
        }
    }
}

/// `pre` put before the chunks of `r`, where `r` holds chunks.
pub open spec fn prepend(pre: Seq<ChunkView>, r: Result<Seq<ChunkView>, Fault>) -> Result<
    Seq<ChunkView>,
    Fault,
> {
    match r {
        Ok(rest) => Ok(pre + rest),
        Err(f) => Err(f),
    }
}

/// A decoded `LIST` chunk: its list type and its sub-chunks.
#[derive(Debug, PartialEq)]
pub struct List {
    pub list_type: String,
    pub subchunks: Vec<Chunk>,
}

/// A decoded `LIST` chunk as mathematical values.
pub struct ListView {
    pub list_type: Seq<char>,
    pub subchunks: Seq<ChunkView>,
}

impl View for List {
    type V = ListView;

    open spec fn view(&self) -> ListView {
        ListView {
            list_type: self.list_type@,
            subchunks: self.subchunks@.map_values(|c: Chunk| c@),
        }
    }
}

/// What decoding `c` as a `LIST` chunk gives.
pub open spec fn list_outcome(c: ChunkView) -> Result<ListView, Fault> {
    if c.id != "LIST"@ {
        Err(Fault::IncorrectChunk { expected: "LIST"@, actual: c.id })
    } else {
        match text_fault(c, "LIST"@, 4) {
            Some(f) => Err(f),
            None => match split_chunks(c.payload.skip(4)) {
                Ok(subs) => Ok(
                    ListView { list_type: chars_of(c.payload.take(4)), subchunks: subs },
                ),
                Err(f) => Err(f),
            },
        }
    }
}

/// The tags that the sub-chunks `subs` of an `INFO` list give, taken in
/// order: a later value of a tag replaces an earlier one, and a sub-chunk of
/// an unknown code or without a readable value gives nothing.
pub open spec fn info_map(subs: Seq<ChunkView>) -> Map<InfoChunk, Seq<char>>
    decreases subs.len(),
{
    if subs.len() == 0 {
        Map::empty()
    } else {
        let m = info_map(subs.drop_last());
        let c = subs.last();
        match (info_tag_of(c.id), zstring_value(c.payload)) {
            (Some(t), Some(v)) => m.insert(t, v),
            _ => m,
        }
    }
}

/// The tags of a decoded list: those of its sub-chunks for an `INFO` list,
/// none for a list of another type.
pub open spec fn list_tags(l: ListView) -> Option<Map<InfoChunk, Seq<char>>> {
    if l.list_type == "INFO"@ {
        Some(info_map(l.subchunks))
    } else {
        None
    }
}

/// The tag and text value of a sub-chunk of an `INFO` list, if its code is
/// a known tag and its payload begins with a readable null-terminated string.
pub fn info_tuple(chunk: &Chunk) -> (r: Option<(InfoChunk, String)>)
    ensures
        match (info_tag_of(chunk@.id), zstring_value(chunk@.payload)) {
            (Some(t), Some(v)) => r matches Some((tag, value)) && tag == t && value@ == v,
            _ => r is None,
        },
{
    let tag = match InfoChunk::from_code(chunk.id.as_str()) {
        Some(t) => t,
        None => return None,
    };
    let mut value_chunk = chunk.share();
    match value_chunk.data_zstring("Info value") {
        Ok(value) => Some((tag, value)),
        Err(_) => None,
    }
}

impl List {
    /// Decodes a `LIST` chunk: a four-character list type, then sub-chunks up
    /// to the end of the payload.
    pub fn from_chunk(mut chunk: Chunk) -> (r: Result<List, ChunkError>)
        ensures
            match list_outcome(chunk@) {
                Ok(v) => r matches Ok(l) && l@ == v,
                Err(f) => r matches Err(e) && e@ == f,
            },
    {
        let ghost c = chunk@;
        if let Err(e) = chunk.validate_type("LIST") {
            return Err(ChunkError::IncorrectChunk(e));
        }
        let list_type = match chunk.data_string::<4>("LIST") {
            Ok(t) => t,
            Err(e) => return Err(ChunkError::FieldParse(e)),
        };
        let ghost body = chunk@.payload;
        let mut subchunks: Vec<Chunk> = Vec::new();
        let mut failure: Option<ChunkError> = None;
        loop
            invariant_except_break
                failure is None,
            invariant
                c.id == "LIST"@,
                text_fault(c, "LIST"@, 4) is None,
                body == c.payload.skip(4),
                list_type@ == chars_of(c.payload.take(4)),
                split_chunks(body) == prepend(
                    subchunks@.map_values(|x: Chunk| x@),
                    split_chunks(chunk@.payload),
                ),
            ensures
                match failure {
                    Some(e) => split_chunks(body) == Err::<Seq<ChunkView>, Fault>(e@),
                    None => split_chunks(body) == Ok::<Seq<ChunkView>, Fault>(
                        subchunks@.map_values(|x: Chunk| x@),
                    ),
                },
            decreases chunk@.payload.len(),
        {
            let ghost s = chunk@.payload;
            let ghost before = subchunks@.map_values(|x: Chunk| x@);
            match chunk.next() {
                None => {
                    assert(before + Seq::<ChunkView>::empty() =~= before);
                    break;
                },
                Some(Err(e)) => {
                    assert(split_chunks(body) == Err::<Seq<ChunkView>, Fault>(e@));
                    failure = Some(e);
                    break;
                },
                Some(Ok(sub)) => {
                    proof {
                        lemma_after_chunk_shorter(s);
                    }
                    subchunks.push(sub);
                    assert(subchunks@.map_values(|x: Chunk| x@) =~= before.push(front_chunk(s)));
                    proof {
                        match split_chunks(after_chunk(s)) {
                            Ok(rest) => {
                                let pushed = before.push(front_chunk(s));
                                assert(before + (seq![front_chunk(s)] + rest) =~= pushed + rest);
                            },
                            Err(_) => {},
                        }
                    }
                },
            }
        }
        match failure {
            Some(e) => Err(e),
            None => Ok(List { list_type, subchunks }),
        }
    }

    /// The tags of an `INFO` list, or `None` for a list of another type.
    pub fn info_tags(&self) -> (r: Option<TagMap>)
        ensures
            match list_tags(self@) {
                Some(m) => r matches Some(t) && t.wf() && t@ == m,
                None => r is None,
            },
    {
        if self.list_type != "INFO".to_string() {
            return None;
        }
        let mut tags = TagMap::new();
        let mut i: usize = 0;
        while i < self.subchunks.len()
            invariant
                i <= self.subchunks@.len(),
                tags.wf(),
                tags@ == info_map(self@.subchunks.take(i as int)),
            decreases self.subchunks@.len() - i,
        {
            let ghost subs = self@.subchunks.take(i as int + 1);
            assert(subs.drop_last() =~= self@.subchunks.take(i as int));
            if let Some((tag, value)) = info_tuple(&self.subchunks[i]) {
                tags.insert(tag, value);
            }
            i = i + 1;
        }
        assert(self@.subchunks.take(self.subchunks@.len() as int) =~= self@.subchunks);
        Some(tags)
    }
}

} // verus!

//! The metadata heaps: indices into them, their widths, and the lookups.

use crate::bitvec::BitVec64;
use crate::bytes::{advance, le_value, region, u128_from_slice_at, u16_from_slice_at, u32_from_slice_at};
use crate::error::AssemblyReadError;
use vstd::prelude::*;
use vstd::string::StringSliceAdditionalSpecFns;
use vstd::utf8::{decode_utf8, valid_utf8};

verus! {

/// A byte offset into the string heap; 0 stands for "no name".
#[derive(Clone, Copy, Debug, PartialEq, Eq, Structural)]
pub struct StringIndex(pub u32);

/// A one-based entry number of the GUID heap; 0 stands for "no GUID".
#[derive(Clone, Copy, Debug, PartialEq, Eq, Structural)]
pub struct GUIDIndex(pub u32);

/// A byte offset into the blob heap.
#[derive(Clone, Copy, Debug, PartialEq, Eq, Structural)]
pub struct BlobIndex(pub u32);

/// The heap-size flags of the table stream: bit 0 widens string indices to four bytes,
/// bit 1 GUID indices, bit 2 blob indices. An index is two bytes wide otherwise.
#[derive(Clone, Copy, Debug)]
pub struct HeapSizes {
    pub bitvec: BitVec64,
}

impl From<u8> for HeapSizes {
    fn from(value: u8) -> (r: Self) {
        Self { bitvec: BitVec64(value as u64) }
    }
}

impl vstd::std_specs::convert::FromSpecImpl<u8> for HeapSizes {
    open spec fn obeys_from_spec() -> bool {
        true
    }

    open spec fn from_spec(value: u8) -> Self {
        HeapSizes { bitvec: BitVec64(value as u64) }
    }
}

/// The width in bytes of an index whose widening flag is `wide`.
pub open spec fn index_width(wide: bool) -> nat {
    if wide {
        4
    } else {
        2
    }
}

impl HeapSizes {
    pub open spec fn string_width(self) -> nat {
        index_width(self.bitvec.has(0))
    }

    pub open spec fn guid_width(self) -> nat {
        index_width(self.bitvec.has(1))
    }

    pub open spec fn blob_width(self) -> nat {
        index_width(self.bitvec.has(2))
    }

    pub fn string_index_size(&self) -> (r: usize)
        ensures
            r == self.string_width(),
    {
        if self.bitvec.bit(0) {
            4
        } else {
            2
        }
    }

    pub fn guid_index_size(&self) -> (r: usize)
        ensures
            r == self.guid_width(),
    {
        if self.bitvec.bit(1) {
            4
        } else {
            2
        }
    }

    pub fn blob_index_size(&self) -> (r: usize)
        ensures
            r == self.blob_width(),
    {
        if self.bitvec.bit(2) {
            4
        } else {
            2
        }
    }

    /// The string index at the start of `slice`.
    pub fn read_string_index(&self, slice: &[u8]) -> (r: StringIndex)
        requires
            self.string_width() <= slice.len(),
        ensures
            r.0 == le_value(slice@, 0, self.string_width()),
    {
        if self.bitvec.bit(0) {
            StringIndex(u32_from_slice_at(slice, 0))
        } else {
            StringIndex(u16_from_slice_at(slice, 0) as u32)
        }
    }

    /// The GUID index at the start of `slice`.
    pub fn read_guid_index(&self, slice: &[u8]) -> (r: GUIDIndex)
        requires
            self.guid_width() <= slice.len(),
        ensures
            r.0 == le_value(slice@, 0, self.guid_width()),
    {
        if self.bitvec.bit(1) {
            GUIDIndex(u32_from_slice_at(slice, 0))
        } else {
            GUIDIndex(u16_from_slice_at(slice, 0) as u32)
        }
    }

    /// The blob index at the start of `slice`.
    pub fn read_blob_index(&self, slice: &[u8]) -> (r: BlobIndex)
        requires
            self.blob_width() <= slice.len(),
        ensures
            r.0 == le_value(slice@, 0, self.blob_width()),
    {
        if self.bitvec.bit(2) {
            BlobIndex(u32_from_slice_at(slice, 0))
        } else {
            BlobIndex(u16_from_slice_at(slice, 0) as u32)
        }
    }
}

/// How many bytes a compressed integer that starts with `b0` takes.
pub open spec fn compressed_width(b0: u8) -> nat {
    if b0 & 0x80 == 0 {
        1
    } else if b0 & 0x40 == 0 {
        2
    } else {
        4
    }
}

/// The value of the compressed integer at the start of `s`.
pub open spec fn compressed_value(s: Seq<u8>) -> u32
    recommends
        s.len() > 0,
        s.len() >= compressed_width(s[0]),
{
    let b0 = s[0];
    if b0 & 0x80 == 0 {
        (b0 & 0x7f) as u32
    } else if b0 & 0x40 == 0 {
        (((b0 & 0x3f) as u32) << 8) | (s[1] as u32)
    } else {
        (((b0 & 0x1f) as u32) << 24) | ((s[1] as u32) << 16) | ((s[2] as u32) << 8) | (s[3] as u32)
    }
}

/// The compressed integer at the start of `s` and its width, or `None` where `s` ends
/// before the integer does.
pub open spec fn parse_compressed(s: Seq<u8>) -> Option<(u32, nat)> {
    if s.len() == 0 || s.len() < compressed_width(s[0]) {
        None
    } else {
        Some((compressed_value(s), compressed_width(s[0])))
    }
}

/// The three forms of a compressed integer in plain arithmetic: seven, fourteen and
/// twenty-nine bits of value behind the tag bits.
pub proof fn lemma_compressed_value(s: Seq<u8>)
    ensures
        s[0] < 0x80 ==> compressed_width(s[0]) == 1 && compressed_value(s) == s[0],
        0x80 <= s[0] < 0xC0 ==> compressed_width(s[0]) == 2 && compressed_value(s) == (s[0]
            - 0x80) * 0x100 + s[1],
        0xC0 <= s[0] ==> compressed_width(s[0]) == 4 && compressed_value(s) == (s[0] % 0x20)
            * 0x100_0000 + s[1] * 0x1_0000 + s[2] * 0x100 + s[3],
        compressed_value(s) < 0x2000_0000,
{
    let b0 = s[0];
    let b1 = s[1];
    let b2 = s[2];
    let b3 = s[3];
    assert(b0 < 0x80 <==> b0 & 0x80 == 0) by (bit_vector);
    assert(b0 & 0x80 != 0 ==> (b0 < 0xC0 <==> b0 & 0x40 == 0)) by (bit_vector);
    assert(b0 & 0x80 == 0 ==> b0 & 0x7f == b0) by (bit_vector);
    assert(b0 & 0x80 != 0 && b0 & 0x40 == 0 ==> (((b0 & 0x3f) as u32) << 8) | (b1 as u32) == (b0
        - 0x80) * 0x100 + b1) by (bit_vector);
    assert((((b0 & 0x1f) as u32) << 24) | ((b1 as u32) << 16) | ((b2 as u32) << 8) | (b3 as u32)
        == (b0 % 0x20) * 0x100_0000 + b1 * 0x1_0000 + b2 * 0x100 + b3) by (bit_vector);
}

/// Reads the compressed integer at the cursor and moves the cursor past it. Where the
/// region ends before the integer does, nothing is consumed.
pub fn decode_blob_compressed_value(blob_heap: &mut &[u8]) -> (r: Result<u32, AssemblyReadError>)
    ensures
        match parse_compressed(old(blob_heap)@) {
            Some((value, width)) => r == Ok::<u32, AssemblyReadError>(value)
                && final(blob_heap)@ == old(blob_heap)@.skip(width as int),
            None => r == Err::<u32, AssemblyReadError>(AssemblyReadError::UnexpectedEnd)
                && final(blob_heap)@ == old(blob_heap)@,
        },
{
    let s: &[u8] = *blob_heap;
    if s.len() == 0 {
        return Err(AssemblyReadError::UnexpectedEnd);
    }
    let b0: u8 = s[0];
    if b0 & 0x80 == 0 {
        let value: u32 = (b0 & 0x7f) as u32;
        advance(blob_heap, 1);
        Ok(value)
    } else if b0 & 0x40 == 0 {
        if s.len() < 2 {
            return Err(AssemblyReadError::UnexpectedEnd);
        }
        let value: u32 = (((b0 & 0x3f) as u32) << 8) | (s[1] as u32);
        advance(blob_heap, 2);
        Ok(value)
    } else {
        if s.len() < 4 {
            return Err(AssemblyReadError::UnexpectedEnd);
        }
        let value: u32 = (((b0 & 0x1f) as u32) << 24) | ((s[1] as u32) << 16) | ((s[2] as u32)
            << 8) | (s[3] as u32);
        advance(blob_heap, 4);
        Ok(value)
    }
}

/// The blob that `heap` holds at `pos`: a compressed length, then that many bytes. `None`
/// where the length or the bytes are not all inside the heap.
pub open spec fn blob_at(heap: Seq<u8>, pos: int) -> Option<Seq<u8>> {
    if pos < 0 || pos > heap.len() {
        None
    } else {
        match parse_compressed(heap.skip(pos)) {
            None => None,
            Some((size, width)) => if pos + width + size <= heap.len() {
                Some(heap.subrange(pos + width, pos + width + size))
            } else {
                None
            },
        }
    }
}

/// The blob at `pos`, without its length prefix.
pub fn get_blob<'a>(blob_heap: &'a [u8], pos: BlobIndex) -> (r: Result<&'a [u8], AssemblyReadError>)
    ensures
        match blob_at(blob_heap@, pos.0 as int) {
            Some(blob) => r is Ok && r->Ok_0@ == blob,
            None => r == Err::<&[u8], AssemblyReadError>(AssemblyReadError::InvalidHeapIndex),
        },
{
    let start: usize = pos.0 as usize;
    if start > blob_heap.len() {
        return Err(AssemblyReadError::InvalidHeapIndex);
    }
    let mut rest: &'a [u8] = vstd::slice::slice_subrange(blob_heap, start, blob_heap.len());
    let ghost tail = rest@;
    match decode_blob_compressed_value(&mut rest) {
        Err(_) => Err(AssemblyReadError::InvalidHeapIndex),
        Ok(size) => {
            match region(rest, 0, size as usize) {
                None => Err(AssemblyReadError::InvalidHeapIndex),
                Some(blob) => {
                    proof {
                        let width = parse_compressed(tail).unwrap().1;
                        assert(blob@ =~= blob_heap@.subrange(
                            start + width,
                            start + width + size,
                        ));
                    }
                    Ok(blob)
                },
            }
        },
    }
}

/// The place of the first zero byte of `s` at or after `from`, or the length of `s` where
/// there is none.
pub open spec fn terminator(s: Seq<u8>, from: int) -> int
    decreases s.len() - from,
{
    if from >= s.len() {
        s.len() as int
    } else if s[from] == 0 {
        from
    } else {
        terminator(s, from + 1)
    }
}

/// `terminator` finds the first zero byte and nothing before it.
pub proof fn lemma_terminator(s: Seq<u8>, from: int)
    requires
        0 <= from,
    ensures
        from <= terminator(s, from) || s.len() < from,
        terminator(s, from) <= s.len(),
        terminator(s, from) < s.len() ==> s[terminator(s, from)] == 0,
        forall|k: int| from <= k < terminator(s, from) ==> s[k] != 0,
    decreases s.len() - from,
{
    if from < s.len() && s[from] != 0 {
        lemma_terminator(s, from + 1);
    }
}

/// The place of the first zero byte of `s` at or after `from`, or the length of `s`.
pub fn find_terminator(s: &[u8], from: usize) -> (r: usize)
    ensures
        r == terminator(s@, from as int),
{
    if from >= s.len() {
        return s.len();
    }
    let mut at: usize = from;
    while at < s.len() && s[at] != 0
        invariant
            from <= at <= s.len(),
            terminator(s@, from as int) == terminator(s@, at as int),
        decreases s.len() - at,
    {
        at = at + 1;
    }
    at
}

/// The bytes of the zero-terminated name that `heap` holds at `pos`, without the
/// terminator; `None` where `pos` is outside the heap or no zero byte follows.
pub open spec fn name_bytes_at(heap: Seq<u8>, pos: int) -> Option<Seq<u8>> {
    if 0 <= pos < heap.len() && terminator(heap, pos) < heap.len() {
        Some(heap.subrange(pos, terminator(heap, pos)))
    } else {
        None
    }
}

/// What a lookup of text in bytes comes to: the characters that valid UTF-8 spells, and
/// `InvalidEncoding` for anything else.
pub open spec fn text_of(bytes: Seq<u8>) -> Result<Seq<char>, AssemblyReadError> {
    if valid_utf8(bytes) {
        Ok(decode_utf8(bytes))
    } else {
        Err(AssemblyReadError::InvalidEncoding)
    }
}

/// The name at `pos` of a string heap.
pub open spec fn string_at(heap: Seq<u8>, pos: int) -> Result<Seq<char>, AssemblyReadError> {
    match name_bytes_at(heap, pos) {
        None => Err(AssemblyReadError::InvalidHeapIndex),
        Some(bytes) => text_of(bytes),
    }
}

/// Calls `std::str::from_utf8`. Taken on trust, not proved: the standard library accepts
/// exactly the byte sequences that are well-formed UTF-8, as `valid_utf8` describes them,
/// and the text that it hands out has `bytes` as its encoding.
#[verifier::external_body]
fn str_from_utf8<'a>(bytes: &'a [u8]) -> (r: Option<&'a str>)
    ensures
        r is Some <==> valid_utf8(bytes@),
        r matches Some(text) ==> text.spec_bytes() == bytes@,
{
    std::str::from_utf8(bytes).ok()
}

/// The text that `bytes` spell.
pub fn text_from_bytes<'a>(bytes: &'a [u8]) -> (r: Result<&'a str, AssemblyReadError>)
    ensures
        match text_of(bytes@) {
            Ok(chars) => r is Ok && r->Ok_0@ == chars,
            Err(e) => r == Err::<&str, AssemblyReadError>(e),
        },
{
    match str_from_utf8(bytes) {
        Some(text) => {
            proof {
                vstd::utf8::encode_utf8_decode_utf8(text@);
            }
            Ok(text)
        },
        None => Err(AssemblyReadError::InvalidEncoding),
    }
}

/// The name at `string_index` of the string heap `heap`.
pub fn str_in_heap<'a>(heap: &'a [u8], string_index: StringIndex) -> (r: Result<
    &'a str,
    AssemblyReadError,
>)
    ensures
        match string_at(heap@, string_index.0 as int) {
            Ok(chars) => r is Ok && r->Ok_0@ == chars,
            Err(e) => r == Err::<&str, AssemblyReadError>(e),
        },
{
    let start: usize = string_index.0 as usize;
    if start >= heap.len() {
        return Err(AssemblyReadError::InvalidHeapIndex);
    }
    let end: usize = find_terminator(heap, start);
    proof {
        lemma_terminator(heap@, start as int);
    }
    if end >= heap.len() {
        return Err(AssemblyReadError::InvalidHeapIndex);
    }
    let bytes: &'a [u8] = vstd::slice::slice_subrange(heap, start, end);
    text_from_bytes(bytes)
}

/// The entries of a GUID heap: one number for each whole sixteen bytes of `stream`, read
/// least significant byte first.
pub open spec fn guids_of(stream: Seq<u8>) -> Seq<u128> {
    Seq::new(stream.len() / 16, |i: int| le_value(stream, 16 * i, 16) as u128)
}

/// Entry `index` of a GUID heap, counted from one; the zero value for index 0.
pub open spec fn guid_at(heap: Seq<u128>, index: int) -> Result<u128, AssemblyReadError> {
    if index == 0 {
        Ok(0)
    } else if 1 <= index <= heap.len() {
        Ok(heap[index - 1])
    } else {
        Err(AssemblyReadError::InvalidHeapIndex)
    }
}

/// Entry `index` of the GUID heap `heap`.
pub fn guid_in_heap(heap: &[u128], index: GUIDIndex) -> (r: Result<u128, AssemblyReadError>)
    ensures
        r == guid_at(heap@, index.0 as int),
{
    if index.0 == 0 {
        Ok(0)
    } else if index.0 as usize <= heap.len() {
        Ok(heap[index.0 as usize - 1])
    } else {
        Err(AssemblyReadError::InvalidHeapIndex)
    }
}

/// Splits a GUID stream into its entries.
pub fn read_guids(stream: &[u8]) -> (r: Vec<u128>)
    ensures
        r@ == guids_of(stream@),
{
    let guid_count: usize = stream.len() / 16;
    let mut guids: Vec<u128> = Vec::new();
    let mut index: usize = 0;
    while index < guid_count
        invariant
            index <= guid_count,
            guid_count == stream@.len() / 16,
            guid_count * 16 <= stream.len(),
            guids@ == Seq::new(index as nat, |i: int| le_value(stream@, 16 * i, 16) as u128),
        decreases guid_count - index,
    {
        let guid: u128 = u128_from_slice_at(stream, index * 16);
        guids.push(guid);
        index = index + 1;
    }
    guids
}

} // verus!

//! Byte regions: the fixed-width little-endian integers in them, and cursors over them.

use vstd::prelude::*;
use vstd::slice::slice_subrange;

verus! {

/// The number that the `width` bytes of `s` from `at` on spell, least significant byte first.
pub open spec fn le_value(s: Seq<u8>, at: int, width: nat) -> nat
    decreases width,
{
    if width == 0 {
        0
    } else {
        s[at] as nat + 256 * le_value(s, at + 1, (width - 1) as nat)
    }
}

/// `le_value` at the widths that the formats use stays below the type's bound.
pub proof fn lemma_le_value_bound(s: Seq<u8>, at: int, width: nat)
    ensures
        width == 1 ==> le_value(s, at, width) < 0x100,
        width == 2 ==> le_value(s, at, width) < 0x1_0000,
        width == 4 ==> le_value(s, at, width) < 0x1_0000_0000,
        width == 8 ==> le_value(s, at, width) < 0x1_0000_0000_0000_0000,
{
    reveal_with_fuel(le_value, 9);
}

/// A region of sixteen bytes is its low eight bytes and, `2^64` times, its high eight.
pub proof fn lemma_le_value_halves(s: Seq<u8>, at: int)
    ensures
        le_value(s, at, 16) == le_value(s, at, 8) + 0x1_0000_0000_0000_0000 * le_value(
            s,
            at + 8,
            8,
        ),
{
    reveal_with_fuel(le_value, 17);
}

/// The number that the two bytes at `offset` spell.
pub fn u16_from_slice_at(slice: &[u8], offset: usize) -> (r: u16)
    requires
        offset + 2 <= slice.len(),
    ensures
        r == le_value(slice@, offset as int, 2),
{
    proof {
        reveal_with_fuel(le_value, 3);
    }
    let b0: u16 = slice[offset] as u16;
    let b1: u16 = slice[offset + 1] as u16;
    b0 + b1 * 256
}

/// The number that the four bytes at `offset` spell.
pub fn u32_from_slice_at(slice: &[u8], offset: usize) -> (r: u32)
    requires
        offset + 4 <= slice.len(),
    ensures
        r == le_value(slice@, offset as int, 4),
{
    proof {
        reveal_with_fuel(le_value, 5);
    }
    let b0: u32 = slice[offset] as u32;
    let b1: u32 = slice[offset + 1] as u32;
    let b2: u32 = slice[offset + 2] as u32;
    let b3: u32 = slice[offset + 3] as u32;
    b0 + b1 * 0x100 + b2 * 0x1_0000 + b3 * 0x100_0000
}

/// The number that the eight bytes at `offset` spell.
pub fn u64_from_slice_at(slice: &[u8], offset: usize) -> (r: u64)
    requires
        offset + 8 <= slice.len(),
    ensures
        r == le_value(slice@, offset as int, 8),
{
    proof {
        reveal_with_fuel(le_value, 9);
    }
    let lo: u64 = u32_from_slice_at(slice, offset) as u64;
    let hi: u64 = u32_from_slice_at(slice, offset + 4) as u64;
    lo + hi * 0x1_0000_0000
}

/// The number that the sixteen bytes at `offset` spell.
pub fn u128_from_slice_at(slice: &[u8], offset: usize) -> (r: u128)
    requires
        offset + 16 <= slice.len(),
    ensures
        r == le_value(slice@, offset as int, 16),
{
    proof {
        lemma_le_value_halves(slice@, offset as int);
    }
    let lo: u128 = u64_from_slice_at(slice, offset) as u128;
    let hi: u128 = u64_from_slice_at(slice, offset + 8) as u128;
    lo + hi * 0x1_0000_0000_0000_0000
}

/// The bytes `from`, .., `from + len - 1` of `slice`, or `None` where they do not all lie
/// in it.
pub fn region<'a>(slice: &'a [u8], from: usize, len: usize) -> (r: Option<&'a [u8]>)
    ensures
        match r {
            Some(part) => from + len <= slice@.len() && part@ == slice@.subrange(
                from as int,
                from + len,
            ),
            None => from + len > slice@.len(),
        },
{
    if from <= slice.len() && len <= slice.len() - from {
        Some(slice_subrange(slice, from, from + len))
    } else {
        None
    }
}

/// Whether the `len` bytes from `at` on all lie in `slice`.
pub fn holds(slice: &[u8], at: usize, len: usize) -> (r: bool)
    ensures
        r == (at + len <= slice.len()),
{
    at <= slice.len() && len <= slice.len() - at
}

/// `s` holds, from `at` on, exactly the bytes of `pattern`.
pub open spec fn has_at(s: Seq<u8>, at: int, pattern: Seq<u8>) -> bool {
    at + pattern.len() <= s.len() && s.subrange(at, at + pattern.len()) == pattern
}

/// A result that is still being gathered: what is done, then what the rest comes to.
pub open spec fn prepend<T, E>(done: Seq<T>, rest: Result<Seq<T>, E>) -> Result<Seq<T>, E> {
    match rest {
        Ok(more) => Ok(done + more),
        Err(e) => Err(e),
    }
}

/// Whether `slice` holds, from `at` on, exactly the bytes of `pattern`.
pub fn matches_at(slice: &[u8], at: usize, pattern: &[u8]) -> (r: bool)
    ensures
        r == has_at(slice@, at as int, pattern@),
{
    if !holds(slice, at, pattern.len()) {
        return false;
    }
    let ghost part = slice@.subrange(at as int, at + pattern@.len());
    let mut i: usize = 0;
    while i < pattern.len()
        invariant
            i <= pattern@.len(),
            at + pattern@.len() <= slice.len(),
            part == slice@.subrange(at as int, at + pattern@.len()),
            forall|k: int| 0 <= k < i ==> part[k] == pattern@[k],
        decreases pattern@.len() - i,
    {
        if slice[at + i] != pattern[i] {
            assert(part[i as int] != pattern@[i as int]);
            return false;
        }
        i = i + 1;
    }
    assert(part =~= pattern@);
    true
}

/// What a read at a cursor comes to, given what stands at the cursor: the value is handed
/// out and the cursor has moved past the bytes that spell it, or the error is handed out and
/// the cursor stands where it stood.
pub open spec fn reads<T, E>(
    outcome: Result<T, E>,
    before: Seq<u8>,
    after: Seq<u8>,
    parsed: Result<(T, nat), E>,
) -> bool {
    match parsed {
        Ok((value, n)) => outcome == Ok::<T, E>(value) && after == before.skip(n as int),
        Err(e) => outcome == Err::<T, E>(e) && after == before,
    }
}

/// Moves `cursor` past its first `n` bytes.
pub fn advance<'a>(cursor: &mut &'a [u8], n: usize)
    requires
        n <= old(cursor)@.len(),
    ensures
        final(cursor)@ == old(cursor)@.skip(n as int),
{
    let whole: &'a [u8] = *cursor;
    *cursor = slice_subrange(whole, n, whole.len());
}

} // verus!

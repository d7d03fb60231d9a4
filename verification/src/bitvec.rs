//! A 64-bit presence bitmap and the walk over its members.

use vstd::prelude::*;

verus! {

/// Positions that the walk over a bitmap reports: 0 up to, not including, this one.
pub const WALK_END: u8 = 63;

/// Whether bit `i` of `v` is set.
pub open spec fn bit_set(v: u64, i: u8) -> bool {
    (v >> i) & 1 != 0
}

/// How many of the positions `from`, .., `to - 1` are set in `v`.
pub open spec fn count_set(v: u64, from: int, to: int) -> nat
    decreases to - from,
{
    if to <= from {
        0
    } else if bit_set(v, (to - 1) as u8) {
        count_set(v, from, to - 1) + 1
    } else {
        count_set(v, from, to - 1)
    }
}

/// A longer run of positions holds no fewer set bits.
pub proof fn lemma_count_set_grows(v: u64, from: int, a: int, b: int)
    requires
        a <= b,
    ensures
        count_set(v, from, a) <= count_set(v, from, b),
    decreases b - a,
{
    if a < b {
        lemma_count_set_grows(v, from, a, b - 1);
    }
}

/// A set of small numbers, one bit each.
#[derive(Copy, Clone, Debug)]
pub struct BitVec64(pub u64);

impl From<u64> for BitVec64 {
    fn from(value: u64) -> (r: Self) {
        Self(value)
    }
}

impl vstd::std_specs::convert::FromSpecImpl<u64> for BitVec64 {
    open spec fn obeys_from_spec() -> bool {
        true
    }

    open spec fn from_spec(value: u64) -> Self {
        BitVec64(value)
    }
}

impl BitVec64 {
    /// Whether `bit` is a member.
    pub open spec fn has(self, bit: u8) -> bool {
        bit_set(self.0, bit)
    }

    /// The number of members below `bit`: the place of `bit` among the members, in rising order.
    pub open spec fn rank(self, bit: u8) -> nat {
        count_set(self.0, 0, bit as int)
    }

    /// No member lies in `from`, .., `to - 1`.
    pub open spec fn none_in(self, from: int, to: int) -> bool {
        forall|k: u8| from <= k < to ==> !self.has(k)
    }

    /// A run of positions without a member adds nothing to a rank.
    pub proof fn lemma_rank_skips(self, from: u8, to: u8)
        requires
            from <= to <= 64,
            self.none_in(from as int, to as int),
        ensures
            self.rank(to) == self.rank(from),
        decreases to - from,
    {
        if from < to {
            assert(!self.has((to - 1) as u8));
            self.lemma_rank_skips(from, (to - 1) as u8);
        }
    }

    pub fn bit(self, bit: u8) -> (r: bool)
        requires
            bit < 64,
        ensures
            r == self.has(bit),
    {
        (self.0 >> bit) & 1 != 0
    }

    /// How many members lie below `WALK_END`.
    pub open spec fn spec_len(self) -> nat {
        count_set(self.0, 0, WALK_END as int)
    }

    /// How many members the walk reports.
    pub fn len(self) -> (r: usize)
        ensures
            r == self.spec_len(),
            r <= WALK_END,
    {
        let mut count: usize = 0;
        let mut i: u8 = 0;
        while i < WALK_END
            invariant
                i <= WALK_END,
                count == count_set(self.0, 0, i as int),
                count <= i,
            decreases WALK_END - i,
        {
            if self.bit(i) {
                count = count + 1;
            }
            i = i + 1;
        }
        count
    }

    /// Starts a walk over the members, from position 0.
    pub fn into_iter(self) -> (r: BitVec64Iter)
        ensures
            r.bv == self,
            r.index == 0,
    {
        BitVec64Iter { index: 0, bv: self }
    }

    /// The place of `bit` among the members below `WALK_END`, or `None` where `bit` is no
    /// such member.
    pub fn position(self, bit: u8) -> (r: Option<u8>)
        ensures
            r == if bit < WALK_END && self.has(bit) {
                Some(self.rank(bit) as u8)
            } else {
                None
            },
            bit < WALK_END ==> self.rank(bit) <= bit,
    {
        if bit >= WALK_END {
            return None;
        }
        let mut count: u8 = 0;
        let mut i: u8 = 0;
        while i < bit
            invariant
                i <= bit < WALK_END,
                count == count_set(self.0, 0, i as int),
                count <= i,
            decreases bit - i,
        {
            if self.bit(i) {
                count = count + 1;
            }
            i = i + 1;
        }
        if self.bit(bit) {
            Some(count)
        } else {
            None
        }
    }
}

/// A walk over the members of a bitmap, in rising order.
pub struct BitVec64Iter {
    pub bv: BitVec64,
    pub index: u8,
}

impl BitVec64Iter {
    /// The least member at or after the walk's position and below `WALK_END`; the walk then
    /// stands just behind it. `None`, and the walk unchanged, where there is no such member.
    pub fn next(&mut self) -> (r: Option<u8>)
        ensures
            final(self).bv == old(self).bv,
            match r {
                Some(i) => {
                    &&& old(self).index <= i < WALK_END
                    &&& old(self).bv.has(i)
                    &&& old(self).bv.none_in(old(self).index as int, i as int)
                    &&& final(self).index == i + 1
                },
                None => {
                    &&& old(self).bv.none_in(old(self).index as int, WALK_END as int)
                    &&& final(self).index == old(self).index
                },
            },
    {
        let mut index: u8 = self.index;
        while index < WALK_END
            invariant
                self.index <= index,
                self.bv.none_in(self.index as int, index as int),
                *self == *old(self),
            decreases WALK_END - index,
        {
            if self.bv.bit(index) {
                self.index = index + 1;
                return Some(index);
            }
            index = index + 1;
        }
        None
    }
}

} // verus!

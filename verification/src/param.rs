//! Parameters.

use crate::bitvec::BitVec64;
use crate::error::AssemblyReadError;
use crate::heap::StringIndex;
use crate::index::{parse_simple_index, read_simple_index, TABLE_PARAM};
use crate::schema::{low_half, low_half_of, TableRow};
use vstd::prelude::*;

verus! {

/// A row of the parameter table.
#[derive(Copy, Clone, Debug, PartialEq, Eq, Structural)]
pub struct ParamIndex(pub u32);

impl ParamIndex {
    /// Reads the index into the parameter table at the cursor and moves the cursor past
    /// it; where the region is shorter than the index, nothing is consumed.
    pub fn decode(table_slice: &mut &[u8], tables_rows: &[u32], tables: BitVec64) -> (r: Result<
        Self,
        AssemblyReadError,
    >)
        ensures
            match parse_simple_index(old(table_slice)@, tables_rows@, tables, TABLE_PARAM) {
                Some((value, width)) => r == Ok::<Self, AssemblyReadError>(ParamIndex(value))
                    && final(table_slice)@ == old(table_slice)@.skip(width as int),
                None => r == Err::<Self, AssemblyReadError>(AssemblyReadError::UnexpectedEnd)
                    && final(table_slice)@ == old(table_slice)@,
            },
    {
        let index: u32 = read_simple_index(table_slice, tables_rows, tables, TABLE_PARAM)?;
        Ok(ParamIndex(index))
    }
}

/// One parameter.
#[derive(Copy, Clone, Debug, PartialEq, Eq, Structural)]
pub struct Param {
    pub flags: u16,
    pub sequence: u16,
    pub name: StringIndex,
}

impl Param {
    pub fn new(flags: u16, sequence: u16, name: StringIndex) -> (r: Self)
        ensures
            r == (Param { flags, sequence, name }),
    {
        Self { flags, sequence, name }
    }

    pub fn flags(&self) -> (r: u16)
        ensures
            r == self.flags,
    {
        self.flags
    }

    pub fn sequence(&self) -> (r: u16)
        ensures
            r == self.sequence,
    {
        self.sequence
    }

    pub fn name(&self) -> (r: StringIndex)
        ensures
            r == self.name,
    {
        self.name
    }
}

impl TableRow for Param {
    open spec fn arity() -> nat {
        3
    }

    open spec fn from_cells(cells: Seq<u32>) -> Result<Self, AssemblyReadError> {
        Ok(
            Param {
                flags: low_half_of(cells[0]),
                sequence: low_half_of(cells[1]),
                name: StringIndex(cells[2]),
            },
        )
    }

    fn from_row(cells: &[u32]) -> (r: Result<Self, AssemblyReadError>) {
        Ok(Param::new(low_half(cells[0]), low_half(cells[1]), StringIndex(cells[2])))
    }
}

} // verus!

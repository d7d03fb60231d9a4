//! Fields.

use crate::bitvec::BitVec64;
use crate::error::AssemblyReadError;
use crate::heap::{BlobIndex, StringIndex};
use crate::index::{parse_simple_index, read_simple_index, TABLE_FIELD};
use crate::schema::{low_half, low_half_of, TableRow};
use vstd::prelude::*;

verus! {

/// A row of the field table.
#[derive(Copy, Clone, Debug, PartialEq, Eq, Structural)]
pub struct FieldIndex(pub u32);

impl FieldIndex {
    /// Reads the index into the field table at the cursor and moves the cursor past it;
    /// where the region is shorter than the index, nothing is consumed.
    pub fn decode(table_slice: &mut &[u8], tables_rows: &[u32], tables: BitVec64) -> (r: Result<
        Self,
        AssemblyReadError,
    >)
        ensures
            match parse_simple_index(old(table_slice)@, tables_rows@, tables, TABLE_FIELD) {
                Some((value, width)) => r == Ok::<Self, AssemblyReadError>(FieldIndex(value))
                    && final(table_slice)@ == old(table_slice)@.skip(width as int),
                None => r == Err::<Self, AssemblyReadError>(AssemblyReadError::UnexpectedEnd)
                    && final(table_slice)@ == old(table_slice)@,
            },
    {
        let index: u32 = read_simple_index(table_slice, tables_rows, tables, TABLE_FIELD)?;
        Ok(FieldIndex(index))
    }
}

/// One field.
#[derive(Copy, Clone, Debug, PartialEq, Eq, Structural)]
pub struct Field {
    pub flags: u16,
    pub name: StringIndex,
    pub signature: BlobIndex,
}

impl Field {
    pub fn new(flags: u16, name: StringIndex, signature: BlobIndex) -> (r: Self)
        ensures
            r == (Field { flags, name, signature }),
    {
        Self { flags, name, signature }
    }

    pub fn name(&self) -> (r: StringIndex)
        ensures
            r == self.name,
    {
        self.name
    }

    pub fn signature(&self) -> (r: BlobIndex)
        ensures
            r == self.signature,
    {
        self.signature
    }
}

impl TableRow for Field {
    open spec fn arity() -> nat {
        3
    }

    open spec fn from_cells(cells: Seq<u32>) -> Result<Self, AssemblyReadError> {
        Ok(
            Field {
                flags: low_half_of(cells[0]),
                name: StringIndex(cells[1]),
                signature: BlobIndex(cells[2]),
            },
        )
    }

    fn from_row(cells: &[u32]) -> (r: Result<Self, AssemblyReadError>) {
        Ok(Field::new(low_half(cells[0]), StringIndex(cells[1]), BlobIndex(cells[2])))
    }
}

} // verus!

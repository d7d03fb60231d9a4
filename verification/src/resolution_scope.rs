//! Where a referenced type is to be found.

use crate::bitvec::BitVec64;
use crate::bytes::reads;
use crate::error::{AssemblyReadError, FormatError};
use crate::index::{coded_index, coded_tag, parse_coded, read_coded, split_coded, CodedKind};
use crate::type_def::TypeRefIndex;
use vstd::prelude::*;

verus! {

/// A row of the module table.
#[derive(Copy, Clone, Debug, PartialEq, Eq, Structural)]
pub struct ModuleIndex(pub u32);

/// A row of the module-reference table.
#[derive(Copy, Clone, Debug, PartialEq, Eq, Structural)]
pub struct ModuleRefIndex(pub u32);

/// A row of the assembly-reference table.
#[derive(Copy, Clone, Debug, PartialEq, Eq, Structural)]
pub struct AssemblyRefIndex(pub u32);

/// The module, the referenced module, the referenced assembly or the enclosing type in
/// which a referenced type is defined.
#[derive(Copy, Clone, Debug, PartialEq, Eq, Structural)]
pub enum ResolutionScope {
    Module(ModuleIndex),
    ModuleRef(ModuleRefIndex),
    AssemblyRef(AssemblyRefIndex),
    TypeRef(TypeRefIndex),
}

impl ResolutionScope {
    /// The scope that the token `raw` names: tag 0 the module, 1 a referenced module, 2 a
    /// referenced assembly, 3 a type reference.
    pub open spec fn of_raw(raw: u32) -> Result<ResolutionScope, AssemblyReadError> {
        let tag = coded_tag(raw, CodedKind::ResolutionScope.spec_tag_bits());
        let index = coded_index(raw, CodedKind::ResolutionScope.spec_tag_bits());
        if tag == 0 {
            Ok(ResolutionScope::Module(ModuleIndex(index)))
        } else if tag == 1 {
            Ok(ResolutionScope::ModuleRef(ModuleRefIndex(index)))
        } else if tag == 2 {
            Ok(ResolutionScope::AssemblyRef(AssemblyRefIndex(index)))
        } else if tag == 3 {
            Ok(ResolutionScope::TypeRef(TypeRefIndex(index)))
        } else {
            Err(AssemblyReadError::Format(FormatError::CodedTokenTag))
        }
    }

    pub fn from_raw(raw: u32) -> (r: Result<ResolutionScope, AssemblyReadError>)
        ensures
            r == Self::of_raw(raw),
    {
        let (tag, index) = split_coded(raw, CodedKind::ResolutionScope);
        if tag == 0 {
            Ok(ResolutionScope::Module(ModuleIndex(index)))
        } else if tag == 1 {
            Ok(ResolutionScope::ModuleRef(ModuleRefIndex(index)))
        } else if tag == 2 {
            Ok(ResolutionScope::AssemblyRef(AssemblyRefIndex(index)))
        } else if tag == 3 {
            Ok(ResolutionScope::TypeRef(TypeRefIndex(index)))
        } else {
            Err(AssemblyReadError::Format(FormatError::CodedTokenTag))
        }
    }

    /// The token at the start of `s` and its width.
    pub open spec fn parse(s: Seq<u8>, tables_rows: Seq<u32>, tables: BitVec64) -> Result<
        (ResolutionScope, nat),
        AssemblyReadError,
    > {
        match parse_coded(s, CodedKind::ResolutionScope, tables_rows, tables) {
            None => Err(AssemblyReadError::UnexpectedEnd),
            Some((raw, width)) => match Self::of_raw(raw) {
                Err(e) => Err(e),
                Ok(token) => Ok((token, width)),
            },
        }
    }

    /// Reads the token at the cursor.
    pub fn decode(table_slice: &mut &[u8], tables_rows: &[u32], tables: BitVec64) -> (r: Result<
        Self,
        AssemblyReadError,
    >)
        ensures
            reads(
                r,
                old(table_slice)@,
                final(table_slice)@,
                Self::parse(old(table_slice)@, tables_rows@, tables),
            ),
    {
        let start: &[u8] = *table_slice;
        let raw: u32 = read_coded(table_slice, CodedKind::ResolutionScope, tables_rows, tables)?;
        match Self::from_raw(raw) {
            Ok(token) => Ok(token),
            Err(e) => {
                *table_slice = start;
                Err(e)
            },
        }
    }
}

} // verus!

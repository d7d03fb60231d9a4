//! Type definitions and the token that names a type.

use crate::bitvec::BitVec64;
use crate::bytes::reads;
use crate::error::{AssemblyReadError, FormatError};
use crate::field::FieldIndex;
use crate::heap::StringIndex;
use crate::index::{
    coded_index, coded_raw, coded_tag, greatest_index, lemma_coded_token_round_trip, parse_coded,
    read_coded, split_coded, CodedKind,
};
use crate::method::MethodIndex;
use crate::schema::TableRow;
use vstd::prelude::*;

verus! {

/// A row of the type-definition table.
#[derive(Copy, Clone, Debug, PartialEq, Eq, Structural)]
pub struct TypeDefIndex(pub u32);

/// A row of the type-reference table.
#[derive(Copy, Clone, Debug, PartialEq, Eq, Structural)]
pub struct TypeRefIndex(pub u32);

/// A row of the type-specification table.
#[derive(Copy, Clone, Debug, PartialEq, Eq, Structural)]
pub struct TypeSpecIndex(pub u32);

/// A type, named by the table that describes it and its row there. Row 0 stands for "no
/// type".
#[derive(Copy, Clone, Debug, PartialEq, Eq, Structural)]
pub enum TypeDefOrRef {
    TypeDef(TypeDefIndex),
    TypeRef(TypeRefIndex),
    TypeSpec(TypeSpecIndex),
}

impl TypeDefOrRef {
    /// The type that the token `raw` names: tag 0 a definition, 1 a reference, 2 a
    /// specification.
    pub open spec fn of_raw(raw: u32) -> Result<TypeDefOrRef, AssemblyReadError> {
        let tag = coded_tag(raw, CodedKind::TypeDefOrRef.spec_tag_bits());
        let index = coded_index(raw, CodedKind::TypeDefOrRef.spec_tag_bits());
        if tag == 0 {
            Ok(TypeDefOrRef::TypeDef(TypeDefIndex(index)))
        } else if tag == 1 {
            Ok(TypeDefOrRef::TypeRef(TypeRefIndex(index)))
        } else if tag == 2 {
            Ok(TypeDefOrRef::TypeSpec(TypeSpecIndex(index)))
        } else {
            Err(AssemblyReadError::Format(FormatError::CodedTokenTag))
        }
    }

    /// The tag that selects the table of the token.
    pub open spec fn tag(self) -> u32 {
        match self {
            TypeDefOrRef::TypeDef(_) => 0,
            TypeDefOrRef::TypeRef(_) => 1,
            TypeDefOrRef::TypeSpec(_) => 2,
        }
    }

    /// Packing a token and splitting it again gives the token back: the same table and the
    /// same row, for every row that fits beside the tag.
    pub proof fn lemma_round_trip(self)
        requires
            self.row() <= greatest_index(CodedKind::TypeDefOrRef.spec_tag_bits()),
        ensures
            Self::of_raw(
                coded_raw(self.tag(), self.row(), CodedKind::TypeDefOrRef.spec_tag_bits()),
            ) == Ok::<TypeDefOrRef, AssemblyReadError>(self),
    {
        lemma_coded_token_round_trip(CodedKind::TypeDefOrRef, self.tag(), self.row());
    }

    /// The row that the token names.
    pub open spec fn row(self) -> u32 {
        match self {
            TypeDefOrRef::TypeDef(i) => i.0,
            TypeDefOrRef::TypeRef(i) => i.0,
            TypeDefOrRef::TypeSpec(i) => i.0,
        }
    }

    pub fn from_raw(raw: u32) -> (r: Result<TypeDefOrRef, AssemblyReadError>)
        ensures
            r == Self::of_raw(raw),
    {
        let (tag, index) = split_coded(raw, CodedKind::TypeDefOrRef);
        if tag == 0 {
            Ok(TypeDefOrRef::TypeDef(TypeDefIndex(index)))
        } else if tag == 1 {
            Ok(TypeDefOrRef::TypeRef(TypeRefIndex(index)))
        } else if tag == 2 {
            Ok(TypeDefOrRef::TypeSpec(TypeSpecIndex(index)))
        } else {
            Err(AssemblyReadError::Format(FormatError::CodedTokenTag))
        }
    }

    /// The token at the start of `s` and its width.
    pub open spec fn parse(s: Seq<u8>, tables_rows: Seq<u32>, tables: BitVec64) -> Result<
        (TypeDefOrRef, nat),
        AssemblyReadError,
    > {
        match parse_coded(s, CodedKind::TypeDefOrRef, tables_rows, tables) {
            None => Err(AssemblyReadError::UnexpectedEnd),
            Some((raw, width)) => match Self::of_raw(raw) {
                Err(e) => Err(e),
                Ok(token) => Ok((token, width)),
            },
        }
    }

    /// Reads the token at the cursor.
    pub fn decode(table_slice: &mut &[u8], tables_rows: &[u32], tables: BitVec64) -> (r: Result<
        Self,
        AssemblyReadError,
    >)
        ensures
            reads(
                r,
                old(table_slice)@,
                final(table_slice)@,
                Self::parse(old(table_slice)@, tables_rows@, tables),
            ),
    {
        let start: &[u8] = *table_slice;
        let raw: u32 = read_coded(table_slice, CodedKind::TypeDefOrRef, tables_rows, tables)?;
        match Self::from_raw(raw) {
            Ok(token) => Ok(token),
            Err(e) => {
                *table_slice = start;
                Err(e)
            },
        }
    }
}

/// One type definition.
#[derive(Copy, Clone, Debug, PartialEq, Eq, Structural)]
pub struct TypeDef {
    pub flags: u32,
    pub name: StringIndex,
    pub namespace: StringIndex,
    pub derived_from: TypeDefOrRef,
    pub field_index: FieldIndex,
    pub method_index: MethodIndex,
}

impl TypeDef {
    pub fn flags(&self) -> (r: u32)
        ensures
            r == self.flags,
    {
        self.flags
    }

    pub fn name(&self) -> (r: StringIndex)
        ensures
            r == self.name,
    {
        self.name
    }

    pub fn namespace(&self) -> (r: StringIndex)
        ensures
            r == self.namespace,
    {
        self.namespace
    }

    pub fn derived_from(&self) -> (r: TypeDefOrRef)
        ensures
            r == self.derived_from,
    {
        self.derived_from
    }

    pub fn field_index(&self) -> (r: FieldIndex)
        ensures
            r == self.field_index,
    {
        self.field_index
    }

    pub fn method_index(&self) -> (r: MethodIndex)
        ensures
            r == self.method_index,
    {
        self.method_index
    }

    /// The definitions whose parts stand at the same place of each of the six columns.
    pub fn from_vecs(
        flags: &[u32],
        type_names: &[StringIndex],
        namespaces: &[StringIndex],
        derived_from: &[TypeDefOrRef],
        fields: &[FieldIndex],
        methods: &[MethodIndex],
    ) -> (res: Vec<Self>)
        requires
            type_names@.len() >= flags@.len(),
            namespaces@.len() >= flags@.len(),
            derived_from@.len() >= flags@.len(),
            fields@.len() >= flags@.len(),
            methods@.len() >= flags@.len(),
        ensures
            res@.len() == flags@.len(),
            forall|i: int|
                0 <= i < flags@.len() ==> #[trigger] res@[i] == (TypeDef {
                    flags: flags@[i],
                    name: type_names@[i],
                    namespace: namespaces@[i],
                    derived_from: derived_from@[i],
                    field_index: fields@[i],
                    method_index: methods@[i],
                }),
    {
        let mut res: Vec<Self> = Vec::new();
        let mut index: usize = 0;
        while index < flags.len()
            invariant
                index <= flags@.len(),
                type_names@.len() >= flags@.len(),
                namespaces@.len() >= flags@.len(),
                derived_from@.len() >= flags@.len(),
                fields@.len() >= flags@.len(),
                methods@.len() >= flags@.len(),
                res@.len() == index,
                forall|i: int|
                    0 <= i < index ==> #[trigger] res@[i] == (TypeDef {
                        flags: flags@[i],
                        name: type_names@[i],
                        namespace: namespaces@[i],
                        derived_from: derived_from@[i],
                        field_index: fields@[i],
                        method_index: methods@[i],
                    }),
            decreases flags@.len() - index,
        {
            res.push(
                Self {
                    flags: flags[index],
                    name: type_names[index],
                    namespace: namespaces[index],
                    derived_from: derived_from[index],
                    field_index: fields[index],
                    method_index: methods[index],
                },
            );
            index = index + 1;
        }
        res
    }
}

impl TableRow for TypeDef {
    open spec fn arity() -> nat {
        6
    }

    open spec fn from_cells(cells: Seq<u32>) -> Result<Self, AssemblyReadError> {
        match TypeDefOrRef::of_raw(cells[3]) {
            Err(e) => Err(e),
            Ok(derived_from) => Ok(
                TypeDef {
                    flags: cells[0],
                    name: StringIndex(cells[1]),
                    namespace: StringIndex(cells[2]),
                    derived_from,
                    field_index: FieldIndex(cells[4]),
                    method_index: MethodIndex(cells[5]),
                },
            ),
        }
    }

    fn from_row(cells: &[u32]) -> (r: Result<Self, AssemblyReadError>) {
        let derived_from: TypeDefOrRef = TypeDefOrRef::from_raw(cells[3])?;
        Ok(
            TypeDef {
                flags: cells[0],
                name: StringIndex(cells[1]),
                namespace: StringIndex(cells[2]),
                derived_from,
                field_index: FieldIndex(cells[4]),
                method_index: MethodIndex(cells[5]),
            },
        )
    }
}

} // verus!

//! Methods, and the members of other types that a module refers to.

use crate::bitvec::BitVec64;
use crate::bytes::{advance, prepend, reads};
use crate::error::{agrees, AssemblyReadError, FormatError, UnsupportedFeature};
use crate::heap::{BlobIndex, StringIndex};
use crate::index::{
    coded_index, coded_tag, parse_coded, parse_simple_index, read_coded, read_simple_index,
    split_coded, CodedKind, TABLE_METHOD_DEF,
};
use crate::param::ParamIndex;
use crate::pe_file::{PEFile, PEFileView, RVA};
use crate::resolution_scope::ModuleRefIndex;
use crate::schema::{low_half, low_half_of, TableRow};
use crate::type_def::{TypeDefIndex, TypeRefIndex, TypeSpecIndex};
use vstd::prelude::*;
use vstd::slice::slice_subrange;

verus! {

/// A row of the method table.
#[derive(Copy, Clone, Debug, PartialEq, Eq, Structural)]
pub struct MethodIndex(pub u32);

impl MethodIndex {
    /// Reads the index into the method table at the cursor and moves the cursor past it;
    /// where the region is shorter than the index, nothing is consumed.
    pub fn decode(table_slice: &mut &[u8], tables_rows: &[u32], tables: BitVec64) -> (r: Result<
        Self,
        AssemblyReadError,
    >)
        ensures
            match parse_simple_index(old(table_slice)@, tables_rows@, tables, TABLE_METHOD_DEF) {
                Some((value, width)) => r == Ok::<Self, AssemblyReadError>(MethodIndex(value))
                    && final(table_slice)@ == old(table_slice)@.skip(width as int),
                None => r == Err::<Self, AssemblyReadError>(AssemblyReadError::UnexpectedEnd)
                    && final(table_slice)@ == old(table_slice)@,
            },
    {
        let index: u32 = read_simple_index(table_slice, tables_rows, tables, TABLE_METHOD_DEF)?;
        Ok(MethodIndex(index))
    }
}

/// One method definition.
#[derive(Copy, Clone, Debug, PartialEq, Eq, Structural)]
pub struct MethodDef {
    pub rva: u32,
    pub impl_flags: u16,
    pub flags: u16,
    pub name: StringIndex,
    pub signature: BlobIndex,
    pub param_index: ParamIndex,
}

impl MethodDef {
    pub fn param_start(&self) -> (r: ParamIndex)
        ensures
            r == self.param_index,
    {
        self.param_index
    }

    pub fn rva(&self) -> (r: RVA)
        ensures
            r.0 == self.rva,
    {
        RVA(self.rva as u64)
    }

    pub fn name(&self) -> (r: StringIndex)
        ensures
            r == self.name,
    {
        self.name
    }

    pub fn signature(&self) -> (r: BlobIndex)
        ensures
            r == self.signature,
    {
        self.signature
    }

    pub fn new(
        rva: u32,
        impl_flags: u16,
        flags: u16,
        name: StringIndex,
        signature: BlobIndex,
        param_index: ParamIndex,
    ) -> (r: Self)
        ensures
            r == (MethodDef { rva, impl_flags, flags, name, signature, param_index }),
    {
        Self { rva, impl_flags, flags, name, signature, param_index }
    }
}

impl TableRow for MethodDef {
    open spec fn arity() -> nat {
        6
    }

    open spec fn from_cells(cells: Seq<u32>) -> Result<Self, AssemblyReadError> {
        Ok(
            MethodDef {
                rva: cells[0],
                impl_flags: low_half_of(cells[1]),
                flags: low_half_of(cells[2]),
                name: StringIndex(cells[3]),
                signature: BlobIndex(cells[4]),
                param_index: ParamIndex(cells[5]),
            },
        )
    }

    fn from_row(cells: &[u32]) -> (r: Result<Self, AssemblyReadError>) {
        Ok(
            MethodDef::new(
                cells[0],
                low_half(cells[1]),
                low_half(cells[2]),
                StringIndex(cells[3]),
                BlobIndex(cells[4]),
                ParamIndex(cells[5]),
            ),
        )
    }
}

/// What a referenced member belongs to.
#[derive(Copy, Clone, Debug, PartialEq, Eq, Structural)]
pub enum MemberRefParent {
    TypeDef(TypeDefIndex),
    TypeRef(TypeRefIndex),
    ModuleRef(ModuleRefIndex),
    MethodDef(MethodIndex),
    TypeSpec(TypeSpecIndex),
}

impl MemberRefParent {
    /// The parent that the token `raw` names: tag 0 a type definition, 1 a type reference,
    /// 2 a referenced module, 3 a method, 4 a type specification.
    pub open spec fn of_raw(raw: u32) -> Result<MemberRefParent, AssemblyReadError> {
        let tag = coded_tag(raw, CodedKind::MemberRefParent.spec_tag_bits());
        let index = coded_index(raw, CodedKind::MemberRefParent.spec_tag_bits());
        if tag == 0 {
            Ok(MemberRefParent::TypeDef(TypeDefIndex(index)))
        } else if tag == 1 {
            Ok(MemberRefParent::TypeRef(TypeRefIndex(index)))
        } else if tag == 2 {
            Ok(MemberRefParent::ModuleRef(ModuleRefIndex(index)))
        } else if tag == 3 {
            Ok(MemberRefParent::MethodDef(MethodIndex(index)))
        } else if tag == 4 {
            Ok(MemberRefParent::TypeSpec(TypeSpecIndex(index)))
        } else {
            Err(AssemblyReadError::Format(FormatError::CodedTokenTag))
        }
    }

    pub fn from_raw(raw: u32) -> (r: Result<MemberRefParent, AssemblyReadError>)
        ensures
            r == Self::of_raw(raw),
    {
        let (tag, index) = split_coded(raw, CodedKind::MemberRefParent);
        if tag == 0 {
            Ok(MemberRefParent::TypeDef(TypeDefIndex(index)))
        } else if tag == 1 {
            Ok(MemberRefParent::TypeRef(TypeRefIndex(index)))
        } else if tag == 2 {
            Ok(MemberRefParent::ModuleRef(ModuleRefIndex(index)))
        } else if tag == 3 {
            Ok(MemberRefParent::MethodDef(MethodIndex(index)))
        } else if tag == 4 {
            Ok(MemberRefParent::TypeSpec(TypeSpecIndex(index)))
        } else {
            Err(AssemblyReadError::Format(FormatError::CodedTokenTag))
        }
    }

    /// The token at the start of `s` and its width.
    pub open spec fn parse(s: Seq<u8>, tables_rows: Seq<u32>, tables: BitVec64) -> Result<
        (MemberRefParent, nat),
        AssemblyReadError,
    > {
        match parse_coded(s, CodedKind::MemberRefParent, tables_rows, tables) {
            None => Err(AssemblyReadError::UnexpectedEnd),
            Some((raw, width)) => match Self::of_raw(raw) {
                Err(e) => Err(e),
                Ok(token) => Ok((token, width)),
            },
        }
    }

    /// Reads the token at the cursor.
    pub fn decode(table_slice: &mut &[u8], tables_rows: &[u32], tables: BitVec64) -> (r: Result<
        Self,
        AssemblyReadError,
    >)
        ensures
            reads(
                r,
                old(table_slice)@,
                final(table_slice)@,
                Self::parse(old(table_slice)@, tables_rows@, tables),
            ),
    {
        let start: &[u8] = *table_slice;
        let raw: u32 = read_coded(table_slice, CodedKind::MemberRefParent, tables_rows, tables)?;
        match Self::from_raw(raw) {
            Ok(token) => Ok(token),
            Err(e) => {
                *table_slice = start;
                Err(e)
            },
        }
    }
}

/// One reference to a member of another type.
#[derive(Copy, Clone, Debug, PartialEq, Eq, Structural)]
pub struct MemberRef {
    pub class: MemberRefParent,
    pub name: StringIndex,
    pub signature: BlobIndex,
}

impl MemberRef {
    pub fn new(class: MemberRefParent, name: StringIndex, signature: BlobIndex) -> (r: Self)
        ensures
            r == (MemberRef { class, name, signature }),
    {
        Self { class, name, signature }
    }
}

impl TableRow for MemberRef {
    open spec fn arity() -> nat {
        3
    }

    open spec fn from_cells(cells: Seq<u32>) -> Result<Self, AssemblyReadError> {
        match MemberRefParent::of_raw(cells[0]) {
            Err(e) => Err(e),
            Ok(class) => Ok(
                MemberRef { class, name: StringIndex(cells[1]), signature: BlobIndex(cells[2]) },
            ),
        }
    }

    fn from_row(cells: &[u32]) -> (r: Result<Self, AssemblyReadError>) {
        let class: MemberRefParent = MemberRefParent::from_raw(cells[0])?;
        Ok(MemberRef::new(class, StringIndex(cells[1]), BlobIndex(cells[2])))
    }
}

/// An instruction of a method body.
#[derive(Copy, Clone, Debug, PartialEq, Eq, Structural)]
pub enum CILOp {
    LDArg0,
    LDArg1,
    LDArg2,
    LDArg3,
    Add,
    Mul,
    Ret,
    Dup,
}

/// The instruction that the opcode `byte` stands for, where it is one of the eight that
/// are known.
pub open spec fn op_of(byte: u8) -> Option<CILOp> {
    if byte == 0x02 {
        Some(CILOp::LDArg0)
    } else if byte == 0x03 {
        Some(CILOp::LDArg1)
    } else if byte == 0x04 {
        Some(CILOp::LDArg2)
    } else if byte == 0x05 {
        Some(CILOp::LDArg3)
    } else if byte == 0x25 {
        Some(CILOp::Dup)
    } else if byte == 0x2a {
        Some(CILOp::Ret)
    } else if byte == 0x58 {
        Some(CILOp::Add)
    } else if byte == 0x5a {
        Some(CILOp::Mul)
    } else {
        None
    }
}

/// The instruction at the start of `s` and the bytes that it takes.
pub open spec fn parse_op(s: Seq<u8>) -> Result<(CILOp, nat), AssemblyReadError> {
    if s.len() == 0 {
        Err(AssemblyReadError::UnexpectedEnd)
    } else {
        match op_of(s[0]) {
            Some(op) => Ok((op, 1)),
            None => Err(AssemblyReadError::Unsupported(UnsupportedFeature::Opcode(s[0]))),
        }
    }
}

/// Reads the instruction at the cursor and moves the cursor past it. On failure nothing
/// is consumed.
pub fn decode_op(slice: &mut &[u8]) -> (r: Result<CILOp, AssemblyReadError>)
    ensures
        reads(r, old(slice)@, final(slice)@, parse_op(old(slice)@)),
{
    let code: &[u8] = *slice;
    if code.len() == 0 {
        return Err(AssemblyReadError::UnexpectedEnd);
    }
    let byte: u8 = code[0];
    let op: CILOp = if byte == 0x02 {
        CILOp::LDArg0
    } else if byte == 0x03 {
        CILOp::LDArg1
    } else if byte == 0x04 {
        CILOp::LDArg2
    } else if byte == 0x05 {
        CILOp::LDArg3
    } else if byte == 0x25 {
        CILOp::Dup
    } else if byte == 0x2a {
        CILOp::Ret
    } else if byte == 0x58 {
        CILOp::Add
    } else if byte == 0x5a {
        CILOp::Mul
    } else {
        return Err(AssemblyReadError::Unsupported(UnsupportedFeature::Opcode(byte)));
    };
    advance(slice, 1);
    Ok(op)
}

/// The instructions that the bytes `code` spell, one behind the other, or what the first
/// byte that cannot be read as an instruction fails with.
pub open spec fn ops_from(code: Seq<u8>) -> Result<Seq<CILOp>, AssemblyReadError>
    decreases code.len(),
{
    if code.len() == 0 {
        Ok(Seq::empty())
    } else {
        match parse_op(code) {
            Err(e) => Err(e),
            Ok((op, n)) => match ops_from(code.skip(n as int)) {
                Err(e) => Err(e),
                Ok(rest) => Ok(seq![op] + rest),
            },
        }
    }
}

/// The body of a method.
#[derive(Debug, Clone, PartialEq)]
pub struct Method {
    pub ops: Vec<CILOp>,
}

impl View for Method {
    type V = Seq<CILOp>;

    open spec fn view(&self) -> Seq<CILOp> {
        self.ops@
    }
}

/// The body that the container `pe` holds at `rva`. A body starts with a header byte
/// whose two low bits tell its form. The tiny form keeps the length of the code in the
/// six bits above them, and the code follows at once; the fat form is not handled.
pub open spec fn method_at(pe: PEFileView, rva: u64) -> Result<Seq<CILOp>, AssemblyReadError> {
    match pe.bytes_at_rva(rva, 1) {
        None => Err(AssemblyReadError::UnmappedRVA),
        Some(header) => {
            let first = header[0];
            if first & 0b11 == 0x2 {
                match pe.bytes_at_rva(rva, ((first >> 2) as u64 + 1) as u64) {
                    None => Err(AssemblyReadError::UnmappedRVA),
                    Some(body) => ops_from(body.skip(1)),
                }
            } else if first & 0b11 == 0x3 {
                Err(AssemblyReadError::Unsupported(UnsupportedFeature::FatMethodHeader))
            } else {
                Err(AssemblyReadError::Unsupported(UnsupportedFeature::MethodHeader))
            }
        },
    }
}

/// Decodes the code `code` of a method body.
pub fn decode_ops(code: &[u8]) -> (r: Result<Vec<CILOp>, AssemblyReadError>)
    ensures
        agrees(r, ops_from(code@)),
{
    let ghost whole = ops_from(code@);
    let mut slice: &[u8] = code;
    let mut ops: Vec<CILOp> = Vec::new();
    assert(prepend(ops@, whole) == whole) by {
        if whole is Ok {
            assert(Seq::<CILOp>::empty() + whole->Ok_0 =~= whole->Ok_0);
        }
    }
    while slice.len() > 0
        invariant
            whole == ops_from(code@),
            whole == prepend(ops@, ops_from(slice@)),
        decreases slice@.len(),
    {
        let ghost done = ops@;
        match decode_op(&mut slice) {
            Err(e) => {
                return Err(e);
            },
            Ok(op) => {
                proof {
                    let rest = ops_from(slice@);
                    if rest is Ok {
                        assert(done + (seq![op] + rest->Ok_0) =~= done.push(op) + rest->Ok_0);
                    }
                }
                ops.push(op);
            },
        }
    }
    proof {
        assert(ops@ + Seq::<CILOp>::empty() =~= ops@);
    }
    Ok(ops)
}

/// Decodes the body of the method at `rva`.
pub fn decode_method(file: &PEFile, rva: RVA) -> (r: Result<Method, AssemblyReadError>)
    ensures
        agrees(r, method_at(file@, rva.0)),
{
    let first_byte: u8 = match file.slice_at_rva(rva, 1) {
        None => {
            return Err(AssemblyReadError::UnmappedRVA);
        },
        Some(header) => header[0],
    };
    let tag: u8 = first_byte & 0b11;
    if tag == 0x2 {
        let len: u8 = first_byte >> 2;
        let body: &[u8] = match file.slice_at_rva(rva, len as u64 + 1) {
            None => {
                return Err(AssemblyReadError::UnmappedRVA);
            },
            Some(body) => body,
        };
        let code: &[u8] = slice_subrange(body, 1, body.len());
        let ops: Vec<CILOp> = decode_ops(code)?;
        Ok(Method { ops })
    } else if tag == 0x3 {
        Err(AssemblyReadError::Unsupported(UnsupportedFeature::FatMethodHeader))
    } else {
        Err(AssemblyReadError::Unsupported(UnsupportedFeature::MethodHeader))
    }
}

} // verus!

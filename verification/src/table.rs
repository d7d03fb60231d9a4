//! Type references, signatures, and the resolved form of the tables.

use crate::assembly::{index_of_length, length_index, EncodedAssembly, EncodedAssemblyView};
use crate::bitvec::BitVec64;
use crate::encoded_table::{Table, TableView};
use crate::error::{agrees, AssemblyReadError, FormatError, UnsupportedFeature};
use crate::field::FieldIndex;
use crate::heap::{
    decode_blob_compressed_value, parse_compressed, BlobIndex, GUIDIndex, StringIndex,
};
use crate::method::{decode_method, method_at, CILOp, Method, MethodDef, MethodIndex};
use crate::param::{Param, ParamIndex};
use crate::resolution_scope::ResolutionScope;
use crate::schema::TableRow;
use crate::seqs::{lemma_views_of_push, views_of};
use crate::type_def::{TypeDef, TypeDefOrRef};
use crate::types::{decode_type, lemma_parse_type_within, parse_type, Type};
use core::ops::Range;
use vstd::prelude::*;
use vstd::slice::slice_subrange;

verus! {

/// One reference to a type that is defined elsewhere. Its name is never absent.
#[derive(Copy, Clone, Debug, PartialEq, Eq, Structural)]
pub struct TypeRef {
    pub scope: ResolutionScope,
    pub name: StringIndex,
    pub namespace: StringIndex,
}

impl TypeRef {
    pub fn new(scope: ResolutionScope, name: StringIndex, namespace: StringIndex) -> (r: Self)
        ensures
            r == (TypeRef { scope, name, namespace }),
    {
        Self { scope, name, namespace }
    }

    pub fn name(&self) -> (r: StringIndex)
        ensures
            r == self.name,
    {
        self.name
    }

    pub fn namespace(&self) -> (r: StringIndex)
        ensures
            r == self.namespace,
    {
        self.namespace
    }

    pub fn scope(&self) -> (r: ResolutionScope)
        ensures
            r == self.scope,
    {
        self.scope
    }
}

impl TableRow for TypeRef {
    open spec fn arity() -> nat {
        3
    }

    open spec fn from_cells(cells: Seq<u32>) -> Result<Self, AssemblyReadError> {
        match ResolutionScope::of_raw(cells[0]) {
            Err(e) => Err(e),
            Ok(scope) => if cells[1] == 0 {
                Err(AssemblyReadError::Format(FormatError::TypeRefNameAbsent))
            } else {
                Ok(TypeRef { scope, name: StringIndex(cells[1]), namespace: StringIndex(cells[2]) })
            },
        }
    }

    fn from_row(cells: &[u32]) -> (r: Result<Self, AssemblyReadError>) {
        let scope: ResolutionScope = ResolutionScope::from_raw(cells[0])?;
        if cells[1] == 0 {
            return Err(AssemblyReadError::Format(FormatError::TypeRefNameAbsent));
        }
        Ok(TypeRef::new(scope, StringIndex(cells[1]), StringIndex(cells[2])))
    }
}

/// A type reference with its names looked up.
#[derive(Debug, Clone, PartialEq)]
pub struct DecodedTypeRef {
    pub scope: ResolutionScope,
    pub name: String,
    pub namespace: String,
}

/// What a resolved type reference holds.
pub struct DecodedTypeRefView {
    pub scope: ResolutionScope,
    pub name: Seq<char>,
    pub namespace: Seq<char>,
}

impl View for DecodedTypeRef {
    type V = DecodedTypeRefView;

    open spec fn view(&self) -> DecodedTypeRefView {
        DecodedTypeRefView { scope: self.scope, name: self.name@, namespace: self.namespace@ }
    }
}

impl DecodedTypeRef {
    pub fn new(scope: ResolutionScope, name: String, namespace: String) -> (r: Self)
        ensures
            r@ == (DecodedTypeRefView { scope, name: name@, namespace: namespace@ }),
    {
        Self { scope, name, namespace }
    }
}

/// A signature: the calling convention, passed through as it is; the types of the
/// arguments; the type of the result.
#[derive(Debug, PartialEq)]
pub struct Signature {
    pub flags: u8,
    pub args: Vec<Type>,
    pub ret: Type,
}

/// What a signature holds.
pub struct SignatureView {
    pub flags: u8,
    pub args: Seq<Type>,
    pub ret: Type,
}

impl View for Signature {
    type V = SignatureView;

    open spec fn view(&self) -> SignatureView {
        SignatureView { flags: self.flags, args: self.args@, ret: self.ret }
    }
}

/// The `count` types at the start of `s`, one behind the other, and the bytes that they
/// take; or what the first type that cannot be read fails with.
pub open spec fn parse_types(s: Seq<u8>, count: nat, context: Option<(Seq<u32>, BitVec64)>) -> Result<
    (Seq<Type>, nat),
    AssemblyReadError,
>
    decreases count,
{
    if count == 0 {
        Ok((Seq::empty(), 0))
    } else {
        match parse_type(s, context) {
            Err(e) => Err(e),
            Ok((first, n)) => match parse_types(s.skip(n as int), (count - 1) as nat, context) {
                Err(e) => Err(e),
                Ok((rest, m)) => Ok((seq![first] + rest, n + m)),
            },
        }
    }
}

/// Types that are still being read: those that are done and the bytes they took, then
/// what the rest comes to.
pub open spec fn types_then(
    done: Seq<Type>,
    taken: nat,
    rest: Result<(Seq<Type>, nat), AssemblyReadError>,
) -> Result<(Seq<Type>, nat), AssemblyReadError> {
    match rest {
        Ok((more, n)) => Ok((done + more, taken + n)),
        Err(e) => Err(e),
    }
}

/// The signature that the bytes `s` spell: one byte of flags, the compressed number of
/// arguments, the types of the arguments, and the type of the result.
pub open spec fn parse_signature(s: Seq<u8>, context: Option<(Seq<u32>, BitVec64)>) -> Result<
    SignatureView,
    AssemblyReadError,
> {
    if s.len() == 0 {
        Err(AssemblyReadError::UnexpectedEnd)
    } else {
        match parse_compressed(s.skip(1)) {
            None => Err(AssemblyReadError::UnexpectedEnd),
            Some((argc, n)) => match parse_types(s.skip((1 + n) as int), argc as nat, context) {
                Err(e) => Err(e),
                Ok((args, m)) => match parse_type(s.skip((1 + n + m) as int), context) {
                    Err(e) => Err(e),
                    Ok((ret, _)) => Ok(SignatureView { flags: s[0], args, ret }),
                },
            },
        }
    }
}

impl Signature {
    /// The signature of a method without arguments and without a result.
    pub fn empty() -> (r: Self)
        ensures
            r@ == (SignatureView { flags: 0, args: Seq::empty(), ret: Type::Void }),
    {
        Self { flags: 0, args: Vec::new(), ret: Type::Void }
    }

    /// Reads `argc` types at the cursor and moves the cursor past them. On failure nothing
    /// is consumed.
    pub fn decode_args(signature: &mut &[u8], argc: u32, assembly: &EncodedAssembly) -> (r: Result<
        Vec<Type>,
        AssemblyReadError,
    >)
        ensures
            match parse_types(old(signature)@, argc as nat, assembly@.rows_context()) {
                Ok((args, n)) => r is Ok && r.unwrap()@ == args && final(signature)@ == old(
                    signature,
                )@.skip(n as int) && n <= old(signature)@.len(),
                Err(e) => r is Err && r->Err_0 == e && final(signature)@ == old(signature)@,
            },
    {
        let first: &[u8] = *signature;
        let ghost start = signature@;
        let ghost context = assembly@.rows_context();
        let ghost whole = parse_types(start, argc as nat, context);
        let ghost mut taken: nat = 0;
        let mut args: Vec<Type> = Vec::new();
        let mut i: u32 = 0;
        assert(types_then(args@, taken, whole) == whole) by {
            if whole is Ok {
                assert(Seq::<Type>::empty() + whole->Ok_0.0 =~= whole->Ok_0.0);
            }
        }
        assert(start.skip(0) =~= start);
        while i < argc
            invariant
                i <= argc,
                start == old(signature)@,
                first@ == start,
                context == assembly@.rows_context(),
                whole == parse_types(start, argc as nat, context),
                taken <= start.len(),
                signature@ == start.skip(taken as int),
                whole == types_then(
                    args@,
                    taken,
                    parse_types(signature@, (argc - i) as nat, context),
                ),
            decreases argc - i,
        {
            let ghost done = args@;
            let ghost here = signature@;
            match decode_type(signature, assembly) {
                Err(e) => {
                    *signature = first;
                    return Err(e);
                },
                Ok(arg) => {
                    proof {
                        lemma_parse_type_within(here, context);
                        let n = parse_type(here, context).unwrap().1;
                        let rest = parse_types(signature@, (argc - i - 1) as nat, context);
                        if rest is Ok {
                            assert(done + (seq![arg] + rest->Ok_0.0) =~= done.push(arg)
                                + rest->Ok_0.0);
                        }
                        assert(here.skip(n as int) =~= start.skip((taken + n) as int));
                        taken = taken + n;
                    }
                    args.push(arg);
                },
            }
            i = i + 1;
        }
        proof {
            assert(args@ + Seq::<Type>::empty() =~= args@);
        }
        Ok(args)
    }

    /// Decodes the signature that the blob `signature` spells.
    pub fn decode(signature: &[u8], assembly: &EncodedAssembly) -> (r: Result<
        Self,
        AssemblyReadError,
    >)
        ensures
            agrees(r, parse_signature(signature@, assembly@.rows_context())),
    {
        if signature.len() == 0 {
            return Err(AssemblyReadError::UnexpectedEnd);
        }
        let flags: u8 = signature[0];
        let mut rest: &[u8] = slice_subrange(signature, 1, signature.len());
        let argc: u32 = decode_blob_compressed_value(&mut rest)?;
        let ghost n = parse_compressed(signature@.skip(1)).unwrap().1;
        assert(rest@ =~= signature@.skip((1 + n) as int));
        let args: Vec<Type> = Self::decode_args(&mut rest, argc, assembly)?;
        proof {
            let m = parse_types(
                signature@.skip((1 + n) as int),
                argc as nat,
                assembly@.rows_context(),
            ).unwrap().1;
            assert(rest@ =~= signature@.skip((1 + n + m) as int));
        }
        let ret: Type = decode_type(&mut rest, assembly)?;
        Ok(Self { args, ret, flags })
    }
}

/// The base of a type, named by the token that the type definition holds.
#[derive(Debug, Clone, Copy, PartialEq, Eq, Structural)]
pub struct DotnetTypeRef {
    pub target: TypeDefOrRef,
}

impl DotnetTypeRef {
    /// The base that the token `tdor` names; a token that names row 0 names no base.
    pub open spec fn of(tdor: TypeDefOrRef) -> Option<DotnetTypeRef> {
        if tdor.row() == 0 {
            None
        } else {
            Some(DotnetTypeRef { target: tdor })
        }
    }

    pub fn new(tdor: TypeDefOrRef) -> (r: Option<Self>)
        ensures
            r == Self::of(tdor),
    {
        let row: u32 = match tdor {
            TypeDefOrRef::TypeDef(index) => index.0,
            TypeDefOrRef::TypeRef(index) => index.0,
            TypeDefOrRef::TypeSpec(index) => index.0,
        };
        if row == 0 {
            None
        } else {
            Some(DotnetTypeRef { target: tdor })
        }
    }
}

/// Where the rows that a row owns end: where the next row's start, and at the length of
/// the owned table for the last row.
pub open spec fn owned_end(next: Option<u32>, table_len: Result<nat, AssemblyReadError>) -> Result<
    u32,
    AssemblyReadError,
> {
    match next {
        Some(start) => Ok(start),
        None => match table_len {
            Ok(len) => Ok(length_index(len)),
            Err(e) => Err(e),
        },
    }
}

/// A kind of resolved row: what a stored row comes to when its names and signatures are
/// looked up in an assembly.
pub trait Resolved: View + Sized {
    type Row;

    /// What row `i` of `rows` comes to, or the first lookup that fails.
    spec fn resolved(rows: Seq<Self::Row>, i: int, assembly: EncodedAssemblyView) -> Result<
        Self::V,
        AssemblyReadError,
    >;

    fn resolve(rows: &[Self::Row], i: usize, assembly: &EncodedAssembly) -> (r: Result<
        Self,
        AssemblyReadError,
    >)
        requires
            i < rows@.len(),
        ensures
            agrees(r, Self::resolved(rows@, i as int, assembly@)),
    ;
}

/// What the first `upto` rows of `rows` come to, or what the first row that fails, in
/// rising order, fails with.
pub open spec fn resolved_upto<R: Resolved>(
    rows: Seq<R::Row>,
    assembly: EncodedAssemblyView,
    upto: nat,
) -> Result<Seq<R::V>, AssemblyReadError>
    decreases upto,
{
    if upto == 0 {
        Ok(Seq::empty())
    } else {
        match resolved_upto::<R>(rows, assembly, (upto - 1) as nat) {
            Err(e) => Err(e),
            Ok(done) => match R::resolved(rows, upto - 1, assembly) {
                Err(e) => Err(e),
                Ok(row) => Ok(done.push(row)),
            },
        }
    }
}

/// Once a row has failed, the rows up to any later one fail in the same way.
pub proof fn lemma_resolved_upto_fails<R: Resolved>(
    rows: Seq<R::Row>,
    assembly: EncodedAssemblyView,
    at: nat,
    upto: nat,
)
    requires
        at <= upto,
        resolved_upto::<R>(rows, assembly, at) is Err,
    ensures
        resolved_upto::<R>(rows, assembly, upto) == resolved_upto::<R>(rows, assembly, at),
    decreases upto - at,
{
    if at < upto {
        lemma_resolved_upto_fails::<R>(rows, assembly, at, (upto - 1) as nat);
    }
}

/// Resolves every row of `rows`.
pub fn resolve_all<R: Resolved>(rows: &[R::Row], assembly: &EncodedAssembly) -> (r: Result<
    Vec<R>,
    AssemblyReadError,
>)
    ensures
        match resolved_upto::<R>(rows@, assembly@, rows@.len()) {
            Ok(views) => r is Ok && views_of(r->Ok_0@) == views,
            Err(e) => r is Err && r->Err_0 == e,
        },
{
    let mut res: Vec<R> = Vec::new();
    let mut index: usize = 0;
    assert(views_of(res@) =~= Seq::empty());
    while index < rows.len()
        invariant
            index <= rows@.len(),
            resolved_upto::<R>(rows@, assembly@, index as nat) == Ok::<
                Seq<R::V>,
                AssemblyReadError,
            >(views_of(res@)),
        decreases rows@.len() - index,
    {
        match R::resolve(rows, index, assembly) {
            Err(e) => {
                proof {
                    lemma_resolved_upto_fails::<R>(
                        rows@,
                        assembly@,
                        (index + 1) as nat,
                        rows@.len(),
                    );
                }
                return Err(e);
            },
            Ok(row) => {
                proof {
                    lemma_views_of_push(res@, row);
                }
                res.push(row);
            },
        }
        index = index + 1;
    }
    Ok(res)
}

impl Resolved for DecodedTypeRef {
    type Row = TypeRef;

    open spec fn resolved(rows: Seq<TypeRef>, i: int, assembly: EncodedAssemblyView) -> Result<
        DecodedTypeRefView,
        AssemblyReadError,
    > {
        match assembly.optional_name(rows[i].name) {
            Err(e) => Err(e),
            Ok(name) => match assembly.optional_name(rows[i].namespace) {
                Err(e) => Err(e),
                Ok(namespace) => Ok(DecodedTypeRefView { scope: rows[i].scope, name, namespace }),
            },
        }
    }

    fn resolve(rows: &[TypeRef], i: usize, assembly: &EncodedAssembly) -> (r: Result<
        Self,
        AssemblyReadError,
    >) {
        let tref: &TypeRef = &rows[i];
        let name: String = assembly.name_at(tref.name())?.to_owned();
        let namespace: String = assembly.name_at(tref.namespace())?.to_owned();
        Ok(DecodedTypeRef::new(tref.scope(), name, namespace))
    }
}

/// A type definition with its names looked up and the rows that it owns.
#[derive(Debug, PartialEq)]
pub struct DecodedTypeDef {
    pub flags: u32,
    pub name: String,
    pub namespace: String,
    pub derived_from: Option<DotnetTypeRef>,
    pub fields: Range<FieldIndex>,
    pub methods: Range<MethodIndex>,
}

/// What a resolved type definition holds.
pub struct DecodedTypeDefView {
    pub flags: u32,
    pub name: Seq<char>,
    pub namespace: Seq<char>,
    pub derived_from: Option<DotnetTypeRef>,
    pub fields: Range<FieldIndex>,
    pub methods: Range<MethodIndex>,
}

impl View for DecodedTypeDef {
    type V = DecodedTypeDefView;

    open spec fn view(&self) -> DecodedTypeDefView {
        DecodedTypeDefView {
            flags: self.flags,
            name: self.name@,
            namespace: self.namespace@,
            derived_from: self.derived_from,
            fields: self.fields,
            methods: self.methods,
        }
    }
}

/// Where the methods of the type in row `i` end.
pub open spec fn methods_end(rows: Seq<TypeDef>, i: int, assembly: EncodedAssemblyView) -> Result<
    u32,
    AssemblyReadError,
> {
    owned_end(
        if i + 1 < rows.len() {
            Some(rows[i + 1].method_index.0)
        } else {
            None
        },
        match assembly.method_rows() {
            Ok(methods) => Ok(methods.len()),
            Err(e) => Err(e),
        },
    )
}

/// Where the fields of the type in row `i` end.
pub open spec fn fields_end(rows: Seq<TypeDef>, i: int, assembly: EncodedAssemblyView) -> Result<
    u32,
    AssemblyReadError,
> {
    owned_end(
        if i + 1 < rows.len() {
            Some(rows[i + 1].field_index.0)
        } else {
            None
        },
        assembly.field_count(),
    )
}

/// The methods and the fields of one type end where those of the next type start: the
/// ranges of the types of a table follow one another without a gap and without overlap.
/// Those of the last type end at the length of their table.
pub proof fn lemma_owned_ranges_chain(rows: Seq<TypeDef>, i: int, assembly: EncodedAssemblyView)
    requires
        0 <= i < rows.len(),
    ensures
        i + 1 < rows.len() ==> methods_end(rows, i, assembly) == Ok::<u32, AssemblyReadError>(
            rows[i + 1].method_index.0,
        ) && fields_end(rows, i, assembly) == Ok::<u32, AssemblyReadError>(
            rows[i + 1].field_index.0,
        ),
        i + 1 == rows.len() ==> (assembly.method_rows() matches Ok(methods) ==> methods_end(
            rows,
            i,
            assembly,
        ) == Ok::<u32, AssemblyReadError>(length_index(methods.len()))) && (
        assembly.field_count() matches Ok(count) ==> fields_end(rows, i, assembly) == Ok::<
            u32,
            AssemblyReadError,
        >(length_index(count))),
{
}

impl Resolved for DecodedTypeDef {
    type Row = TypeDef;

    open spec fn resolved(rows: Seq<TypeDef>, i: int, assembly: EncodedAssemblyView) -> Result<
        DecodedTypeDefView,
        AssemblyReadError,
    > {
        match assembly.optional_name(rows[i].name) {
            Err(e) => Err(e),
            Ok(name) => match assembly.optional_name(rows[i].namespace) {
                Err(e) => Err(e),
                Ok(namespace) => match methods_end(rows, i, assembly) {
                    Err(e) => Err(e),
                    Ok(methods_end) => match fields_end(rows, i, assembly) {
                        Err(e) => Err(e),
                        Ok(fields_end) => Ok(
                            DecodedTypeDefView {
                                flags: rows[i].flags,
                                name,
                                namespace,
                                derived_from: DotnetTypeRef::of(rows[i].derived_from),
                                fields: (Range {
                                    start: rows[i].field_index,
                                    end: FieldIndex(fields_end),
                                }),
                                methods: (Range {
                                    start: rows[i].method_index,
                                    end: MethodIndex(methods_end),
                                }),
                            },
                        ),
                    },
                },
            },
        }
    }

    fn resolve(rows: &[TypeDef], i: usize, assembly: &EncodedAssembly) -> (r: Result<
        Self,
        AssemblyReadError,
    >) {
        let type_def: &TypeDef = &rows[i];
        let flags: u32 = type_def.flags();
        let name: String = assembly.name_at(type_def.name())?.to_owned();
        let namespace: String = assembly.name_at(type_def.namespace())?.to_owned();
        let derived_from: Option<DotnetTypeRef> = DotnetTypeRef::new(type_def.derived_from());
        let methods_start: MethodIndex = type_def.method_index();
        let methods_end: MethodIndex = if i + 1 < rows.len() {
            rows[i + 1].method_index()
        } else {
            MethodIndex(index_of_length(assembly.methods()?.len()))
        };
        let fields_start: FieldIndex = type_def.field_index();
        let fields_end: FieldIndex = if i + 1 < rows.len() {
            rows[i + 1].field_index()
        } else {
            FieldIndex(index_of_length(assembly.field_len()?))
        };
        Ok(
            DecodedTypeDef {
                flags,
                name,
                namespace,
                derived_from,
                fields: fields_start..fields_end,
                methods: methods_start..methods_end,
            },
        )
    }
}

/// A method with its name looked up, its body and its signature decoded, and the
/// parameters that it owns.
#[derive(Debug, PartialEq)]
pub struct DecodedMethod {
    pub name: String,
    pub body: Method,
    pub signature: Signature,
    pub params: Range<ParamIndex>,
}

/// What a resolved method holds.
pub struct DecodedMethodView {
    pub name: Seq<char>,
    pub body: Seq<CILOp>,
    pub signature: SignatureView,
    pub params: Range<ParamIndex>,
}

impl View for DecodedMethod {
    type V = DecodedMethodView;

    open spec fn view(&self) -> DecodedMethodView {
        DecodedMethodView {
            name: self.name@,
            body: self.body@,
            signature: self.signature@,
            params: self.params,
        }
    }
}

/// Where the parameters of the method in row `i` end.
pub open spec fn params_end(rows: Seq<MethodDef>, i: int, assembly: EncodedAssemblyView) -> Result<
    u32,
    AssemblyReadError,
> {
    owned_end(
        if i + 1 < rows.len() {
            Some(rows[i + 1].param_index.0)
        } else {
            None
        },
        assembly.param_count(),
    )
}

/// The signature that the blob at `index` spells.
pub open spec fn signature_at(assembly: EncodedAssemblyView, index: BlobIndex) -> Result<
    SignatureView,
    AssemblyReadError,
> {
    match assembly.blob(index) {
        Err(e) => Err(e),
        Ok(blob) => parse_signature(blob, assembly.rows_context()),
    }
}

impl Resolved for DecodedMethod {
    type Row = MethodDef;

    open spec fn resolved(rows: Seq<MethodDef>, i: int, assembly: EncodedAssemblyView) -> Result<
        DecodedMethodView,
        AssemblyReadError,
    > {
        match assembly.optional_name(rows[i].name) {
            Err(e) => Err(e),
            Ok(name) => match params_end(rows, i, assembly) {
                Err(e) => Err(e),
                Ok(params_end) => match method_at(assembly.pe_file, rows[i].rva as u64) {
                    Err(e) => Err(e),
                    Ok(body) => match signature_at(assembly, rows[i].signature) {
                        Err(e) => Err(e),
                        Ok(signature) => Ok(
                            DecodedMethodView {
                                name,
                                body,
                                signature,
                                params: (Range {
                                    start: rows[i].param_index,
                                    end: ParamIndex(params_end),
                                }),
                            },
                        ),
                    },
                },
            },
        }
    }

    fn resolve(rows: &[MethodDef], i: usize, assembly: &EncodedAssembly) -> (r: Result<
        Self,
        AssemblyReadError,
    >) {
        let method: &MethodDef = &rows[i];
        let name: String = assembly.name_at(method.name())?.to_owned();
        let param_start: ParamIndex = method.param_start();
        let param_end: ParamIndex = if i + 1 < rows.len() {
            rows[i + 1].param_start()
        } else {
            ParamIndex(index_of_length(assembly.params_len()?))
        };
        let body: Method = decode_method(assembly.pe_file(), method.rva())?;
        let signature: Signature = Signature::decode(
            assembly.blob_at(method.signature())?,
            assembly,
        )?;
        Ok(DecodedMethod { name, body, signature, params: param_start..param_end })
    }
}

/// A parameter with its name looked up.
#[derive(Debug, Clone, PartialEq)]
pub struct DecodedParam {
    pub flags: u16,
    pub sequence: u16,
    pub name: String,
}

/// What a resolved parameter holds.
pub struct DecodedParamView {
    pub flags: u16,
    pub sequence: u16,
    pub name: Seq<char>,
}

impl View for DecodedParam {
    type V = DecodedParamView;

    open spec fn view(&self) -> DecodedParamView {
        DecodedParamView { flags: self.flags, sequence: self.sequence, name: self.name@ }
    }
}

impl Resolved for DecodedParam {
    type Row = Param;

    open spec fn resolved(rows: Seq<Param>, i: int, assembly: EncodedAssemblyView) -> Result<
        DecodedParamView,
        AssemblyReadError,
    > {
        match assembly.optional_name(rows[i].name) {
            Err(e) => Err(e),
            Ok(name) => Ok(
                DecodedParamView { flags: rows[i].flags, sequence: rows[i].sequence, name },
            ),
        }
    }

    fn resolve(rows: &[Param], i: usize, assembly: &EncodedAssembly) -> (r: Result<
        Self,
        AssemblyReadError,
    >) {
        let param: &Param = &rows[i];
        let name: String = assembly.name_at(param.name())?.to_owned();
        Ok(DecodedParam { flags: param.flags(), sequence: param.sequence(), name })
    }
}

/// A table with its names looked up.
#[derive(Debug, PartialEq)]
pub enum DecodedTable {
    Module { name: String, mvid: u128 },
    TypeDefTable(Vec<DecodedTypeDef>),
    MethodDef(Vec<DecodedMethod>),
    Params(Vec<DecodedParam>),
    TypeRefTable(Vec<DecodedTypeRef>),
    AssemblyTable { name: String },
}

/// What a resolved table holds.
pub enum DecodedTableView {
    Module { name: Seq<char>, mvid: u128 },
    TypeDefTable(Seq<DecodedTypeDefView>),
    MethodDef(Seq<DecodedMethodView>),
    Params(Seq<DecodedParamView>),
    TypeRefTable(Seq<DecodedTypeRefView>),
    AssemblyTable { name: Seq<char> },
}

impl View for DecodedTable {
    type V = DecodedTableView;

    open spec fn view(&self) -> DecodedTableView {
        match *self {
            DecodedTable::Module { name, mvid } => DecodedTableView::Module { name: name@, mvid },
            DecodedTable::TypeDefTable(rows) => DecodedTableView::TypeDefTable(views_of(rows@)),
            DecodedTable::MethodDef(rows) => DecodedTableView::MethodDef(views_of(rows@)),
            DecodedTable::Params(rows) => DecodedTableView::Params(views_of(rows@)),
            DecodedTable::TypeRefTable(rows) => DecodedTableView::TypeRefTable(views_of(rows@)),
            DecodedTable::AssemblyTable { name } => DecodedTableView::AssemblyTable { name: name@ },
        }
    }
}

/// What the module table comes to: its name, and its identifier out of the GUID heap.
pub open spec fn module_of(name: StringIndex, mvid: GUIDIndex, assembly: EncodedAssemblyView) -> Result<
    DecodedTableView,
    AssemblyReadError,
> {
    match assembly.optional_name(name) {
        Err(e) => Err(e),
        Ok(name) => match assembly.guid(mvid) {
            Err(e) => Err(e),
            Ok(mvid) => Ok(DecodedTableView::Module { name, mvid }),
        },
    }
}

/// What the table `table` comes to when its names, bodies and signatures are looked up in
/// `assembly`. The tables of fields, of member references, of stand-alone signatures and
/// of assembly references have no resolved form.
pub open spec fn decoded_of(table: TableView, assembly: EncodedAssemblyView) -> Result<
    DecodedTableView,
    AssemblyReadError,
> {
    match table {
        TableView::Module { name, mvid } => module_of(name, mvid, assembly),
        TableView::TypeRefTable(rows) => match resolved_upto::<DecodedTypeRef>(
            rows,
            assembly,
            rows.len(),
        ) {
            Err(e) => Err(e),
            Ok(decoded) => Ok(DecodedTableView::TypeRefTable(decoded)),
        },
        TableView::TypeDefTable(rows) => match resolved_upto::<DecodedTypeDef>(
            rows,
            assembly,
            rows.len(),
        ) {
            Err(e) => Err(e),
            Ok(decoded) => Ok(DecodedTableView::TypeDefTable(decoded)),
        },
        TableView::MethodDefTable(rows) => match resolved_upto::<DecodedMethod>(
            rows,
            assembly,
            rows.len(),
        ) {
            Err(e) => Err(e),
            Ok(decoded) => Ok(DecodedTableView::MethodDef(decoded)),
        },
        TableView::Param(rows) => match resolved_upto::<DecodedParam>(rows, assembly, rows.len()) {
            Err(e) => Err(e),
            Ok(decoded) => Ok(DecodedTableView::Params(decoded)),
        },
        TableView::Assembly { identity } => match assembly.optional_name(identity.name) {
            Err(e) => Err(e),
            Ok(name) => Ok(DecodedTableView::AssemblyTable { name }),
        },
        _ => Err(
            AssemblyReadError::Unsupported(UnsupportedFeature::TableResolution(table.number())),
        ),
    }
}

impl DecodedTable {
    /// Looks up the names, bodies and signatures of `table` in `assembly`.
    pub fn decode(table: &Table, assembly: &EncodedAssembly) -> (r: Result<
        Self,
        AssemblyReadError,
    >)
        ensures
            agrees(r, decoded_of(table@, assembly@)),
    {
        match table {
            Table::Module { name, mvid } => {
                let name: String = assembly.name_at(*name)?.to_owned();
                let mvid: u128 = assembly.guid_at(*mvid)?;
                Ok(Self::Module { name, mvid })
            },
            Table::TypeRefTable(refs) => {
                Ok(Self::TypeRefTable(resolve_all::<DecodedTypeRef>(refs.as_slice(), assembly)?))
            },
            Table::TypeDefTable(type_defs) => {
                Ok(
                    Self::TypeDefTable(
                        resolve_all::<DecodedTypeDef>(type_defs.as_slice(), assembly)?,
                    ),
                )
            },
            Table::MethodDefTable(methods) => {
                Ok(Self::MethodDef(resolve_all::<DecodedMethod>(methods.as_slice(), assembly)?))
            },
            Table::Param(params) => {
                Ok(Self::Params(resolve_all::<DecodedParam>(params.as_slice(), assembly)?))
            },
            Table::Assembly { name, .. } => {
                let name: String = assembly.name_at(*name)?.to_owned();
                Ok(Self::AssemblyTable { name })
            },
            _ => Err(
                AssemblyReadError::Unsupported(
                    UnsupportedFeature::TableResolution(table.number()),
                ),
            ),
        }
    }
}

} // verus!

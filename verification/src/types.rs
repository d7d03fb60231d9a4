//! The types that signatures are made of.

use crate::assembly::EncodedAssembly;
use crate::bitvec::BitVec64;
use crate::bytes::reads;
use crate::error::{AssemblyReadError, FormatError, UnsupportedFeature};
use crate::heap::{decode_blob_compressed_value, parse_compressed};
use crate::type_def::TypeDefOrRef;
use vstd::prelude::*;

verus! {

pub const ELEMENT_TYPE_PTR: u32 = 0x0f;

pub const ELEMENT_TYPE_BYREF: u32 = 0x10;

pub const ELEMENT_TYPE_VALUETYPE: u32 = 0x11;

pub const ELEMENT_TYPE_CLASS: u32 = 0x12;

pub const ELEMENT_TYPE_VAR: u32 = 0x13;

pub const ELEMENT_TYPE_ARRAY: u32 = 0x14;

pub const ELEMENT_TYPE_SZARRAY: u32 = 0x1d;

/// A type as a signature spells it.
#[derive(Debug, PartialEq, Eq)]
pub enum Type {
    Void,
    Bool,
    Char,
    I8,
    U8,
    I16,
    U16,
    I32,
    U32,
    I64,
    U64,
    F32,
    F64,
    String,
    Ptr(Box<Type>),
    Ref(Box<Type>),
    ValueType(TypeDefOrRef),
    ClassType(TypeDefOrRef),
    /// A generic parameter, by its number.
    Generic(u32),
    /// An array of an element type, with its rank.
    Array(Box<Type>, u32),
}

/// The type that the code `code` alone stands for, where it is one of the fourteen codes
/// that do.
pub open spec fn primitive_of(code: u32) -> Option<Type> {
    if code == 0x1 {
        Some(Type::Void)
    } else if code == 0x2 {
        Some(Type::Bool)
    } else if code == 0x3 {
        Some(Type::Char)
    } else if code == 0x4 {
        Some(Type::I8)
    } else if code == 0x5 {
        Some(Type::U8)
    } else if code == 0x6 {
        Some(Type::I16)
    } else if code == 0x7 {
        Some(Type::U16)
    } else if code == 0x8 {
        Some(Type::I32)
    } else if code == 0x9 {
        Some(Type::U32)
    } else if code == 0xa {
        Some(Type::I64)
    } else if code == 0xb {
        Some(Type::U64)
    } else if code == 0xc {
        Some(Type::F32)
    } else if code == 0xd {
        Some(Type::F64)
    } else if code == 0xe {
        Some(Type::String)
    } else {
        None
    }
}

/// The type that the code `code` alone stands for.
pub fn primitive(code: u32) -> (r: Option<Type>)
    ensures
        r == primitive_of(code),
{
    if code == 0x1 {
        Some(Type::Void)
    } else if code == 0x2 {
        Some(Type::Bool)
    } else if code == 0x3 {
        Some(Type::Char)
    } else if code == 0x4 {
        Some(Type::I8)
    } else if code == 0x5 {
        Some(Type::U8)
    } else if code == 0x6 {
        Some(Type::I16)
    } else if code == 0x7 {
        Some(Type::U16)
    } else if code == 0x8 {
        Some(Type::I32)
    } else if code == 0x9 {
        Some(Type::U32)
    } else if code == 0xa {
        Some(Type::I64)
    } else if code == 0xb {
        Some(Type::U64)
    } else if code == 0xc {
        Some(Type::F32)
    } else if code == 0xd {
        Some(Type::F64)
    } else if code == 0xe {
        Some(Type::String)
    } else {
        None
    }
}

/// The token behind the code of a value type or of a class, and its width. The width of
/// the token depends on the row counts of the table stream, so without a table stream
/// there is no token.
pub open spec fn parse_type_token(s: Seq<u8>, context: Option<(Seq<u32>, BitVec64)>) -> Result<
    (TypeDefOrRef, nat),
    AssemblyReadError,
> {
    match context {
        None => Err(AssemblyReadError::MissingStream),
        Some((tables_rows, tables)) => TypeDefOrRef::parse(s, tables_rows, tables),
    }
}

/// What stands behind the element type of a general array: the rank, and a count of
/// bounds that is zero. The rank and the bytes taken.
pub open spec fn parse_array_shape(s: Seq<u8>) -> Result<(u32, nat), AssemblyReadError> {
    match parse_compressed(s) {
        None => Err(AssemblyReadError::UnexpectedEnd),
        Some((rank, n)) => match parse_compressed(s.skip(n as int)) {
            None => Err(AssemblyReadError::UnexpectedEnd),
            Some((bound_count, m)) => if bound_count != 0 {
                Err(AssemblyReadError::Unsupported(UnsupportedFeature::ArrayBounds))
            } else {
                Ok((rank, n + m))
            },
        },
    }
}

/// Whether `code` is followed by one more type and nothing else: the codes of a pointer,
/// of a reference and of a one-dimensional array.
pub open spec fn wraps(code: u32) -> bool {
    code == ELEMENT_TYPE_PTR || code == ELEMENT_TYPE_BYREF || code == ELEMENT_TYPE_SZARRAY
}

/// The type that `code` makes of the type `inner` that follows it. A one-dimensional array
/// is an array of rank 1.
pub open spec fn wrapped(code: u32, inner: Type) -> Type {
    if code == ELEMENT_TYPE_PTR {
        Type::Ptr(Box::new(inner))
    } else if code == ELEMENT_TYPE_BYREF {
        Type::Ref(Box::new(inner))
    } else {
        Type::Array(Box::new(inner), 1)
    }
}

/// Whether `code` is followed by a token: the codes of a value type and of a class.
pub open spec fn names(code: u32) -> bool {
    code == ELEMENT_TYPE_VALUETYPE || code == ELEMENT_TYPE_CLASS
}

/// The type that `code` makes of the token `token` that follows it.
pub open spec fn named(code: u32, token: TypeDefOrRef) -> Type {
    if code == ELEMENT_TYPE_VALUETYPE {
        Type::ValueType(token)
    } else {
        Type::ClassType(token)
    }
}

/// The type at the start of `s` and the bytes that it takes. A type starts with a
/// compressed code. Fourteen codes stand for a type by themselves; the codes of a pointer,
/// of a reference and of a one-dimensional array are followed by one more type; the codes
/// of a value type and of a class by a token; the code of a generic parameter by its
/// compressed number; the code of a general array by its element type, its rank and its
/// bounds, of which there may be none.
pub open spec fn parse_type(s: Seq<u8>, context: Option<(Seq<u32>, BitVec64)>) -> Result<
    (Type, nat),
    AssemblyReadError,
>
    decreases s.len(),
{
    match parse_compressed(s) {
        None => Err(AssemblyReadError::UnexpectedEnd),
        Some((code, n)) => {
            let rest = s.skip(n as int);
            if code == 0 {
                Err(AssemblyReadError::Format(FormatError::TypeCodeZero))
            } else if primitive_of(code) is Some {
                Ok((primitive_of(code).unwrap(), n))
            } else if wraps(code) {
                match parse_type(rest, context) {
                    Err(e) => Err(e),
                    Ok((inner, m)) => Ok((wrapped(code, inner), n + m)),
                }
            } else if names(code) {
                match parse_type_token(rest, context) {
                    Err(e) => Err(e),
                    Ok((token, m)) => Ok((named(code, token), n + m)),
                }
            } else if code == ELEMENT_TYPE_VAR {
                match parse_compressed(rest) {
                    None => Err(AssemblyReadError::UnexpectedEnd),
                    Some((number, m)) => Ok((Type::Generic(number), n + m)),
                }
            } else if code == ELEMENT_TYPE_ARRAY {
                match parse_type(rest, context) {
                    Err(e) => Err(e),
                    Ok((element, m)) => match parse_array_shape(rest.skip(m as int)) {
                        Err(e) => Err(e),
                        Ok((rank, k)) => Ok((Type::Array(Box::new(element), rank), n + m + k)),
                    },
                }
            } else {
                Err(AssemblyReadError::Unsupported(UnsupportedFeature::TypeCode(code)))
            }
        },
    }
}

/// A type never takes more bytes than there are.
pub proof fn lemma_parse_type_within(s: Seq<u8>, context: Option<(Seq<u32>, BitVec64)>)
    ensures
        parse_type(s, context) matches Ok((_, n)) ==> 1 <= n <= s.len(),
    decreases s.len(),
{
    match parse_compressed(s) {
        None => {},
        Some((code, n)) => {
            let rest = s.skip(n as int);
            if wraps(code) || code == ELEMENT_TYPE_ARRAY {
                lemma_parse_type_within(rest, context);
            }
        },
    }
}

/// Reads the token behind the code of a value type or of a class.
pub fn decode_type_token(signature: &mut &[u8], assembly: &EncodedAssembly) -> (r: Result<
    TypeDefOrRef,
    AssemblyReadError,
>)
    ensures
        reads(
            r,
            old(signature)@,
            final(signature)@,
            parse_type_token(old(signature)@, assembly@.rows_context()),
        ),
{
    let (rows, tables) = assembly.tables_rows()?;
    TypeDefOrRef::decode(signature, rows, tables)
}

/// Reads the rank and the bounds of a general array.
pub fn decode_array_shape(signature: &mut &[u8]) -> (r: Result<u32, AssemblyReadError>)
    ensures
        reads(r, old(signature)@, final(signature)@, parse_array_shape(old(signature)@)),
{
    let start: &[u8] = *signature;
    let rank: u32 = decode_blob_compressed_value(signature)?;
    let bound_count: u32 = match decode_blob_compressed_value(signature) {
        Err(e) => {
            *signature = start;
            return Err(e);
        },
        Ok(bound_count) => bound_count,
    };
    if bound_count != 0 {
        *signature = start;
        return Err(AssemblyReadError::Unsupported(UnsupportedFeature::ArrayBounds));
    }
    proof {
        let n = parse_compressed(start@).unwrap().1;
        let m = parse_compressed(start@.skip(n as int)).unwrap().1;
        assert(start@.skip(n as int).skip(m as int) =~= start@.skip((n + m) as int));
    }
    Ok(rank)
}

/// Reads the type at the cursor and moves the cursor past it. On failure nothing is
/// consumed.
pub fn decode_type(signature: &mut &[u8], assembly: &EncodedAssembly) -> (r: Result<
    Type,
    AssemblyReadError,
>)
    ensures
        reads(
            r,
            old(signature)@,
            final(signature)@,
            parse_type(old(signature)@, assembly@.rows_context()),
        ),
    decreases old(signature)@.len(),
{
    let start: &[u8] = *signature;
    let ghost context = assembly@.rows_context();
    let tpe: u32 = decode_blob_compressed_value(signature)?;
    let ghost n = parse_compressed(start@).unwrap().1;
    let ghost rest = start@.skip(n as int);
    if tpe == 0 {
        *signature = start;
        return Err(AssemblyReadError::Format(FormatError::TypeCodeZero));
    }
    match primitive(tpe) {
        Some(found) => {
            return Ok(found);
        },
        None => {},
    }
    if tpe == ELEMENT_TYPE_PTR || tpe == ELEMENT_TYPE_BYREF || tpe == ELEMENT_TYPE_SZARRAY {
        let inner: Type = match decode_type(signature, assembly) {
            Err(e) => {
                *signature = start;
                return Err(e);
            },
            Ok(inner) => inner,
        };
        proof {
            let m = parse_type(rest, context).unwrap().1;
            lemma_parse_type_within(rest, context);
            assert(rest.skip(m as int) =~= start@.skip((n + m) as int));
        }
        if tpe == ELEMENT_TYPE_PTR {
            Ok(Type::Ptr(Box::new(inner)))
        } else if tpe == ELEMENT_TYPE_BYREF {
            Ok(Type::Ref(Box::new(inner)))
        } else {
            Ok(Type::Array(Box::new(inner), 1))
        }
    } else if tpe == ELEMENT_TYPE_VALUETYPE || tpe == ELEMENT_TYPE_CLASS {
        let token: TypeDefOrRef = match decode_type_token(signature, assembly) {
            Err(e) => {
                *signature = start;
                return Err(e);
            },
            Ok(token) => token,
        };
        proof {
            let m = parse_type_token(rest, context).unwrap().1;
            assert(rest.skip(m as int) =~= start@.skip((n + m) as int));
        }
        if tpe == ELEMENT_TYPE_VALUETYPE {
            Ok(Type::ValueType(token))
        } else {
            Ok(Type::ClassType(token))
        }
    } else if tpe == ELEMENT_TYPE_VAR {
        let number: u32 = match decode_blob_compressed_value(signature) {
            Err(e) => {
                *signature = start;
                return Err(e);
            },
            Ok(number) => number,
        };
        proof {
            let m = parse_compressed(rest).unwrap().1;
            assert(rest.skip(m as int) =~= start@.skip((n + m) as int));
        }
        Ok(Type::Generic(number))
    } else if tpe == ELEMENT_TYPE_ARRAY {
        let element: Type = match decode_type(signature, assembly) {
            Err(e) => {
                *signature = start;
                return Err(e);
            },
            Ok(element) => element,
        };
        let rank: u32 = match decode_array_shape(signature) {
            Err(e) => {
                *signature = start;
                return Err(e);
            },
            Ok(rank) => rank,
        };
        proof {
            let m = parse_type(rest, context).unwrap().1;
            let k = parse_array_shape(rest.skip(m as int)).unwrap().1;
            lemma_parse_type_within(rest, context);
            assert(rest.skip(m as int).skip(k as int) =~= start@.skip((n + m + k) as int));
        }
        Ok(Type::Array(Box::new(element), rank))
    } else {
        *signature = start;
        Err(AssemblyReadError::Unsupported(UnsupportedFeature::TypeCode(tpe)))
    }
}

} // verus!

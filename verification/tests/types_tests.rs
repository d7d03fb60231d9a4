use cilmeta::assembly::{CILHeader, EncodedAssembly};
use cilmeta::bitvec::BitVec64;
use cilmeta::encoded_table::Table;
use cilmeta::error::{AssemblyReadError, FormatError, UnsupportedFeature};
use cilmeta::heap::{GUIDIndex, StringIndex};
use cilmeta::metadata::{MetadataStream, RawMetadata, TableStream};
use cilmeta::method::{decode_op, decode_ops, CILOp};
use cilmeta::pe_file::{NTHeader, PEFile, PEFileHeader, PEHeader};
use cilmeta::table::Signature;
use cilmeta::type_def::{TypeDefIndex, TypeDefOrRef, TypeRefIndex, TypeSpecIndex};
use cilmeta::types::{decode_array_shape, decode_type, primitive, Type};

fn assembly_with(streams: Vec<MetadataStream>) -> EncodedAssembly {
    let file_header = PEFileHeader {
        machine: 0x14c,
        section_count: 0,
        timestamp: 0,
        symbol_table_offset: 0,
        symbol_table_size: 0,
        optional_header_size: 224,
        characteristics: 0,
    };
    let nt_header = NTHeader {
        image_base: 0x40_0000,
        section_algiement: 0x2000,
        file_aligement: 512,
        os_major: 4,
        os_minor: 0,
        user_major: 0,
        user_minor: 0,
        subsys_major: 4,
        subsys_minor: 0,
        cil_header: 0x2000,
        cil_header_size: 72,
    };
    let header = PEHeader {
        file_header,
        code_size: 0,
        init_data_size: 0,
        uninit_data_size: 0,
        entrypoint_rva: 0,
        code_rva: 0,
        data_rva: 0,
        nt_header,
        sections: vec![],
    };
    EncodedAssembly {
        pe_file: PEFile { header, sections: vec![] },
        header: CILHeader {
            flags: 1,
            entrypoint: 0,
            native_resource_rva: 0,
            native_resource_size: 0,
            strong_name_rva: 0,
            strong_name_size: 0,
            vtable_fixups: 0,
            raw_metadata: RawMetadata {
                major: 1,
                minor: 1,
                version: String::from("v4.0.30319"),
                streams,
            },
        },
    }
}

fn tables(rows: Vec<u32>, present: u64) -> MetadataStream {
    MetadataStream::LogicalMetadataTable(TableStream {
        rows,
        present: BitVec64(present),
        sorted: BitVec64(0),
        tables: vec![Table::Module { name: StringIndex(1), mvid: GUIDIndex(0) }],
    })
}

fn decode(bytes: &[u8], assembly: &EncodedAssembly) -> (Result<Type, AssemblyReadError>, usize) {
    let mut cursor: &[u8] = bytes;
    let result = decode_type(&mut cursor, assembly);
    (result, bytes.len() - cursor.len())
}

#[test]
fn primitive_types() {
    let assembly = assembly_with(vec![]);
    let expected = [
        (0x01u8, Type::Void),
        (0x02, Type::Bool),
        (0x03, Type::Char),
        (0x04, Type::I8),
        (0x05, Type::U8),
        (0x06, Type::I16),
        (0x07, Type::U16),
        (0x08, Type::I32),
        (0x09, Type::U32),
        (0x0a, Type::I64),
        (0x0b, Type::U64),
        (0x0c, Type::F32),
        (0x0d, Type::F64),
        (0x0e, Type::String),
    ];
    for (code, tpe) in expected {
        assert_eq!(decode(&[code, 0x55], &assembly), (Ok(tpe), 1));
    }
    assert_eq!(primitive(0x08), Some(Type::I32));
    assert_eq!(primitive(0), None);
    assert_eq!(primitive(0x0f), None);
}

#[test]
fn pointers_and_references_wrap() {
    let assembly = assembly_with(vec![]);
    assert_eq!(decode(&[0x0f, 0x08], &assembly), (Ok(Type::Ptr(Box::new(Type::I32))), 2));
    assert_eq!(decode(&[0x10, 0x0e, 0x01], &assembly), (Ok(Type::Ref(Box::new(Type::String))), 2));
    assert_eq!(
        decode(&[0x0f, 0x0f, 0x10, 0x02], &assembly),
        (Ok(Type::Ptr(Box::new(Type::Ptr(Box::new(Type::Ref(Box::new(Type::Bool))))))), 4)
    );
}

#[test]
fn value_and_class_types_carry_a_token() {
    let assembly = assembly_with(vec![tables(vec![1], 1)]);
    assert_eq!(
        decode(&[0x11, 0x09, 0x00], &assembly),
        (Ok(Type::ValueType(TypeDefOrRef::TypeRef(TypeRefIndex(2)))), 3)
    );
    assert_eq!(
        decode(&[0x12, 0x0c, 0x00, 0x77], &assembly),
        (Ok(Type::ClassType(TypeDefOrRef::TypeDef(TypeDefIndex(3)))), 3)
    );
    assert_eq!(
        decode(&[0x12, 0x06, 0x00], &assembly),
        (Ok(Type::ClassType(TypeDefOrRef::TypeSpec(TypeSpecIndex(1)))), 3)
    );
    assert_eq!(
        decode(&[0x12, 0x07, 0x00], &assembly),
        (Err(AssemblyReadError::Format(FormatError::CodedTokenTag)), 0)
    );
    assert_eq!(decode(&[0x11, 0x09], &assembly), (Err(AssemblyReadError::UnexpectedEnd), 0));
}

#[test]
fn token_width_follows_the_row_counts() {
    let assembly = assembly_with(vec![tables(vec![1, 16385], 0b101)]);
    assert_eq!(
        decode(&[0x11, 0x09, 0x00, 0x01, 0x00], &assembly),
        (Ok(Type::ValueType(TypeDefOrRef::TypeRef(TypeRefIndex(0x4002)))), 5)
    );
    assert_eq!(decode(&[0x11, 0x09, 0x00, 0x01], &assembly), (Err(AssemblyReadError::UnexpectedEnd), 0));
}

#[test]
fn token_needs_a_table_stream() {
    let assembly = assembly_with(vec![MetadataStream::Strings(vec![0])]);
    assert_eq!(decode(&[0x11, 0x09, 0x00], &assembly), (Err(AssemblyReadError::MissingStream), 0));
    assert_eq!(decode(&[0x08], &assembly), (Ok(Type::I32), 1));
}

#[test]
fn generic_parameters() {
    let assembly = assembly_with(vec![]);
    assert_eq!(decode(&[0x13, 0x00], &assembly), (Ok(Type::Generic(0)), 2));
    assert_eq!(decode(&[0x13, 0x81, 0x00, 0x99], &assembly), (Ok(Type::Generic(256)), 3));
    assert_eq!(decode(&[0x13], &assembly), (Err(AssemblyReadError::UnexpectedEnd), 0));
}

#[test]
fn arrays() {
    let assembly = assembly_with(vec![]);
    assert_eq!(
        decode(&[0x14, 0x08, 0x02, 0x00], &assembly),
        (Ok(Type::Array(Box::new(Type::I32), 2)), 4)
    );
    assert_eq!(decode(&[0x1d, 0x0e], &assembly), (Ok(Type::Array(Box::new(Type::String), 1)), 2));
    assert_eq!(
        decode(&[0x1d, 0x1d, 0x05], &assembly),
        (Ok(Type::Array(Box::new(Type::Array(Box::new(Type::U8), 1)), 1)), 3)
    );
    assert_eq!(
        decode(&[0x14, 0x0f, 0x01, 0x83, 0x00, 0x00, 0x42], &assembly),
        (Ok(Type::Array(Box::new(Type::Ptr(Box::new(Type::Void))), 0x300)), 6)
    );
}

#[test]
fn bounded_arrays_are_unsupported() {
    let assembly = assembly_with(vec![]);
    assert_eq!(
        decode(&[0x14, 0x08, 0x02, 0x01, 0x05], &assembly),
        (Err(AssemblyReadError::Unsupported(UnsupportedFeature::ArrayBounds)), 0)
    );
    assert_eq!(decode(&[0x14, 0x08, 0x02], &assembly), (Err(AssemblyReadError::UnexpectedEnd), 0));
    assert_eq!(decode(&[0x14, 0x08], &assembly), (Err(AssemblyReadError::UnexpectedEnd), 0));
    let mut cursor: &[u8] = &[0x03, 0x00, 0x09];
    assert_eq!(decode_array_shape(&mut cursor), Ok(3));
    assert_eq!(cursor, &[0x09]);
}

#[test]
fn unknown_codes() {
    let assembly = assembly_with(vec![]);
    assert_eq!(
        decode(&[0x00], &assembly),
        (Err(AssemblyReadError::Format(FormatError::TypeCodeZero)), 0)
    );
    assert_eq!(
        decode(&[0x15, 0x08], &assembly),
        (Err(AssemblyReadError::Unsupported(UnsupportedFeature::TypeCode(0x15))), 0)
    );
    assert_eq!(
        decode(&[0x80, 0x80], &assembly),
        (Err(AssemblyReadError::Unsupported(UnsupportedFeature::TypeCode(0x80))), 0)
    );
    assert_eq!(decode(&[], &assembly), (Err(AssemblyReadError::UnexpectedEnd), 0));
    assert_eq!(
        decode(&[0x0f, 0x10, 0x16], &assembly),
        (Err(AssemblyReadError::Unsupported(UnsupportedFeature::TypeCode(0x16))), 0)
    );
    assert_eq!(decode(&[0x0f, 0x10], &assembly), (Err(AssemblyReadError::UnexpectedEnd), 0));
}

#[test]
fn signature_of_two_ints() {
    let assembly = assembly_with(vec![]);
    let signature = Signature::decode(&[0x00, 0x02, 0x08, 0x08, 0x08], &assembly).unwrap();
    assert_eq!(signature.flags, 0);
    assert_eq!(signature.args, vec![Type::I32, Type::I32]);
    assert_eq!(signature.ret, Type::I32);
}

#[test]
fn signature_passes_the_flags_through() {
    let assembly = assembly_with(vec![]);
    assert_eq!(
        Signature::decode(&[0x20, 0x00, 0x01], &assembly),
        Ok(Signature { flags: 0x20, args: vec![], ret: Type::Void })
    );
    assert_eq!(
        Signature::decode(&[0xff, 0x03, 0x0e, 0x1d, 0x05, 0x0f, 0x01, 0x0a, 0x33], &assembly),
        Ok(Signature {
            flags: 0xff,
            args: vec![
                Type::String,
                Type::Array(Box::new(Type::U8), 1),
                Type::Ptr(Box::new(Type::Void)),
            ],
            ret: Type::I64,
        })
    );
}

#[test]
fn signature_failures() {
    let assembly = assembly_with(vec![]);
    assert_eq!(Signature::decode(&[], &assembly), Err(AssemblyReadError::UnexpectedEnd));
    assert_eq!(Signature::decode(&[0x00], &assembly), Err(AssemblyReadError::UnexpectedEnd));
    assert_eq!(Signature::decode(&[0x00, 0x02, 0x08], &assembly), Err(AssemblyReadError::UnexpectedEnd));
    assert_eq!(
        Signature::decode(&[0x00, 0x02, 0x08, 0x08], &assembly),
        Err(AssemblyReadError::UnexpectedEnd)
    );
    assert_eq!(
        Signature::decode(&[0x00, 0x01, 0x00, 0x08], &assembly),
        Err(AssemblyReadError::Format(FormatError::TypeCodeZero))
    );
    assert_eq!(
        Signature::decode(&[0x00, 0x01, 0x08, 0x17], &assembly),
        Err(AssemblyReadError::Unsupported(UnsupportedFeature::TypeCode(0x17)))
    );
    assert_eq!(
        Signature::decode(&[0x00, 0xdf, 0xff, 0xff, 0xff, 0x08], &assembly),
        Err(AssemblyReadError::UnexpectedEnd)
    );
}

#[test]
fn signature_arguments_restore_the_cursor() {
    let assembly = assembly_with(vec![]);
    let bytes = [0x08u8, 0x0e, 0x16];
    let mut cursor: &[u8] = &bytes;
    assert_eq!(
        Signature::decode_args(&mut cursor, 3, &assembly),
        Err(AssemblyReadError::Unsupported(UnsupportedFeature::TypeCode(0x16)))
    );
    assert_eq!(cursor.len(), 3);
    assert_eq!(Signature::decode_args(&mut cursor, 2, &assembly), Ok(vec![Type::I32, Type::String]));
    assert_eq!(cursor, &[0x16]);
}

#[test]
fn empty_signature() {
    assert_eq!(Signature::empty(), Signature { flags: 0, args: vec![], ret: Type::Void });
}

#[test]
fn opcodes() {
    let expected = [
        (0x02u8, CILOp::LDArg0),
        (0x03, CILOp::LDArg1),
        (0x04, CILOp::LDArg2),
        (0x05, CILOp::LDArg3),
        (0x25, CILOp::Dup),
        (0x2a, CILOp::Ret),
        (0x58, CILOp::Add),
        (0x5a, CILOp::Mul),
    ];
    for (byte, op) in expected {
        let bytes = [byte, 0];
        let mut cursor: &[u8] = &bytes;
        assert_eq!(decode_op(&mut cursor), Ok(op));
        assert_eq!(cursor.len(), 1);
    }
    let mut cursor: &[u8] = &[0x00];
    assert_eq!(
        decode_op(&mut cursor),
        Err(AssemblyReadError::Unsupported(UnsupportedFeature::Opcode(0)))
    );
    assert_eq!(cursor.len(), 1);
    let mut cursor: &[u8] = &[];
    assert_eq!(decode_op(&mut cursor), Err(AssemblyReadError::UnexpectedEnd));
}

#[test]
fn method_code() {
    assert_eq!(
        decode_ops(&[0x02, 0x03, 0x58, 0x25, 0x5a, 0x2a]),
        Ok(vec![CILOp::LDArg0, CILOp::LDArg1, CILOp::Add, CILOp::Dup, CILOp::Mul, CILOp::Ret])
    );
    assert_eq!(decode_ops(&[]), Ok(vec![]));
    assert_eq!(
        decode_ops(&[0x02, 0x28, 0x2a]),
        Err(AssemblyReadError::Unsupported(UnsupportedFeature::Opcode(0x28)))
    );
}

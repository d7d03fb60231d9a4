use cilmeta::assembly::{CILHeader, EncodedAssembly};
use cilmeta::bitvec::BitVec64;
use cilmeta::encoded_table::Table;
use cilmeta::error::{
    AssemblyReadError, FormatError, PEFileReadError, UnsupportedFeature,
};
use cilmeta::field::{Field, FieldIndex};
use cilmeta::heap::{BlobIndex, GUIDIndex, StringIndex};
use cilmeta::metadata::{MetadataStream, RawMetadata, StreamKind, TableStream};
use cilmeta::method::{decode_method, CILOp, Method, MethodDef, MethodIndex};
use cilmeta::param::{Param, ParamIndex};
use cilmeta::pe_file::{
    NTHeader, PEFile, PEFileHeader, PEHeader, MSDOS_STUB_FIRST, MSDOS_STUB_SECOND, RVA,
};
use cilmeta::resolution_scope::{AssemblyRefIndex, ResolutionScope};
use cilmeta::table::{
    DecodedMethod, DecodedParam, DecodedTable, DecodedTypeDef, DecodedTypeRef, DotnetTypeRef,
    Signature, TypeRef,
};
use cilmeta::type_def::{TypeDef, TypeDefIndex, TypeDefOrRef, TypeRefIndex};
use cilmeta::types::Type;

const SECTION_RVA: u32 = 0x2000;
const SECTION_OFFSET: usize = 512;

fn put16(file: &mut [u8], at: usize, value: u16) {
    file[at..at + 2].copy_from_slice(&value.to_le_bytes());
}

fn put32(file: &mut [u8], at: usize, value: u32) {
    file[at..at + 4].copy_from_slice(&value.to_le_bytes());
}

fn image(section: &[u8]) -> Vec<u8> {
    let mut file: Vec<u8> = Vec::new();
    file.extend(MSDOS_STUB_FIRST);
    file.extend(128u32.to_le_bytes());
    file.extend(MSDOS_STUB_SECOND);
    file.extend([0x50, 0x45, 0, 0]);
    file.resize(SECTION_OFFSET, 0);
    put16(&mut file, 132, 0x14c);
    put16(&mut file, 134, 1);
    put16(&mut file, 148, 224);
    put16(&mut file, 152, 0x10b);
    file[154] = 6;
    put32(&mut file, 180 + 8, 512);
    put16(&mut file, 180 + 40, 3);
    put32(&mut file, 180 + 44, 0x10_0000);
    put32(&mut file, 180 + 48, 0x1000);
    put32(&mut file, 180 + 52, 0x10_0000);
    put32(&mut file, 180 + 56, 0x1000);
    put32(&mut file, 180 + 64, 16);
    put32(&mut file, 180 + 180, SECTION_RVA);
    put32(&mut file, 180 + 184, 72);
    file[376..381].copy_from_slice(b".text");
    put32(&mut file, 376 + 8, section.len() as u32);
    put32(&mut file, 376 + 12, SECTION_RVA);
    put32(&mut file, 376 + 20, SECTION_OFFSET as u32);
    file.extend(section);
    file
}

fn cli_header(metadata_size: u32) -> Vec<u8> {
    let mut header = vec![0u8; 72];
    put32(&mut header, 0, 72);
    put16(&mut header, 4, 2);
    put16(&mut header, 6, 5);
    put32(&mut header, 8, SECTION_RVA + 72);
    put32(&mut header, 12, metadata_size);
    put32(&mut header, 16, 1);
    put32(&mut header, 20, 0x0600_0001);
    put32(&mut header, 24, 0x3000);
    put32(&mut header, 28, 0x30);
    put32(&mut header, 32, 0x3100);
    put32(&mut header, 36, 0x80);
    put32(&mut header, 48, 0x3200);
    put32(&mut header, 52, 8);
    header
}

fn metadata_root(streams: &[(&[u8], Vec<u8>)]) -> Vec<u8> {
    let mut root: Vec<u8> = Vec::new();
    root.extend(0x424A_5342u32.to_le_bytes());
    root.extend(1u16.to_le_bytes());
    root.extend(1u16.to_le_bytes());
    root.extend(0u32.to_le_bytes());
    root.extend(12u32.to_le_bytes());
    root.extend(b"v4.0.30319\0\0");
    root.extend(0u16.to_le_bytes());
    root.extend((streams.len() as u16).to_le_bytes());
    let mut directory = root.len();
    for (name, _) in streams {
        directory += 8 + (name.len() + 1 + 3) / 4 * 4;
    }
    let mut offset = directory;
    let mut body: Vec<u8> = Vec::new();
    for (name, data) in streams {
        root.extend((offset as u32).to_le_bytes());
        root.extend((data.len() as u32).to_le_bytes());
        root.extend(*name);
        root.push(0);
        while root.len() % 4 != 0 {
            root.push(0);
        }
        body.extend(data);
        while body.len() % 4 != 0 {
            body.push(0);
        }
        offset = directory + body.len();
    }
    assert_eq!(root.len(), directory);
    root.extend(body);
    root
}

fn table_stream(heap_sizes: u8, present: u64, rows: &[u32], data: &[u8]) -> Vec<u8> {
    let mut stream: Vec<u8> = Vec::new();
    stream.extend(0u32.to_le_bytes());
    stream.extend([2, 0, heap_sizes, 1]);
    stream.extend(present.to_le_bytes());
    stream.extend(0x16_0000_0000u64.to_le_bytes());
    for count in rows {
        stream.extend(count.to_le_bytes());
    }
    stream.extend(data);
    stream
}

fn assembly_file(metadata: &[u8], code: &[u8]) -> Vec<u8> {
    let mut section = cli_header(metadata.len() as u32);
    section.extend(metadata);
    section.extend(code);
    image(&section)
}

const MODULE_ROW: [u8; 10] = [0, 0, 1, 0, 0, 0, 0, 0, 0, 0];

fn minimal_module() -> Vec<u8> {
    let tables = table_stream(0, 1, &[1], &MODULE_ROW);
    let metadata = metadata_root(&[(b"#~", tables), (b"#Strings", b"\0M\0".to_vec())]);
    assembly_file(&metadata, &[])
}

#[test]
fn minimal_module_end_to_end() {
    let assembly = EncodedAssembly::from_file(&minimal_module()).unwrap();
    let tables = assembly.table_stream().unwrap();
    assert_eq!(tables, &[Table::Module { name: StringIndex(1), mvid: GUIDIndex(0) }]);
    assert_eq!(
        DecodedTable::decode(&tables[0], &assembly),
        Ok(DecodedTable::Module { name: String::from("M"), mvid: 0 })
    );
    assert_eq!(assembly.str_at(StringIndex(1)), Ok("M"));
}

#[test]
fn cli_header_fields() {
    let assembly = EncodedAssembly::from_file(&minimal_module()).unwrap();
    let header = assembly.cil_header();
    assert_eq!(header.flags, 1);
    assert_eq!(header.entrypoint, 0x0600_0001);
    assert_eq!(header.native_resource_rva, 0x3000);
    assert_eq!(header.native_resource_size, 0x30);
    assert_eq!(header.strong_name_rva, 0x3100);
    assert_eq!(header.strong_name_size, 0x80);
    assert_eq!(header.vtable_fixups, 0x0000_0008_0000_3200);
    let root = header.raw_metadata();
    assert_eq!(root.major, 1);
    assert_eq!(root.minor, 1);
    assert_eq!(root.version, "v4.0.30319");
    assert_eq!(root.streams.len(), 2);
    assert_eq!(root.streams[0].kind(), StreamKind::Tables);
    assert_eq!(root.streams[1].kind(), StreamKind::Strings);
    assert_eq!(assembly.pe_file().pe_header().nt_header().cil_header_size(), 72);
    match &root.streams[0] {
        MetadataStream::LogicalMetadataTable(stream) => {
            assert_eq!(stream.rows, vec![1]);
            assert_eq!(stream.present.0, 1);
            assert_eq!(stream.sorted.0, 0x16_0000_0000);
        }
        _ => panic!("the first stream holds the tables"),
    }
}

#[test]
fn truncated_stub_fails_fast() {
    let file = minimal_module();
    for len in [0usize, 7, 59] {
        assert_eq!(
            EncodedAssembly::from_file(&file[..len]).err(),
            Some(AssemblyReadError::PEError(PEFileReadError::IOError))
        );
    }
    assert_eq!(
        EncodedAssembly::from_file(&file[..file.len() - 1]).err(),
        Some(AssemblyReadError::PEError(PEFileReadError::IOError))
    );
    let mut broken = file.clone();
    broken[3] = 0x91;
    assert_eq!(
        EncodedAssembly::from_file(&broken).err(),
        Some(AssemblyReadError::from(PEFileReadError::InavlidDOSStub))
    );
}

#[test]
fn cli_header_must_be_mapped() {
    let mut file = minimal_module();
    put32(&mut file, 360, 0x9000);
    assert_eq!(EncodedAssembly::from_file(&file).err(), Some(AssemblyReadError::UnmappedRVA));
    let mut file = minimal_module();
    put32(&mut file, 364, 71);
    assert_eq!(EncodedAssembly::from_file(&file).err(), Some(AssemblyReadError::UnexpectedEnd));
    let mut file = minimal_module();
    put32(&mut file, 364, 0x10_0000);
    assert_eq!(EncodedAssembly::from_file(&file).err(), Some(AssemblyReadError::UnmappedRVA));
    let mut file = minimal_module();
    put32(&mut file, SECTION_OFFSET + 8, 0x1000);
    assert_eq!(EncodedAssembly::from_file(&file).err(), Some(AssemblyReadError::UnmappedRVA));
    let mut file = minimal_module();
    let size = u32::from_le_bytes(file[SECTION_OFFSET + 12..SECTION_OFFSET + 16].try_into().unwrap());
    put32(&mut file, SECTION_OFFSET + 12, size + 1);
    assert_eq!(EncodedAssembly::from_file(&file).err(), Some(AssemblyReadError::UnmappedRVA));
}

#[test]
fn cli_header_directories_that_must_be_empty() {
    let cases = [
        (40usize, UnsupportedFeature::CodeManagerTable),
        (44, UnsupportedFeature::CodeManagerTable),
        (56, UnsupportedFeature::ExportAddressTableJumps),
        (64, UnsupportedFeature::ManagedNativeHeader),
        (71, UnsupportedFeature::ManagedNativeHeader),
    ];
    for (at, expected) in cases {
        let mut file = minimal_module();
        file[SECTION_OFFSET + at] = 1;
        assert_eq!(
            EncodedAssembly::from_file(&file).err(),
            Some(AssemblyReadError::Unsupported(expected))
        );
    }
}

fn root_of(file: &[u8]) -> usize {
    let _ = file;
    SECTION_OFFSET + 72
}

#[test]
fn metadata_root_rules() {
    let file = minimal_module();
    let root = root_of(&file);
    let cases = [
        (0usize, AssemblyReadError::Format(FormatError::MetadataSignature)),
        (8, AssemblyReadError::Format(FormatError::MetadataReserved)),
        (28, AssemblyReadError::Format(FormatError::MetadataFlags)),
        (29, AssemblyReadError::Format(FormatError::MetadataFlags)),
        (16, AssemblyReadError::InvalidEncoding),
        (14, AssemblyReadError::UnexpectedEnd),
    ];
    for (at, expected) in cases {
        let mut broken = file.clone();
        broken[root + at] = 0xff;
        assert_eq!(EncodedAssembly::from_file(&broken).err(), Some(expected), "{}", at);
    }
    let mut free = file.clone();
    put16(&mut free, root + 4, 2);
    put16(&mut free, root + 6, 0);
    let assembly = EncodedAssembly::from_file(&free).unwrap();
    assert_eq!(assembly.cil_header().raw_metadata().major, 2);
    assert_eq!(assembly.cil_header().raw_metadata().minor, 0);
}

#[test]
fn version_string_is_padded_to_four() {
    let tables = table_stream(0, 1, &[1], &MODULE_ROW);
    for (length, text) in [(5u32, &b"v2.0\0\0\0\0"[..]), (8, b"v2.0\0\0\0\0"), (6, b"v2.0\0zzz"), (4, b"v2.0")] {
        let mut root: Vec<u8> = Vec::new();
        root.extend(0x424A_5342u32.to_le_bytes());
        root.extend([1, 0, 1, 0, 0, 0, 0, 0]);
        root.extend(length.to_le_bytes());
        root.extend(text);
        root.extend([0, 0, 1, 0]);
        let offset = root.len() + 12;
        root.extend((offset as u32).to_le_bytes());
        root.extend((tables.len() as u32).to_le_bytes());
        root.extend(b"#~\0\0");
        root.extend(&tables);
        let assembly = EncodedAssembly::from_file(&assembly_file(&root, &[])).unwrap();
        assert_eq!(assembly.cil_header().raw_metadata().version, "v2.0");
    }
}

#[test]
fn stream_directory_rules() {
    let tables = table_stream(0, 1, &[1], &MODULE_ROW);
    let named = |name: &'static [u8]| {
        let metadata = metadata_root(&[(name, tables.clone())]);
        EncodedAssembly::from_file(&assembly_file(&metadata, &[]))
            .map(|assembly| assembly.cil_header().raw_metadata().streams[0].kind())
    };
    assert_eq!(named(b"#~"), Ok(StreamKind::Tables));
    assert_eq!(named(b"#US"), Ok(StreamKind::US));
    assert_eq!(named(b"#Blob"), Ok(StreamKind::Blob));
    assert_eq!(named(b"#GUID"), Ok(StreamKind::GUID));
    assert_eq!(named(b"#Strings"), Ok(StreamKind::Strings));
    for unknown in [&b"#-"[..], b"#Pdb", b"#~~", b"#", b"", b"#strings", b"#\xff"] {
        assert_eq!(
            named(unknown).err(),
            Some(AssemblyReadError::Unsupported(UnsupportedFeature::StreamName))
        );
    }
    let file = minimal_module();
    let root = root_of(&file);
    let mut outside = file.clone();
    put32(&mut outside, root + 32 + 4, 0x1_0000);
    assert_eq!(EncodedAssembly::from_file(&outside).err(), Some(AssemblyReadError::UnexpectedEnd));
    let mut count = file.clone();
    put16(&mut count, root + 30, 3);
    assert!(EncodedAssembly::from_file(&count).is_err());
    let mut none = file.clone();
    put16(&mut none, root + 30, 0);
    let assembly = EncodedAssembly::from_file(&none).unwrap();
    assert!(assembly.cil_header().raw_metadata().streams.is_empty());
    assert_eq!(assembly.table_stream().err(), Some(AssemblyReadError::MissingStream));
}

fn stream_result(stream: Vec<u8>) -> Result<MetadataStream, AssemblyReadError> {
    MetadataStream::logical_metadata_table(&stream)
}

#[test]
fn table_stream_header_rules() {
    let good = table_stream(0, 1, &[1], &MODULE_ROW);
    assert!(stream_result(good.clone()).is_ok());
    let cases = [
        (0usize, 1u8, AssemblyReadError::Format(FormatError::TablesReserved)),
        (3, 1, AssemblyReadError::Format(FormatError::TablesReserved)),
        (4, 1, AssemblyReadError::Format(FormatError::TablesMajorVersion)),
        (5, 1, AssemblyReadError::Format(FormatError::TablesMinorVersion)),
        (7, 0, AssemblyReadError::Format(FormatError::TablesReservedByte)),
        (13, 0x10, AssemblyReadError::Format(FormatError::TablePresenceBits)),
        (15, 0x80, AssemblyReadError::Format(FormatError::TablePresenceBits)),
        (8, 0, AssemblyReadError::Format(FormatError::ModuleRowCount)),
        (8, 3, AssemblyReadError::UnexpectedEnd),
        (24, 2, AssemblyReadError::Format(FormatError::ModuleRowCount)),
        (28, 1, AssemblyReadError::Format(FormatError::ModuleGeneration)),
        (13, 0x08, AssemblyReadError::UnexpectedEnd),
    ];
    for (at, value, expected) in cases {
        let mut broken = good.clone();
        broken[at] = value;
        assert_eq!(stream_result(broken).err(), Some(expected), "{}", at);
    }
    assert_eq!(stream_result(good[..23].to_vec()).err(), Some(AssemblyReadError::UnexpectedEnd));
    assert_eq!(stream_result(good[..27].to_vec()).err(), Some(AssemblyReadError::UnexpectedEnd));
    assert_eq!(stream_result(good[..37].to_vec()).err(), Some(AssemblyReadError::UnexpectedEnd));
}

#[test]
fn the_top_presence_bits_are_refused() {
    let mut data = MODULE_ROW.to_vec();
    data.extend([0u8; 64]);
    let low = table_stream(0, 1 | (1 << 43), &[1, 1], &data);
    assert_eq!(
        stream_result(low).err(),
        Some(AssemblyReadError::Unsupported(UnsupportedFeature::Table(43)))
    );
    let high = table_stream(0, 1 | (1 << 44), &[1, 1], &data);
    assert_eq!(
        stream_result(high).err(),
        Some(AssemblyReadError::Format(FormatError::TablePresenceBits))
    );
}

#[test]
fn unknown_tables_are_refused_in_rising_order() {
    let mut data = MODULE_ROW.to_vec();
    data.extend([0u8; 64]);
    let stream = table_stream(0, 0b1001 | (1 << 0x0c), &[1, 1, 1], &data);
    assert_eq!(
        stream_result(stream).err(),
        Some(AssemblyReadError::Unsupported(UnsupportedFeature::Table(3)))
    );
    let mut generation = data.clone();
    generation[0] = 1;
    let stream = table_stream(0, 0b1001, &[1, 1], &generation);
    assert_eq!(
        stream_result(stream).err(),
        Some(AssemblyReadError::Format(FormatError::ModuleGeneration))
    );
}

struct Strings {
    heap: Vec<u8>,
}

impl Strings {
    fn new() -> Strings {
        Strings { heap: vec![0] }
    }

    fn add(&mut self, text: &str) -> u16 {
        let at = self.heap.len() as u16;
        self.heap.extend(text.as_bytes());
        self.heap.push(0);
        at
    }
}

fn column16(values: &[u16]) -> Vec<u8> {
    values.iter().flat_map(|v| v.to_le_bytes()).collect()
}

fn column32(values: &[u32]) -> Vec<u8> {
    values.iter().flat_map(|v| v.to_le_bytes()).collect()
}

struct Calculator {
    file: Vec<u8>,
    names: [u16; 9],
    method_rva: u32,
}

fn calculator() -> Calculator {
    let mut strings = Strings::new();
    let module = strings.add("M");
    let calc = strings.add("Calc");
    let math = strings.add("Math");
    let add = strings.add("Add");
    let a = strings.add("a");
    let b = strings.add("b");
    let system = strings.add("System");
    let object = strings.add("Object");
    let total = strings.add("total");
    let blob: Vec<u8> = vec![0, 5, 0, 2, 8, 8, 8, 2, 6, 8];
    let guid: Vec<u8> = (1..=16).collect();
    let code: Vec<u8> = vec![0x12, 0x02, 0x03, 0x58, 0x2a];
    let present: u64 = 1 | (1 << 1) | (1 << 2) | (1 << 4) | (1 << 6) | (1 << 8) | (1 << 0x20);
    let rows = [1u32, 1, 1, 1, 1, 2, 1];
    let build = |method_rva: u32| {
        let mut data: Vec<u8> = Vec::new();
        data.extend(column16(&[0, module, 1, 0, 0]));
        data.extend(column16(&[6, object, system]));
        data.extend(column32(&[0x0010_0001]));
        data.extend(column16(&[calc, math, 5, 1, 1]));
        data.extend(column16(&[6, total, 7]));
        data.extend(column32(&[method_rva]));
        data.extend(column16(&[0, 0x96, add, 1, 1]));
        data.extend(column16(&[0, 0]));
        data.extend(column16(&[1, 2]));
        data.extend(column16(&[a, b]));
        data.extend(column32(&[0x8004]));
        data.extend(column16(&[1, 2, 3, 4]));
        data.extend(column32(&[0]));
        data.extend(column16(&[0, calc, 0]));
        let tables = table_stream(0, present, &rows, &data);
        metadata_root(&[
            (b"#~", tables),
            (b"#Strings", strings.heap.clone()),
            (b"#US", vec![0, 3, b'h', 0, 0]),
            (b"#GUID", guid.clone()),
            (b"#Blob", blob.clone()),
        ])
    };
    let size = build(0).len() as u32;
    let method_rva = SECTION_RVA + 72 + size;
    let file = assembly_file(&build(method_rva), &code);
    Calculator { file, names: [module, calc, math, add, a, b, system, object, total], method_rva }
}

#[test]
fn calculator_tables() {
    let sample = calculator();
    let [module, calc, math, add, a, b, system, object, total] = sample.names.map(|n| StringIndex(n as u32));
    let assembly = EncodedAssembly::from_file(&sample.file).unwrap();
    let tables = assembly.table_stream().unwrap();
    assert_eq!(tables.len(), 7);
    assert_eq!(tables[0], Table::Module { name: module, mvid: GUIDIndex(1) });
    assert_eq!(
        tables[1],
        Table::TypeRefTable(vec![TypeRef::new(
            ResolutionScope::AssemblyRef(AssemblyRefIndex(1)),
            object,
            system
        )])
    );
    assert_eq!(
        tables[2],
        Table::TypeDefTable(vec![TypeDef {
            flags: 0x0010_0001,
            name: calc,
            namespace: math,
            derived_from: TypeDefOrRef::TypeRef(TypeRefIndex(1)),
            field_index: FieldIndex(1),
            method_index: MethodIndex(1),
        }])
    );
    assert_eq!(tables[3], Table::Fields(vec![Field::new(6, total, BlobIndex(7))]));
    assert_eq!(
        tables[4],
        Table::MethodDefTable(vec![MethodDef::new(
            sample.method_rva,
            0,
            0x96,
            add,
            BlobIndex(1),
            ParamIndex(1)
        )])
    );
    assert_eq!(tables[5], Table::Param(vec![Param::new(0, 1, a), Param::new(0, 2, b)]));
    assert_eq!(
        tables[6],
        Table::Assembly {
            hash_alg_id: 0x8004,
            major: 1,
            minor: 2,
            build_number: 3,
            revision_number: 4,
            flags: 0,
            public_key: BlobIndex(0),
            name: calc,
            culture: StringIndex(0),
        }
    );
    let (rows, present) = assembly.tables_rows().unwrap();
    assert_eq!(rows, &[1, 1, 1, 1, 1, 2, 1]);
    assert_eq!(present.0, 0x1_0000_0157);
}

#[test]
fn calculator_heaps() {
    let sample = calculator();
    let assembly = EncodedAssembly::from_file(&sample.file).unwrap();
    assert_eq!(assembly.str_at(StringIndex(sample.names[1] as u32)), Ok("Calc"));
    assert_eq!(assembly.str_at(StringIndex(sample.names[7] as u32)), Ok("Object"));
    assert_eq!(assembly.str_at(StringIndex(0)), Ok(""));
    assert_eq!(assembly.str_at(StringIndex(9999)), Err(AssemblyReadError::InvalidHeapIndex));
    assert_eq!(assembly.string_stream().map(|heap| heap.len()), Ok(41));
    assert_eq!(assembly.blob_at(BlobIndex(1)), Ok(&[0u8, 2, 8, 8, 8][..]));
    assert_eq!(assembly.blob_at(BlobIndex(7)), Ok(&[6u8, 8][..]));
    assert_eq!(assembly.blob_at(BlobIndex(0)), Ok(&[][..]));
    assert_eq!(assembly.blob_at(BlobIndex(9)), Err(AssemblyReadError::InvalidHeapIndex));
    assert_eq!(assembly.blob_stream().map(|heap| heap.len()), Ok(10));
    assert_eq!(
        assembly.guid_stream(),
        Ok(&[0x100f_0e0d_0c0b_0a09_0807_0605_0403_0201u128][..])
    );
    assert_eq!(assembly.guid_at(GUIDIndex(1)), Ok(0x100f_0e0d_0c0b_0a09_0807_0605_0403_0201));
    assert_eq!(assembly.guid_at(GUIDIndex(0)), Ok(0));
    assert_eq!(assembly.guid_at(GUIDIndex(2)), Err(AssemblyReadError::InvalidHeapIndex));
    assert_eq!(assembly.stream_index(StreamKind::US), Some(2));
    assert_eq!(assembly.methods().map(|methods| methods.len()), Ok(1));
    assert_eq!(assembly.field_len(), Ok(1));
    assert_eq!(assembly.params_len(), Ok(2));
    assert!(matches!(assembly.find_table(0x20), Ok(Some(Table::Assembly { .. }))));
    assert!(matches!(assembly.find_table(0x23), Ok(None)));
}

#[test]
fn calculator_resolved() {
    let sample = calculator();
    let assembly = EncodedAssembly::from_file(&sample.file).unwrap();
    let tables = assembly.table_stream().unwrap();
    assert_eq!(
        DecodedTable::decode(&tables[0], &assembly),
        Ok(DecodedTable::Module {
            name: String::from("M"),
            mvid: 0x100f_0e0d_0c0b_0a09_0807_0605_0403_0201,
        })
    );
    assert_eq!(
        DecodedTable::decode(&tables[1], &assembly),
        Ok(DecodedTable::TypeRefTable(vec![DecodedTypeRef::new(
            ResolutionScope::AssemblyRef(AssemblyRefIndex(1)),
            String::from("Object"),
            String::from("System")
        )]))
    );
    assert_eq!(
        DecodedTable::decode(&tables[2], &assembly),
        Ok(DecodedTable::TypeDefTable(vec![DecodedTypeDef {
            flags: 0x0010_0001,
            name: String::from("Calc"),
            namespace: String::from("Math"),
            derived_from: Some(DotnetTypeRef { target: TypeDefOrRef::TypeRef(TypeRefIndex(1)) }),
            fields: FieldIndex(1)..FieldIndex(1),
            methods: MethodIndex(1)..MethodIndex(1),
        }]))
    );
    assert_eq!(
        DecodedTable::decode(&tables[3], &assembly),
        Err(AssemblyReadError::Unsupported(UnsupportedFeature::TableResolution(4)))
    );
    assert_eq!(
        DecodedTable::decode(&tables[4], &assembly),
        Ok(DecodedTable::MethodDef(vec![DecodedMethod {
            name: String::from("Add"),
            body: Method { ops: vec![CILOp::LDArg0, CILOp::LDArg1, CILOp::Add, CILOp::Ret] },
            signature: Signature { flags: 0, args: vec![Type::I32, Type::I32], ret: Type::I32 },
            params: ParamIndex(1)..ParamIndex(2),
        }]))
    );
    assert_eq!(
        DecodedTable::decode(&tables[5], &assembly),
        Ok(DecodedTable::Params(vec![
            DecodedParam { flags: 0, sequence: 1, name: String::from("a") },
            DecodedParam { flags: 0, sequence: 2, name: String::from("b") },
        ]))
    );
    assert_eq!(
        DecodedTable::decode(&tables[6], &assembly),
        Ok(DecodedTable::AssemblyTable { name: String::from("Calc") })
    );
}

#[test]
fn method_bodies() {
    let sample = calculator();
    let assembly = EncodedAssembly::from_file(&sample.file).unwrap();
    let pe = assembly.pe_file();
    let rva = sample.method_rva as u64;
    assert_eq!(
        decode_method(pe, RVA(rva)),
        Ok(Method { ops: vec![CILOp::LDArg0, CILOp::LDArg1, CILOp::Add, CILOp::Ret] })
    );
    assert_eq!(decode_method(pe, RVA(rva + 5)), Err(AssemblyReadError::UnmappedRVA));
    assert_eq!(decode_method(pe, RVA(rva + 4)), Err(AssemblyReadError::UnmappedRVA));
    assert_eq!(
        decode_method(pe, RVA(rva + 3)),
        Err(AssemblyReadError::Unsupported(UnsupportedFeature::MethodHeader))
    );
    assert_eq!(decode_method(pe, RVA(rva + 1)), Ok(Method { ops: vec![] }));
    assert_eq!(decode_method(pe, RVA(0)), Err(AssemblyReadError::UnmappedRVA));
    let mut fat = sample.file.clone();
    let at = fat.len() - 5;
    fat[at] = 0x13;
    let assembly = EncodedAssembly::from_file(&fat).unwrap();
    assert_eq!(
        decode_method(assembly.pe_file(), RVA(rva)),
        Err(AssemblyReadError::Unsupported(UnsupportedFeature::FatMethodHeader))
    );
    let tables = assembly.table_stream().unwrap();
    assert_eq!(
        DecodedTable::decode(&tables[4], &assembly),
        Err(AssemblyReadError::Unsupported(UnsupportedFeature::FatMethodHeader))
    );
    let mut unknown = sample.file.clone();
    unknown[at + 2] = 0x72;
    let assembly = EncodedAssembly::from_file(&unknown).unwrap();
    assert_eq!(
        decode_method(assembly.pe_file(), RVA(rva)),
        Err(AssemblyReadError::Unsupported(UnsupportedFeature::Opcode(0x72)))
    );
}

fn bare_assembly(streams: Vec<MetadataStream>) -> EncodedAssembly {
    let file_header = PEFileHeader {
        machine: 0x14c,
        section_count: 0,
        timestamp: 0,
        symbol_table_offset: 0,
        symbol_table_size: 0,
        optional_header_size: 224,
        characteristics: 0,
    };
    let nt_header = NTHeader {
        image_base: 0,
        section_algiement: 0,
        file_aligement: 512,
        os_major: 0,
        os_minor: 0,
        user_major: 0,
        user_minor: 0,
        subsys_major: 0,
        subsys_minor: 0,
        cil_header: 0,
        cil_header_size: 0,
    };
    let header = PEHeader {
        file_header,
        code_size: 0,
        init_data_size: 0,
        uninit_data_size: 0,
        entrypoint_rva: 0,
        code_rva: 0,
        data_rva: 0,
        nt_header,
        sections: vec![],
    };
    EncodedAssembly {
        pe_file: PEFile { header, sections: vec![] },
        header: CILHeader {
            flags: 0,
            entrypoint: 0,
            native_resource_rva: 0,
            native_resource_size: 0,
            strong_name_rva: 0,
            strong_name_size: 0,
            vtable_fixups: 0,
            raw_metadata: RawMetadata { major: 1, minor: 1, version: String::new(), streams },
        },
    }
}

fn type_def(name: u32, base: TypeDefOrRef, fields: u32, methods: u32) -> TypeDef {
    TypeDef {
        flags: 0,
        name: StringIndex(name),
        namespace: StringIndex(0),
        derived_from: base,
        field_index: FieldIndex(fields),
        method_index: MethodIndex(methods),
    }
}

fn ownership_sample() -> EncodedAssembly {
    let no_base = TypeDefOrRef::TypeDef(TypeDefIndex(0));
    let type_defs = vec![
        type_def(1, no_base, 0, 0),
        type_def(3, TypeDefOrRef::TypeDef(TypeDefIndex(1)), 2, 3),
        type_def(5, TypeDefOrRef::TypeRef(TypeRefIndex(0)), 2, 5),
    ];
    let method = MethodDef::new(0, 0, 0, StringIndex(1), BlobIndex(0), ParamIndex(0));
    let field = Field::new(0, StringIndex(1), BlobIndex(0));
    let tables = TableStream {
        rows: vec![1, 3, 4, 7],
        present: BitVec64(0b101_0101),
        sorted: BitVec64(0),
        tables: vec![
            Table::Module { name: StringIndex(1), mvid: GUIDIndex(0) },
            Table::TypeDefTable(type_defs),
            Table::Fields(vec![field; 4]),
            Table::MethodDefTable(vec![method; 7]),
        ],
    };
    bare_assembly(vec![
        MetadataStream::Strings(b"\0A\0B\0C\0".to_vec()),
        MetadataStream::LogicalMetadataTable(tables),
    ])
}

#[test]
fn ownership_ranges() {
    let assembly = ownership_sample();
    let tables = assembly.table_stream().unwrap();
    let decoded = DecodedTable::decode(&tables[1], &assembly).unwrap();
    let DecodedTable::TypeDefTable(types) = decoded else {
        panic!("type definitions resolve to type definitions");
    };
    assert_eq!(types.len(), 3);
    assert_eq!(types[0].methods, MethodIndex(0)..MethodIndex(3));
    assert_eq!(types[1].methods, MethodIndex(3)..MethodIndex(5));
    assert_eq!(types[2].methods, MethodIndex(5)..MethodIndex(7));
    assert_eq!(types[0].fields, FieldIndex(0)..FieldIndex(2));
    assert_eq!(types[1].fields, FieldIndex(2)..FieldIndex(2));
    assert_eq!(types[2].fields, FieldIndex(2)..FieldIndex(4));
    assert_eq!(types[0].name, "A");
    assert_eq!(types[1].name, "B");
    assert_eq!(types[2].name, "C");
    assert_eq!(types[0].derived_from, None);
    assert_eq!(
        types[1].derived_from,
        Some(DotnetTypeRef { target: TypeDefOrRef::TypeDef(TypeDefIndex(1)) })
    );
    assert_eq!(types[2].derived_from, None);
}

#[test]
fn base_types() {
    assert_eq!(DotnetTypeRef::new(TypeDefOrRef::TypeDef(TypeDefIndex(0))), None);
    assert_eq!(DotnetTypeRef::new(TypeDefOrRef::TypeRef(TypeRefIndex(0))), None);
    assert_eq!(
        DotnetTypeRef::new(TypeDefOrRef::TypeRef(TypeRefIndex(4))),
        Some(DotnetTypeRef { target: TypeDefOrRef::TypeRef(TypeRefIndex(4)) })
    );
}

#[test]
fn lookups_without_their_streams() {
    let assembly = bare_assembly(vec![]);
    assert_eq!(assembly.string_stream().err(), Some(AssemblyReadError::MissingStream));
    assert_eq!(assembly.blob_stream().err(), Some(AssemblyReadError::MissingStream));
    assert_eq!(assembly.guid_stream().err(), Some(AssemblyReadError::MissingStream));
    assert_eq!(assembly.table_stream().err(), Some(AssemblyReadError::MissingStream));
    assert_eq!(assembly.tables_rows().err(), Some(AssemblyReadError::MissingStream));
    assert_eq!(assembly.str_at(StringIndex(0)), Err(AssemblyReadError::MissingStream));
    assert_eq!(assembly.blob_at(BlobIndex(0)), Err(AssemblyReadError::MissingStream));
    assert_eq!(assembly.guid_at(GUIDIndex(1)), Err(AssemblyReadError::MissingStream));
    assert_eq!(assembly.guid_at(GUIDIndex(0)), Ok(0));
    assert_eq!(assembly.methods().err(), Some(AssemblyReadError::MissingStream));
    assert_eq!(assembly.field_len(), Err(AssemblyReadError::MissingStream));
    assert_eq!(assembly.params_len(), Err(AssemblyReadError::MissingStream));
    assert_eq!(assembly.stream_index(StreamKind::Tables), None);
    assert_eq!(assembly.name_at(StringIndex(1)), Err(AssemblyReadError::MissingStream));
    assert_eq!(assembly.name_at(StringIndex(0)), Ok(""));
    let module = Table::Module { name: StringIndex(0), mvid: GUIDIndex(0) };
    assert_eq!(
        DecodedTable::decode(&module, &assembly),
        Ok(DecodedTable::Module { name: String::new(), mvid: 0 })
    );
    let module = Table::Module { name: StringIndex(1), mvid: GUIDIndex(0) };
    assert_eq!(DecodedTable::decode(&module, &assembly), Err(AssemblyReadError::MissingStream));
    let module = Table::Module { name: StringIndex(0), mvid: GUIDIndex(1) };
    assert_eq!(DecodedTable::decode(&module, &assembly), Err(AssemblyReadError::MissingStream));
}

#[test]
fn index_zero_is_no_name() {
    let assembly = bare_assembly(vec![MetadataStream::Strings(b"junk\0Program\0".to_vec())]);
    assert_eq!(assembly.str_at(StringIndex(0)), Ok("junk"));
    assert_eq!(assembly.name_at(StringIndex(0)), Ok(""));
    assert_eq!(assembly.name_at(StringIndex(5)), Ok("Program"));
    let params = Table::Param(vec![Param::new(0, 1, StringIndex(0))]);
    assert_eq!(
        DecodedTable::decode(&params, &assembly),
        Ok(DecodedTable::Params(vec![DecodedParam { flags: 0, sequence: 1, name: String::new() }]))
    );
}

#[test]
fn the_first_stream_of_a_kind_is_used() {
    let assembly = bare_assembly(vec![
        MetadataStream::Blob(vec![1, 0xaa]),
        MetadataStream::Strings(b"\0first\0".to_vec()),
        MetadataStream::Strings(b"\0second\0".to_vec()),
        MetadataStream::Blob(vec![1, 0xbb]),
    ]);
    assert_eq!(assembly.str_at(StringIndex(1)), Ok("first"));
    assert_eq!(assembly.blob_at(BlobIndex(0)), Ok(&[0xaau8][..]));
    assert_eq!(assembly.stream_index(StreamKind::Strings), Some(1));
}

#[test]
fn tables_that_are_absent_count_no_rows() {
    let tables = TableStream {
        rows: vec![1],
        present: BitVec64(1),
        sorted: BitVec64(0),
        tables: vec![Table::Module { name: StringIndex(0), mvid: GUIDIndex(0) }],
    };
    let assembly = bare_assembly(vec![MetadataStream::LogicalMetadataTable(tables)]);
    assert_eq!(assembly.methods(), Ok(&[][..]));
    assert_eq!(assembly.field_len(), Ok(0));
    assert_eq!(assembly.params_len(), Ok(0));
}

#[test]
fn resolution_stops_at_the_first_bad_row() {
    let assembly = bare_assembly(vec![MetadataStream::Strings(b"\0ok\0\xff\0".to_vec())]);
    let params = Table::Param(vec![
        Param::new(0, 1, StringIndex(1)),
        Param::new(0, 2, StringIndex(4)),
        Param::new(0, 3, StringIndex(99)),
    ]);
    assert_eq!(DecodedTable::decode(&params, &assembly), Err(AssemblyReadError::InvalidEncoding));
    let params = Table::Param(vec![
        Param::new(0, 1, StringIndex(1)),
        Param::new(0, 3, StringIndex(99)),
        Param::new(0, 2, StringIndex(4)),
    ]);
    assert_eq!(DecodedTable::decode(&params, &assembly), Err(AssemblyReadError::InvalidHeapIndex));
    for table in [
        Table::Fields(vec![]),
        Table::MemberRef(vec![]),
        Table::StandAloneSig(vec![]),
        Table::AssemblyRefs(vec![]),
    ] {
        assert_eq!(
            DecodedTable::decode(&table, &assembly),
            Err(AssemblyReadError::Unsupported(UnsupportedFeature::TableResolution(table.number())))
        );
    }
}

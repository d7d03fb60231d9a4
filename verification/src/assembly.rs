//! A decoded assembly: the container, the CLI header, and the lookups into the metadata.

use crate::bitvec::BitVec64;
use crate::bytes::{le_value, u32_from_slice_at, u64_from_slice_at};
use crate::encoded_table::{Table, TableView};
use crate::error::{agrees, AssemblyReadError, PEFileReadError, UnsupportedFeature};
use crate::heap::{
    blob_at, get_blob, guid_at, guid_in_heap, str_in_heap, string_at, BlobIndex, GUIDIndex,
    StringIndex,
};
use crate::index::{TABLE_FIELD, TABLE_METHOD_DEF, TABLE_PARAM};
use crate::metadata::{
    lemma_decoded_table_stream_shape, lemma_streams_from_decoded, raw_metadata_of, round_up4,
    table_stream_shape, MetadataStream, MetadataStreamView, RawMetadata, RawMetadataView, StreamKind,
    TableStreamView,
};
use crate::method::MethodDef;
use crate::pe_file::{pe_file_of, PEFile, PEFileView, RVA};
use crate::seqs::views_of;
use vstd::prelude::*;

verus! {

/// The size of the CLI header in bytes.
pub const CLI_HEADER_SIZE: usize = 72;

/// The CLI header, with the metadata that it points at.
#[derive(Clone, Debug)]
pub struct CILHeader {
    pub flags: u32,
    pub entrypoint: u32,
    pub native_resource_rva: u32,
    pub native_resource_size: u32,
    pub strong_name_rva: u32,
    pub strong_name_size: u32,
    pub vtable_fixups: u64,
    pub raw_metadata: RawMetadata,
}

/// What the CLI header holds.
pub struct CILHeaderView {
    pub flags: u32,
    pub entrypoint: u32,
    pub native_resource_rva: u32,
    pub native_resource_size: u32,
    pub strong_name_rva: u32,
    pub strong_name_size: u32,
    pub vtable_fixups: u64,
    pub raw_metadata: RawMetadataView,
}

impl View for CILHeader {
    type V = CILHeaderView;

    open spec fn view(&self) -> CILHeaderView {
        CILHeaderView {
            flags: self.flags,
            entrypoint: self.entrypoint,
            native_resource_rva: self.native_resource_rva,
            native_resource_size: self.native_resource_size,
            strong_name_rva: self.strong_name_rva,
            strong_name_size: self.strong_name_size,
            vtable_fixups: self.vtable_fixups,
            raw_metadata: self.raw_metadata@,
        }
    }
}

/// The first of the three directories of the header `h` that must be empty and is not.
pub open spec fn cil_header_fault(h: Seq<u8>) -> Option<UnsupportedFeature> {
    if le_value(h, 40, 8) != 0 {
        Some(UnsupportedFeature::CodeManagerTable)
    } else if le_value(h, 56, 8) != 0 {
        Some(UnsupportedFeature::ExportAddressTableJumps)
    } else if le_value(h, 64, 8) != 0 {
        Some(UnsupportedFeature::ManagedNativeHeader)
    } else {
        None
    }
}

/// The CLI header of the container `pe`, found through the directory entry of its
/// optional header, and the metadata root that the header points at. The header is 72
/// bytes: its size, the runtime version, the metadata directory at 8, the flags at 16,
/// the entry point at 20, then the directories of the resources at 24, of the strong name
/// at 32, of the code manager table at 40, of the fixups at 48, of the export jumps at 56
/// and of the native header at 64.
pub open spec fn cil_header_of(pe: PEFileView) -> Result<CILHeaderView, AssemblyReadError> {
    match pe.bytes_at_rva(
        pe.header.nt_header.cil_header as u64,
        pe.header.nt_header.cil_header_size as u64,
    ) {
        None => Err(AssemblyReadError::UnmappedRVA),
        Some(h) => if h.len() < CLI_HEADER_SIZE {
            Err(AssemblyReadError::UnexpectedEnd)
        } else {
            match pe.bytes_at_rva(le_value(h, 8, 4) as u64, le_value(h, 12, 4) as u64) {
                None => Err(AssemblyReadError::UnmappedRVA),
                Some(metadata) => match cil_header_fault(h) {
                    Some(fault) => Err(AssemblyReadError::Unsupported(fault)),
                    None => match raw_metadata_of(metadata) {
                        Err(e) => Err(e),
                        Ok(raw_metadata) => Ok(
                            CILHeaderView {
                                flags: le_value(h, 16, 4) as u32,
                                entrypoint: le_value(h, 20, 4) as u32,
                                native_resource_rva: le_value(h, 24, 4) as u32,
                                native_resource_size: le_value(h, 28, 4) as u32,
                                strong_name_rva: le_value(h, 32, 4) as u32,
                                strong_name_size: le_value(h, 36, 4) as u32,
                                vtable_fixups: le_value(h, 48, 8) as u64,
                                raw_metadata,
                            },
                        ),
                    },
                },
            }
        },
    }
}

impl CILHeader {
    /// Finds and decodes the CLI header of `pe_file`, and the metadata behind it.
    pub fn read_from_pe(pe_file: &PEFile) -> (r: Result<Self, AssemblyReadError>)
        ensures
            agrees(r, cil_header_of(pe_file@)),
    {
        let cli_header_rva: RVA = pe_file.pe_header().nt_header().cil_header();
        let cil_header_size: u32 = pe_file.pe_header().nt_header().cil_header_size();
        let cli_header: &[u8] = match pe_file.slice_at_rva(cli_header_rva, cil_header_size as u64) {
            None => {
                return Err(AssemblyReadError::UnmappedRVA);
            },
            Some(cli_header) => cli_header,
        };
        if cli_header.len() < CLI_HEADER_SIZE {
            return Err(AssemblyReadError::UnexpectedEnd);
        }
        let metadata_rva: u32 = u32_from_slice_at(cli_header, 8);
        let metadata_size: u32 = u32_from_slice_at(cli_header, 12);
        let flags: u32 = u32_from_slice_at(cli_header, 16);
        let metadata: &[u8] = match pe_file.slice_at_rva(
            RVA(metadata_rva as u64),
            metadata_size as u64,
        ) {
            None => {
                return Err(AssemblyReadError::UnmappedRVA);
            },
            Some(metadata) => metadata,
        };
        let entrypoint: u32 = u32_from_slice_at(cli_header, 20);
        let native_resource_rva: u32 = u32_from_slice_at(cli_header, 24);
        let native_resource_size: u32 = u32_from_slice_at(cli_header, 28);
        let strong_name_rva: u32 = u32_from_slice_at(cli_header, 32);
        let strong_name_size: u32 = u32_from_slice_at(cli_header, 36);
        let code_manager_table: u64 = u64_from_slice_at(cli_header, 40);
        if code_manager_table != 0 {
            return Err(AssemblyReadError::Unsupported(UnsupportedFeature::CodeManagerTable));
        }
        let vtable_fixups: u64 = u64_from_slice_at(cli_header, 48);
        let export_address_table_jumps: u64 = u64_from_slice_at(cli_header, 56);
        if export_address_table_jumps != 0 {
            return Err(
                AssemblyReadError::Unsupported(UnsupportedFeature::ExportAddressTableJumps),
            );
        }
        let managed_native_header: u64 = u64_from_slice_at(cli_header, 64);
        if managed_native_header != 0 {
            return Err(AssemblyReadError::Unsupported(UnsupportedFeature::ManagedNativeHeader));
        }
        let raw_metadata: RawMetadata = RawMetadata::from_slice(metadata)?;
        Ok(
            Self {
                flags,
                entrypoint,
                native_resource_rva,
                native_resource_size,
                strong_name_rva,
                strong_name_size,
                vtable_fixups,
                raw_metadata,
            },
        )
    }

    pub fn raw_metadata(&self) -> (r: &RawMetadata)
        ensures
            *r == self.raw_metadata,
    {
        &self.raw_metadata
    }
}

/// An assembly as it is stored: every table row still holds indices.
#[derive(Clone, Debug)]
pub struct EncodedAssembly {
    pub pe_file: PEFile,
    pub header: CILHeader,
}

/// What an assembly holds.
pub struct EncodedAssemblyView {
    pub pe_file: PEFileView,
    pub header: CILHeaderView,
}

impl View for EncodedAssembly {
    type V = EncodedAssemblyView;

    open spec fn view(&self) -> EncodedAssemblyView {
        EncodedAssemblyView { pe_file: self.pe_file@, header: self.header@ }
    }
}

/// The assembly that the bytes `file` spell, or the first thing wrong with them.
pub open spec fn assembly_of(file: Seq<u8>) -> Result<EncodedAssemblyView, AssemblyReadError> {
    match pe_file_of(file) {
        Err(e) => Err(AssemblyReadError::PEError(e)),
        Ok(pe_file) => match cil_header_of(pe_file) {
            Err(e) => Err(e),
            Ok(header) => Ok(EncodedAssemblyView { pe_file, header }),
        },
    }
}

/// A file that ends inside the first stub sequence is refused as cut short: nothing is
/// decoded from it.
pub proof fn lemma_truncated_stub_fails(file: Seq<u8>)
    requires
        file.len() < 60,
    ensures
        assembly_of(file) == Err::<EncodedAssemblyView, AssemblyReadError>(
            AssemblyReadError::PEError(PEFileReadError::IOError),
        ),
{
}

/// Index 0 names nothing: it comes to the empty name whatever the assembly holds, with a
/// string heap or without one.
pub proof fn lemma_absent_name(assembly: EncodedAssemblyView)
    ensures
        assembly.optional_name(StringIndex(0)) == Ok::<Seq<char>, AssemblyReadError>(
            Seq::empty(),
        ),
{
}

/// The place of the first stream of `kind` at or after `from`.
pub open spec fn first_of_kind(
    streams: Seq<MetadataStreamView>,
    kind: StreamKind,
    from: int,
) -> Option<int>
    decreases streams.len() - from,
{
    if from >= streams.len() {
        None
    } else if streams[from].kind() == kind {
        Some(from)
    } else {
        first_of_kind(streams, kind, from + 1)
    }
}

/// What `first_of_kind` finds is a stream of the kind, inside the sequence.
pub proof fn lemma_first_of_kind(streams: Seq<MetadataStreamView>, kind: StreamKind, from: int)
    requires
        0 <= from,
    ensures
        first_of_kind(streams, kind, from) matches Some(i) ==> from <= i < streams.len()
            && streams[i].kind() == kind,
    decreases streams.len() - from,
{
    if from < streams.len() && streams[from].kind() != kind {
        lemma_first_of_kind(streams, kind, from + 1);
    }
}

/// The table stream of every assembly that was decoded has the shape that
/// `table_stream_shape` describes: in particular it holds exactly one module row.
pub proof fn lemma_decoded_assembly_tables(file: Seq<u8>)
    ensures
        assembly_of(file) matches Ok(assembly) ==> (assembly.table_stream() matches Some(stream)
            ==> table_stream_shape(stream)),
{
    if assembly_of(file) is Ok {
        let assembly = assembly_of(file)->Ok_0;
        let pe = pe_file_of(file)->Ok_0;
        let h = pe.bytes_at_rva(
            pe.header.nt_header.cil_header as u64,
            pe.header.nt_header.cil_header_size as u64,
        )->0;
        let md = pe.bytes_at_rva(le_value(h, 8, 4) as u64, le_value(h, 12, 4) as u64)->0;
        let directory = 16 + round_up4(le_value(md, 12, 4) as int);
        lemma_streams_from_decoded(md, directory + 4, le_value(md, directory + 2, 2));
        lemma_first_of_kind(assembly.streams(), StreamKind::Tables, 0);
        if assembly.table_stream() is Some {
            lemma_decoded_table_stream_shape(assembly.table_stream()->0);
        }
    }
}

/// The place of the first table with the number `number` at or after `from`.
pub open spec fn first_table(tables: Seq<TableView>, number: u8, from: int) -> Option<int>
    decreases tables.len() - from,
{
    if from >= tables.len() {
        None
    } else if tables[from].number() == number {
        Some(from)
    } else {
        first_table(tables, number, from + 1)
    }
}

/// The number of rows of a table of `len` rows, as an index: `len` itself, and the
/// greatest index where `len` is greater.
pub open spec fn length_index(len: nat) -> u32 {
    if len > u32::MAX {
        u32::MAX
    } else {
        len as u32
    }
}

/// The number of rows of a table of `len` rows, as an index.
pub fn index_of_length(len: usize) -> (r: u32)
    ensures
        r == length_index(len as nat),
{
    if len > u32::MAX as usize {
        u32::MAX
    } else {
        len as u32
    }
}

impl EncodedAssemblyView {
    /// The streams, in the order of the stream directory.
    pub open spec fn streams(self) -> Seq<MetadataStreamView> {
        self.header.raw_metadata.streams
    }

    /// The first stream of `kind`.
    pub open spec fn stream(self, kind: StreamKind) -> Option<MetadataStreamView> {
        match first_of_kind(self.streams(), kind, 0) {
            Some(i) => Some(self.streams()[i]),
            None => None,
        }
    }

    /// The string heap: the first `#Strings` stream.
    pub open spec fn string_heap(self) -> Option<Seq<u8>> {
        match self.stream(StreamKind::Strings) {
            Some(MetadataStreamView::Strings(bytes)) => Some(bytes),
            _ => None,
        }
    }

    /// The GUID heap: the first `#GUID` stream.
    pub open spec fn guid_heap(self) -> Option<Seq<u128>> {
        match self.stream(StreamKind::GUID) {
            Some(MetadataStreamView::GUID(guids)) => Some(guids),
            _ => None,
        }
    }

    /// The blob heap: the first `#Blob` stream.
    pub open spec fn blob_heap(self) -> Option<Seq<u8>> {
        match self.stream(StreamKind::Blob) {
            Some(MetadataStreamView::Blob(bytes)) => Some(bytes),
            _ => None,
        }
    }

    /// The table stream: the first `#~` stream.
    pub open spec fn table_stream(self) -> Option<TableStreamView> {
        match self.stream(StreamKind::Tables) {
            Some(MetadataStreamView::LogicalMetadataTable(tables)) => Some(tables),
            _ => None,
        }
    }

    /// The row counts and the presence bitmap of the table stream.
    pub open spec fn rows_context(self) -> Option<(Seq<u32>, BitVec64)> {
        match self.table_stream() {
            Some(tables) => Some((tables.rows, tables.present)),
            None => None,
        }
    }

    /// The first table with the number `number`.
    pub open spec fn table(self, number: u8) -> Result<Option<TableView>, AssemblyReadError> {
        match self.table_stream() {
            None => Err(AssemblyReadError::MissingStream),
            Some(stream) => match first_table(stream.tables, number, 0) {
                Some(i) => Ok(Some(stream.tables[i])),
                None => Ok(None),
            },
        }
    }

    /// The rows of the method table; none where there is no such table.
    pub open spec fn method_rows(self) -> Result<Seq<MethodDef>, AssemblyReadError> {
        match self.table(TABLE_METHOD_DEF) {
            Err(e) => Err(e),
            Ok(Some(TableView::MethodDefTable(rows))) => Ok(rows),
            Ok(_) => Ok(Seq::empty()),
        }
    }

    /// The number of rows of the field table; 0 where there is no such table.
    pub open spec fn field_count(self) -> Result<nat, AssemblyReadError> {
        match self.table(TABLE_FIELD) {
            Err(e) => Err(e),
            Ok(Some(TableView::Fields(rows))) => Ok(rows.len()),
            Ok(_) => Ok(0),
        }
    }

    /// The number of rows of the parameter table; 0 where there is no such table.
    pub open spec fn param_count(self) -> Result<nat, AssemblyReadError> {
        match self.table(TABLE_PARAM) {
            Err(e) => Err(e),
            Ok(Some(TableView::Param(rows))) => Ok(rows.len()),
            Ok(_) => Ok(0),
        }
    }

    /// The name at `index` of the string heap.
    pub open spec fn name(self, index: StringIndex) -> Result<Seq<char>, AssemblyReadError> {
        match self.string_heap() {
            None => Err(AssemblyReadError::MissingStream),
            Some(heap) => string_at(heap, index.0 as int),
        }
    }

    /// The name that a row gives by `index`. Index 0 stands for "no name": it comes to the
    /// empty name without a look at the heap.
    pub open spec fn optional_name(self, index: StringIndex) -> Result<
        Seq<char>,
        AssemblyReadError,
    > {
        if index.0 == 0 {
            Ok(Seq::empty())
        } else {
            self.name(index)
        }
    }

    /// Entry `index` of the GUID heap; the zero value for index 0, heap or no heap.
    pub open spec fn guid(self, index: GUIDIndex) -> Result<u128, AssemblyReadError> {
        if index.0 == 0 {
            Ok(0)
        } else {
            match self.guid_heap() {
                None => Err(AssemblyReadError::MissingStream),
                Some(heap) => guid_at(heap, index.0 as int),
            }
        }
    }

    /// The blob at `index` of the blob heap.
    pub open spec fn blob(self, index: BlobIndex) -> Result<Seq<u8>, AssemblyReadError> {
        match self.blob_heap() {
            None => Err(AssemblyReadError::MissingStream),
            Some(heap) => match blob_at(heap, index.0 as int) {
                Some(blob) => Ok(blob),
                None => Err(AssemblyReadError::InvalidHeapIndex),
            },
        }
    }
}

impl EncodedAssembly {
    pub fn pe_file(&self) -> (r: &PEFile)
        ensures
            *r == self.pe_file,
    {
        &self.pe_file
    }

    /// Decodes the assembly that the bytes `file` spell.
    pub fn from_file(file: &[u8]) -> (r: Result<Self, AssemblyReadError>)
        ensures
            agrees(r, assembly_of(file@)),
    {
        let pe_file: PEFile = match PEFile::from_file(file) {
            Err(e) => {
                return Err(AssemblyReadError::PEError(e));
            },
            Ok(pe_file) => pe_file,
        };
        let header: CILHeader = CILHeader::read_from_pe(&pe_file)?;
        Ok(Self { pe_file, header })
    }

    /// The place of the first stream of `kind`.
    pub fn stream_index(&self, kind: StreamKind) -> (r: Option<usize>)
        ensures
            match r {
                Some(i) => first_of_kind(self@.streams(), kind, 0) == Some(i as int) && i
                    < self.header.raw_metadata.streams@.len()
                    && self.header.raw_metadata.streams@[i as int]@.kind() == kind,
                None => first_of_kind(self@.streams(), kind, 0) is None,
            },
    {
        let streams: &Vec<MetadataStream> = &self.header.raw_metadata.streams;
        let mut i: usize = 0;
        while i < streams.len()
            invariant
                i <= streams@.len(),
                streams == &self.header.raw_metadata.streams,
                first_of_kind(self@.streams(), kind, 0) == first_of_kind(
                    self@.streams(),
                    kind,
                    i as int,
                ),
            decreases streams@.len() - i,
        {
            if streams[i].kind() == kind {
                return Some(i);
            }
            i = i + 1;
        }
        None
    }

    /// The name at `string_index` of the string heap.
    pub fn str_at(&self, string_index: StringIndex) -> (r: Result<&str, AssemblyReadError>)
        ensures
            agrees(r, self@.name(string_index)),
    {
        let heap: &[u8] = self.string_stream()?;
        str_in_heap(heap, string_index)
    }

    /// The name that a row gives by `string_index`; the empty name for index 0.
    pub fn name_at(&self, string_index: StringIndex) -> (r: Result<&str, AssemblyReadError>)
        ensures
            agrees(r, self@.optional_name(string_index)),
    {
        if string_index.0 == 0 {
            proof {
                reveal_strlit("");
            }
            let absent: &str = "";
            assert(absent@ =~= Seq::empty());
            return Ok(absent);
        }
        self.str_at(string_index)
    }

    /// The string heap.
    pub fn string_stream(&self) -> (r: Result<&[u8], AssemblyReadError>)
        ensures
            match self@.string_heap() {
                Some(heap) => r is Ok && r.unwrap()@ == heap,
                None => r is Err && r->Err_0 == AssemblyReadError::MissingStream,
            },
    {
        match self.stream_index(StreamKind::Strings) {
            None => Err(AssemblyReadError::MissingStream),
            Some(i) => match &self.header.raw_metadata.streams[i] {
                MetadataStream::Strings(strings) => Ok(strings.as_slice()),
                _ => Err(AssemblyReadError::MissingStream),
            },
        }
    }

    /// The GUID heap.
    pub fn guid_stream(&self) -> (r: Result<&[u128], AssemblyReadError>)
        ensures
            match self@.guid_heap() {
                Some(heap) => r is Ok && r.unwrap()@ == heap,
                None => r is Err && r->Err_0 == AssemblyReadError::MissingStream,
            },
    {
        match self.stream_index(StreamKind::GUID) {
            None => Err(AssemblyReadError::MissingStream),
            Some(i) => match &self.header.raw_metadata.streams[i] {
                MetadataStream::GUID(guid) => Ok(guid.as_slice()),
                _ => Err(AssemblyReadError::MissingStream),
            },
        }
    }

    /// Entry `index` of the GUID heap.
    pub fn guid_at(&self, index: GUIDIndex) -> (r: Result<u128, AssemblyReadError>)
        ensures
            r == self@.guid(index),
    {
        if index.0 == 0 {
            return Ok(0);
        }
        let heap: &[u128] = self.guid_stream()?;
        guid_in_heap(heap, index)
    }

    /// The blob heap.
    pub fn blob_stream(&self) -> (r: Result<&[u8], AssemblyReadError>)
        ensures
            match self@.blob_heap() {
                Some(heap) => r is Ok && r.unwrap()@ == heap,
                None => r is Err && r->Err_0 == AssemblyReadError::MissingStream,
            },
    {
        match self.stream_index(StreamKind::Blob) {
            None => Err(AssemblyReadError::MissingStream),
            Some(i) => match &self.header.raw_metadata.streams[i] {
                MetadataStream::Blob(blob) => Ok(blob.as_slice()),
                _ => Err(AssemblyReadError::MissingStream),
            },
        }
    }

    /// The blob at `blob_index` of the blob heap, without its length prefix.
    pub fn blob_at(&self, blob_index: BlobIndex) -> (r: Result<&[u8], AssemblyReadError>)
        ensures
            agrees(r, self@.blob(blob_index)),
    {
        let heap: &[u8] = self.blob_stream()?;
        get_blob(heap, blob_index)
    }

    /// The tables of the table stream.
    pub fn table_stream(&self) -> (r: Result<&[Table], AssemblyReadError>)
        ensures
            match self@.table_stream() {
                Some(stream) => r is Ok && views_of(r.unwrap()@) == stream.tables,
                None => r is Err && r->Err_0 == AssemblyReadError::MissingStream,
            },
    {
        match self.stream_index(StreamKind::Tables) {
            None => Err(AssemblyReadError::MissingStream),
            Some(i) => match &self.header.raw_metadata.streams[i] {
                MetadataStream::LogicalMetadataTable(stream) => Ok(stream.tables.as_slice()),
                _ => Err(AssemblyReadError::MissingStream),
            },
        }
    }

    /// The row counts and the presence bitmap of the table stream.
    pub fn tables_rows(&self) -> (r: Result<(&[u32], BitVec64), AssemblyReadError>)
        ensures
            match self@.rows_context() {
                Some((rows, tables)) => r is Ok && r.unwrap().0@ == rows && r.unwrap().1
                    == tables,
                None => r is Err && r->Err_0 == AssemblyReadError::MissingStream,
            },
    {
        match self.stream_index(StreamKind::Tables) {
            None => Err(AssemblyReadError::MissingStream),
            Some(i) => match &self.header.raw_metadata.streams[i] {
                MetadataStream::LogicalMetadataTable(stream) => Ok(
                    (stream.rows.as_slice(), stream.present),
                ),
                _ => Err(AssemblyReadError::MissingStream),
            },
        }
    }

    /// The first table with the number `number`, or `None` where there is none.
    pub fn find_table(&self, number: u8) -> (r: Result<Option<&Table>, AssemblyReadError>)
        ensures
            match self@.table(number) {
                Ok(Some(table)) => r is Ok && r.unwrap() is Some && r.unwrap().unwrap()@ == table
                    && table.number() == number,
                Ok(None) => r is Ok && r.unwrap() is None,
                Err(e) => r is Err && r->Err_0 == e,
            },
    {
        let tables: &[Table] = self.table_stream()?;
        let ghost views = self@.table_stream().unwrap().tables;
        let mut i: usize = 0;
        while i < tables.len()
            invariant
                i <= tables@.len(),
                views == views_of(tables@),
                self@.table_stream() == Some(self@.table_stream().unwrap()),
                views == self@.table_stream().unwrap().tables,
                first_table(views, number, 0) == first_table(views, number, i as int),
            decreases tables@.len() - i,
        {
            if tables[i].number() == number {
                return Ok(Some(&tables[i]));
            }
            i = i + 1;
        }
        Ok(None)
    }

    /// The rows of the method table; none where there is no such table.
    pub fn methods(&self) -> (r: Result<&[MethodDef], AssemblyReadError>)
        ensures
            agrees(r, self@.method_rows()),
    {
        match self.find_table(TABLE_METHOD_DEF)? {
            Some(Table::MethodDefTable(defs)) => Ok(defs.as_slice()),
            _ => {
                let none: &[MethodDef] = &[];
                assert(none@ =~= Seq::empty());
                Ok(none)
            },
        }
    }

    /// The number of rows of the field table.
    pub fn field_len(&self) -> (r: Result<usize, AssemblyReadError>)
        ensures
            match self@.field_count() {
                Ok(n) => r is Ok && r.unwrap() == n,
                Err(e) => r == Err::<usize, AssemblyReadError>(e),
            },
    {
        match self.find_table(TABLE_FIELD)? {
            Some(Table::Fields(fields)) => Ok(fields.len()),
            _ => Ok(0),
        }
    }

    /// The number of rows of the parameter table.
    pub fn params_len(&self) -> (r: Result<usize, AssemblyReadError>)
        ensures
            match self@.param_count() {
                Ok(n) => r is Ok && r.unwrap() == n,
                Err(e) => r == Err::<usize, AssemblyReadError>(e),
            },
    {
        match self.find_table(TABLE_PARAM)? {
            Some(Table::Param(params)) => Ok(params.len()),
            _ => Ok(0),
        }
    }

    pub fn cil_header(&self) -> (r: &CILHeader)
        ensures
            *r == self.header,
    {
        &self.header
    }
}

} // verus!

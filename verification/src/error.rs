//! Why a decode stopped. Every failure ends the decode where it is found.

use vstd::prelude::*;

verus! {

/// Why the executable container was refused.
#[derive(Debug, Clone, Copy, PartialEq, Eq, Structural)]
pub enum PEFileReadError {
    /// The input ends before the bytes that the format calls for.
    IOError,
    /// One of the two fixed stub sequences differs, or the header offset between them
    /// points into the stub.
    InavlidDOSStub,
    NotPEFile,
    /// The optional header's magic, linker version or reserved field differs.
    WrongMagic,
    WrongChecksum,
    WrongSubsystem(u16),
    WrongFileAligement,
    WrongStackReserve,
    WrongStackCommit,
    WrongHeapReserve,
    WrongHeapCommit,
    WrongLoaderFlags,
    WrongDirectoryCount,
    ExportTablePresent,
    ResourceTablePresent,
    ExceptionTablePresent,
    CertificateTablePresent,
    DelayImportPresent,
    ReservedDirectoryPresent,
    /// The optional header has another size than 224 bytes.
    UnsupportedOptionalHeaderSize(u16),
    /// A section is named neither `.text` nor `.reloc`; the eight bytes of the name field,
    /// read as one little-endian number.
    UnknownSectionName(u64),
    SectionRelocationsPresent,
    SectionLineNumbersPresent,
}

/// A fixed field of the metadata that does not hold its required value.
#[derive(Debug, Clone, Copy, PartialEq, Eq, Structural)]
pub enum FormatError {
    MetadataSignature,
    MetadataReserved,
    MetadataFlags,
    TablesReserved,
    TablesMajorVersion,
    TablesMinorVersion,
    TablesReservedByte,
    /// A bit above the low 44 is set in the table-presence bitmap.
    TablePresenceBits,
    /// The module table is absent, or has another number of rows than one.
    ModuleRowCount,
    ModuleGeneration,
    ModuleEncId,
    ModuleEncBaseId,
    TypeRefNameAbsent,
    /// The assembly table has another number of rows than one.
    AssemblyRowCount,
    AssemblyNameAbsent,
    /// A coded token's tag names none of the tables of its kind.
    CodedTokenTag,
    /// An element type starts with the code 0.
    TypeCodeZero,
}

/// A well-formed input that uses what this decoder does not handle.
#[derive(Debug, Clone, Copy, PartialEq, Eq, Structural)]
pub enum UnsupportedFeature {
    CodeManagerTable,
    ExportAddressTableJumps,
    ManagedNativeHeader,
    /// A stream whose name is none of `#~`, `#Strings`, `#US`, `#Blob`, `#GUID`.
    StreamName,
    /// A table, by its number, whose rows have no known layout.
    Table(u8),
    /// A general array with bounds.
    ArrayBounds,
    TypeCode(u32),
    FatMethodHeader,
    /// A method header that is neither tiny nor fat.
    MethodHeader,
    Opcode(u8),
    /// A table, by its number, of which no resolved form is built.
    TableResolution(u8),
}

/// Why an assembly was refused.
#[derive(Debug, Clone, Copy, PartialEq, Eq, Structural)]
pub enum AssemblyReadError {
    PEError(PEFileReadError),
    /// No section holds the bytes at a relative virtual address.
    UnmappedRVA,
    /// A structure runs past the end of the region that holds it.
    UnexpectedEnd,
    /// A heap index at which the heap holds no complete entry.
    InvalidHeapIndex,
    /// The metadata has no stream of the kind asked for.
    MissingStream,
    /// Name bytes that are not UTF-8.
    InvalidEncoding,
    Format(FormatError),
    Unsupported(UnsupportedFeature),
}

/// An outcome agrees with what was to come out: the same error, or a value with the
/// view that was to come out.
pub open spec fn agrees<T: View, E>(outcome: Result<T, E>, expected: Result<T::V, E>) -> bool {
    match expected {
        Ok(v) => outcome is Ok && outcome->Ok_0@ == v,
        Err(e) => outcome is Err && outcome->Err_0 == e,
    }
}

impl From<PEFileReadError> for AssemblyReadError {
    fn from(value: PEFileReadError) -> (r: Self) {
        Self::PEError(value)
    }
}

impl vstd::std_specs::convert::FromSpecImpl<PEFileReadError> for AssemblyReadError {
    open spec fn obeys_from_spec() -> bool {
        true
    }

    open spec fn from_spec(value: PEFileReadError) -> Self {
        AssemblyReadError::PEError(value)
    }
}

} // verus!

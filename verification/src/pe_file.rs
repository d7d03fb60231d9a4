//! The executable container: its headers, its sections, and the bytes behind a relative
//! virtual address.

use crate::bytes::{has_at, holds, le_value, matches_at, u16_from_slice_at, u32_from_slice_at, u64_from_slice_at};
use crate::error::PEFileReadError;
use crate::seqs::views_of;
use vstd::prelude::*;
use vstd::slice::slice_subrange;

verus! {

/// An address relative to the base at which the image is loaded.
#[derive(Debug, Clone, Copy, PartialEq, Eq, Structural)]
pub struct RVA(pub u64);

/// An address in the loaded image.
#[derive(Debug, Clone, Copy, PartialEq, Eq, Structural)]
pub struct VA(pub u64);

/// The bytes that open every file, up to the offset of the header.
pub const MSDOS_STUB_FIRST: [u8; 60] = [
    0x4d, 0x5a, 0x90, 0x00, 0x03, 0x00, 0x00, 0x00, 0x04, 0x00, 0x00, 0x00, 0xFF, 0xFF, 0x00, 0x00,
    0xb8, 0x00, 0x00, 0x00, 0x00, 0x00, 0x00, 0x00, 0x40, 0x00, 0x00, 0x00, 0x00, 0x00, 0x00, 0x00,
    0x00, 0x00, 0x00, 0x00, 0x00, 0x00, 0x00, 0x00, 0x00, 0x00, 0x00, 0x00, 0x00, 0x00, 0x00, 0x00,
    0x00, 0x00, 0x00, 0x00, 0x00, 0x00, 0x00, 0x00, 0x00, 0x00, 0x00, 0x00,
];

/// The bytes that follow the offset of the header.
pub const MSDOS_STUB_SECOND: [u8; 64] = [
    0x0e, 0x1f, 0xba, 0x0e, 0x00, 0xb4, 0x09, 0xcd, 0x21, 0xb8, 0x01, 0x4c, 0xcd, 0x21, 0x54, 0x68,
    0x69, 0x73, 0x20, 0x70, 0x72, 0x6f, 0x67, 0x72, 0x61, 0x6d, 0x20, 0x63, 0x61, 0x6e, 0x6e, 0x6f,
    0x74, 0x20, 0x62, 0x65, 0x20, 0x72, 0x75, 0x6e, 0x20, 0x69, 0x6e, 0x20, 0x44, 0x4f, 0x53, 0x20,
    0x6d, 0x6f, 0x64, 0x65, 0x2e, 0x0d, 0x0d, 0x0a, 0x24, 0x00, 0x00, 0x00, 0x00, 0x00, 0x00, 0x00,
];

/// The name `.text`, with the zero byte that ends it.
pub const SECTION_NAME_TEXT: [u8; 6] = [0x2e, 0x74, 0x65, 0x78, 0x74, 0x00];

/// The name `.reloc`, with the zero byte that ends it.
pub const SECTION_NAME_RELOC: [u8; 7] = [0x2e, 0x72, 0x65, 0x6c, 0x6f, 0x63, 0x00];

/// The bytes `PE`, 0, 0, read as one number.
pub const PE_SIGNATURE: u32 = 0x0000_4550;

/// The only size of the optional header that is handled.
pub const OPTIONAL_HEADER_SIZE: u16 = 224;

/// What a section holds.
#[derive(Debug, Clone, Copy, PartialEq, Eq, Structural)]
pub enum SectionType {
    Text,
    Reloc,
}

/// One entry of the section table.
#[derive(Debug, Clone, Copy, PartialEq, Eq, Structural)]
pub struct SectionHeader {
    pub section_type: SectionType,
    pub virtual_size: u32,
    pub virtual_adress: u32,
    pub size_of_raw_data: u32,
    pub offset_of_raw_data: u32,
    pub characteristics: u32,
}

/// The section type that the eight-byte name field at `at` gives: `.text` or `.reloc`,
/// each ended by a zero byte.
pub open spec fn section_type_at(file: Seq<u8>, at: int) -> Option<SectionType> {
    if has_at(file, at, SECTION_NAME_TEXT@) {
        Some(SectionType::Text)
    } else if has_at(file, at, SECTION_NAME_RELOC@) {
        Some(SectionType::Reloc)
    } else {
        None
    }
}

/// The entry of the section table that stands at `at`: forty bytes, with no relocations
/// and no line numbers.
pub open spec fn section_header_at(file: Seq<u8>, at: int) -> Result<
    SectionHeader,
    PEFileReadError,
> {
    if file.len() < at + 40 {
        Err(PEFileReadError::IOError)
    } else if section_type_at(file, at) is None {
        Err(PEFileReadError::UnknownSectionName(le_value(file, at, 8) as u64))
    } else if le_value(file, at + 24, 4) != 0 {
        Err(PEFileReadError::SectionRelocationsPresent)
    } else if le_value(file, at + 28, 4) != 0 {
        Err(PEFileReadError::SectionLineNumbersPresent)
    } else if le_value(file, at + 32, 2) != 0 {
        Err(PEFileReadError::SectionRelocationsPresent)
    } else if le_value(file, at + 34, 2) != 0 {
        Err(PEFileReadError::SectionLineNumbersPresent)
    } else {
        Ok(
            SectionHeader {
                section_type: section_type_at(file, at).unwrap(),
                virtual_size: le_value(file, at + 8, 4) as u32,
                virtual_adress: le_value(file, at + 12, 4) as u32,
                size_of_raw_data: le_value(file, at + 16, 4) as u32,
                offset_of_raw_data: le_value(file, at + 20, 4) as u32,
                characteristics: le_value(file, at + 36, 4) as u32,
            },
        )
    }
}

impl SectionHeader {
    /// The entry of the section table at `at` of `file`.
    pub fn from_file(file: &[u8], at: usize) -> (r: Result<Self, PEFileReadError>)
        ensures
            r == section_header_at(file@, at as int),
    {
        if !holds(file, at, 40) {
            return Err(PEFileReadError::IOError);
        }
        let section_type: SectionType = if matches_at(file, at, SECTION_NAME_TEXT.as_slice()) {
            SectionType::Text
        } else if matches_at(file, at, SECTION_NAME_RELOC.as_slice()) {
            SectionType::Reloc
        } else {
            return Err(PEFileReadError::UnknownSectionName(u64_from_slice_at(file, at)));
        };
        let virtual_size: u32 = u32_from_slice_at(file, at + 8);
        let virtual_adress: u32 = u32_from_slice_at(file, at + 12);
        let size_of_raw_data: u32 = u32_from_slice_at(file, at + 16);
        let offset_of_raw_data: u32 = u32_from_slice_at(file, at + 20);
        if u32_from_slice_at(file, at + 24) != 0 {
            return Err(PEFileReadError::SectionRelocationsPresent);
        }
        if u32_from_slice_at(file, at + 28) != 0 {
            return Err(PEFileReadError::SectionLineNumbersPresent);
        }
        if u16_from_slice_at(file, at + 32) != 0 {
            return Err(PEFileReadError::SectionRelocationsPresent);
        }
        if u16_from_slice_at(file, at + 34) != 0 {
            return Err(PEFileReadError::SectionLineNumbersPresent);
        }
        let characteristics: u32 = u32_from_slice_at(file, at + 36);
        Ok(
            Self {
                section_type,
                virtual_size,
                virtual_adress,
                size_of_raw_data,
                offset_of_raw_data,
                characteristics,
            },
        )
    }
}

/// A section with its bytes.
#[derive(Debug, Clone, PartialEq)]
pub struct PESection {
    pub section_type: SectionType,
    pub virtual_adress: u32,
    pub characteristics: u32,
    pub data: Vec<u8>,
}

/// What a section holds.
pub struct PESectionView {
    pub section_type: SectionType,
    pub virtual_adress: u32,
    pub characteristics: u32,
    pub data: Seq<u8>,
}

impl View for PESection {
    type V = PESectionView;

    open spec fn view(&self) -> PESectionView {
        PESectionView {
            section_type: self.section_type,
            virtual_adress: self.virtual_adress,
            characteristics: self.characteristics,
            data: self.data@,
        }
    }
}

impl PESectionView {
    /// The section holds every byte from `rva` up to, not including, `rva + length`.
    pub open spec fn covers(self, rva: u64, length: u64) -> bool {
        self.virtual_adress <= rva && rva + length <= self.virtual_adress + self.data.len()
    }

    /// The `length` bytes at `rva`, where the section covers them.
    pub open spec fn bytes_at(self, rva: u64, length: u64) -> Seq<u8> {
        self.data.subrange(rva - self.virtual_adress, rva - self.virtual_adress + length)
    }
}

/// The section that `header` describes, with its bytes: as many as its virtual size says,
/// from its raw offset on.
pub open spec fn section_of(file: Seq<u8>, header: SectionHeader) -> Result<
    PESectionView,
    PEFileReadError,
> {
    if header.offset_of_raw_data + header.virtual_size > file.len() {
        Err(PEFileReadError::IOError)
    } else {
        Ok(
            PESectionView {
                section_type: header.section_type,
                virtual_adress: header.virtual_adress,
                characteristics: header.characteristics,
                data: file.subrange(
                    header.offset_of_raw_data as int,
                    header.offset_of_raw_data + header.virtual_size,
                ),
            },
        )
    }
}

/// Copies the bytes of `part`.
pub fn copy_bytes(part: &[u8]) -> (r: Vec<u8>)
    ensures
        r@ == part@,
{
    let mut out: Vec<u8> = Vec::new();
    let mut i: usize = 0;
    while i < part.len()
        invariant
            i <= part@.len(),
            out@ == part@.take(i as int),
        decreases part@.len() - i,
    {
        out.push(part[i]);
        i = i + 1;
        assert(out@ =~= part@.take(i as int));
    }
    assert(out@ =~= part@);
    out
}

impl PESection {
    /// The section of `file` that `section_header` describes.
    pub fn from_file(file: &[u8], section_header: &SectionHeader) -> (r: Result<
        Self,
        PEFileReadError,
    >)
        ensures
            crate::error::agrees(r, section_of(file@, *section_header)),
    {
        let start: usize = section_header.offset_of_raw_data as usize;
        let len: usize = section_header.virtual_size as usize;
        if !holds(file, start, len) {
            return Err(PEFileReadError::IOError);
        }
        let data: Vec<u8> = copy_bytes(slice_subrange(file, start, start + len));
        Ok(
            Self {
                section_type: section_header.section_type,
                virtual_adress: section_header.virtual_adress,
                characteristics: section_header.characteristics,
                data,
            },
        )
    }

    /// The `length` bytes at `rva`, or `None` where the section does not hold them all.
    pub fn slice_at_rva(&self, rva: RVA, length: u64) -> (r: Option<&[u8]>)
        ensures
            match r {
                Some(part) => self@.covers(rva.0, length) && part@ == self@.bytes_at(
                    rva.0,
                    length,
                ),
                None => !self@.covers(rva.0, length),
            },
    {
        let start: u64 = self.virtual_adress as u64;
        if rva.0 < start {
            return None;
        }
        let from: u64 = rva.0 - start;
        let len: usize = self.data.len();
        if from > len as u64 || length > len as u64 - from {
            return None;
        }
        let data_start: usize = from as usize;
        let data_end: usize = data_start + length as usize;
        Some(slice_subrange(self.data.as_slice(), data_start, data_end))
    }
}

/// The console and the windowed subsystem.
#[derive(Debug, Clone, Copy, PartialEq, Eq, Structural)]
pub enum Subsystem {
    CUI,
    GUI,
}

impl Subsystem {
    /// The subsystem with the number `value`: 2 the console, 3 the windowed one.
    pub open spec fn of(value: u16) -> Result<Subsystem, PEFileReadError> {
        if value == 2 {
            Ok(Subsystem::CUI)
        } else if value == 3 {
            Ok(Subsystem::GUI)
        } else {
            Err(PEFileReadError::WrongSubsystem(value))
        }
    }

    pub fn try_from(value: u16) -> (r: Result<Self, PEFileReadError>)
        ensures
            r == Self::of(value),
    {
        if value == 2 {
            Ok(Subsystem::CUI)
        } else if value == 3 {
            Ok(Subsystem::GUI)
        } else {
            Err(PEFileReadError::WrongSubsystem(value))
        }
    }
}

/// The file header: twenty bytes behind the signature.
#[derive(Debug, Clone, Copy, PartialEq, Eq, Structural)]
pub struct PEFileHeader {
    pub machine: u16,
    pub section_count: u16,
    pub timestamp: u32,
    pub symbol_table_offset: u32,
    pub symbol_table_size: u32,
    pub optional_header_size: u16,
    pub characteristics: u16,
}

/// The file header that stands at `at`.
pub open spec fn file_header_at(file: Seq<u8>, at: int) -> Result<PEFileHeader, PEFileReadError> {
    if file.len() < at + 20 {
        Err(PEFileReadError::IOError)
    } else if le_value(file, at + 16, 2) != OPTIONAL_HEADER_SIZE {
        Err(PEFileReadError::UnsupportedOptionalHeaderSize(le_value(file, at + 16, 2) as u16))
    } else {
        Ok(
            PEFileHeader {
                machine: le_value(file, at, 2) as u16,
                section_count: le_value(file, at + 2, 2) as u16,
                timestamp: le_value(file, at + 4, 4) as u32,
                symbol_table_offset: le_value(file, at + 8, 4) as u32,
                symbol_table_size: le_value(file, at + 12, 4) as u32,
                optional_header_size: le_value(file, at + 16, 2) as u16,
                characteristics: le_value(file, at + 18, 2) as u16,
            },
        )
    }
}

impl PEFileHeader {
    /// The file header at `at` of `file`.
    pub fn from_file(file: &[u8], at: usize) -> (r: Result<Self, PEFileReadError>)
        ensures
            r == file_header_at(file@, at as int),
    {
        if !holds(file, at, 20) {
            return Err(PEFileReadError::IOError);
        }
        let machine: u16 = u16_from_slice_at(file, at);
        let section_count: u16 = u16_from_slice_at(file, at + 2);
        let timestamp: u32 = u32_from_slice_at(file, at + 4);
        let symbol_table_offset: u32 = u32_from_slice_at(file, at + 8);
        let symbol_table_size: u32 = u32_from_slice_at(file, at + 12);
        let optional_header_size: u16 = u16_from_slice_at(file, at + 16);
        if optional_header_size != OPTIONAL_HEADER_SIZE {
            return Err(PEFileReadError::UnsupportedOptionalHeaderSize(optional_header_size));
        }
        let characteristics: u16 = u16_from_slice_at(file, at + 18);
        Ok(
            Self {
                machine,
                section_count,
                timestamp,
                symbol_table_offset,
                symbol_table_size,
                optional_header_size,
                characteristics,
            },
        )
    }
}

/// The part of the optional header that is particular to this container: 196 bytes.
#[derive(Debug, Clone, Copy, PartialEq, Eq, Structural)]
pub struct NTHeader {
    pub image_base: u32,
    pub section_algiement: u32,
    pub file_aligement: u32,
    pub os_major: u16,
    pub os_minor: u16,
    pub user_major: u16,
    pub user_minor: u16,
    pub subsys_major: u16,
    pub subsys_minor: u16,
    pub cil_header: u32,
    pub cil_header_size: u32,
}

/// The first of the fixed fields of the header at `at` that does not hold its required
/// value, in the order in which they are stored, as the failure that names it.
pub open spec fn nt_header_fault(file: Seq<u8>, at: int) -> Option<PEFileReadError> {
    if le_value(file, at + 8, 4) != 512 {
        Some(PEFileReadError::WrongFileAligement)
    } else if le_value(file, at + 24, 4) != 0 {
        Some(PEFileReadError::WrongMagic)
    } else if le_value(file, at + 36, 4) != 0 {
        Some(PEFileReadError::WrongChecksum)
    } else if Subsystem::of(le_value(file, at + 40, 2) as u16) is Err {
        Some(PEFileReadError::WrongSubsystem(le_value(file, at + 40, 2) as u16))
    } else if le_value(file, at + 44, 4) != 0x100000 {
        Some(PEFileReadError::WrongStackReserve)
    } else if le_value(file, at + 48, 4) != 0x1000 {
        Some(PEFileReadError::WrongStackCommit)
    } else if le_value(file, at + 52, 4) != 0x100000 {
        Some(PEFileReadError::WrongHeapReserve)
    } else if le_value(file, at + 56, 4) != 0x1000 {
        Some(PEFileReadError::WrongHeapCommit)
    } else if le_value(file, at + 60, 4) != 0 {
        Some(PEFileReadError::WrongLoaderFlags)
    } else if le_value(file, at + 64, 4) != 0x10 {
        Some(PEFileReadError::WrongDirectoryCount)
    } else if le_value(file, at + 68, 8) != 0 {
        Some(PEFileReadError::ExportTablePresent)
    } else if le_value(file, at + 84, 8) != 0 {
        Some(PEFileReadError::ResourceTablePresent)
    } else if le_value(file, at + 92, 8) != 0 {
        Some(PEFileReadError::ExceptionTablePresent)
    } else if le_value(file, at + 100, 8) != 0 {
        Some(PEFileReadError::CertificateTablePresent)
    } else if le_value(file, at + 172, 8) != 0 {
        Some(PEFileReadError::DelayImportPresent)
    } else if le_value(file, at + 188, 8) != 0 {
        Some(PEFileReadError::ReservedDirectoryPresent)
    } else {
        None
    }
}

/// The header that stands at `at`.
pub open spec fn nt_header_at(file: Seq<u8>, at: int) -> Result<NTHeader, PEFileReadError> {
    if file.len() < at + 196 {
        Err(PEFileReadError::IOError)
    } else {
        match nt_header_fault(file, at) {
            Some(e) => Err(e),
            None => Ok(
                NTHeader {
                    image_base: le_value(file, at, 4) as u32,
                    section_algiement: le_value(file, at + 4, 4) as u32,
                    file_aligement: le_value(file, at + 8, 4) as u32,
                    os_major: le_value(file, at + 12, 2) as u16,
                    os_minor: le_value(file, at + 14, 2) as u16,
                    user_major: le_value(file, at + 16, 2) as u16,
                    user_minor: le_value(file, at + 18, 2) as u16,
                    subsys_major: le_value(file, at + 20, 2) as u16,
                    subsys_minor: le_value(file, at + 22, 2) as u16,
                    cil_header: le_value(file, at + 180, 4) as u32,
                    cil_header_size: le_value(file, at + 184, 4) as u32,
                },
            ),
        }
    }
}

impl NTHeader {
    /// Where the CLI header stands.
    pub fn cil_header(&self) -> (r: RVA)
        ensures
            r.0 == self.cil_header,
    {
        RVA(self.cil_header as u64)
    }

    pub fn cil_header_size(&self) -> (r: u32)
        ensures
            r == self.cil_header_size,
    {
        self.cil_header_size
    }

    /// The first fixed field of the header at `at` that does not hold its required value.
    fn check(file: &[u8], at: usize) -> (r: Option<PEFileReadError>)
        requires
            at + 196 <= file.len(),
        ensures
            r == nt_header_fault(file@, at as int),
    {
        if u32_from_slice_at(file, at + 8) != 512 {
            return Some(PEFileReadError::WrongFileAligement);
        }
        if u32_from_slice_at(file, at + 24) != 0 {
            return Some(PEFileReadError::WrongMagic);
        }
        if u32_from_slice_at(file, at + 36) != 0 {
            return Some(PEFileReadError::WrongChecksum);
        }
        match Subsystem::try_from(u16_from_slice_at(file, at + 40)) {
            Err(e) => {
                return Some(e);
            },
            Ok(_) => {},
        }
        if u32_from_slice_at(file, at + 44) != 0x100000 {
            return Some(PEFileReadError::WrongStackReserve);
        }
        if u32_from_slice_at(file, at + 48) != 0x1000 {
            return Some(PEFileReadError::WrongStackCommit);
        }
        if u32_from_slice_at(file, at + 52) != 0x100000 {
            return Some(PEFileReadError::WrongHeapReserve);
        }
        if u32_from_slice_at(file, at + 56) != 0x1000 {
            return Some(PEFileReadError::WrongHeapCommit);
        }
        if u32_from_slice_at(file, at + 60) != 0 {
            return Some(PEFileReadError::WrongLoaderFlags);
        }
        if u32_from_slice_at(file, at + 64) != 0x10 {
            return Some(PEFileReadError::WrongDirectoryCount);
        }
        if u64_from_slice_at(file, at + 68) != 0 {
            return Some(PEFileReadError::ExportTablePresent);
        }
        if u64_from_slice_at(file, at + 84) != 0 {
            return Some(PEFileReadError::ResourceTablePresent);
        }
        if u64_from_slice_at(file, at + 92) != 0 {
            return Some(PEFileReadError::ExceptionTablePresent);
        }
        if u64_from_slice_at(file, at + 100) != 0 {
            return Some(PEFileReadError::CertificateTablePresent);
        }
        if u64_from_slice_at(file, at + 172) != 0 {
            return Some(PEFileReadError::DelayImportPresent);
        }
        if u64_from_slice_at(file, at + 188) != 0 {
            return Some(PEFileReadError::ReservedDirectoryPresent);
        }
        None
    }

    /// The header at `at` of `file`.
    pub fn from_file(file: &[u8], at: usize) -> (r: Result<Self, PEFileReadError>)
        ensures
            r == nt_header_at(file@, at as int),
    {
        if !holds(file, at, 196) {
            return Err(PEFileReadError::IOError);
        }
        match Self::check(file, at) {
            Some(e) => {
                return Err(e);
            },
            None => {},
        }
        Ok(
            Self {
                image_base: u32_from_slice_at(file, at),
                section_algiement: u32_from_slice_at(file, at + 4),
                file_aligement: u32_from_slice_at(file, at + 8),
                os_major: u16_from_slice_at(file, at + 12),
                os_minor: u16_from_slice_at(file, at + 14),
                user_major: u16_from_slice_at(file, at + 16),
                user_minor: u16_from_slice_at(file, at + 18),
                subsys_major: u16_from_slice_at(file, at + 20),
                subsys_minor: u16_from_slice_at(file, at + 22),
                cil_header: u32_from_slice_at(file, at + 180),
                cil_header_size: u32_from_slice_at(file, at + 184),
            },
        )
    }
}

/// The headers behind the signature, with the section table.
#[derive(Debug, Clone, PartialEq)]
pub struct PEHeader {
    pub file_header: PEFileHeader,
    pub code_size: u32,
    pub init_data_size: u32,
    pub uninit_data_size: u32,
    pub entrypoint_rva: u32,
    pub code_rva: u32,
    pub data_rva: u32,
    pub nt_header: NTHeader,
    pub sections: Vec<SectionHeader>,
}

/// What the headers hold.
pub struct PEHeaderView {
    pub file_header: PEFileHeader,
    pub code_size: u32,
    pub init_data_size: u32,
    pub uninit_data_size: u32,
    pub entrypoint_rva: u32,
    pub code_rva: u32,
    pub data_rva: u32,
    pub nt_header: NTHeader,
    pub sections: Seq<SectionHeader>,
}

impl View for PEHeader {
    type V = PEHeaderView;

    open spec fn view(&self) -> PEHeaderView {
        PEHeaderView {
            file_header: self.file_header,
            code_size: self.code_size,
            init_data_size: self.init_data_size,
            uninit_data_size: self.uninit_data_size,
            entrypoint_rva: self.entrypoint_rva,
            code_rva: self.code_rva,
            data_rva: self.data_rva,
            nt_header: self.nt_header,
            sections: self.sections@,
        }
    }
}

/// The first `upto` entries of the section table that starts at `base`, or what the first
/// entry that cannot be read fails with.
pub open spec fn section_headers_upto(file: Seq<u8>, base: int, upto: nat) -> Result<
    Seq<SectionHeader>,
    PEFileReadError,
>
    decreases upto,
{
    if upto == 0 {
        Ok(Seq::empty())
    } else {
        match section_headers_upto(file, base, (upto - 1) as nat) {
            Err(e) => Err(e),
            Ok(headers) => match section_header_at(file, base + 40 * (upto - 1)) {
                Err(e) => Err(e),
                Ok(header) => Ok(headers.push(header)),
            },
        }
    }
}

/// Once an entry has failed, the table up to any later entry fails in the same way.
pub proof fn lemma_section_headers_fail(file: Seq<u8>, base: int, at: nat, upto: nat)
    requires
        at <= upto,
        section_headers_upto(file, base, at) is Err,
    ensures
        section_headers_upto(file, base, upto) == section_headers_upto(file, base, at),
    decreases upto - at,
{
    if at < upto {
        lemma_section_headers_fail(file, base, at, (upto - 1) as nat);
    }
}

/// The headers that stand at `at`, just behind the signature: the file header, the
/// optional header with its magic 0x10B and linker version 6.0, and one entry of the
/// section table for each section that the file header counts.
pub open spec fn pe_header_at(file: Seq<u8>, at: int) -> Result<PEHeaderView, PEFileReadError> {
    match file_header_at(file, at) {
        Err(e) => Err(e),
        Ok(file_header) => {
            let optional = at + 20;
            if file.len() < optional + 28 {
                Err(PEFileReadError::IOError)
            } else if le_value(file, optional, 2) != 0x10B || file[optional + 2] != 6
                || file[optional + 3] != 0 {
                Err(PEFileReadError::WrongMagic)
            } else {
                match nt_header_at(file, optional + 28) {
                    Err(e) => Err(e),
                    Ok(nt_header) => match section_headers_upto(
                        file,
                        optional + 224,
                        file_header.section_count as nat,
                    ) {
                        Err(e) => Err(e),
                        Ok(sections) => Ok(
                            PEHeaderView {
                                file_header,
                                code_size: le_value(file, optional + 4, 4) as u32,
                                init_data_size: le_value(file, optional + 8, 4) as u32,
                                uninit_data_size: le_value(file, optional + 12, 4) as u32,
                                entrypoint_rva: le_value(file, optional + 16, 4) as u32,
                                code_rva: le_value(file, optional + 20, 4) as u32,
                                data_rva: le_value(file, optional + 24, 4) as u32,
                                nt_header,
                                sections,
                            },
                        ),
                    },
                }
            }
        },
    }
}

impl PEHeader {
    pub fn nt_header(&self) -> (r: &NTHeader)
        ensures
            *r == self.nt_header,
    {
        &self.nt_header
    }

    /// The `count` entries of the section table at `base` of `file`.
    pub fn read_section_headers(file: &[u8], base: usize, count: u16) -> (r: Result<
        Vec<SectionHeader>,
        PEFileReadError,
    >)
        ensures
            crate::error::agrees(r, section_headers_upto(file@, base as int, count as nat)),
    {
        let mut sections: Vec<SectionHeader> = Vec::new();
        let mut i: u16 = 0;
        while i < count
            invariant
                i <= count,
                section_headers_upto(file@, base as int, i as nat) == Ok::<
                    Seq<SectionHeader>,
                    PEFileReadError,
                >(sections@),
            decreases count - i,
        {
            let offset: usize = 40 * (i as usize);
            if offset > usize::MAX - base {
                proof {
                    assert(file@.len() == file.len());
                    assert(section_header_at(file@, base + 40 * i) is Err);
                    assert(section_headers_upto(file@, base as int, (i + 1) as nat) is Err);
                    lemma_section_headers_fail(file@, base as int, (i + 1) as nat, count as nat);
                }
                return Err(PEFileReadError::IOError);
            }
            match SectionHeader::from_file(file, base + offset) {
                Err(e) => {
                    proof {
                        lemma_section_headers_fail(
                            file@,
                            base as int,
                            (i + 1) as nat,
                            count as nat,
                        );
                    }
                    return Err(e);
                },
                Ok(header) => {
                    sections.push(header);
                },
            }
            i = i + 1;
        }
        Ok(sections)
    }

    /// The headers at `at` of `file`.
    pub fn from_file(file: &[u8], at: usize) -> (r: Result<Self, PEFileReadError>)
        ensures
            crate::error::agrees(r, pe_header_at(file@, at as int)),
    {
        let file_header: PEFileHeader = PEFileHeader::from_file(file, at)?;
        assert(file@.len() == file.len());
        let optional: usize = at + 20;
        if !holds(file, optional, 28) {
            return Err(PEFileReadError::IOError);
        }
        proof {
            reveal_with_fuel(le_value, 2);
        }
        let magic: u16 = u16_from_slice_at(file, optional);
        if magic != 0x10B {
            return Err(PEFileReadError::WrongMagic);
        }
        let lmajor: u8 = file[optional + 2];
        if lmajor != 6 {
            return Err(PEFileReadError::WrongMagic);
        }
        let lminor: u8 = file[optional + 3];
        if lminor != 0 {
            return Err(PEFileReadError::WrongMagic);
        }
        let code_size: u32 = u32_from_slice_at(file, optional + 4);
        let init_data_size: u32 = u32_from_slice_at(file, optional + 8);
        let uninit_data_size: u32 = u32_from_slice_at(file, optional + 12);
        let entrypoint_rva: u32 = u32_from_slice_at(file, optional + 16);
        let code_rva: u32 = u32_from_slice_at(file, optional + 20);
        let data_rva: u32 = u32_from_slice_at(file, optional + 24);
        let nt_header: NTHeader = NTHeader::from_file(file, optional + 28)?;
        let sections: Vec<SectionHeader> = Self::read_section_headers(
            file,
            optional + 224,
            file_header.section_count,
        )?;
        Ok(
            Self {
                file_header,
                code_size,
                init_data_size,
                uninit_data_size,
                entrypoint_rva,
                code_rva,
                data_rva,
                nt_header,
                sections,
            },
        )
    }
}

/// A decoded container: its headers and its sections with their bytes.
#[derive(Debug, Clone, PartialEq)]
pub struct PEFile {
    pub header: PEHeader,
    pub sections: Vec<PESection>,
}

/// What a container holds.
pub struct PEFileView {
    pub header: PEHeaderView,
    pub sections: Seq<PESectionView>,
}

impl View for PEFile {
    type V = PEFileView;

    open spec fn view(&self) -> PEFileView {
        PEFileView { header: self.header@, sections: views_of(self.sections@) }
    }
}

/// The first section at or after `from` that covers the `length` bytes at `rva`.
pub open spec fn first_covering(
    sections: Seq<PESectionView>,
    rva: u64,
    length: u64,
    from: int,
) -> Option<int>
    decreases sections.len() - from,
{
    if from >= sections.len() {
        None
    } else if sections[from].covers(rva, length) {
        Some(from)
    } else {
        first_covering(sections, rva, length, from + 1)
    }
}

impl PEFileView {
    /// The `length` bytes at `rva`, out of the first section that holds them all; `None`
    /// where no section does.
    pub open spec fn bytes_at_rva(self, rva: u64, length: u64) -> Option<Seq<u8>> {
        match first_covering(self.sections, rva, length, 0) {
            Some(i) => Some(self.sections[i].bytes_at(rva, length)),
            None => None,
        }
    }
}

/// The sections that the first `upto` entries of `headers` describe, or what the first
/// section whose bytes the file does not hold fails with.
pub open spec fn sections_upto(file: Seq<u8>, headers: Seq<SectionHeader>, upto: nat) -> Result<
    Seq<PESectionView>,
    PEFileReadError,
>
    decreases upto,
{
    if upto == 0 {
        Ok(Seq::empty())
    } else {
        match sections_upto(file, headers, (upto - 1) as nat) {
            Err(e) => Err(e),
            Ok(sections) => match section_of(file, headers[upto - 1]) {
                Err(e) => Err(e),
                Ok(section) => Ok(sections.push(section)),
            },
        }
    }
}

/// Once a section has failed, the sections up to any later one fail in the same way.
pub proof fn lemma_sections_fail(file: Seq<u8>, headers: Seq<SectionHeader>, at: nat, upto: nat)
    requires
        at <= upto,
        sections_upto(file, headers, at) is Err,
    ensures
        sections_upto(file, headers, upto) == sections_upto(file, headers, at),
    decreases upto - at,
{
    if at < upto {
        lemma_sections_fail(file, headers, at, (upto - 1) as nat);
    }
}

/// Where the headers start: the offset that stands between the two stub sequences, which
/// must not point into them.
pub open spec fn header_offset_of(file: Seq<u8>) -> Result<u32, PEFileReadError> {
    if file.len() < 60 {
        Err(PEFileReadError::IOError)
    } else if !has_at(file, 0, MSDOS_STUB_FIRST@) {
        Err(PEFileReadError::InavlidDOSStub)
    } else if file.len() < 128 {
        Err(PEFileReadError::IOError)
    } else if !has_at(file, 64, MSDOS_STUB_SECOND@) {
        Err(PEFileReadError::InavlidDOSStub)
    } else if le_value(file, 60, 4) < 128 {
        Err(PEFileReadError::InavlidDOSStub)
    } else {
        Ok(le_value(file, 60, 4) as u32)
    }
}

/// The container that the bytes `file` spell, or the first thing wrong with them.
pub open spec fn pe_file_of(file: Seq<u8>) -> Result<PEFileView, PEFileReadError> {
    match header_offset_of(file) {
        Err(e) => Err(e),
        Ok(lfanew) => if file.len() < lfanew + 4 {
            Err(PEFileReadError::IOError)
        } else if le_value(file, lfanew as int, 4) != PE_SIGNATURE {
            Err(PEFileReadError::NotPEFile)
        } else {
            match pe_header_at(file, lfanew + 4) {
                Err(e) => Err(e),
                Ok(header) => match sections_upto(file, header.sections, header.sections.len()) {
                    Err(e) => Err(e),
                    Ok(sections) => Ok(PEFileView { header, sections }),
                },
            }
        },
    }
}

impl PEFile {
    /// The `length` bytes at `rva`, out of the first section that holds them all.
    pub fn slice_at_rva(&self, rva: RVA, length: u64) -> (r: Option<&[u8]>)
        ensures
            match self@.bytes_at_rva(rva.0, length) {
                Some(bytes) => r is Some && r.unwrap()@ == bytes && bytes.len() == length,
                None => r is None,
            },
    {
        let mut i: usize = 0;
        while i < self.sections.len()
            invariant
                i <= self.sections@.len(),
                first_covering(self@.sections, rva.0, length, 0) == first_covering(
                    self@.sections,
                    rva.0,
                    length,
                    i as int,
                ),
            decreases self.sections@.len() - i,
        {
            let slice: Option<&[u8]> = self.sections[i].slice_at_rva(rva, length);
            if slice.is_some() {
                return slice;
            }
            i = i + 1;
        }
        None
    }

    pub fn pe_header(&self) -> (r: &PEHeader)
        ensures
            *r == self.header,
    {
        &self.header
    }

    /// Where the headers of `file` start.
    pub fn header_offset(file: &[u8]) -> (r: Result<u32, PEFileReadError>)
        ensures
            r == header_offset_of(file@),
    {
        if file.len() < 60 {
            return Err(PEFileReadError::IOError);
        }
        if !matches_at(file, 0, MSDOS_STUB_FIRST.as_slice()) {
            return Err(PEFileReadError::InavlidDOSStub);
        }
        if file.len() < 128 {
            return Err(PEFileReadError::IOError);
        }
        if !matches_at(file, 64, MSDOS_STUB_SECOND.as_slice()) {
            return Err(PEFileReadError::InavlidDOSStub);
        }
        let lfanew: u32 = u32_from_slice_at(file, 60);
        if lfanew < 128 {
            return Err(PEFileReadError::InavlidDOSStub);
        }
        Ok(lfanew)
    }

    /// The sections that `headers` describe, with their bytes out of `file`.
    pub fn read_sections(file: &[u8], headers: &Vec<SectionHeader>) -> (r: Result<
        Vec<PESection>,
        PEFileReadError,
    >)
        ensures
            match sections_upto(file@, headers@, headers@.len()) {
                Ok(views) => r is Ok && views_of(r.unwrap()@) == views,
                Err(e) => r is Err && r->Err_0 == e,
            },
    {
        let mut sections: Vec<PESection> = Vec::new();
        let mut i: usize = 0;
        assert(views_of(sections@) =~= Seq::empty());
        while i < headers.len()
            invariant
                i <= headers@.len(),
                sections_upto(file@, headers@, i as nat) == Ok::<
                    Seq<PESectionView>,
                    PEFileReadError,
                >(views_of(sections@)),
            decreases headers@.len() - i,
        {
            match PESection::from_file(file, &headers[i]) {
                Err(e) => {
                    proof {
                        lemma_sections_fail(file@, headers@, (i + 1) as nat, headers@.len());
                    }
                    return Err(e);
                },
                Ok(section) => {
                    let ghost before = views_of(sections@);
                    sections.push(section);
                    assert(views_of(sections@) =~= before.push(section@));
                },
            }
            i = i + 1;
        }
        Ok(sections)
    }

    /// Decodes the container that the bytes `file` spell.
    pub fn from_file(file: &[u8]) -> (r: Result<Self, PEFileReadError>)
        ensures
            crate::error::agrees(r, pe_file_of(file@)),
    {
        let lfanew: usize = Self::header_offset(file)? as usize;
        if !holds(file, lfanew, 4) {
            return Err(PEFileReadError::IOError);
        }
        let pe: u32 = u32_from_slice_at(file, lfanew);
        if pe != PE_SIGNATURE {
            return Err(PEFileReadError::NotPEFile);
        }
        let header: PEHeader = PEHeader::from_file(file, lfanew + 4)?;
        let sections: Vec<PESection> = Self::read_sections(file, &header.sections)?;
        Ok(Self { header, sections })
    }
}

} // verus!

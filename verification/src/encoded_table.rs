//! The tables of the table stream, as they are stored: every name, signature and row is
//! still an index.

use crate::bitvec::BitVec64;
use crate::bytes::advance;
use crate::error::{agrees, AssemblyReadError, FormatError, UnsupportedFeature};
use crate::field::Field;
use crate::heap::{BlobIndex, GUIDIndex, HeapSizes, StringIndex};
use crate::index::{
    TABLE_ASSEMBLY, TABLE_ASSEMBLY_REF, TABLE_FIELD, TABLE_MEMBER_REF, TABLE_METHOD_DEF,
    TABLE_MODULE, TABLE_PARAM, TABLE_STAND_ALONE_SIG, TABLE_TYPE_DEF, TABLE_TYPE_REF,
};
use crate::method::{MemberRef, MethodDef};
use crate::param::Param;
use crate::schema::{
    Column,
    columns, extent, lemma_rows_upto_len, low_half, low_half_of, read_rows, rows_upto,
    table_columns, widths_of, Layout,
    TableRow,
};
use crate::table::TypeRef;
use crate::type_def::TypeDef;
use vstd::prelude::*;

verus! {

/// The one row of the module table. Its generation and its two edit-and-continue
/// identifiers are zero.
#[derive(Copy, Clone, Debug, PartialEq, Eq, Structural)]
pub struct ModuleRow {
    pub name: StringIndex,
    pub mvid: GUIDIndex,
}

impl TableRow for ModuleRow {
    open spec fn arity() -> nat {
        5
    }

    open spec fn from_cells(cells: Seq<u32>) -> Result<Self, AssemblyReadError> {
        if cells[0] != 0 {
            Err(AssemblyReadError::Format(FormatError::ModuleGeneration))
        } else if cells[3] != 0 {
            Err(AssemblyReadError::Format(FormatError::ModuleEncId))
        } else if cells[4] != 0 {
            Err(AssemblyReadError::Format(FormatError::ModuleEncBaseId))
        } else {
            Ok(ModuleRow { name: StringIndex(cells[1]), mvid: GUIDIndex(cells[2]) })
        }
    }

    fn from_row(cells: &[u32]) -> (r: Result<Self, AssemblyReadError>) {
        if cells[0] != 0 {
            Err(AssemblyReadError::Format(FormatError::ModuleGeneration))
        } else if cells[3] != 0 {
            Err(AssemblyReadError::Format(FormatError::ModuleEncId))
        } else if cells[4] != 0 {
            Err(AssemblyReadError::Format(FormatError::ModuleEncBaseId))
        } else {
            Ok(ModuleRow { name: StringIndex(cells[1]), mvid: GUIDIndex(cells[2]) })
        }
    }
}

/// One reference to another assembly.
#[derive(Copy, Clone, Debug, PartialEq, Eq, Structural)]
pub struct AssemblyRef {
    pub hash_alg_id: u32,
    pub major: u16,
    pub minor: u16,
    pub build_number: u16,
    pub revision_number: u16,
    pub flags: u32,
    pub public_key: BlobIndex,
    pub name: StringIndex,
    pub culture: StringIndex,
}

impl AssemblyRef {
    pub fn name(&self) -> (r: StringIndex)
        ensures
            r == self.name,
    {
        self.name
    }

    /// The reference that the nine cells `cells` spell.
    pub fn read(cells: &[u32]) -> (r: Self)
        requires
            cells@.len() == 9,
        ensures
            r == Self::of_cells(cells@),
    {
        AssemblyRef {
            hash_alg_id: cells[0],
            major: low_half(cells[1]),
            minor: low_half(cells[2]),
            build_number: low_half(cells[3]),
            revision_number: low_half(cells[4]),
            flags: cells[5],
            public_key: BlobIndex(cells[6]),
            name: StringIndex(cells[7]),
            culture: StringIndex(cells[8]),
        }
    }

    /// The reference that `cells` spell, with no rule on what they hold.
    pub open spec fn of_cells(cells: Seq<u32>) -> AssemblyRef {
        AssemblyRef {
            hash_alg_id: cells[0],
            major: low_half_of(cells[1]),
            minor: low_half_of(cells[2]),
            build_number: low_half_of(cells[3]),
            revision_number: low_half_of(cells[4]),
            flags: cells[5],
            public_key: BlobIndex(cells[6]),
            name: StringIndex(cells[7]),
            culture: StringIndex(cells[8]),
        }
    }
}

impl TableRow for AssemblyRef {
    open spec fn arity() -> nat {
        9
    }

    open spec fn from_cells(cells: Seq<u32>) -> Result<Self, AssemblyReadError> {
        Ok(AssemblyRef::of_cells(cells))
    }

    fn from_row(cells: &[u32]) -> (r: Result<Self, AssemblyReadError>) {
        Ok(AssemblyRef::read(cells))
    }
}

/// The one row of the assembly table: the columns of a reference to an assembly, said of
/// the assembly itself. Its name is never absent.
#[derive(Copy, Clone, Debug, PartialEq, Eq, Structural)]
pub struct AssemblyRow {
    pub identity: AssemblyRef,
}

impl TableRow for AssemblyRow {
    open spec fn arity() -> nat {
        9
    }

    open spec fn from_cells(cells: Seq<u32>) -> Result<Self, AssemblyReadError> {
        if cells[7] == 0 {
            Err(AssemblyReadError::Format(FormatError::AssemblyNameAbsent))
        } else {
            Ok(AssemblyRow { identity: AssemblyRef::of_cells(cells) })
        }
    }

    fn from_row(cells: &[u32]) -> (r: Result<Self, AssemblyReadError>) {
        if cells[7] == 0 {
            return Err(AssemblyReadError::Format(FormatError::AssemblyNameAbsent));
        }
        Ok(AssemblyRow { identity: AssemblyRef::read(cells) })
    }
}

impl TableRow for BlobIndex {
    open spec fn arity() -> nat {
        1
    }

    open spec fn from_cells(cells: Seq<u32>) -> Result<Self, AssemblyReadError> {
        Ok(BlobIndex(cells[0]))
    }

    fn from_row(cells: &[u32]) -> (r: Result<Self, AssemblyReadError>) {
        Ok(BlobIndex(cells[0]))
    }
}

/// One table of the table stream.
#[derive(Clone, Debug, PartialEq)]
pub enum Table {
    Module { name: StringIndex, mvid: GUIDIndex },
    TypeRefTable(Vec<TypeRef>),
    TypeDefTable(Vec<TypeDef>),
    Fields(Vec<Field>),
    MethodDefTable(Vec<MethodDef>),
    Param(Vec<Param>),
    MemberRef(Vec<MemberRef>),
    StandAloneSig(Vec<BlobIndex>),
    Assembly {
        hash_alg_id: u32,
        major: u16,
        minor: u16,
        build_number: u16,
        revision_number: u16,
        flags: u32,
        public_key: BlobIndex,
        name: StringIndex,
        culture: StringIndex,
    },
    AssemblyRefs(Vec<AssemblyRef>),
}

/// What a table holds.
pub enum TableView {
    Module { name: StringIndex, mvid: GUIDIndex },
    TypeRefTable(Seq<TypeRef>),
    TypeDefTable(Seq<TypeDef>),
    Fields(Seq<Field>),
    MethodDefTable(Seq<MethodDef>),
    Param(Seq<Param>),
    MemberRef(Seq<MemberRef>),
    StandAloneSig(Seq<BlobIndex>),
    Assembly { identity: AssemblyRef },
    AssemblyRefs(Seq<AssemblyRef>),
}

impl View for Table {
    type V = TableView;

    open spec fn view(&self) -> TableView {
        match *self {
            Table::Module { name, mvid } => TableView::Module { name, mvid },
            Table::TypeRefTable(rows) => TableView::TypeRefTable(rows@),
            Table::TypeDefTable(rows) => TableView::TypeDefTable(rows@),
            Table::Fields(rows) => TableView::Fields(rows@),
            Table::MethodDefTable(rows) => TableView::MethodDefTable(rows@),
            Table::Param(rows) => TableView::Param(rows@),
            Table::MemberRef(rows) => TableView::MemberRef(rows@),
            Table::StandAloneSig(rows) => TableView::StandAloneSig(rows@),
            Table::Assembly {
                hash_alg_id,
                major,
                minor,
                build_number,
                revision_number,
                flags,
                public_key,
                name,
                culture,
            } => TableView::Assembly {
                identity: AssemblyRef {
                    hash_alg_id,
                    major,
                    minor,
                    build_number,
                    revision_number,
                    flags,
                    public_key,
                    name,
                    culture,
                },
            },
            Table::AssemblyRefs(rows) => TableView::AssemblyRefs(rows@),
        }
    }
}

impl TableView {
    /// The number of rows of the table.
    pub open spec fn row_total(self) -> nat {
        match self {
            TableView::Module { .. } => 1,
            TableView::TypeRefTable(rows) => rows.len(),
            TableView::TypeDefTable(rows) => rows.len(),
            TableView::Fields(rows) => rows.len(),
            TableView::MethodDefTable(rows) => rows.len(),
            TableView::Param(rows) => rows.len(),
            TableView::MemberRef(rows) => rows.len(),
            TableView::StandAloneSig(rows) => rows.len(),
            TableView::Assembly { .. } => 1,
            TableView::AssemblyRefs(rows) => rows.len(),
        }
    }

    /// The number of the table.
    pub open spec fn number(self) -> u8 {
        match self {
            TableView::Module { .. } => TABLE_MODULE,
            TableView::TypeRefTable(_) => TABLE_TYPE_REF,
            TableView::TypeDefTable(_) => TABLE_TYPE_DEF,
            TableView::Fields(_) => TABLE_FIELD,
            TableView::MethodDefTable(_) => TABLE_METHOD_DEF,
            TableView::Param(_) => TABLE_PARAM,
            TableView::MemberRef(_) => TABLE_MEMBER_REF,
            TableView::StandAloneSig(_) => TABLE_STAND_ALONE_SIG,
            TableView::Assembly { .. } => TABLE_ASSEMBLY,
            TableView::AssemblyRefs(_) => TABLE_ASSEMBLY_REF,
        }
    }
}

/// The table with the number `table` that the `n` rows at the start of `s` spell, or what
/// the first row that breaks a rule fails with.
pub open spec fn table_of_rows(table: u8, s: Seq<u8>, widths: Seq<usize>, n: nat) -> Result<
    TableView,
    AssemblyReadError,
> {
    if table == TABLE_MODULE {
        match rows_upto::<ModuleRow>(s, widths, n, n) {
            Err(e) => Err(e),
            Ok(rows) => Ok(TableView::Module { name: rows[0].name, mvid: rows[0].mvid }),
        }
    } else if table == TABLE_TYPE_REF {
        match rows_upto::<TypeRef>(s, widths, n, n) {
            Err(e) => Err(e),
            Ok(rows) => Ok(TableView::TypeRefTable(rows)),
        }
    } else if table == TABLE_TYPE_DEF {
        match rows_upto::<TypeDef>(s, widths, n, n) {
            Err(e) => Err(e),
            Ok(rows) => Ok(TableView::TypeDefTable(rows)),
        }
    } else if table == TABLE_FIELD {
        match rows_upto::<Field>(s, widths, n, n) {
            Err(e) => Err(e),
            Ok(rows) => Ok(TableView::Fields(rows)),
        }
    } else if table == TABLE_METHOD_DEF {
        match rows_upto::<MethodDef>(s, widths, n, n) {
            Err(e) => Err(e),
            Ok(rows) => Ok(TableView::MethodDefTable(rows)),
        }
    } else if table == TABLE_PARAM {
        match rows_upto::<Param>(s, widths, n, n) {
            Err(e) => Err(e),
            Ok(rows) => Ok(TableView::Param(rows)),
        }
    } else if table == TABLE_MEMBER_REF {
        match rows_upto::<MemberRef>(s, widths, n, n) {
            Err(e) => Err(e),
            Ok(rows) => Ok(TableView::MemberRef(rows)),
        }
    } else if table == TABLE_STAND_ALONE_SIG {
        match rows_upto::<BlobIndex>(s, widths, n, n) {
            Err(e) => Err(e),
            Ok(rows) => Ok(TableView::StandAloneSig(rows)),
        }
    } else if table == TABLE_ASSEMBLY {
        match rows_upto::<AssemblyRow>(s, widths, n, n) {
            Err(e) => Err(e),
            Ok(rows) => Ok(TableView::Assembly { identity: rows[0].identity }),
        }
    } else {
        match rows_upto::<AssemblyRef>(s, widths, n, n) {
            Err(e) => Err(e),
            Ok(rows) => Ok(TableView::AssemblyRefs(rows)),
        }
    }
}

/// The table with the number `table` and `rows` rows at the start of `s`, and the bytes
/// that it takes. A table without a known layout is refused before anything else; the
/// module table and the assembly table have exactly one row; a table that `s` is too
/// short for is refused before any of its rows is looked at.
#[verifier::opaque]
pub open spec fn parse_table(
    table: u8,
    s: Seq<u8>,
    rows: u32,
    sizes: HeapSizes,
    tables_rows: Seq<u32>,
    tables: BitVec64,
) -> Result<(TableView, nat), AssemblyReadError> {
    match columns(table) {
        None => Err(AssemblyReadError::Unsupported(UnsupportedFeature::Table(table))),
        Some(cols) => {
            let widths = widths_of(cols, sizes, tables_rows, tables);
            if table == TABLE_MODULE && rows != 1 {
                Err(AssemblyReadError::Format(FormatError::ModuleRowCount))
            } else if table == TABLE_ASSEMBLY && rows != 1 {
                Err(AssemblyReadError::Format(FormatError::AssemblyRowCount))
            } else if s.len() < extent(widths, rows as nat) {
                Err(AssemblyReadError::UnexpectedEnd)
            } else {
                match table_of_rows(table, s, widths, rows as nat) {
                    Err(e) => Err(e),
                    Ok(view) => Ok((view, extent(widths, rows as nat))),
                }
            }
        },
    }
}

/// A table that is read has the number and the number of rows that were asked for, and
/// lies within the bytes that it was read from.
pub proof fn lemma_parse_table_shape(
    table: u8,
    s: Seq<u8>,
    rows: u32,
    sizes: HeapSizes,
    tables_rows: Seq<u32>,
    tables: BitVec64,
)
    ensures
        parse_table(table, s, rows, sizes, tables_rows, tables) matches Ok((view, n))
            ==> view.number() == table && view.row_total() == rows && n <= s.len(),
{
    reveal(parse_table);
    if columns(table) is Some {
        let widths = widths_of(columns(table).unwrap(), sizes, tables_rows, tables);
        let n = rows as nat;
        lemma_rows_upto_len::<ModuleRow>(s, widths, n, n);
        lemma_rows_upto_len::<TypeRef>(s, widths, n, n);
        lemma_rows_upto_len::<TypeDef>(s, widths, n, n);
        lemma_rows_upto_len::<Field>(s, widths, n, n);
        lemma_rows_upto_len::<MethodDef>(s, widths, n, n);
        lemma_rows_upto_len::<Param>(s, widths, n, n);
        lemma_rows_upto_len::<MemberRef>(s, widths, n, n);
        lemma_rows_upto_len::<BlobIndex>(s, widths, n, n);
        lemma_rows_upto_len::<AssemblyRow>(s, widths, n, n);
        lemma_rows_upto_len::<AssemblyRef>(s, widths, n, n);
    }
}

/// What a read of a table at a cursor comes to: as `reads`, with the table given by what
/// it holds.
pub open spec fn reads_table(
    outcome: Result<Table, AssemblyReadError>,
    before: Seq<u8>,
    after: Seq<u8>,
    parsed: Result<(TableView, nat), AssemblyReadError>,
) -> bool {
    match parsed {
        Ok((view, n)) => outcome is Ok && outcome->Ok_0@ == view && after == before.skip(n as int),
        Err(e) => outcome is Err && outcome->Err_0 == e && after == before,
    }
}

impl Table {
    /// The number of the table.
    pub fn number(&self) -> (r: u8)
        ensures
            r == self@.number(),
    {
        match self {
            Table::Module { .. } => TABLE_MODULE,
            Table::TypeRefTable(_) => TABLE_TYPE_REF,
            Table::TypeDefTable(_) => TABLE_TYPE_DEF,
            Table::Fields(_) => TABLE_FIELD,
            Table::MethodDefTable(_) => TABLE_METHOD_DEF,
            Table::Param(_) => TABLE_PARAM,
            Table::MemberRef(_) => TABLE_MEMBER_REF,
            Table::StandAloneSig(_) => TABLE_STAND_ALONE_SIG,
            Table::Assembly { .. } => TABLE_ASSEMBLY,
            Table::AssemblyRefs(_) => TABLE_ASSEMBLY_REF,
        }
    }

    /// The table with the number `table` whose rows stand at the start of `data`, laid out
    /// as `layout` says.
    pub fn from_rows(table: u8, data: &[u8], layout: &Layout) -> (r: Result<
        Table,
        AssemblyReadError,
    >)
        requires
            columns(table) is Some,
            layout.wf(),
            layout.extent <= data.len(),
            layout.widths@.len() == columns(table).unwrap().len(),
            table == TABLE_MODULE || table == TABLE_ASSEMBLY ==> layout.rows == 1,
        ensures
            agrees(r, table_of_rows(table, data@, layout.widths@, layout.rows as nat)),
    {
        if table == TABLE_MODULE {
            let found: Vec<ModuleRow> = read_rows::<ModuleRow>(data, layout)?;
            Ok(Table::Module { name: found[0].name, mvid: found[0].mvid })
        } else if table == TABLE_TYPE_REF {
            Ok(Table::TypeRefTable(read_rows::<TypeRef>(data, layout)?))
        } else if table == TABLE_TYPE_DEF {
            Ok(Table::TypeDefTable(read_rows::<TypeDef>(data, layout)?))
        } else if table == TABLE_FIELD {
            Ok(Table::Fields(read_rows::<Field>(data, layout)?))
        } else if table == TABLE_METHOD_DEF {
            Ok(Table::MethodDefTable(read_rows::<MethodDef>(data, layout)?))
        } else if table == TABLE_PARAM {
            Ok(Table::Param(read_rows::<Param>(data, layout)?))
        } else if table == TABLE_MEMBER_REF {
            Ok(Table::MemberRef(read_rows::<MemberRef>(data, layout)?))
        } else if table == TABLE_STAND_ALONE_SIG {
            Ok(Table::StandAloneSig(read_rows::<BlobIndex>(data, layout)?))
        } else if table == TABLE_ASSEMBLY {
            let found: Vec<AssemblyRow> = read_rows::<AssemblyRow>(data, layout)?;
            let identity: AssemblyRef = found[0].identity;
            Ok(
                Table::Assembly {
                    hash_alg_id: identity.hash_alg_id,
                    major: identity.major,
                    minor: identity.minor,
                    build_number: identity.build_number,
                    revision_number: identity.revision_number,
                    flags: identity.flags,
                    public_key: identity.public_key,
                    name: identity.name,
                    culture: identity.culture,
                },
            )
        } else {
            Ok(Table::AssemblyRefs(read_rows::<AssemblyRef>(data, layout)?))
        }
    }

    /// The table with the number `table` and `rows` rows at the start of `data`, and the
    /// bytes that it takes.
    pub fn at_start(
        table: u8,
        data: &[u8],
        rows: u32,
        sizes: HeapSizes,
        tables_rows: &[u32],
        tables: BitVec64,
    ) -> (r: Result<(Table, usize), AssemblyReadError>)
        ensures
            match parse_table(table, data@, rows, sizes, tables_rows@, tables) {
                Ok((view, n)) => r is Ok && r->Ok_0.0@ == view && r->Ok_0.1 == n && n
                    <= data@.len(),
                Err(e) => r is Err && r->Err_0 == e,
            },
    {
        proof {
            reveal(parse_table);
        }
        let cols: Vec<Column> = match table_columns(table) {
            None => {
                return Err(AssemblyReadError::Unsupported(UnsupportedFeature::Table(table)));
            },
            Some(cols) => cols,
        };
        if table == TABLE_MODULE && rows != 1 {
            return Err(AssemblyReadError::Format(FormatError::ModuleRowCount));
        }
        if table == TABLE_ASSEMBLY && rows != 1 {
            return Err(AssemblyReadError::Format(FormatError::AssemblyRowCount));
        }
        let layout: Layout = match Layout::plan(
            &cols,
            rows,
            &sizes,
            tables_rows,
            tables,
            data.len(),
        ) {
            None => {
                return Err(AssemblyReadError::UnexpectedEnd);
            },
            Some(layout) => layout,
        };
        let decoded: Table = Self::from_rows(table, data, &layout)?;
        Ok((decoded, layout.extent))
    }

    /// Reads the table with the number `table` and `rows` rows at the cursor and moves the
    /// cursor past it. On failure nothing is consumed.
    pub fn from(
        table: u8,
        table_slice: &mut &[u8],
        rows: u32,
        sizes: HeapSizes,
        tables_rows: &[u32],
        tables: BitVec64,
    ) -> (r: Result<Table, AssemblyReadError>)
        ensures
            reads_table(
                r,
                old(table_slice)@,
                final(table_slice)@,
                parse_table(table, old(table_slice)@, rows, sizes, tables_rows@, tables),
            ),
    {
        let data: &[u8] = *table_slice;
        let (decoded, taken) = Self::at_start(table, data, rows, sizes, tables_rows, tables)?;
        advance(table_slice, taken);
        Ok(decoded)
    }
}

} // verus!

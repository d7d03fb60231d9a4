//! The metadata root: its version, its stream directory, and the streams.

use crate::bitvec::{lemma_count_set_grows, BitVec64, BitVec64Iter, WALK_END};
use crate::bytes::{
    has_at, holds, le_value, matches_at, prepend, u16_from_slice_at, u32_from_slice_at,
    u64_from_slice_at,
};
use crate::encoded_table::{lemma_parse_table_shape, parse_table, Table, TableView};
use crate::error::{agrees, AssemblyReadError, FormatError, UnsupportedFeature};
use crate::heap::{find_terminator, guids_of, lemma_terminator, read_guids, terminator, text_from_bytes, text_of, HeapSizes};
use crate::index::TABLE_MODULE;
use crate::pe_file::copy_bytes;
use crate::seqs::views_of;
use vstd::prelude::*;
use vstd::slice::slice_subrange;

verus! {

/// The bytes `BSJB`, read as one number.
pub const METADATA_SIGNATURE: u32 = 0x424A_5342;

/// The least number that does not fit in the 44 bits of the table-presence bitmap.
pub const PRESENCE_LIMIT: u64 = 0x1000_0000_0000;

/// The name `#~`, with the zero byte that ends it.
pub const STREAM_TABLES: [u8; 3] = [0x23, 0x7e, 0x00];

/// The name `#Strings`, with the zero byte that ends it.
pub const STREAM_STRINGS: [u8; 9] = [0x23, 0x53, 0x74, 0x72, 0x69, 0x6e, 0x67, 0x73, 0x00];

/// The name `#US`, with the zero byte that ends it.
pub const STREAM_US: [u8; 4] = [0x23, 0x55, 0x53, 0x00];

/// The name `#Blob`, with the zero byte that ends it.
pub const STREAM_BLOB: [u8; 6] = [0x23, 0x42, 0x6c, 0x6f, 0x62, 0x00];

/// The name `#GUID`, with the zero byte that ends it.
pub const STREAM_GUID: [u8; 6] = [0x23, 0x47, 0x55, 0x49, 0x44, 0x00];

/// The kinds of stream.
#[derive(Clone, Copy, Debug, PartialEq, Eq, Structural)]
pub enum StreamKind {
    Tables,
    Strings,
    US,
    Blob,
    GUID,
}

/// The table stream: the row count of each table present, the tables present, the tables
/// marked as sorted, and the tables themselves in rising order of their numbers.
#[derive(Clone, Debug)]
pub struct TableStream {
    pub rows: Vec<u32>,
    pub present: BitVec64,
    pub sorted: BitVec64,
    pub tables: Vec<Table>,
}

/// What a table stream holds.
pub struct TableStreamView {
    pub rows: Seq<u32>,
    pub present: BitVec64,
    pub sorted: BitVec64,
    pub tables: Seq<TableView>,
}

impl View for TableStream {
    type V = TableStreamView;

    open spec fn view(&self) -> TableStreamView {
        TableStreamView {
            rows: self.rows@,
            present: self.present,
            sorted: self.sorted,
            tables: views_of(self.tables@),
        }
    }
}

/// One stream of the metadata.
#[derive(Clone, Debug)]
pub enum MetadataStream {
    LogicalMetadataTable(TableStream),
    Strings(Vec<u8>),
    US(Vec<u8>),
    Blob(Vec<u8>),
    GUID(Vec<u128>),
}

/// What a stream holds.
pub enum MetadataStreamView {
    LogicalMetadataTable(TableStreamView),
    Strings(Seq<u8>),
    US(Seq<u8>),
    Blob(Seq<u8>),
    GUID(Seq<u128>),
}

impl View for MetadataStream {
    type V = MetadataStreamView;

    open spec fn view(&self) -> MetadataStreamView {
        match *self {
            MetadataStream::LogicalMetadataTable(tables) => MetadataStreamView::LogicalMetadataTable(
                tables@,
            ),
            MetadataStream::Strings(bytes) => MetadataStreamView::Strings(bytes@),
            MetadataStream::US(bytes) => MetadataStreamView::US(bytes@),
            MetadataStream::Blob(bytes) => MetadataStreamView::Blob(bytes@),
            MetadataStream::GUID(guids) => MetadataStreamView::GUID(guids@),
        }
    }
}

impl MetadataStreamView {
    pub open spec fn kind(self) -> StreamKind {
        match self {
            MetadataStreamView::LogicalMetadataTable(_) => StreamKind::Tables,
            MetadataStreamView::Strings(_) => StreamKind::Strings,
            MetadataStreamView::US(_) => StreamKind::US,
            MetadataStreamView::Blob(_) => StreamKind::Blob,
            MetadataStreamView::GUID(_) => StreamKind::GUID,
        }
    }
}

/// The row counts of a table stream with `count` tables: one number of four bytes each,
/// behind the 24 bytes of the header.
pub open spec fn row_counts(s: Seq<u8>, count: nat) -> Seq<u32> {
    Seq::new(count, |i: int| le_value(s, 24 + 4 * i, 4) as u32)
}

/// The tables with the numbers `next` and up that `present` names, read one behind the
/// other from the start of `data`, or what the first table that cannot be read fails
/// with.
pub open spec fn tables_from(
    data: Seq<u8>,
    next: int,
    present: BitVec64,
    rows: Seq<u32>,
    sizes: HeapSizes,
) -> Result<Seq<TableView>, AssemblyReadError>
    decreases WALK_END - next,
{
    if next < 0 || next >= WALK_END {
        Ok(Seq::empty())
    } else if !present.has(next as u8) {
        tables_from(data, next + 1, present, rows, sizes)
    } else {
        match parse_table(
            next as u8,
            data,
            rows[present.rank(next as u8) as int],
            sizes,
            rows,
            present,
        ) {
            Err(e) => Err(e),
            Ok((table, n)) => match tables_from(data.skip(n as int), next + 1, present, rows, sizes) {
                Err(e) => Err(e),
                Ok(rest) => Ok(seq![table] + rest),
            },
        }
    }
}

/// Table numbers that are absent are passed over.
pub proof fn lemma_tables_from_skips(
    data: Seq<u8>,
    next: int,
    to: int,
    present: BitVec64,
    rows: Seq<u32>,
    sizes: HeapSizes,
)
    requires
        0 <= next <= to <= WALK_END,
        present.none_in(next, to),
    ensures
        tables_from(data, next, present, rows, sizes) == tables_from(
            data,
            to,
            present,
            rows,
            sizes,
        ),
    decreases to - next,
{
    if next < to {
        assert(!present.has(next as u8));
        lemma_tables_from_skips(data, next + 1, to, present, rows, sizes);
    }
}

/// The table stream that the bytes `s` spell: a header of 24 bytes with its reserved
/// fields and its version 2.0, in it the heap-size flags, the bitmap of the tables
/// present, of which only the low 44 bits may be set and which names the module table,
/// and the bitmap of the sorted tables; then one row count for each table present; then
/// the tables.
pub open spec fn table_stream_of(s: Seq<u8>) -> Result<TableStreamView, AssemblyReadError> {
    if s.len() < 24 {
        Err(AssemblyReadError::UnexpectedEnd)
    } else if le_value(s, 0, 4) != 0 {
        Err(AssemblyReadError::Format(FormatError::TablesReserved))
    } else if s[4] != 2 {
        Err(AssemblyReadError::Format(FormatError::TablesMajorVersion))
    } else if s[5] != 0 {
        Err(AssemblyReadError::Format(FormatError::TablesMinorVersion))
    } else if s[7] != 1 {
        Err(AssemblyReadError::Format(FormatError::TablesReservedByte))
    } else if le_value(s, 8, 8) >= PRESENCE_LIMIT {
        Err(AssemblyReadError::Format(FormatError::TablePresenceBits))
    } else if !BitVec64(le_value(s, 8, 8) as u64).has(TABLE_MODULE) {
        Err(AssemblyReadError::Format(FormatError::ModuleRowCount))
    } else {
        let present = BitVec64(le_value(s, 8, 8) as u64);
        let count = present.spec_len();
        if s.len() < 24 + 4 * count {
            Err(AssemblyReadError::UnexpectedEnd)
        } else {
            let rows = row_counts(s, count);
            let sizes = HeapSizes { bitvec: BitVec64(s[6] as u64) };
            match tables_from(s.skip((24 + 4 * count) as int), 0, present, rows, sizes) {
                Err(e) => Err(e),
                Ok(tables) => Ok(
                    TableStreamView {
                        rows,
                        present,
                        sorted: BitVec64(le_value(s, 16, 8) as u64),
                        tables,
                    },
                ),
            }
        }
    }
}

/// The tables that are read are those that `present` names from `next` on, each once, in
/// rising order of their numbers, and each has the number of rows that stands at its place
/// among the row counts.
pub proof fn lemma_tables_from_shape(
    data: Seq<u8>,
    next: int,
    present: BitVec64,
    rows: Seq<u32>,
    sizes: HeapSizes,
)
    requires
        0 <= next <= WALK_END,
    ensures
        tables_from(data, next, present, rows, sizes) matches Ok(tables) ==> tables.len()
            + present.rank(next as u8) == present.spec_len() && forall|i: int|
            0 <= i < tables.len() ==> {
                let number = (#[trigger] tables[i]).number();
                &&& next <= number < WALK_END
                &&& present.has(number)
                &&& present.rank(number) == present.rank(next as u8) + i
                &&& tables[i].row_total() == rows[present.rank(number) as int]
            },
    decreases WALK_END - next,
{
    if next < WALK_END {
        lemma_tables_from_shape(data, next + 1, present, rows, sizes);
        if present.has(next as u8) {
            let count = rows[present.rank(next as u8) as int];
            let first = parse_table(next as u8, data, count, sizes, rows, present);
            lemma_parse_table_shape(next as u8, data, count, sizes, rows, present);
            if first is Ok {
                lemma_tables_from_shape(
                    data.skip(first->Ok_0.1 as int),
                    next + 1,
                    present,
                    rows,
                    sizes,
                );
            }
        }
    }
}

/// A table stream holds one row count and one table for each table that its presence
/// bitmap names, in rising order of the table numbers, and each table has as many rows as
/// its row count says.
pub proof fn lemma_table_stream_shape(s: Seq<u8>)
    ensures
        table_stream_of(s) matches Ok(stream) ==> stream.rows.len() == stream.present.spec_len()
            && stream.tables.len() == stream.rows.len() && forall|i: int|
            0 <= i < stream.tables.len() ==> {
                let number = (#[trigger] stream.tables[i]).number();
                &&& number < WALK_END
                &&& stream.present.has(number)
                &&& stream.present.rank(number) == i
                &&& stream.tables[i].row_total() == stream.rows[i]
            },
{
    if table_stream_of(s) is Ok {
        let present = BitVec64(le_value(s, 8, 8) as u64);
        let count = present.spec_len();
        let rows = row_counts(s, count);
        let sizes = HeapSizes { bitvec: BitVec64(s[6] as u64) };
        lemma_tables_from_shape(s.skip((24 + 4 * count) as int), 0, present, rows, sizes);
    }
}

/// Every table stream holds exactly one module row: its first table is the module table,
/// and the row count of that table is 1.
pub proof fn lemma_one_module_row(s: Seq<u8>)
    ensures
        table_stream_of(s) matches Ok(stream) ==> stream.tables.len() >= 1
            && stream.tables[0] is Module && stream.rows.len() >= 1 && stream.rows[0] == 1,
{
    if table_stream_of(s) is Ok {
        let present = BitVec64(le_value(s, 8, 8) as u64);
        let count = present.spec_len();
        let rows = row_counts(s, count);
        let sizes = HeapSizes { bitvec: BitVec64(s[6] as u64) };
        let data = s.skip((24 + 4 * count) as int);
        reveal(parse_table);
        lemma_count_set_grows(present.0, 0, 1, WALK_END as int);
        assert(present.rank(TABLE_MODULE) == 0);
        assert(tables_from(data, 0, present, rows, sizes) is Ok);
        let first = parse_table(TABLE_MODULE, data, rows[0], sizes, rows, present);
        assert(first is Ok);
        let rest = tables_from(data.skip(first->Ok_0.1 as int), 1, present, rows, sizes);
        assert(tables_from(data, 0, present, rows, sizes)->Ok_0 == seq![first->Ok_0.0]
            + rest->Ok_0);
    }
}

/// The kind of the stream whose name stands at `at`.
pub open spec fn stream_kind_at(md: Seq<u8>, at: int) -> Option<StreamKind> {
    if has_at(md, at, STREAM_TABLES@) {
        Some(StreamKind::Tables)
    } else if has_at(md, at, STREAM_STRINGS@) {
        Some(StreamKind::Strings)
    } else if has_at(md, at, STREAM_US@) {
        Some(StreamKind::US)
    } else if has_at(md, at, STREAM_BLOB@) {
        Some(StreamKind::Blob)
    } else if has_at(md, at, STREAM_GUID@) {
        Some(StreamKind::GUID)
    } else {
        None
    }
}

/// The stream of the given kind that the bytes `data` spell.
pub open spec fn stream_of(kind: StreamKind, data: Seq<u8>) -> Result<
    MetadataStreamView,
    AssemblyReadError,
> {
    match kind {
        StreamKind::Tables => match table_stream_of(data) {
            Err(e) => Err(e),
            Ok(tables) => Ok(MetadataStreamView::LogicalMetadataTable(tables)),
        },
        StreamKind::Strings => Ok(MetadataStreamView::Strings(data)),
        StreamKind::US => Ok(MetadataStreamView::US(data)),
        StreamKind::Blob => Ok(MetadataStreamView::Blob(data)),
        StreamKind::GUID => Ok(MetadataStreamView::GUID(guids_of(data))),
    }
}

/// The table stream `stream` is what some bytes spell.
pub open spec fn decoded_table_stream(stream: TableStreamView) -> bool {
    exists|s: Seq<u8>| #[trigger] table_stream_of(s) == Ok::<TableStreamView, AssemblyReadError>(stream)
}

/// What is known of every table stream that was decoded: it holds one row count and one
/// table for each table that its presence bitmap names, in rising order of the table
/// numbers; each table has as many rows as its row count says; and the first table is the
/// module table, with exactly one row.
pub open spec fn table_stream_shape(stream: TableStreamView) -> bool {
    &&& stream.rows.len() == stream.present.spec_len()
    &&& stream.tables.len() == stream.rows.len()
    &&& forall|i: int|
        0 <= i < stream.tables.len() ==> {
            let number = (#[trigger] stream.tables[i]).number();
            &&& number < WALK_END
            &&& stream.present.has(number)
            &&& stream.present.rank(number) == i
            &&& stream.tables[i].row_total() == stream.rows[i]
        }
    &&& stream.tables.len() >= 1
    &&& stream.tables[0] is Module
    &&& stream.rows[0] == 1
}

/// Every table stream that was decoded has the shape that `table_stream_shape` describes.
pub proof fn lemma_decoded_table_stream_shape(stream: TableStreamView)
    requires
        decoded_table_stream(stream),
    ensures
        table_stream_shape(stream),
{
    let s = choose|s: Seq<u8>| #[trigger]
        table_stream_of(s) == Ok::<TableStreamView, AssemblyReadError>(stream);
    lemma_table_stream_shape(s);
    lemma_one_module_row(s);
}

/// Where the entry behind a name that ends at `name_end` starts: at the first multiple of
/// four behind the zero byte.
pub open spec fn padded_end(name_end: int) -> int {
    name_end - name_end % 4 + 4
}

/// The stream whose entry of the stream directory stands at `at`, and where the next
/// entry starts. An entry is the offset and the size of the stream, counted from the
/// start of the metadata, and its name, ended by a zero byte and padded to a multiple of
/// four.
pub open spec fn stream_at(md: Seq<u8>, at: int) -> Result<
    (MetadataStreamView, int),
    AssemblyReadError,
> {
    let name_start = at + 8;
    let name_end = terminator(md, name_start);
    let offset = le_value(md, at, 4);
    let size = le_value(md, at + 4, 4);
    if md.len() < name_start {
        Err(AssemblyReadError::UnexpectedEnd)
    } else if md.len() < padded_end(name_end) {
        Err(AssemblyReadError::UnexpectedEnd)
    } else if md.len() < offset + size {
        Err(AssemblyReadError::UnexpectedEnd)
    } else {
        match stream_kind_at(md, name_start) {
            None => Err(AssemblyReadError::Unsupported(UnsupportedFeature::StreamName)),
            Some(kind) => match stream_of(kind, md.subrange(offset as int, (offset + size) as int)) {
                Err(e) => Err(e),
                Ok(stream) => Ok((stream, padded_end(name_end))),
            },
        }
    }
}

/// The `count` streams whose entries start at `at`, in the order of the directory, or
/// what the first stream that cannot be read fails with.
pub open spec fn streams_from(md: Seq<u8>, at: int, count: nat) -> Result<
    Seq<MetadataStreamView>,
    AssemblyReadError,
>
    decreases count,
{
    if count == 0 {
        Ok(Seq::empty())
    } else {
        match stream_at(md, at) {
            Err(e) => Err(e),
            Ok((stream, next)) => match streams_from(md, next, (count - 1) as nat) {
                Err(e) => Err(e),
                Ok(rest) => Ok(seq![stream] + rest),
            },
        }
    }
}

/// Every table stream among the streams that were read is one that was decoded.
pub proof fn lemma_streams_from_decoded(md: Seq<u8>, at: int, count: nat)
    ensures
        streams_from(md, at, count) matches Ok(streams) ==> forall|i: int|
            0 <= i < streams.len() ==> ((#[trigger] streams[i]) matches MetadataStreamView::LogicalMetadataTable(
                stream,
            ) ==> decoded_table_stream(stream)),
    decreases count,
{
    if count > 0 {
        match stream_at(md, at) {
            Err(_) => {},
            Ok((first, next)) => {
                lemma_streams_from_decoded(md, next, (count - 1) as nat);
                let offset = le_value(md, at, 4);
                let size = le_value(md, at + 4, 4);
                let data = md.subrange(offset as int, (offset + size) as int);
                match first {
                    MetadataStreamView::LogicalMetadataTable(stream) => {
                        assert(table_stream_of(data) == Ok::<TableStreamView, AssemblyReadError>(
                            stream,
                        ));
                    },
                    _ => {},
                }
            },
        }
    }
}

impl MetadataStream {
    /// The kind of the stream.
    pub fn kind(&self) -> (r: StreamKind)
        ensures
            r == self@.kind(),
    {
        match self {
            MetadataStream::LogicalMetadataTable(_) => StreamKind::Tables,
            MetadataStream::Strings(_) => StreamKind::Strings,
            MetadataStream::US(_) => StreamKind::US,
            MetadataStream::Blob(_) => StreamKind::Blob,
            MetadataStream::GUID(_) => StreamKind::GUID,
        }
    }

    /// The row counts of the `count` tables of the table stream `stream`.
    pub fn read_row_counts(stream: &[u8], count: usize) -> (r: Vec<u32>)
        requires
            count <= WALK_END,
            24 + 4 * count <= stream.len(),
        ensures
            r@ == row_counts(stream@, count as nat),
    {
        let mut rows: Vec<u32> = Vec::new();
        let mut idx: usize = 0;
        while idx < count
            invariant
                idx <= count <= WALK_END,
                24 + 4 * count <= stream.len(),
                rows@ == row_counts(stream@, idx as nat),
            decreases count - idx,
        {
            rows.push(u32_from_slice_at(stream, 24 + idx * 4));
            idx = idx + 1;
            assert(rows@ =~= row_counts(stream@, idx as nat));
        }
        rows
    }

    /// The tables that `present` names, read one behind the other from the start of
    /// `data`.
    pub fn read_tables(data: &[u8], present: BitVec64, rows: &Vec<u32>, sizes: HeapSizes) -> (r:
        Result<Vec<Table>, AssemblyReadError>)
        requires
            rows@.len() == present.spec_len(),
        ensures
            match tables_from(data@, 0, present, rows@, sizes) {
                Ok(views) => r is Ok && views_of(r.unwrap()@) == views,
                Err(e) => r is Err && r->Err_0 == e,
            },
    {
        let ghost whole = tables_from(data@, 0, present, rows@, sizes);
        let mut table_slice: &[u8] = data;
        let mut encoded_tables: Vec<Table> = Vec::new();
        let mut walk: BitVec64Iter = present.into_iter();
        let mut place: usize = 0;
        assert(prepend(views_of(encoded_tables@), whole) == whole) by {
            assert(views_of(encoded_tables@) =~= Seq::empty());
            if whole is Ok {
                assert(Seq::<TableView>::empty() + whole->Ok_0 =~= whole->Ok_0);
            }
        }
        loop
            invariant
                whole == tables_from(data@, 0, present, rows@, sizes),
                walk.bv == present,
                walk.index <= WALK_END,
                rows@.len() == present.spec_len(),
                place == present.rank(walk.index),
                place <= walk.index,
                whole == prepend(
                    views_of(encoded_tables@),
                    tables_from(table_slice@, walk.index as int, present, rows@, sizes),
                ),
            ensures
                whole == Ok::<Seq<TableView>, AssemblyReadError>(views_of(encoded_tables@)),
            decreases WALK_END - walk.index,
        {
            let ghost from = walk.index;
            let ghost before = table_slice@;
            let ghost done = views_of(encoded_tables@);
            match walk.next() {
                None => {
                    proof {
                        lemma_tables_from_skips(
                            before,
                            from as int,
                            WALK_END as int,
                            present,
                            rows@,
                            sizes,
                        );
                        assert(done + Seq::<TableView>::empty() =~= done);
                    }
                    break ;
                },
                Some(table) => {
                    proof {
                        lemma_tables_from_skips(
                            before,
                            from as int,
                            table as int,
                            present,
                            rows@,
                            sizes,
                        );
                        present.lemma_rank_skips(from, table);
                        lemma_count_set_grows(present.0, 0, table + 1, WALK_END as int);
                    }
                    let curr_rows: u32 = rows[place];
                    match Table::from(
                        table,
                        &mut table_slice,
                        curr_rows,
                        sizes,
                        rows.as_slice(),
                        present,
                    ) {
                        Err(e) => {
                            return Err(e);
                        },
                        Ok(decoded) => {
                            proof {
                                let rest = tables_from(
                                    table_slice@,
                                    table + 1,
                                    present,
                                    rows@,
                                    sizes,
                                );
                                if rest is Ok {
                                    assert(done + (seq![decoded@] + rest->Ok_0) =~= done.push(
                                        decoded@,
                                    ) + rest->Ok_0);
                                }
                            }
                            encoded_tables.push(decoded);
                            assert(views_of(encoded_tables@) =~= done.push(decoded@));
                            place = place + 1;
                        },
                    }
                },
            }
        }
        Ok(encoded_tables)
    }

    /// Decodes a table stream.
    pub fn logical_metadata_table(stream: &[u8]) -> (r: Result<Self, AssemblyReadError>)
        ensures
            agrees(r, stream_of(StreamKind::Tables, stream@)),
    {
        if stream.len() < 24 {
            return Err(AssemblyReadError::UnexpectedEnd);
        }
        proof {
            reveal_with_fuel(le_value, 2);
        }
        let reserved: u32 = u32_from_slice_at(stream, 0);
        if reserved != 0 {
            return Err(AssemblyReadError::Format(FormatError::TablesReserved));
        }
        let major: u8 = stream[4];
        if major != 2 {
            return Err(AssemblyReadError::Format(FormatError::TablesMajorVersion));
        }
        let minor: u8 = stream[5];
        if minor != 0 {
            return Err(AssemblyReadError::Format(FormatError::TablesMinorVersion));
        }
        let heap_sizes: u8 = stream[6];
        let reserved: u8 = stream[7];
        if reserved != 1 {
            return Err(AssemblyReadError::Format(FormatError::TablesReservedByte));
        }
        let present_tables: u64 = u64_from_slice_at(stream, 8);
        if present_tables >= PRESENCE_LIMIT {
            return Err(AssemblyReadError::Format(FormatError::TablePresenceBits));
        }
        let sorted_tables: u64 = u64_from_slice_at(stream, 16);
        let tables: BitVec64 = BitVec64::from(present_tables);
        if !tables.bit(TABLE_MODULE) {
            return Err(AssemblyReadError::Format(FormatError::ModuleRowCount));
        }
        let table_count: usize = tables.len();
        if !holds(stream, 24, 4 * table_count) {
            return Err(AssemblyReadError::UnexpectedEnd);
        }
        let rows: Vec<u32> = Self::read_row_counts(stream, table_count);
        let table_slice: &[u8] = slice_subrange(stream, 24 + table_count * 4, stream.len());
        let sizes: HeapSizes = HeapSizes::from(heap_sizes);
        let encoded_tables: Vec<Table> = Self::read_tables(table_slice, tables, &rows, sizes)?;
        Ok(
            MetadataStream::LogicalMetadataTable(
                TableStream {
                    rows,
                    present: tables,
                    sorted: BitVec64(sorted_tables),
                    tables: encoded_tables,
                },
            ),
        )
    }

    /// Keeps a string heap.
    pub fn string_stream(stream: &[u8]) -> (r: Self)
        ensures
            r@ == MetadataStreamView::Strings(stream@),
    {
        MetadataStream::Strings(copy_bytes(stream))
    }

    /// Keeps a heap of user strings.
    pub fn us_stream(stream: &[u8]) -> (r: Self)
        ensures
            r@ == MetadataStreamView::US(stream@),
    {
        MetadataStream::US(copy_bytes(stream))
    }

    /// Keeps a blob heap.
    pub fn blob_stream(stream: &[u8]) -> (r: Self)
        ensures
            r@ == MetadataStreamView::Blob(stream@),
    {
        MetadataStream::Blob(copy_bytes(stream))
    }

    /// Splits a GUID heap into its entries.
    pub fn guid_stream(stream: &[u8]) -> (r: Self)
        ensures
            r@ == MetadataStreamView::GUID(guids_of(stream@)),
    {
        MetadataStream::GUID(read_guids(stream))
    }

    /// The kind of the stream whose name stands at `at` of `metadata`.
    pub fn kind_at(metadata: &[u8], at: usize) -> (r: Option<StreamKind>)
        ensures
            r == stream_kind_at(metadata@, at as int),
    {
        if matches_at(metadata, at, STREAM_TABLES.as_slice()) {
            Some(StreamKind::Tables)
        } else if matches_at(metadata, at, STREAM_STRINGS.as_slice()) {
            Some(StreamKind::Strings)
        } else if matches_at(metadata, at, STREAM_US.as_slice()) {
            Some(StreamKind::US)
        } else if matches_at(metadata, at, STREAM_BLOB.as_slice()) {
            Some(StreamKind::Blob)
        } else if matches_at(metadata, at, STREAM_GUID.as_slice()) {
            Some(StreamKind::GUID)
        } else {
            None
        }
    }

    /// Decodes a stream of the given kind.
    pub fn of_kind(kind: StreamKind, stream: &[u8]) -> (r: Result<Self, AssemblyReadError>)
        ensures
            agrees(r, stream_of(kind, stream@)),
    {
        match kind {
            StreamKind::Tables => Self::logical_metadata_table(stream),
            StreamKind::Strings => Ok(Self::string_stream(stream)),
            StreamKind::US => Ok(Self::us_stream(stream)),
            StreamKind::Blob => Ok(Self::blob_stream(stream)),
            StreamKind::GUID => Ok(Self::guid_stream(stream)),
        }
    }

    /// Decodes the stream whose entry of the stream directory stands at `curr_offset`, and
    /// moves `curr_offset` to the next entry. On failure `curr_offset` stays.
    pub fn from_slice(metadata: &[u8], curr_offset: &mut usize) -> (r: Result<
        Self,
        AssemblyReadError,
    >)
        ensures
            match stream_at(metadata@, *old(curr_offset) as int) {
                Ok((stream, next)) => r is Ok && r.unwrap()@ == stream && *final(curr_offset)
                    == next,
                Err(e) => r is Err && r->Err_0 == e && *final(curr_offset) == *old(curr_offset),
            },
    {
        let at: usize = *curr_offset;
        if !holds(metadata, at, 8) {
            return Err(AssemblyReadError::UnexpectedEnd);
        }
        let stream_offset: u32 = u32_from_slice_at(metadata, at);
        let stream_size: u32 = u32_from_slice_at(metadata, at + 4);
        let name_start: usize = at + 8;
        let name_end: usize = find_terminator(metadata, name_start);
        proof {
            lemma_terminator(metadata@, name_start as int);
        }
        let padding: usize = 4 - name_end % 4;
        if !holds(metadata, name_end, padding) {
            return Err(AssemblyReadError::UnexpectedEnd);
        }
        if !holds(metadata, stream_offset as usize, stream_size as usize) {
            return Err(AssemblyReadError::UnexpectedEnd);
        }
        let stream: &[u8] = slice_subrange(
            metadata,
            stream_offset as usize,
            stream_offset as usize + stream_size as usize,
        );
        let kind: StreamKind = match Self::kind_at(metadata, name_start) {
            None => {
                return Err(AssemblyReadError::Unsupported(UnsupportedFeature::StreamName));
            },
            Some(kind) => kind,
        };
        let decoded: Self = Self::of_kind(kind, stream)?;
        *curr_offset = name_end + padding;
        Ok(decoded)
    }
}

/// The metadata root.
#[derive(Clone, Debug)]
pub struct RawMetadata {
    pub major: u16,
    pub minor: u16,
    pub version: String,
    pub streams: Vec<MetadataStream>,
}

/// What the metadata root holds.
pub struct RawMetadataView {
    pub major: u16,
    pub minor: u16,
    pub version: Seq<char>,
    pub streams: Seq<MetadataStreamView>,
}

impl View for RawMetadata {
    type V = RawMetadataView;

    open spec fn view(&self) -> RawMetadataView {
        RawMetadataView {
            major: self.major,
            minor: self.minor,
            version: self.version@,
            streams: views_of(self.streams@),
        }
    }
}

/// The least multiple of four that is not below `length`.
pub open spec fn round_up4(length: int) -> int {
    (length + 3) / 4 * 4
}

/// The bytes of the version string: those of the padded region behind the 16 bytes of
/// the root's head, up to the first zero byte.
pub open spec fn version_bytes(md: Seq<u8>) -> Seq<u8> {
    let region = md.subrange(16, 16 + round_up4(le_value(md, 12, 4) as int));
    region.take(terminator(region, 0))
}

/// The metadata root that the bytes `md` spell: the signature, the version, a reserved
/// field of zero, the length of the version string, the string itself in a region padded
/// to a multiple of four, flags of zero, the number of streams, and the stream directory.
pub open spec fn raw_metadata_of(md: Seq<u8>) -> Result<RawMetadataView, AssemblyReadError> {
    let directory = 16 + round_up4(le_value(md, 12, 4) as int);
    if md.len() < 16 {
        Err(AssemblyReadError::UnexpectedEnd)
    } else if le_value(md, 0, 4) != METADATA_SIGNATURE {
        Err(AssemblyReadError::Format(FormatError::MetadataSignature))
    } else if le_value(md, 8, 4) != 0 {
        Err(AssemblyReadError::Format(FormatError::MetadataReserved))
    } else if md.len() < directory + 4 {
        Err(AssemblyReadError::UnexpectedEnd)
    } else {
        match text_of(version_bytes(md)) {
            Err(e) => Err(e),
            Ok(version) => if le_value(md, directory, 2) != 0 {
                Err(AssemblyReadError::Format(FormatError::MetadataFlags))
            } else {
                match streams_from(md, directory + 4, le_value(md, directory + 2, 2)) {
                    Err(e) => Err(e),
                    Ok(streams) => Ok(
                        RawMetadataView {
                            major: le_value(md, 4, 2) as u16,
                            minor: le_value(md, 6, 2) as u16,
                            version,
                            streams,
                        },
                    ),
                }
            },
        }
    }
}

impl RawMetadata {
    /// The `count` streams whose directory entries start at `at` of `metadata`.
    pub fn read_streams(metadata: &[u8], at: usize, count: u16) -> (r: Result<
        Vec<MetadataStream>,
        AssemblyReadError,
    >)
        ensures
            match streams_from(metadata@, at as int, count as nat) {
                Ok(views) => r is Ok && views_of(r.unwrap()@) == views,
                Err(e) => r is Err && r->Err_0 == e,
            },
    {
        let ghost whole = streams_from(metadata@, at as int, count as nat);
        let mut curr_offset: usize = at;
        let mut streams: Vec<MetadataStream> = Vec::new();
        let mut i: u16 = 0;
        assert(prepend(views_of(streams@), whole) == whole) by {
            assert(views_of(streams@) =~= Seq::empty());
            if whole is Ok {
                assert(Seq::<MetadataStreamView>::empty() + whole->Ok_0 =~= whole->Ok_0);
            }
        }
        while i < count
            invariant
                i <= count,
                whole == streams_from(metadata@, at as int, count as nat),
                whole == prepend(
                    views_of(streams@),
                    streams_from(metadata@, curr_offset as int, (count - i) as nat),
                ),
            decreases count - i,
        {
            let ghost done = views_of(streams@);
            let ghost here = curr_offset;
            match MetadataStream::from_slice(metadata, &mut curr_offset) {
                Err(e) => {
                    return Err(e);
                },
                Ok(stream) => {
                    proof {
                        let rest = streams_from(
                            metadata@,
                            curr_offset as int,
                            (count - i - 1) as nat,
                        );
                        if rest is Ok {
                            assert(done + (seq![stream@] + rest->Ok_0) =~= done.push(stream@)
                                + rest->Ok_0);
                        }
                    }
                    streams.push(stream);
                    assert(views_of(streams@) =~= done.push(stream@));
                },
            }
            i = i + 1;
        }
        proof {
            assert(views_of(streams@) + Seq::<MetadataStreamView>::empty() =~= views_of(
                streams@,
            ));
        }
        Ok(streams)
    }

    /// Decodes the metadata root.
    pub fn from_slice(metadata: &[u8]) -> (r: Result<Self, AssemblyReadError>)
        ensures
            agrees(r, raw_metadata_of(metadata@)),
    {
        if metadata.len() < 16 {
            return Err(AssemblyReadError::UnexpectedEnd);
        }
        let magic: u32 = u32_from_slice_at(metadata, 0);
        if magic != METADATA_SIGNATURE {
            return Err(AssemblyReadError::Format(FormatError::MetadataSignature));
        }
        let major: u16 = u16_from_slice_at(metadata, 4);
        let minor: u16 = u16_from_slice_at(metadata, 6);
        let reserved: u32 = u32_from_slice_at(metadata, 8);
        if reserved != 0 {
            return Err(AssemblyReadError::Format(FormatError::MetadataReserved));
        }
        let length: u32 = u32_from_slice_at(metadata, 12);
        let rounded: u64 = (length as u64 + 3) / 4 * 4;
        if rounded + 20 > metadata.len() as u64 {
            return Err(AssemblyReadError::UnexpectedEnd);
        }
        let rounded_length: usize = rounded as usize;
        let region: &[u8] = slice_subrange(metadata, 16, 16 + rounded_length);
        let null: usize = find_terminator(region, 0);
        proof {
            lemma_terminator(region@, 0);
        }
        let version: String = text_from_bytes(slice_subrange(region, 0, null))?.to_owned();
        let flags: u16 = u16_from_slice_at(metadata, 16 + rounded_length);
        if flags != 0 {
            return Err(AssemblyReadError::Format(FormatError::MetadataFlags));
        }
        let stream_count: u16 = u16_from_slice_at(metadata, 16 + rounded_length + 2);
        let streams: Vec<MetadataStream> = Self::read_streams(
            metadata,
            16 + rounded_length + 4,
            stream_count,
        )?;
        Ok(RawMetadata { major, minor, version, streams })
    }
}

} // verus!

//! The layout of the metadata tables: which columns a table has, how wide each is, where
//! each cell stands, and how cells become rows.
//!
//! A table of `n` rows is stored column by column: first the `n` cells of its first
//! column, row after row, then those of its second column, and so on. A table has no
//! length prefix; its extent is `n` times the sum of its column widths.

use crate::bitvec::BitVec64;
use crate::bytes::{le_value, u16_from_slice_at, u32_from_slice_at};
use crate::error::{agrees, AssemblyReadError};
use crate::heap::{index_width, HeapSizes};
use crate::index::{
    row_count, simple_index_wide, table_row_count, CodedKind, TABLE_ASSEMBLY, TABLE_ASSEMBLY_REF,
    TABLE_FIELD, TABLE_MEMBER_REF, TABLE_METHOD_DEF, TABLE_MODULE, TABLE_PARAM,
    TABLE_STAND_ALONE_SIG, TABLE_TYPE_DEF, TABLE_TYPE_REF,
};
use vstd::prelude::*;

verus! {

/// What a column holds.
#[derive(Clone, Copy, Debug, PartialEq, Eq, Structural)]
pub enum Column {
    U16,
    U32,
    String,
    Guid,
    Blob,
    /// A row of the table with this number.
    Index(u8),
    /// A row of one of the tables of a kind.
    Coded(CodedKind),
}

impl Column {
    /// The width of a cell in bytes: 2 or 4.
    pub open spec fn width(
        self,
        sizes: HeapSizes,
        tables_rows: Seq<u32>,
        tables: BitVec64,
    ) -> usize {
        match self {
            Column::U16 => 2,
            Column::U32 => 4,
            Column::String => sizes.string_width() as usize,
            Column::Guid => sizes.guid_width() as usize,
            Column::Blob => sizes.blob_width() as usize,
            Column::Index(table) => index_width(
                simple_index_wide(row_count(tables_rows, tables, table)),
            ) as usize,
            Column::Coded(kind) => index_width(kind.wide(tables_rows, tables)) as usize,
        }
    }

    pub fn byte_width(&self, sizes: &HeapSizes, tables_rows: &[u32], tables: BitVec64) -> (r: usize)
        ensures
            r == self.width(*sizes, tables_rows@, tables),
            r == 2 || r == 4,
    {
        match self {
            Column::U16 => 2,
            Column::U32 => 4,
            Column::String => sizes.string_index_size(),
            Column::Guid => sizes.guid_index_size(),
            Column::Blob => sizes.blob_index_size(),
            Column::Index(table) => {
                if table_row_count(tables_rows, tables, *table) > 65535 {
                    4
                } else {
                    2
                }
            },
            Column::Coded(kind) => {
                if kind.is_wide(tables_rows, tables) {
                    4
                } else {
                    2
                }
            },
        }
    }
}

/// The columns of a table, by its number, in the order in which they are stored; `None`
/// for a table whose layout is not known.
pub open spec fn columns(table: u8) -> Option<Seq<Column>> {
    if table == TABLE_MODULE {
        Some(seq![Column::U16, Column::String, Column::Guid, Column::Guid, Column::Guid])
    } else if table == TABLE_TYPE_REF {
        Some(seq![Column::Coded(CodedKind::ResolutionScope), Column::String, Column::String])
    } else if table == TABLE_TYPE_DEF {
        Some(
            seq![
                Column::U32,
                Column::String,
                Column::String,
                Column::Coded(CodedKind::TypeDefOrRef),
                Column::Index(TABLE_FIELD),
                Column::Index(TABLE_METHOD_DEF),
            ],
        )
    } else if table == TABLE_FIELD {
        Some(seq![Column::U16, Column::String, Column::Blob])
    } else if table == TABLE_METHOD_DEF {
        Some(
            seq![
                Column::U32,
                Column::U16,
                Column::U16,
                Column::String,
                Column::Blob,
                Column::Index(TABLE_PARAM),
            ],
        )
    } else if table == TABLE_PARAM {
        Some(seq![Column::U16, Column::U16, Column::String])
    } else if table == TABLE_MEMBER_REF {
        Some(seq![Column::Coded(CodedKind::MemberRefParent), Column::String, Column::Blob])
    } else if table == TABLE_STAND_ALONE_SIG {
        Some(seq![Column::Blob])
    } else if table == TABLE_ASSEMBLY || table == TABLE_ASSEMBLY_REF {
        Some(
            seq![
                Column::U32,
                Column::U16,
                Column::U16,
                Column::U16,
                Column::U16,
                Column::U32,
                Column::Blob,
                Column::String,
                Column::String,
            ],
        )
    } else {
        None
    }
}

/// The columns of `table`.
pub fn table_columns(table: u8) -> (r: Option<Vec<Column>>)
    ensures
        match columns(table) {
            Some(cols) => r is Some && r.unwrap()@ == cols && 1 <= cols.len() <= 9,
            None => r is None,
        },
{
    if table == TABLE_MODULE {
        Some(vec![Column::U16, Column::String, Column::Guid, Column::Guid, Column::Guid])
    } else if table == TABLE_TYPE_REF {
        Some(vec![Column::Coded(CodedKind::ResolutionScope), Column::String, Column::String])
    } else if table == TABLE_TYPE_DEF {
        Some(
            vec![
                Column::U32,
                Column::String,
                Column::String,
                Column::Coded(CodedKind::TypeDefOrRef),
                Column::Index(TABLE_FIELD),
                Column::Index(TABLE_METHOD_DEF),
            ],
        )
    } else if table == TABLE_FIELD {
        Some(vec![Column::U16, Column::String, Column::Blob])
    } else if table == TABLE_METHOD_DEF {
        Some(
            vec![
                Column::U32,
                Column::U16,
                Column::U16,
                Column::String,
                Column::Blob,
                Column::Index(TABLE_PARAM),
            ],
        )
    } else if table == TABLE_PARAM {
        Some(vec![Column::U16, Column::U16, Column::String])
    } else if table == TABLE_MEMBER_REF {
        Some(vec![Column::Coded(CodedKind::MemberRefParent), Column::String, Column::Blob])
    } else if table == TABLE_STAND_ALONE_SIG {
        Some(vec![Column::Blob])
    } else if table == TABLE_ASSEMBLY || table == TABLE_ASSEMBLY_REF {
        Some(
            vec![
                Column::U32,
                Column::U16,
                Column::U16,
                Column::U16,
                Column::U16,
                Column::U32,
                Column::Blob,
                Column::String,
                Column::String,
            ],
        )
    } else {
        None
    }
}

/// The widths of the columns `cols`, one for one.
pub open spec fn widths_of(
    cols: Seq<Column>,
    sizes: HeapSizes,
    tables_rows: Seq<u32>,
    tables: BitVec64,
) -> Seq<usize> {
    Seq::new(cols.len(), |j: int| cols[j].width(sizes, tables_rows, tables))
}

/// The sum of the first `upto` widths.
pub open spec fn width_sum(widths: Seq<usize>, upto: int) -> nat
    decreases upto,
{
    if upto <= 0 {
        0
    } else {
        width_sum(widths, upto - 1) + widths[upto - 1] as nat
    }
}

/// The bytes that one row takes, over all columns.
pub open spec fn row_width(widths: Seq<usize>) -> nat {
    width_sum(widths, widths.len() as int)
}

/// The bytes that a table of `n` rows takes.
pub open spec fn extent(widths: Seq<usize>, n: nat) -> nat {
    n * row_width(widths)
}

/// Where the cell of row `r` in column `j` starts, counted from the start of a table of
/// `n` rows: behind the `n` cells of each earlier column and the `r` earlier cells of its
/// own.
pub open spec fn cell_offset(widths: Seq<usize>, n: nat, r: int, j: int) -> int {
    n * width_sum(widths, j) + r * widths[j]
}

/// The number in the cell of row `r` in column `j`.
pub open spec fn cell(data: Seq<u8>, widths: Seq<usize>, n: nat, r: int, j: int) -> u32 {
    le_value(data, cell_offset(widths, n, r, j), widths[j] as nat) as u32
}

/// The cells of row `r`, in column order.
pub open spec fn row_cells(data: Seq<u8>, widths: Seq<usize>, n: nat, r: int) -> Seq<u32> {
    Seq::new(widths.len(), |j: int| cell(data, widths, n, r, j))
}

/// Every cell of a table lies inside the table's extent.
pub proof fn lemma_cell_inside(widths: Seq<usize>, n: nat, r: int, j: int)
    requires
        0 <= r < n,
        0 <= j < widths.len(),
    ensures
        0 <= cell_offset(widths, n, r, j),
        cell_offset(widths, n, r, j) + widths[j] <= n * width_sum(widths, j + 1),
        n * width_sum(widths, j + 1) <= extent(widths, n),
{
    let before = width_sum(widths, j);
    let w = widths[j] as nat;
    assert(width_sum(widths, j + 1) == before + w);
    assert(0 <= n * before && r * w + w <= n * w && n * (before + w) == n * before + n * w)
        by (nonlinear_arith)
        requires
            0 <= r < n,
            0 <= before,
            0 <= w,
    ;
    lemma_width_sum_grows(widths, j + 1, widths.len() as int);
    let upto = width_sum(widths, j + 1);
    let all = row_width(widths);
    assert(n * upto <= n * all) by (nonlinear_arith)
        requires
            upto <= all,
    ;
}

/// A longer run of columns is no narrower than a shorter one.
pub proof fn lemma_width_sum_grows(widths: Seq<usize>, a: int, b: int)
    requires
        a <= b,
    ensures
        width_sum(widths, a) <= width_sum(widths, b),
    decreases b - a,
{
    if a < b {
        lemma_width_sum_grows(widths, a, b - 1);
    }
}

/// Where the columns of one table stand in its bytes.
pub struct Layout {
    /// The number of rows.
    pub rows: usize,
    /// The width of each column.
    pub widths: Vec<usize>,
    /// Where each column starts, counted from the start of the table.
    pub starts: Vec<usize>,
    /// The bytes that the table takes.
    pub extent: usize,
}

impl Layout {
    /// The layout is that of a table of `rows` rows with columns of the widths `widths`.
    pub open spec fn wf(self) -> bool {
        &&& self.starts@.len() == self.widths@.len()
        &&& forall|j: int|
            0 <= j < self.widths@.len() ==> (#[trigger] self.widths@[j] == 2 || self.widths@[j]
                == 4)
        &&& forall|j: int|
            0 <= j < self.widths@.len() ==> #[trigger] self.starts@[j] == self.rows * width_sum(
                self.widths@,
                j,
            )
        &&& self.extent == extent(self.widths@, self.rows as nat)
    }

    /// Lays out a table of `n` rows with the columns `cols`, given that `available` bytes
    /// are there for it; `None` where the table would take more.
    pub fn plan(
        cols: &Vec<Column>,
        n: u32,
        sizes: &HeapSizes,
        tables_rows: &[u32],
        tables: BitVec64,
        available: usize,
    ) -> (r: Option<Layout>)
        requires
            cols@.len() <= 16,
        ensures
            match r {
                Some(layout) => {
                    &&& layout.wf()
                    &&& layout.rows == n
                    &&& layout.widths@ == widths_of(cols@, *sizes, tables_rows@, tables)
                    &&& layout.extent <= available
                },
                None => extent(widths_of(cols@, *sizes, tables_rows@, tables), n as nat)
                    > available,
            },
    {
        let ghost all = widths_of(cols@, *sizes, tables_rows@, tables);
        let mut widths: Vec<usize> = Vec::new();
        let mut sum: u64 = 0;
        let mut j: usize = 0;
        while j < cols.len()
            invariant
                j <= cols@.len() <= 16,
                all == widths_of(cols@, *sizes, tables_rows@, tables),
                widths@ == all.take(j as int),
                sum == width_sum(all, j as int),
                sum <= 4 * j,
                forall|k: int| 0 <= k < j ==> (#[trigger] all[k] == 2 || all[k] == 4),
            decreases cols@.len() - j,
        {
            let w: usize = cols[j].byte_width(sizes, tables_rows, tables);
            widths.push(w);
            sum = sum + w as u64;
            j = j + 1;
            assert(widths@ =~= all.take(j as int));
        }
        assert(widths@ =~= all);
        assert(n * sum <= 0xffff_ffff * 64) by (nonlinear_arith)
            requires
                n <= 0xffff_ffff,
                sum <= 64,
        ;
        let total: u64 = (n as u64) * sum;
        if total > available as u64 {
            return None;
        }
        let rows: usize = n as usize;
        let mut starts: Vec<usize> = Vec::new();
        let mut before: usize = 0;
        let mut k: usize = 0;
        assert(n * width_sum(all, 0) == 0) by (nonlinear_arith)
            requires
                width_sum(all, 0) == 0,
        ;
        while k < widths.len()
            invariant
                k <= widths@.len(),
                widths@ == all,
                rows == n,
                total == n * row_width(all),
                total <= available,
                starts@.len() == k,
                before == n * width_sum(all, k as int),
                forall|i: int| 0 <= i < all.len() ==> (#[trigger] all[i] == 2 || all[i] == 4),
                forall|i: int| 0 <= i < k ==> #[trigger] starts@[i] == n * width_sum(all, i),
            decreases widths@.len() - k,
        {
            starts.push(before);
            proof {
                let here = width_sum(all, k as int);
                let w = all[k as int] as nat;
                assert(width_sum(all, k + 1) == here + w);
                assert(n * (here + w) == n * here + n * w) by (nonlinear_arith);
                lemma_width_sum_grows(all, k + 1, all.len() as int);
                let next = width_sum(all, k + 1);
                let whole = row_width(all);
                assert(n * next <= n * whole) by (nonlinear_arith)
                    requires
                        next <= whole,
                ;
                assert(all[k as int] == 2 || all[k as int] == 4);
            }
            let step: usize = if widths[k] == 2 {
                rows * 2
            } else {
                rows * 4
            };
            before = before + step;
            k = k + 1;
        }
        Some(Layout { rows, widths, starts, extent: total as usize })
    }

    /// The cells of row `r` of the table that starts `data`, in column order.
    pub fn read_row(&self, data: &[u8], r: usize) -> (cells: Vec<u32>)
        requires
            self.wf(),
            r < self.rows,
            self.extent <= data.len(),
        ensures
            cells@ == row_cells(data@, self.widths@, self.rows as nat, r as int),
    {
        let ghost n = self.rows as nat;
        let mut cells: Vec<u32> = Vec::new();
        let mut j: usize = 0;
        while j < self.widths.len()
            invariant
                j <= self.widths@.len(),
                self.wf(),
                r < self.rows,
                n == self.rows,
                self.extent <= data.len(),
                cells@ == Seq::new(j as nat, |i: int| cell(data@, self.widths@, n, r as int, i)),
            decreases self.widths@.len() - j,
        {
            proof {
                lemma_cell_inside(self.widths@, n, r as int, j as int);
                assert(self.starts@[j as int] == n * width_sum(self.widths@, j as int));
                assert(self.widths@[j as int] == 2 || self.widths@[j as int] == 4);
                crate::bytes::lemma_le_value_bound(
                    data@,
                    cell_offset(self.widths@, n, r as int, j as int),
                    self.widths@[j as int] as nat,
                );
            }
            let value: u32 = if self.widths[j] == 2 {
                let at: usize = self.starts[j] + r * 2;
                u16_from_slice_at(data, at) as u32
            } else {
                let at: usize = self.starts[j] + r * 4;
                u32_from_slice_at(data, at)
            };
            cells.push(value);
            j = j + 1;
            assert(cells@ =~= Seq::new(
                j as nat,
                |i: int| cell(data@, self.widths@, n, r as int, i),
            ));
        }
        assert(cells@ =~= row_cells(data@, self.widths@, n, r as int));
        cells
    }
}

/// The low sixteen bits of a cell; a cell of a two-byte column holds no others.
pub open spec fn low_half_of(cell: u32) -> u16 {
    (cell % 0x1_0000) as u16
}

/// The low sixteen bits of a cell.
pub fn low_half(cell: u32) -> (r: u16)
    ensures
        r == low_half_of(cell),
{
    (cell % 0x1_0000) as u16
}

/// A kind of row: what the cells of one row come to.
pub trait TableRow: Sized {
    /// The number of columns.
    spec fn arity() -> nat;

    /// The row that `cells` spell, or the first rule that they break.
    spec fn from_cells(cells: Seq<u32>) -> Result<Self, AssemblyReadError>;

    fn from_row(cells: &[u32]) -> (r: Result<Self, AssemblyReadError>)
        requires
            cells@.len() == Self::arity(),
        ensures
            r == Self::from_cells(cells@),
    ;
}

/// The first `upto` rows of the table of `n` rows that starts `data`, or what the first
/// row that breaks a rule, in storage order, fails with.
pub open spec fn rows_upto<R: TableRow>(
    data: Seq<u8>,
    widths: Seq<usize>,
    n: nat,
    upto: nat,
) -> Result<Seq<R>, AssemblyReadError>
    decreases upto,
{
    if upto == 0 {
        Ok(Seq::empty())
    } else {
        match rows_upto::<R>(data, widths, n, (upto - 1) as nat) {
            Err(e) => Err(e),
            Ok(rows) => match R::from_cells(row_cells(data, widths, n, upto - 1)) {
                Err(e) => Err(e),
                Ok(row) => Ok(rows.push(row)),
            },
        }
    }
}

/// The rows that are read are as many as were asked for.
pub proof fn lemma_rows_upto_len<R: TableRow>(
    data: Seq<u8>,
    widths: Seq<usize>,
    n: nat,
    upto: nat,
)
    ensures
        rows_upto::<R>(data, widths, n, upto) matches Ok(rows) ==> rows.len() == upto,
    decreases upto,
{
    if upto > 0 {
        lemma_rows_upto_len::<R>(data, widths, n, (upto - 1) as nat);
    }
}

/// Once a row has failed, the rows up to any later one fail in the same way.
pub proof fn lemma_rows_upto_fails<R: TableRow>(
    data: Seq<u8>,
    widths: Seq<usize>,
    n: nat,
    at: nat,
    upto: nat,
)
    requires
        at <= upto,
        rows_upto::<R>(data, widths, n, at) is Err,
    ensures
        rows_upto::<R>(data, widths, n, upto) == rows_upto::<R>(data, widths, n, at),
    decreases upto - at,
{
    if at < upto {
        lemma_rows_upto_fails::<R>(data, widths, n, at, (upto - 1) as nat);
    }
}

/// The rows of the table that starts `data`.
pub fn read_rows<R: TableRow>(data: &[u8], layout: &Layout) -> (r: Result<
    Vec<R>,
    AssemblyReadError,
>)
    requires
        layout.wf(),
        layout.extent <= data.len(),
        layout.widths@.len() == R::arity(),
    ensures
        agrees(r, rows_upto::<R>(data@, layout.widths@, layout.rows as nat, layout.rows as nat)),
{
    let ghost n = layout.rows as nat;
    let mut rows: Vec<R> = Vec::new();
    let mut i: usize = 0;
    while i < layout.rows
        invariant
            i <= layout.rows,
            n == layout.rows,
            layout.wf(),
            layout.extent <= data.len(),
            layout.widths@.len() == R::arity(),
            rows_upto::<R>(data@, layout.widths@, n, i as nat) == Ok::<Seq<R>, AssemblyReadError>(
                rows@,
            ),
        decreases layout.rows - i,
    {
        let cells: Vec<u32> = layout.read_row(data, i);
        match R::from_row(cells.as_slice()) {
            Err(e) => {
                proof {
                    assert(rows_upto::<R>(data@, layout.widths@, n, (i + 1) as nat) is Err);
                    lemma_rows_upto_fails::<R>(data@, layout.widths@, n, (i + 1) as nat, n);
                }
                return Err(e);
            },
            Ok(row) => {
                rows.push(row);
            },
        }
        i = i + 1;
    }
    Ok(rows)
}

} // verus!

//! Row indices and coded tokens: how wide they are, and how a token splits into the
//! table it selects and the row it names.

use crate::bitvec::{BitVec64, WALK_END};
use crate::bytes::{advance, le_value, u16_from_slice_at, u32_from_slice_at};
use crate::error::AssemblyReadError;
use vstd::prelude::*;

verus! {

pub const TABLE_MODULE: u8 = 0x00;

pub const TABLE_TYPE_REF: u8 = 0x01;

pub const TABLE_TYPE_DEF: u8 = 0x02;

pub const TABLE_FIELD: u8 = 0x04;

pub const TABLE_METHOD_DEF: u8 = 0x06;

pub const TABLE_PARAM: u8 = 0x08;

pub const TABLE_MEMBER_REF: u8 = 0x0A;

pub const TABLE_STAND_ALONE_SIG: u8 = 0x11;

pub const TABLE_MODULE_REF: u8 = 0x1A;

pub const TABLE_TYPE_SPEC: u8 = 0x1B;

pub const TABLE_ASSEMBLY: u8 = 0x20;

pub const TABLE_ASSEMBLY_REF: u8 = 0x23;

/// The row count that the stream header gives for `table`: the counts stand in
/// `tables_rows`, one for each table present in `tables`, in rising table order. `None` for
/// a table that is absent or has no count.
pub open spec fn rows_of(tables_rows: Seq<u32>, tables: BitVec64, table: u8) -> Option<u32> {
    if table < WALK_END && tables.has(table) && tables.rank(table) < tables_rows.len() {
        Some(tables_rows[tables.rank(table) as int])
    } else {
        None
    }
}

/// The number of rows of `table`; an absent table has none.
pub open spec fn row_count(tables_rows: Seq<u32>, tables: BitVec64, table: u8) -> u32 {
    match rows_of(tables_rows, tables, table) {
        Some(rows) => rows,
        None => 0,
    }
}

pub fn table_rows(tables_rows: &[u32], tables: BitVec64, table: u8) -> (r: Option<u32>)
    ensures
        r == rows_of(tables_rows@, tables, table),
{
    match tables.position(table) {
        Some(place) => {
            if (place as usize) < tables_rows.len() {
                Some(tables_rows[place as usize])
            } else {
                None
            }
        },
        None => None,
    }
}

/// The number of rows of `table`, 0 where it is absent.
pub fn table_row_count(tables_rows: &[u32], tables: BitVec64, table: u8) -> (r: u32)
    ensures
        r == row_count(tables_rows@, tables, table),
{
    match table_rows(tables_rows, tables, table) {
        Some(rows) => rows,
        None => 0,
    }
}

/// An index into a table of `rows` rows takes four bytes where the table has more than
/// 65535 rows, and two otherwise.
pub open spec fn simple_index_wide(rows: u32) -> bool {
    rows > 65535
}

/// The width of an index changes between 65535 and 65536 rows.
pub proof fn lemma_simple_index_width(rows: u32)
    ensures
        rows <= 65535 ==> !simple_index_wide(rows),
        rows >= 65536 ==> simple_index_wide(rows),
{
}

/// The kinds of column that name a row of one of several tables.
#[derive(Clone, Copy, Debug, PartialEq, Eq, Structural)]
pub enum CodedKind {
    TypeDefOrRef,
    ResolutionScope,
    MemberRefParent,
}

impl CodedKind {
    /// The tables that a token of this kind can select, by tag.
    pub open spec fn members(self) -> Seq<u8> {
        match self {
            CodedKind::TypeDefOrRef => seq![TABLE_TYPE_DEF, TABLE_TYPE_REF, TABLE_TYPE_SPEC],
            CodedKind::ResolutionScope => seq![
                TABLE_MODULE,
                TABLE_MODULE_REF,
                TABLE_ASSEMBLY_REF,
                TABLE_TYPE_REF,
            ],
            CodedKind::MemberRefParent => seq![
                TABLE_TYPE_DEF,
                TABLE_TYPE_REF,
                TABLE_MODULE_REF,
                TABLE_METHOD_DEF,
                TABLE_TYPE_SPEC,
            ],
        }
    }

    /// How many low bits of a token hold the tag.
    pub open spec fn spec_tag_bits(self) -> u32 {
        match self {
            CodedKind::TypeDefOrRef => 2,
            CodedKind::ResolutionScope => 2,
            CodedKind::MemberRefParent => 3,
        }
    }

    #[verifier::when_used_as_spec(spec_tag_bits)]
    pub fn tag_bits(self) -> (r: u32)
        ensures
            r == self.spec_tag_bits(),
    {
        match self {
            CodedKind::TypeDefOrRef => 2,
            CodedKind::ResolutionScope => 2,
            CodedKind::MemberRefParent => 3,
        }
    }

    /// The greatest row count among the first `upto` tables of this kind.
    pub open spec fn max_rows_among(self, tables_rows: Seq<u32>, tables: BitVec64, upto: nat) -> u32
        decreases upto,
    {
        if upto == 0 {
            0
        } else {
            let rest = self.max_rows_among(tables_rows, tables, (upto - 1) as nat);
            let rows = row_count(tables_rows, tables, self.members()[upto - 1]);
            if rows > rest {
                rows
            } else {
                rest
            }
        }
    }

    /// The greatest row count among the tables of this kind.
    pub open spec fn max_rows(self, tables_rows: Seq<u32>, tables: BitVec64) -> u32 {
        self.max_rows_among(tables_rows, tables, self.members().len())
    }

    /// A token takes four bytes where the greatest row count among its tables exceeds
    /// 2 to the power of 16 less the tag bits, and two bytes otherwise.
    pub open spec fn wide(self, tables_rows: Seq<u32>, tables: BitVec64) -> bool {
        self.max_rows(tables_rows, tables) > (1u32 << ((16 - self.spec_tag_bits()) as u32))
    }

    /// Whether a token of this kind takes four bytes.
    pub fn is_wide(self, tables_rows: &[u32], tables: BitVec64) -> (r: bool)
        ensures
            r == self.wide(tables_rows@, tables),
    {
        proof {
            reveal_with_fuel(CodedKind::max_rows_among, 6);
        }
        let mut max: u32 = 0;
        match self {
            CodedKind::TypeDefOrRef => {
                max = larger(max, table_row_count(tables_rows, tables, TABLE_TYPE_DEF));
                max = larger(max, table_row_count(tables_rows, tables, TABLE_TYPE_REF));
                max = larger(max, table_row_count(tables_rows, tables, TABLE_TYPE_SPEC));
            },
            CodedKind::ResolutionScope => {
                max = larger(max, table_row_count(tables_rows, tables, TABLE_MODULE));
                max = larger(max, table_row_count(tables_rows, tables, TABLE_MODULE_REF));
                max = larger(max, table_row_count(tables_rows, tables, TABLE_ASSEMBLY_REF));
                max = larger(max, table_row_count(tables_rows, tables, TABLE_TYPE_REF));
            },
            CodedKind::MemberRefParent => {
                max = larger(max, table_row_count(tables_rows, tables, TABLE_TYPE_DEF));
                max = larger(max, table_row_count(tables_rows, tables, TABLE_TYPE_REF));
                max = larger(max, table_row_count(tables_rows, tables, TABLE_MODULE_REF));
                max = larger(max, table_row_count(tables_rows, tables, TABLE_METHOD_DEF));
                max = larger(max, table_row_count(tables_rows, tables, TABLE_TYPE_SPEC));
            },
        }
        max > (1u32 << (16 - self.tag_bits()))
    }
}

/// The larger of two row counts; the first where they are equal.
pub fn larger(a: u32, b: u32) -> (r: u32)
    ensures
        r == if b > a {
            b
        } else {
            a
        },
{
    if b > a {
        b
    } else {
        a
    }
}

/// The tag of a token: its low `bits` bits.
pub open spec fn coded_tag(raw: u32, bits: u32) -> u32 {
    raw & (((1u32 << bits) - 1) as u32)
}

/// The row that a token names: what is left when the tag is shifted out.
pub open spec fn coded_index(raw: u32, bits: u32) -> u32 {
    raw >> bits
}

/// The token that names row `index` of the table with tag `tag`.
pub open spec fn coded_raw(tag: u32, index: u32, bits: u32) -> u32 {
    (index << bits) | tag
}

/// The greatest row that a token of four bytes with `bits` tag bits can name.
pub open spec fn greatest_index(bits: u32) -> u32 {
    if bits == 2 {
        0x3fff_ffff
    } else {
        0x1fff_ffff
    }
}

/// Splitting a token gives back the tag and the row that it was packed from, as long as the
/// tag is one of the kind and the row fits in the bits above the tag.
pub proof fn lemma_coded_token_round_trip(kind: CodedKind, tag: u32, index: u32)
    requires
        tag < kind.members().len(),
        index <= greatest_index(kind.spec_tag_bits()),
    ensures
        coded_tag(coded_raw(tag, index, kind.spec_tag_bits()), kind.spec_tag_bits()) == tag,
        coded_index(coded_raw(tag, index, kind.spec_tag_bits()), kind.spec_tag_bits()) == index,
{
    let bits = kind.spec_tag_bits();
    assert(kind.members().len() <= 5);
    assert((bits == 2 && tag < 4 && index <= 0x3fff_ffff) || (bits == 3 && tag < 5 && index
        <= 0x1fff_ffff) ==> (((index << bits) | tag) & (((1u32 << bits) - 1) as u32)) == tag && ((
    index << bits) | tag) >> bits == index) by (bit_vector);
}

/// A token is its row times two to the power of the tag bits, and its tag.
pub proof fn lemma_coded_raw(kind: CodedKind, tag: u32, index: u32)
    requires
        tag < kind.members().len(),
        index <= greatest_index(kind.spec_tag_bits()),
    ensures
        kind.spec_tag_bits() == 2 ==> coded_raw(tag, index, 2) == index * 4 + tag,
        kind.spec_tag_bits() == 3 ==> coded_raw(tag, index, 3) == index * 8 + tag,
{
    assert(tag < 4 && index <= 0x3fff_ffff ==> (index << 2u32) | tag == index * 4 + tag)
        by (bit_vector);
    assert(tag < 5 && index <= 0x1fff_ffff ==> (index << 3u32) | tag == index * 8 + tag)
        by (bit_vector);
}

/// The tag bits of a kind are the fewest that tell its tables apart.
pub proof fn lemma_tag_bits_hold_members(kind: CodedKind)
    ensures
        kind.members().len() <= (1u32 << kind.spec_tag_bits()),
        kind.members().len() > (1u32 << ((kind.spec_tag_bits() - 1) as u32)),
{
    assert((1u32 << 1u32) == 2 && (1u32 << 2u32) == 4 && (1u32 << 3u32) == 8) by (bit_vector);
}

/// The tag and the row of a token of `kind`.
pub fn split_coded(raw: u32, kind: CodedKind) -> (r: (u32, u32))
    ensures
        r.0 == coded_tag(raw, kind.spec_tag_bits()),
        r.1 == coded_index(raw, kind.spec_tag_bits()),
{
    proof {
        assert(((1u32 << 2u32) - 1) as u32 == 3 && ((1u32 << 3u32) - 1) as u32 == 7)
            by (bit_vector);
    }
    match kind {
        CodedKind::TypeDefOrRef => (raw & 3, raw >> 2),
        CodedKind::ResolutionScope => (raw & 3, raw >> 2),
        CodedKind::MemberRefParent => (raw & 7, raw >> 3),
    }
}

/// The number at the start of `s` that an index of the given width spells, with that
/// width; `None` where `s` is shorter.
pub open spec fn parse_index(s: Seq<u8>, wide: bool) -> Option<(u32, nat)> {
    let width: nat = if wide {
        4
    } else {
        2
    };
    if s.len() < width {
        None
    } else {
        Some((le_value(s, 0, width) as u32, width))
    }
}

/// Reads an index of two bytes, or of four where `wide`, and moves the cursor past it.
/// Where the region is shorter, nothing is consumed.
pub fn read_index(cursor: &mut &[u8], wide: bool) -> (r: Result<u32, AssemblyReadError>)
    ensures
        match parse_index(old(cursor)@, wide) {
            Some((value, width)) => r == Ok::<u32, AssemblyReadError>(value)
                && final(cursor)@ == old(cursor)@.skip(width as int),
            None => r == Err::<u32, AssemblyReadError>(AssemblyReadError::UnexpectedEnd)
                && final(cursor)@ == old(cursor)@,
        },
{
    let s: &[u8] = *cursor;
    if wide {
        if s.len() < 4 {
            return Err(AssemblyReadError::UnexpectedEnd);
        }
        let value: u32 = u32_from_slice_at(s, 0);
        advance(cursor, 4);
        Ok(value)
    } else {
        if s.len() < 2 {
            return Err(AssemblyReadError::UnexpectedEnd);
        }
        let value: u32 = u16_from_slice_at(s, 0) as u32;
        advance(cursor, 2);
        Ok(value)
    }
}

/// The index into `table` at the start of `s`.
pub open spec fn parse_simple_index(
    s: Seq<u8>,
    tables_rows: Seq<u32>,
    tables: BitVec64,
    table: u8,
) -> Option<(u32, nat)> {
    parse_index(s, simple_index_wide(row_count(tables_rows, tables, table)))
}

/// Reads an index into `table` and moves the cursor past it.
pub fn read_simple_index(
    cursor: &mut &[u8],
    tables_rows: &[u32],
    tables: BitVec64,
    table: u8,
) -> (r: Result<u32, AssemblyReadError>)
    ensures
        match parse_simple_index(old(cursor)@, tables_rows@, tables, table) {
            Some((value, width)) => r == Ok::<u32, AssemblyReadError>(value)
                && final(cursor)@ == old(cursor)@.skip(width as int),
            None => r == Err::<u32, AssemblyReadError>(AssemblyReadError::UnexpectedEnd)
                && final(cursor)@ == old(cursor)@,
        },
{
    let rows: u32 = table_row_count(tables_rows, tables, table);
    read_index(cursor, rows > 65535)
}

/// The token of `kind` at the start of `s`, not yet split.
pub open spec fn parse_coded(
    s: Seq<u8>,
    kind: CodedKind,
    tables_rows: Seq<u32>,
    tables: BitVec64,
) -> Option<(u32, nat)> {
    parse_index(s, kind.wide(tables_rows, tables))
}

/// Reads a token of `kind`, not yet split, and moves the cursor past it.
pub fn read_coded(cursor: &mut &[u8], kind: CodedKind, tables_rows: &[u32], tables: BitVec64) -> (r:
    Result<u32, AssemblyReadError>)
    ensures
        match parse_coded(old(cursor)@, kind, tables_rows@, tables) {
            Some((value, width)) => r == Ok::<u32, AssemblyReadError>(value)
                && final(cursor)@ == old(cursor)@.skip(width as int),
            None => r == Err::<u32, AssemblyReadError>(AssemblyReadError::UnexpectedEnd)
                && final(cursor)@ == old(cursor)@,
        },
{
    let wide: bool = kind.is_wide(tables_rows, tables);
    read_index(cursor, wide)
}

} // verus!

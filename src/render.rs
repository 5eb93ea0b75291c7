//! The text of the table: a header line, then one line per row of the layout.

use vstd::prelude::*;
use crate::fields::{decimal_field, decimal_text, hex_field, hex_text, octal_field, octal_text, pad, padded};
use crate::labels::{label, label_text};
use crate::layout::{
    cell_index,
    ceil_usize_div,
    index_at,
    lemma_index_monotonic,
    lemma_row_count_bounds,
    row_count,
    CHAR_COUNT,
};
use crate::style::{underline, underlined};
use vstd::arithmetic::div_mod::lemma_fundamental_div_mod_converse;

verus! {

/// Width of the octal, decimal and hexadecimal fields.
pub const NUMBER_WIDTH: usize = 6;

/// Width of the label field.
pub const LABEL_WIDTH: usize = 28;

/// Why a table cannot be rendered.
#[derive(Debug, Clone, Copy, PartialEq, Eq, Structural)]
pub enum TableError {
    /// The layout was asked for no column blocks at all.
    ZeroColumns,
}

impl TableError {
    /// A sentence that describes the error.
    pub fn message(&self) -> (r: &'static str)
        ensures
            r@ == "columns must be at least 1"@,
    {
        match self {
            TableError::ZeroColumns => "columns must be at least 1",
        }
    }
}

/// Four fields, each left-justified to its width and followed by one space,
/// but for the last.
pub open spec fn four_fields(a: Seq<char>, b: Seq<char>, c: Seq<char>, d: Seq<char>) -> Seq<char> {
    padded(a, NUMBER_WIDTH as nat) + seq![' '] + padded(b, NUMBER_WIDTH as nat) + seq![' ']
        + padded(c, NUMBER_WIDTH as nat) + seq![' '] + padded(d, LABEL_WIDTH as nat)
}

/// The heading of one column block.
pub open spec fn heading_text() -> Seq<char> {
    four_fields("Oct"@, "Dec"@, "Hex"@, "Char"@)
}

/// `s` written `n` times in a row.
pub open spec fn repeated(s: Seq<char>, n: nat) -> Seq<char>
    decreases n,
{
    if n == 0 {
        Seq::empty()
    } else {
        repeated(s, (n - 1) as nat) + s
    }
}

/// The header line: one heading per column block, underlined when `styled`.
pub open spec fn title_text(styled: bool, columns: nat) -> Seq<char> {
    if styled {
        underlined(repeated(heading_text(), columns))
    } else {
        repeated(heading_text(), columns)
    }
}

/// The cell of code point `i`.
pub open spec fn cell_text(i: int) -> Seq<char> {
    four_fields(octal_text(i), decimal_text(i as nat), hex_text(i), label_text(i))
}

/// The cell of entry `i`, or nothing where `i` lies past the last entry.
pub open spec fn cell_or_empty(i: int) -> Seq<char> {
    if 0 <= i < CHAR_COUNT {
        cell_text(i)
    } else {
        Seq::empty()
    }
}

/// Row `row` of a layout whose blocks have `rows` lines, over its first `n` blocks.
pub open spec fn row_text(row: int, rows: int, n: int) -> Seq<char>
    decreases n,
{
    if n <= 0 {
        Seq::empty()
    } else {
        row_text(row, rows, n - 1) + cell_or_empty(index_at(row, n - 1, rows))
    }
}

/// The body lines of a table in `columns` blocks.
pub open spec fn body_text(columns: int) -> Seq<Seq<char>> {
    Seq::new(row_count(columns) as nat, |r: int| row_text(r, row_count(columns), columns))
}

/// The cells of entries `0..n`, in order.
pub open spec fn cells_upto(n: int) -> Seq<char>
    decreases n,
{
    if n <= 0 {
        Seq::empty()
    } else {
        cells_upto(n - 1) + cell_text(n - 1)
    }
}

/// Blocks at or past the first one whose cell lies beyond the last entry add
/// nothing to a row.
pub proof fn lemma_row_tail_empty(row: int, rows: int, c: int, n: int)
    requires
        rows >= 0,
        c <= n,
        index_at(row, c, rows) >= CHAR_COUNT,
    ensures
        row_text(row, rows, n) == row_text(row, rows, c),
    decreases n - c,
{
    if n > c {
        lemma_row_tail_empty(row, rows, c, n - 1);
        lemma_index_monotonic(row, rows, c, n - 1);
        assert(row_text(row, rows, n) =~= row_text(row, rows, n - 1));
    }
}

/// In a single block the table has one line per code point, line `i` holding
/// exactly the cell of entry `i`, so that the entries run in increasing order.
pub proof fn lemma_single_column()
    ensures
        row_count(1) == CHAR_COUNT,
        body_text(1).len() == CHAR_COUNT,
        forall|i: int| 0 <= i < CHAR_COUNT ==> #[trigger] body_text(1)[i] == cell_text(i),
{
    assert(row_count(1) == 128);
    assert forall|i: int| 0 <= i < CHAR_COUNT implies #[trigger] body_text(1)[i] == cell_text(i) by {
        assert(index_at(i, 0, 128) == i);
        assert(row_text(i, 128, 0) == Seq::<char>::empty());
        assert(row_text(i, 128, 1) =~= cell_text(i));
    }
}

/// A row of one-line blocks over the first `n` blocks holds the cells of
/// entries `0..n`, in order.
proof fn lemma_one_line_prefix(n: int)
    requires
        0 <= n <= CHAR_COUNT,
    ensures
        row_text(0, 1, n) == cells_upto(n),
    decreases n,
{
    if n > 0 {
        lemma_one_line_prefix(n - 1);
        assert(index_at(0, n - 1, 1) == n - 1);
        assert(row_text(0, 1, n) =~= cells_upto(n));
    }
}

/// With 128 blocks or more the table has a single line, which holds every
/// entry, in increasing order.
pub proof fn lemma_wide_layout(columns: int)
    requires
        columns >= CHAR_COUNT,
    ensures
        row_count(columns) == 1,
        body_text(columns) == seq![cells_upto(CHAR_COUNT as int)],
{
    lemma_fundamental_div_mod_converse(CHAR_COUNT + columns - 1, columns, 1, CHAR_COUNT - 1);
    lemma_one_line_prefix(CHAR_COUNT as int);
    assert(index_at(0, CHAR_COUNT as int, 1) == CHAR_COUNT);
    lemma_row_tail_empty(0, 1, CHAR_COUNT as int, columns);
    assert(body_text(columns) =~= seq![cells_upto(CHAR_COUNT as int)]);
}

/// The text of the cell of code point `i`.
pub fn format_cell(i: usize) -> (r: String)
    requires
        i < CHAR_COUNT,
    ensures
        r@ == cell_text(i as int),
{
    let oct = octal_field(i);
    let dec = decimal_field(i);
    let hex = hex_field(i);
    let r = four_fields_line(oct.as_str(), dec.as_str(), hex.as_str(), label(i));
    r
}

/// Four fields laid out as in every cell and heading.
fn four_fields_line(a: &str, b: &str, c: &str, d: &str) -> (r: String)
    ensures
        r@ == four_fields(a@, b@, c@, d@),
{
    proof {
        reveal_strlit(" ");
    }
    let mut r = pad(a, NUMBER_WIDTH);
    r.append(" ");
    r.append(pad(b, NUMBER_WIDTH).as_str());
    r.append(" ");
    r.append(pad(c, NUMBER_WIDTH).as_str());
    r.append(" ");
    r.append(pad(d, LABEL_WIDTH).as_str());
    assert(r@ =~= four_fields(a@, b@, c@, d@));
    r
}

/// The header line: the heading of a column block, once per block, underlined
/// when `styled`.
pub fn table_title(styled: bool, columns: usize) -> (r: String)
    ensures
        r@ == title_text(styled, columns as nat),
{
    let heading = four_fields_line("Oct", "Dec", "Hex", "Char");
    let mut title = String::new();
    let mut k: usize = 0;
    while k < columns
        invariant
            k <= columns,
            heading@ == heading_text(),
            title@ == repeated(heading_text(), k as nat),
        decreases columns - k,
    {
        title.append(heading.as_str());
        k = k + 1;
    }
    if styled {
        underline(title.as_str())
    } else {
        title
    }
}

/// Row `row` of the layout in `columns` blocks.
pub fn render_row(row: usize, columns: usize) -> (r: String)
    requires
        columns >= 1,
        row < row_count(columns as int),
    ensures
        r@ == row_text(row as int, row_count(columns as int), columns as int),
{
    let rows = ceil_usize_div(CHAR_COUNT, columns);
    let mut line = String::new();
    let mut c: usize = 0;
    while c < columns
        invariant
            c <= columns,
            rows as int == row_count(columns as int),
            line@ == row_text(row as int, rows as int, c as int),
        ensures
            c <= columns,
            line@ == row_text(row as int, rows as int, c as int),
            c == columns || index_at(row as int, c as int, rows as int) >= CHAR_COUNT,
        decreases columns - c,
    {
        match cell_index(row, c, rows) {
            Some(i) => {
                let cell = format_cell(i);
                line.append(cell.as_str());
                assert(line@ =~= row_text(row as int, rows as int, c + 1));
                c = c + 1;
            },
            None => {
                break;
            },
        }
    }
    proof {
        if c < columns {
            lemma_row_tail_empty(row as int, rows as int, c as int, columns as int);
        }
    }
    line
}

/// The body of the table in `columns` blocks: `ceil(128 / columns)` lines, the
/// cell of entry `r + rows * c` standing in line `r`, block `c`.
pub fn render_body(columns: usize) -> (r: Result<Vec<String>, TableError>)
    ensures
        r is Err <==> columns == 0,
        r matches Err(e) ==> e == TableError::ZeroColumns,
        r matches Ok(lines) ==> lines@.len() == row_count(columns as int) && lines@.map_values(
            |l: String| l@,
        ) == body_text(columns as int),
{
    if columns == 0 {
        return Err(TableError::ZeroColumns);
    }
    let rows = ceil_usize_div(CHAR_COUNT, columns);
    proof {
        lemma_row_count_bounds(columns as int);
    }
    let mut lines: Vec<String> = Vec::new();
    let mut row: usize = 0;
    while row < rows
        invariant
            row <= rows,
            rows as int == row_count(columns as int),
            columns >= 1,
            lines@.len() == row,
            forall|k: int| 0 <= k < row ==> #[trigger] lines@[k]@ == row_text(k, rows as int, columns as int),
        decreases rows - row,
    {
        let line = render_row(row, columns);
        lines.push(line);
        row = row + 1;
    }
    assert(lines@.map_values(|l: String| l@) =~= body_text(columns as int));
    Ok(lines)
}

/// The whole table in `columns` blocks: the header line, then the body.
pub fn table_lines(styled: bool, columns: usize) -> (r: Result<Vec<String>, TableError>)
    ensures
        r is Err <==> columns == 0,
        r matches Err(e) ==> e == TableError::ZeroColumns,
        r matches Ok(lines) ==> lines@.map_values(|l: String| l@) == seq![title_text(styled, columns as nat)]
            + body_text(columns as int),
{
    match render_body(columns) {
        Err(e) => Err(e),
        Ok(body) => {
            let mut lines: Vec<String> = Vec::new();
            lines.push(table_title(styled, columns));
            let mut k: usize = 0;
            let ghost body_view = body@.map_values(|l: String| l@);
            while k < body.len()
                invariant
                    k <= body@.len(),
                    body_view == body@.map_values(|l: String| l@),
                    lines@.len() == k + 1,
                    lines@[0]@ == title_text(styled, columns as nat),
                    forall|j: int| 1 <= j <= k ==> #[trigger] lines@[j]@ == body@[j - 1]@,
                decreases body@.len() - k,
            {
                lines.push(body[k].clone());
                k = k + 1;
            }
            assert(lines@.map_values(|l: String| l@) =~= seq![title_text(styled, columns as nat)]
                + body_view);
            Ok(lines)
        },
    }
}

} // verus!

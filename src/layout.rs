//! Column-major placement of the table's entries.
//!
//! With `columns` blocks side by side, the table has `rows = ceil(128 / columns)`
//! lines, and the cell at row `r` of block `c` shows the entry `r + rows * c`,
//! so that consecutive codes run down a block before continuing in the next.

use vstd::prelude::*;
use vstd::arithmetic::div_mod::lemma_fundamental_div_mod_converse;
use vstd::arithmetic::div_mod::lemma_fundamental_div_mod;
use vstd::arithmetic::mul::lemma_mul_inequality;

verus! {

/// Number of entries in the table: one for each ASCII code point.
pub const CHAR_COUNT: usize = 128;

/// Integer division rounded toward positive infinity.
pub open spec fn ceil_div(n: int, d: int) -> int {
    (n + d - 1) / d
}

/// Number of lines of a table laid out in `columns` blocks.
pub open spec fn row_count(columns: int) -> int {
    ceil_div(CHAR_COUNT as int, columns)
}

/// The entry shown at row `row` of block `column` when each block has `rows` lines.
pub open spec fn index_at(row: int, column: int, rows: int) -> int {
    row + rows * column
}

/// `ceil(num / den)`, computed without an intermediate sum that could overflow.
pub fn ceil_usize_div(num: usize, den: usize) -> (r: usize)
    requires
        den > 0,
    ensures
        r as int == ceil_div(num as int, den as int),
{
    let q = num / den;
    let m = num % den;
    proof {
        lemma_fundamental_div_mod(num as int, den as int);
        assert(num as int == q * den + m) by (nonlinear_arith)
            requires
                num as int == den * q + m,
        ;
        if m == 0 {
            lemma_fundamental_div_mod_converse(num + den - 1, den as int, q as int, den - 1);
        } else {
            assert(num + den - 1 == (q + 1) * den + (m - 1)) by (nonlinear_arith)
                requires
                    num as int == q * den + m,
            ;
            assert(q < usize::MAX) by (nonlinear_arith)
                requires
                    num as int == q * den + m,
                    0 < m < den,
                    num <= usize::MAX,
            ;
            lemma_fundamental_div_mod_converse(num + den - 1, den as int, q + 1, m - 1);
        }
    }
    if m == 0 {
        q
    } else {
        q + 1
    }
}

/// The entry shown at row `row` of block `column` of a layout whose blocks have
/// `rows` lines, or `None` where that cell lies past the last entry.
pub fn cell_index(row: usize, column: usize, rows: usize) -> (r: Option<usize>)
    ensures
        r == (if index_at(row as int, column as int, rows as int) < CHAR_COUNT {
            Some(index_at(row as int, column as int, rows as int) as usize)
        } else {
            None
        }),
{
    match rows.checked_mul(column) {
        Some(base) => match base.checked_add(row) {
            Some(i) => {
                if i < CHAR_COUNT {
                    Some(i)
                } else {
                    None
                }
            },
            None => None,
        },
        None => None,
    }
}

/// A table in at least one block has between one and 128 lines, and its blocks
/// together hold at least 128 cells.
pub proof fn lemma_row_count_bounds(columns: int)
    requires
        columns >= 1,
    ensures
        1 <= row_count(columns) <= CHAR_COUNT,
        row_count(columns) * columns >= CHAR_COUNT,
{
    let n = CHAR_COUNT as int;
    let rows = row_count(columns);
    lemma_fundamental_div_mod(n + columns - 1, columns);
    let m = (n + columns - 1) % columns;
    assert(rows * columns == n + columns - 1 - m);
    assert(rows >= 1) by (nonlinear_arith)
        requires
            rows * columns == n + columns - 1 - m,
            0 <= m < columns,
            columns >= 1,
            n == 128,
    ;
    assert(rows <= n) by (nonlinear_arith)
        requires
            rows * columns == n + columns - 1 - m,
            0 <= m,
            columns >= 1,
            n == 128,
    ;
}

/// Row of the cell that shows entry `i` in a layout of `columns` blocks.
pub open spec fn row_of(i: int, columns: int) -> int {
    i % row_count(columns)
}

/// Block of the cell that shows entry `i` in a layout of `columns` blocks.
pub open spec fn column_of(i: int, columns: int) -> int {
    i / row_count(columns)
}

/// The cell that placement gives to entry `i` lies inside the layout and shows `i`.
proof fn lemma_entry_cell(i: int, columns: int)
    requires
        columns >= 1,
        0 <= i < CHAR_COUNT,
    ensures
        0 <= row_of(i, columns) < row_count(columns),
        0 <= column_of(i, columns) < columns,
        index_at(row_of(i, columns), column_of(i, columns), row_count(columns)) == i,
{
    let rows = row_count(columns);
    lemma_row_count_bounds(columns);
    lemma_fundamental_div_mod(i, rows);
    let q = i / rows;
    assert(q >= 0) by (nonlinear_arith)
        requires
            i == rows * q + i % rows,
            i % rows < rows,
            i >= 0,
            rows >= 1,
    ;
    if q >= columns {
        lemma_mul_inequality(columns, q, rows);
        assert(rows * q == q * rows && rows * columns == columns * rows) by (nonlinear_arith);
    }
}

/// Placement is a bijection: every entry sits in exactly one cell, at row
/// `index % rows` of block `index / rows`, and every cell that shows an entry
/// is the one that this rule gives for it.
pub proof fn lemma_placement_bijection(columns: int)
    requires
        columns >= 1,
    ensures
        forall|i: int|
            #![trigger row_of(i, columns)]
            #![trigger column_of(i, columns)]
            0 <= i < CHAR_COUNT ==> {
                &&& 0 <= row_of(i, columns) < row_count(columns)
                &&& 0 <= column_of(i, columns) < columns
                &&& index_at(row_of(i, columns), column_of(i, columns), row_count(columns)) == i
            },
        forall|r: int, c: int|
            0 <= r < row_count(columns) && 0 <= c < columns && #[trigger] index_at(
                r,
                c,
                row_count(columns),
            ) < CHAR_COUNT ==> {
                &&& 0 <= index_at(r, c, row_count(columns))
                &&& row_of(index_at(r, c, row_count(columns)), columns) == r
                &&& column_of(index_at(r, c, row_count(columns)), columns) == c
            },
{
    let rows = row_count(columns);
    lemma_row_count_bounds(columns);
    assert forall|i: int|
        #![trigger row_of(i, columns)]
        #![trigger column_of(i, columns)]
        0 <= i < CHAR_COUNT implies {
        &&& 0 <= row_of(i, columns) < rows
        &&& 0 <= column_of(i, columns) < columns
        &&& index_at(row_of(i, columns), column_of(i, columns), rows) == i
    } by {
        lemma_entry_cell(i, columns);
    }
    assert forall|r: int, c: int|
        0 <= r < rows && 0 <= c < columns && #[trigger] index_at(r, c, rows) < CHAR_COUNT implies {
        &&& 0 <= index_at(r, c, rows)
        &&& row_of(index_at(r, c, rows), columns) == r
        &&& column_of(index_at(r, c, rows), columns) == c
    } by {
        assert(rows * c >= 0) by (nonlinear_arith)
            requires
                rows >= 1,
                c >= 0,
        ;
        assert(index_at(r, c, rows) == c * rows + r) by (nonlinear_arith);
        lemma_fundamental_div_mod_converse(index_at(r, c, rows), rows, c, r);
    }
}

/// Once a row runs past the last entry in some block, it does so in every later
/// block as well.
pub proof fn lemma_index_monotonic(row: int, rows: int, c1: int, c2: int)
    requires
        rows >= 0,
        c1 <= c2,
    ensures
        index_at(row, c1, rows) <= index_at(row, c2, rows),
{
    assert(rows * c1 <= rows * c2) by (nonlinear_arith)
        requires
            rows >= 0,
            c1 <= c2,
    ;
}

} // verus!

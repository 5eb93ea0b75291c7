//! The rendering configuration of one invocation: whether the header is
//! styled, and how many column blocks the table is laid out in.

use vstd::prelude::*;
use crate::render::TableError;

verus! {

/// Width in characters of one column block, heading included.
pub const BLOCK_WIDTH: usize = 50;

/// Terminal width assumed where none can be detected.
pub const DEFAULT_TERMINAL_WIDTH: usize = 50;

/// How one table is rendered.
#[derive(Debug, Clone, Copy, PartialEq, Eq, Structural)]
pub struct RenderConfig {
    /// Whether the header line is underlined.
    pub styled: bool,
    /// Number of column blocks side by side; at least 1.
    pub columns: usize,
}

/// The number of blocks that fit in a terminal `width` characters wide, and
/// at least one.
pub open spec fn columns_for(width: int) -> int {
    if width / (BLOCK_WIDTH as int) < 1 {
        1
    } else {
        width / (BLOCK_WIDTH as int)
    }
}

/// The terminal width to lay out for: the detected one, or the default.
pub open spec fn effective_width(terminal_width: Option<usize>) -> int {
    match terminal_width {
        Some(w) => w as int,
        None => DEFAULT_TERMINAL_WIDTH as int,
    }
}

/// The number of column blocks that fit in a terminal `width` characters
/// wide; a terminal narrower than one block still gets one.
pub fn columns_for_width(width: usize) -> (r: usize)
    ensures
        r as int == columns_for(width as int),
        r >= 1,
{
    let fit = width / BLOCK_WIDTH;
    if fit < 1 {
        1
    } else {
        fit
    }
}

/// The configuration for the given options: `limit` is the column count asked
/// for, if any, and `terminal_width` the detected width of the terminal, if any.
/// An explicit limit of zero is refused.
pub fn resolve_config(no_style: bool, limit: Option<usize>, terminal_width: Option<usize>) -> (r:
    Result<RenderConfig, TableError>)
    ensures
        r is Err <==> limit == Some(0usize),
        r matches Err(e) ==> e == TableError::ZeroColumns,
        r matches Ok(c) ==> c.styled == !no_style && c.columns >= 1 && c.columns as int == match limit {
            Some(l) => l as int,
            None => columns_for(effective_width(terminal_width)),
        },
{
    let columns = match limit {
        Some(l) => {
            if l == 0 {
                return Err(TableError::ZeroColumns);
            }
            l
        },
        None => {
            let width = match terminal_width {
                Some(w) => w,
                None => DEFAULT_TERMINAL_WIDTH,
            };
            columns_for_width(width)
        },
    };
    Ok(RenderConfig { styled: !no_style, columns })
}

} // verus!

use ascii_table::config::{columns_for_width, resolve_config, RenderConfig};
use ascii_table::fields::{decimal_field, hex_field, octal_field, pad};
use ascii_table::labels::label;
use ascii_table::layout::{ceil_usize_div, cell_index, CHAR_COUNT};
use ascii_table::render::{format_cell, render_body, render_row, table_lines, table_title, TableError};

fn heading() -> String {
    format!("{:6} {:6} {:6} {:28}", "Oct", "Dec", "Hex", "Char")
}

#[test]
fn ceil_division_rounds_up() {
    assert_eq!(ceil_usize_div(128, 1), 128);
    assert_eq!(ceil_usize_div(128, 2), 64);
    assert_eq!(ceil_usize_div(128, 3), 43);
    assert_eq!(ceil_usize_div(128, 5), 26);
    assert_eq!(ceil_usize_div(128, 128), 1);
    assert_eq!(ceil_usize_div(128, 1000), 1);
    assert_eq!(ceil_usize_div(0, 7), 0);
    assert_eq!(ceil_usize_div(usize::MAX, 2), usize::MAX / 2 + 1);
    assert_eq!(ceil_usize_div(usize::MAX, usize::MAX), 1);
}

#[test]
fn cell_index_is_column_major() {
    assert_eq!(cell_index(0, 0, 43), Some(0));
    assert_eq!(cell_index(1, 0, 43), Some(1));
    assert_eq!(cell_index(0, 1, 43), Some(43));
    assert_eq!(cell_index(41, 2, 43), Some(127));
    assert_eq!(cell_index(42, 2, 43), None);
    assert_eq!(cell_index(0, usize::MAX, 2), None);
    assert_eq!(cell_index(usize::MAX, 1, 1), None);
}

#[test]
fn body_has_ceil_rows() {
    for columns in 1..=200usize {
        let lines = render_body(columns).unwrap();
        assert_eq!(lines.len(), (128 + columns - 1) / columns);
    }
}

#[test]
fn every_entry_in_exactly_one_cell() {
    for columns in 1..=130usize {
        let rows = ceil_usize_div(CHAR_COUNT, columns);
        let mut seen = vec![0usize; 128];
        for r in 0..rows {
            for c in 0..columns {
                if let Some(i) = cell_index(r, c, rows) {
                    seen[i] += 1;
                    assert_eq!(i % rows, r);
                    assert_eq!(i / rows, c);
                }
            }
        }
        assert!(seen.iter().all(|&n| n == 1));
    }
}

#[test]
fn single_column_lists_each_entry_in_order() {
    let lines = render_body(1).unwrap();
    assert_eq!(lines.len(), 128);
    for i in 0..128usize {
        assert_eq!(lines[i], format_cell(i));
    }
}

#[test]
fn wide_layout_is_one_line() {
    let all: String = (0..128usize).map(format_cell).collect();
    for columns in [128usize, 129, 500] {
        let lines = render_body(columns).unwrap();
        assert_eq!(lines.len(), 1);
        assert_eq!(lines[0], all);
    }
}

#[test]
fn fields_of_letter_a() {
    assert_eq!(octal_field(65), "101");
    assert_eq!(decimal_field(65), "65");
    assert_eq!(hex_field(65), "41");
    assert_eq!(label(65), "A");
}

#[test]
fn fields_of_nul_and_del() {
    assert_eq!(octal_field(0), "000");
    assert_eq!(decimal_field(0), "0");
    assert_eq!(hex_field(0), "00");
    assert_eq!(label(0), "NUL '\\0' (null character)");
    assert_eq!(label(127), "DEL");
    assert_eq!(octal_field(127), "177");
    assert_eq!(decimal_field(127), "127");
    assert_eq!(hex_field(127), "7f");
}

#[test]
fn labels_of_edge_characters() {
    assert_eq!(label(32), "SPACE");
    assert_eq!(label(10), "LF  '\\n' (new line)");
    assert_eq!(label(92), "\\  '\\\\'");
    assert_eq!(label(126), "~");
}

#[test]
fn decimal_of_larger_numbers() {
    assert_eq!(decimal_field(9), "9");
    assert_eq!(decimal_field(10), "10");
    assert_eq!(decimal_field(1000), "1000");
    assert_eq!(decimal_field(usize::MAX), usize::MAX.to_string());
}

#[test]
fn hex_is_lower_case() {
    assert_eq!(hex_field(0x1f), "1f");
    assert_eq!(hex_field(0xab), "ab");
    assert_eq!(octal_field(8), "010");
}

#[test]
fn padding_extends_and_keeps() {
    assert_eq!(pad("ab", 5), "ab   ");
    assert_eq!(pad("abcdef", 3), "abcdef");
    assert_eq!(pad("", 2), "  ");
    assert_eq!(pad("xyz", 3), "xyz");
}

#[test]
fn cell_of_letter_a() {
    assert_eq!(format_cell(65), format!("{:6} {:6} {:6} {:28}", "101", "65", "41", "A"));
    assert_eq!(format_cell(65).len(), 49);
}

#[test]
fn cell_of_nul() {
    assert_eq!(
        format_cell(0),
        format!("{:6} {:6} {:6} {:28}", "000", "0", "00", "NUL '\\0' (null character)")
    );
}

#[test]
fn plain_title_for_two_columns() {
    let title = table_title(false, 2);
    assert_eq!(title, format!("{}{}", heading(), heading()));
    assert_eq!(heading().len(), format_cell(0).len());
    assert_eq!(heading().len(), format_cell(127).len());
}

#[test]
fn title_for_zero_columns_is_empty() {
    assert_eq!(table_title(false, 0), "");
}

#[test]
fn styled_title_is_underlined() {
    assert_eq!(table_title(true, 1), format!("\x1b[4m{}\x1b[0m", heading()));
    assert_eq!(table_title(true, 3), format!("\x1b[4m{}\x1b[0m", heading().repeat(3)));
}

#[test]
fn zero_columns_is_an_error() {
    assert_eq!(render_body(0), Err(TableError::ZeroColumns));
    assert_eq!(table_lines(true, 0), Err(TableError::ZeroColumns));
    assert_eq!(TableError::ZeroColumns.message(), "columns must be at least 1");
}

#[test]
fn two_column_rows() {
    let lines = render_body(2).unwrap();
    assert_eq!(lines.len(), 64);
    assert_eq!(lines[0], format!("{}{}", format_cell(0), format_cell(64)));
    assert_eq!(lines[63], format!("{}{}", format_cell(63), format_cell(127)));
    assert_eq!(render_row(1, 2), lines[1]);
}

#[test]
fn last_block_rows_are_shorter() {
    let lines = render_body(3).unwrap();
    assert_eq!(lines.len(), 43);
    assert_eq!(lines[41], format!("{}{}{}", format_cell(41), format_cell(84), format_cell(127)));
    assert_eq!(lines[42], format!("{}{}", format_cell(42), format_cell(85)));
}

#[test]
fn table_lines_start_with_title() {
    let lines = table_lines(false, 4).unwrap();
    assert_eq!(lines.len(), 33);
    assert_eq!(lines[0], table_title(false, 4));
    assert_eq!(lines[1..].to_vec(), render_body(4).unwrap());
}

#[test]
fn explicit_limit_is_used() {
    assert_eq!(
        resolve_config(false, Some(3), Some(400)),
        Ok(RenderConfig { styled: true, columns: 3 })
    );
    assert_eq!(
        resolve_config(true, Some(1), None),
        Ok(RenderConfig { styled: false, columns: 1 })
    );
}

#[test]
fn explicit_zero_limit_is_refused() {
    assert_eq!(resolve_config(false, Some(0), Some(200)), Err(TableError::ZeroColumns));
}

#[test]
fn columns_follow_terminal_width() {
    assert_eq!(resolve_config(false, None, Some(120)).unwrap().columns, 2);
    assert_eq!(resolve_config(false, None, Some(200)).unwrap().columns, 4);
    assert_eq!(resolve_config(false, None, None).unwrap().columns, 1);
}

#[test]
fn narrow_terminal_gets_one_column() {
    assert_eq!(resolve_config(false, None, Some(30)).unwrap().columns, 1);
    assert_eq!(columns_for_width(0), 1);
    assert_eq!(columns_for_width(49), 1);
    assert_eq!(columns_for_width(50), 1);
    assert_eq!(columns_for_width(149), 2);
}

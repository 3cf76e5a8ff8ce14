//! The part of `rust_xlsxwriter` that the conversion relies on, with its model.
//!
//! A worksheet is modelled by the text of its cells, keyed by (row, column);
//! a workbook by the cells of its worksheets, in order.

use vstd::prelude::*;
use rust_xlsxwriter::{Workbook, Worksheet, XlsxError};

verus! {

/// Number of rows of a worksheet; rows are numbered from 0.
pub const MAX_ROWS: u32 = 1_048_576;

/// Number of columns of a worksheet; columns are numbered from 0.
pub const MAX_COLS: u16 = 16_384;

/// Most characters that one cell can hold.
pub const MAX_CELL_CHARS: usize = 32_767;

#[verifier::external_type_specification]
#[verifier::external_body]
pub struct ExWorkbook(Workbook);

#[verifier::external_type_specification]
#[verifier::external_body]
pub struct ExWorksheet(Worksheet);

#[verifier::external_type_specification]
#[verifier::external_body]
pub struct ExXlsxError(XlsxError);

/// The text cells that a worksheet holds, keyed by (row, column).
pub uninterp spec fn sheet_cells(w: Worksheet) -> Map<(u32, u16), Seq<char>>;

/// Whether a worksheet keeps every written cell in memory (it was not made in
/// the writer's constant-memory mode, which flushes rows as it goes).
pub uninterp spec fn sheet_keeps_cells(w: Worksheet) -> bool;

/// The cells of each worksheet of a workbook, in the workbook's order.
pub uninterp spec fn book_sheets(b: Workbook) -> Seq<Map<(u32, u16), Seq<char>>>;

/// Whether the writer accepts `text` at (`row`, `col`). An empty text is
/// accepted anywhere, since it writes no cell.
pub open spec fn cell_fits(row: int, col: int, text: Seq<char>) -> bool {
    text.len() == 0 || (row < MAX_ROWS && col < MAX_COLS && text.len() <= MAX_CELL_CHARS)
}

/// Relies on `Worksheet::new`: a new worksheet holds no cell and keeps the
/// cells written to it.
#[verifier::external_body]
pub(crate) fn new_worksheet() -> (r: Worksheet)
    ensures
        sheet_cells(r).dom().is_empty(),
        sheet_keeps_cells(r),
{
    Worksheet::new()
}

/// Relies on `Worksheet::write` for a string, which is `store_string` without
/// a format: an empty string is skipped; otherwise a row or column out of
/// range, or more than `MAX_CELL_CHARS` characters, is refused and no cell is
/// written; otherwise the cell at (`row`, `col`) holds the string.
#[verifier::external_body]
pub(crate) fn write_text(w: &mut Worksheet, row: u32, col: u16, text: &str) -> (r: Result<(), XlsxError>)
    ensures
        sheet_keeps_cells(*old(w)) ==> sheet_keeps_cells(*final(w)),
        r is Ok <==> cell_fits(row as int, col as int, text@),
        sheet_keeps_cells(*old(w)) ==> sheet_cells(*final(w)) == if text@.len() > 0 && r is Ok {
            sheet_cells(*old(w)).insert((row, col), text@)
        } else {
            sheet_cells(*old(w))
        },
{
    w.write(row, col, text).map(|_| ())
}

/// Relies on `Workbook::new`: a new workbook holds no worksheet.
#[verifier::external_body]
pub(crate) fn new_workbook() -> (r: Workbook)
    ensures
        book_sheets(r).len() == 0,
{
    Workbook::new()
}

/// Relies on `Workbook::push_worksheet`: the worksheet is appended after the
/// others; only its name may be set, never its cells.
#[verifier::external_body]
pub(crate) fn push_worksheet(b: &mut Workbook, w: Worksheet)
    ensures
        book_sheets(*final(b)) == book_sheets(*old(b)).push(sheet_cells(w)),
{
    b.push_worksheet(w)
}

/// Relies on `Workbook::save_to_buffer`, which packs the workbook into the
/// bytes of an xlsx file. The bytes carry the time of saving, so nothing is
/// stated of them.
#[verifier::external_body]
pub(crate) fn save_to_buffer(b: &mut Workbook) -> (r: Result<Vec<u8>, XlsxError>) {
    b.save_to_buffer()
}

} // verus!

//! Conversion of USV records, groups and text into worksheets and workbooks.

use vstd::prelude::*;
use rust_xlsxwriter::{Workbook, Worksheet, XlsxError};
use crate::grid::{
    first_misfit, first_misfit_in, grid_of, grid_upto, groups_fit, is_unit, precedes, records_fit,
    sheets_of,
};
use crate::tokens::{
    files_view, groups_view, records_view, split_files, split_groups, split_records, usv_files,
    usv_groups, usv_records,
};
use crate::xlsx::{
    book_sheets, cell_fits, new_workbook, new_worksheet, push_worksheet, save_to_buffer, sheet_cells,
    sheet_keeps_cells, write_text,
};

verus! {

/// A unit that the writer refused: its place and the writer's error.
#[derive(Debug)]
pub struct CellError {
    /// Index of the record, which is the row.
    pub record: usize,
    /// Index of the unit within its record, which is the column.
    pub unit: usize,
    /// What the writer reported.
    pub cause: XlsxError,
}

/// Why a conversion failed.
#[derive(Debug)]
pub enum ConvertError {
    /// The writer refused unit `unit` of record `record` of group `group`.
    Cell { group: usize, record: usize, unit: usize, cause: XlsxError },
    /// The writer could not pack the workbook into bytes.
    Save(XlsxError),
    /// The number of output destinations differs from the number of files.
    DestinationCount { files: usize, destinations: usize },
}

/// What converting `recs` into a worksheet returns: the worksheet of their
/// cells when the writer accepts every unit, else the first unit it refuses.
pub open spec fn sheet_result(recs: Seq<Seq<Seq<char>>>, r: Result<Worksheet, CellError>) -> bool {
    match r {
        Ok(w) => records_fit(recs) && sheet_keeps_cells(w) && sheet_cells(w) == grid_of(recs),
        Err(e) => first_misfit(recs, e.record as int, e.unit as int),
    }
}

/// What converting `groups` into a workbook returns: the workbook with one
/// worksheet per group when the writer accepts every unit, else the first
/// unit it refuses.
pub open spec fn book_result(groups: Seq<Seq<Seq<Seq<char>>>>, r: Result<Workbook, ConvertError>) -> bool {
    match r {
        Ok(b) => groups_fit(groups) && book_sheets(b) == sheets_of(groups),
        Err(ConvertError::Cell { group, record, unit, .. }) => first_misfit_in(
            groups,
            group as int,
            record as int,
            unit as int,
        ),
        Err(_) => false,
    }
}

/// What converting `groups` into the bytes of an xlsx file returns: a refused
/// unit exactly as `book_result` says; otherwise the bytes, or the writer's
/// error when it could not pack them.
pub open spec fn buffer_result(groups: Seq<Seq<Seq<Seq<char>>>>, r: Result<Vec<u8>, ConvertError>) -> bool {
    match r {
        Ok(_) => groups_fit(groups),
        Err(ConvertError::Cell { group, record, unit, .. }) => first_misfit_in(
            groups,
            group as int,
            record as int,
            unit as int,
        ),
        Err(ConvertError::Save(_)) => groups_fit(groups),
        Err(ConvertError::DestinationCount { .. }) => false,
    }
}

proof fn lemma_grid_step(recs: Seq<Seq<Seq<char>>>, i: int, j: int)
    requires
        is_unit(recs, i, j),
        recs[i][j].len() > 0 ==> i <= u32::MAX && j <= u16::MAX,
    ensures
        grid_upto(recs, i, j + 1) =~= if recs[i][j].len() > 0 {
            grid_upto(recs, i, j).insert((i as u32, j as u16), recs[i][j])
        } else {
            grid_upto(recs, i, j)
        },
{
}

proof fn lemma_grid_next_row(recs: Seq<Seq<Seq<char>>>, i: int)
    requires
        0 <= i < recs.len(),
    ensures
        grid_upto(recs, i, recs[i].len() as int) =~= grid_upto(recs, i + 1, 0),
{
}

proof fn lemma_grid_whole(recs: Seq<Seq<Seq<char>>>)
    ensures
        grid_upto(recs, recs.len() as int, 0) =~= grid_of(recs),
{
}

/// Converts USV records into a worksheet: unit `j` of record `i` is written
/// to row `i`, column `j`. Stops at the first unit that the writer refuses.
pub fn usv_records_to_xlsx_worksheet(records: &Vec<Vec<String>>) -> (r: Result<Worksheet, CellError>)
    ensures
        sheet_result(records_view(*records), r),
        r is Ok <==> records_fit(records_view(*records)),
{
    let ghost recs = records_view(*records);
    let mut worksheet = new_worksheet();
    proof {
        assert(sheet_cells(worksheet) =~= grid_upto(recs, 0, 0));
    }
    let mut i: usize = 0;
    while i < records.len()
        invariant
            recs == records_view(*records),
            0 <= i <= records@.len(),
            sheet_keeps_cells(worksheet),
            sheet_cells(worksheet) == grid_upto(recs, i as int, 0),
            forall|i2: int, j2: int|
                is_unit(recs, i2, j2) && i2 < i ==> cell_fits(i2, j2, #[trigger] recs[i2][j2]),
        decreases records@.len() - i,
    {
        let record = &records[i];
        // A record index past the range of row numbers is beyond the last
        // row anyway, and the writer refuses it just the same.
        let row: u32 = if i <= u32::MAX as usize { i as u32 } else { u32::MAX };
        let mut j: usize = 0;
        while j < record.len()
            invariant
                recs == records_view(*records),
                0 <= i < records@.len(),
                record == records@[i as int],
                row as int == if i <= u32::MAX { i as int } else { u32::MAX as int },
                0 <= j <= record@.len(),
                sheet_keeps_cells(worksheet),
                sheet_cells(worksheet) == grid_upto(recs, i as int, j as int),
                forall|i2: int, j2: int|
                    is_unit(recs, i2, j2) && precedes(i2, j2, i as int, j as int) ==> cell_fits(
                        i2,
                        j2,
                        #[trigger] recs[i2][j2],
                    ),
            decreases record@.len() - j,
        {
            let col: u16 = if j <= u16::MAX as usize { j as u16 } else { u16::MAX };
            let unit: &str = record[j].as_str();
            proof {
                assert(recs[i as int][j as int] == unit@);
            }
            match write_text(&mut worksheet, row, col, unit) {
                Ok(()) => {},
                Err(cause) => {
                    return Err(CellError { record: i, unit: j, cause });
                },
            }
            proof {
                lemma_grid_step(recs, i as int, j as int);
            }
            j = j + 1;
        }
        proof {
            lemma_grid_next_row(recs, i as int);
        }
        i = i + 1;
    }
    proof {
        lemma_grid_whole(recs);
    }
    Ok(worksheet)
}

/// Converts one USV group into a worksheet, as
/// `usv_records_to_xlsx_worksheet` does with its records.
pub fn usv_group_to_xlsx_worksheet(group: &Vec<Vec<String>>) -> (r: Result<Worksheet, CellError>)
    ensures
        sheet_result(records_view(*group), r),
        r is Ok <==> records_fit(records_view(*group)),
{
    usv_records_to_xlsx_worksheet(group)
}

/// Converts the records of USV text into a worksheet; group and file
/// separators are ignored.
pub fn usv_to_xlsx_worksheet(usv: &str) -> (r: Result<Worksheet, CellError>)
    ensures
        sheet_result(usv_records(usv@), r),
        r is Ok <==> records_fit(usv_records(usv@)),
{
    let records = split_records(usv);
    usv_records_to_xlsx_worksheet(&records)
}

/// Converts USV groups into a workbook: group `g` becomes worksheet `g`.
/// Stops at the first unit that the writer refuses.
pub fn usv_groups_to_xlsx_workbook(groups: &Vec<Vec<Vec<String>>>) -> (r: Result<Workbook, ConvertError>)
    ensures
        book_result(groups_view(*groups), r),
        r is Ok <==> groups_fit(groups_view(*groups)),
{
    let ghost gs = groups_view(*groups);
    let mut workbook = new_workbook();
    proof {
        assert(book_sheets(workbook) =~= sheets_of(gs.take(0)));
    }
    let mut g: usize = 0;
    while g < groups.len()
        invariant
            gs == groups_view(*groups),
            0 <= g <= groups@.len(),
            book_sheets(workbook) == sheets_of(gs.take(g as int)),
            forall|h: int| 0 <= h < g ==> records_fit(#[trigger] gs[h]),
        decreases groups@.len() - g,
    {
        match usv_group_to_xlsx_worksheet(&groups[g]) {
            Ok(worksheet) => {
                push_worksheet(&mut workbook, worksheet);
                proof {
                    assert(gs.take(g + 1) =~= gs.take(g as int).push(gs[g as int]));
                    assert(sheets_of(gs.take(g + 1)) =~= sheets_of(gs.take(g as int)).push(
                        grid_of(gs[g as int]),
                    ));
                }
            },
            Err(e) => {
                return Err(ConvertError::Cell { group: g, record: e.record, unit: e.unit, cause: e.cause });
            },
        }
        g = g + 1;
    }
    proof {
        assert(gs.take(g as int) =~= gs);
    }
    Ok(workbook)
}

/// Converts USV text into a workbook with one worksheet per group, in order.
/// Text without groups gives a workbook without worksheets.
pub fn usv_to_xlsx_workbook(usv: &str) -> (r: Result<Workbook, ConvertError>)
    ensures
        book_result(usv_groups(usv@), r),
        r is Ok <==> groups_fit(usv_groups(usv@)),
        usv@.len() == 0 ==> (r matches Ok(b) && book_sheets(b).len() == 0),
{
    let groups = split_groups(usv);
    usv_groups_to_xlsx_workbook(&groups)
}

/// Converts USV text into the bytes of an xlsx file.
pub fn usv_to_xlsx_buffer(usv: &str) -> (r: Result<Vec<u8>, ConvertError>)
    ensures
        buffer_result(usv_groups(usv@), r),
{
    match usv_to_xlsx_workbook(usv) {
        Ok(mut workbook) => match save_to_buffer(&mut workbook) {
            Ok(bytes) => Ok(bytes),
            Err(cause) => Err(ConvertError::Save(cause)),
        },
        Err(e) => Err(e),
    }
}

/// Splits USV text into its files, one for each of `destinations` output
/// targets. A count that differs from the number of files is an error, found
/// before any file is converted.
pub fn usv_files_for_destinations(usv: &str, destinations: usize) -> (r: Result<
    Vec<Vec<Vec<Vec<String>>>>,
    ConvertError,
>)
    ensures
        match r {
            Ok(files) => files_view(files) == usv_files(usv@) && files@.len() == destinations,
            Err(ConvertError::DestinationCount { files, destinations: d }) => {
                &&& files == usv_files(usv@).len()
                &&& d == destinations
                &&& files != destinations
            },
            Err(_) => false,
        },
{
    let files = split_files(usv);
    if files.len() != destinations {
        return Err(ConvertError::DestinationCount { files: files.len(), destinations });
    }
    Ok(files)
}

} // verus!

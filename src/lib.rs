//! Conversion of Unicode Separated Values (USV) text into XLSX workbooks.
//!
//! Text is split into files, groups, records and units by the `usv` crate; each
//! group becomes one worksheet, each record one row and each unit one cell, in
//! order. The workbook is assembled and serialized by `rust_xlsxwriter`.

pub mod args;
pub mod convert;
pub mod grid;
pub mod laws;
pub mod tokens;
pub mod xlsx;

pub use args::{clap, u8_to_log_level, Args, LogLevel};
pub use convert::{
    usv_files_for_destinations, usv_group_to_xlsx_worksheet, usv_groups_to_xlsx_workbook,
    usv_records_to_xlsx_worksheet, usv_to_xlsx_buffer, usv_to_xlsx_workbook,
    usv_to_xlsx_worksheet, CellError, ConvertError,
};

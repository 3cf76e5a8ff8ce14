use std::io::Read;

use rust_xlsxwriter::Workbook;
use usv::examples::{
    EXAMPLE_GROUPS_STYLE_SYMBOLS, EXAMPLE_GROUP_STYLE_SYMBOLS, EXAMPLE_RECORDS_STYLE_SYMBOLS,
};
use usv::StrExt;
use usv_to_xlsx::{
    usv_files_for_destinations, usv_group_to_xlsx_worksheet, usv_groups_to_xlsx_workbook,
    usv_records_to_xlsx_worksheet, usv_to_xlsx_buffer, usv_to_xlsx_workbook,
    usv_to_xlsx_worksheet, ConvertError,
};

/// Reads one member of an xlsx file as text, or `None` when it is absent.
fn member(bytes: &[u8], name: &str) -> Option<String> {
    let mut archive = zip::ZipArchive::new(std::io::Cursor::new(bytes.to_vec())).unwrap();
    let mut file = match archive.by_name(name) {
        Ok(file) => file,
        Err(_) => return None,
    };
    let mut text = String::new();
    file.read_to_string(&mut text).unwrap();
    Some(text)
}

/// The shared strings of an xlsx file, in index order.
fn shared_strings(bytes: &[u8]) -> Vec<String> {
    let xml = member(bytes, "xl/sharedStrings.xml").unwrap_or_default();
    xml.split("<si>")
        .skip(1)
        .map(|si| {
            let start = si.find('>').unwrap() + 1;
            let end = si.find("</t>").unwrap();
            si[start..end].to_string()
        })
        .collect()
}

/// The cells of worksheet `n` (from 1) as (reference, text), in file order.
fn sheet_cells(bytes: &[u8], n: usize) -> Vec<(String, String)> {
    let strings = shared_strings(bytes);
    let xml = member(bytes, &format!("xl/worksheets/sheet{}.xml", n)).unwrap();
    xml.split("<c r=\"")
        .skip(1)
        .map(|c| {
            let reference = c[..c.find('"').unwrap()].to_string();
            let v_start = c.find("<v>").unwrap() + 3;
            let v_end = c.find("</v>").unwrap();
            let index: usize = c[v_start..v_end].parse().unwrap();
            (reference, strings[index].clone())
        })
        .collect()
}

fn cells(pairs: &[(&str, &str)]) -> Vec<(String, String)> {
    pairs.iter().map(|(r, t)| (r.to_string(), t.to_string())).collect()
}

fn units(texts: &[&str]) -> Vec<String> {
    texts.iter().map(|t| t.to_string()).collect()
}

fn save(mut workbook: Workbook) -> Vec<u8> {
    workbook.save_to_buffer().unwrap()
}

#[test]
fn usv_to_xlsx_buffer_test() {
    let input = EXAMPLE_GROUPS_STYLE_SYMBOLS;
    let actual = usv_to_xlsx_buffer(input).unwrap();
    assert!(!actual.is_empty());
}

#[test]
fn usv_to_xlsx_workbook_test() {
    let input = EXAMPLE_GROUPS_STYLE_SYMBOLS;
    let mut workbook = usv_to_xlsx_workbook(input).unwrap();
    assert_eq!((*workbook.worksheets()).len(), 2);
}

#[test]
fn usv_to_xlsx_worksheet_test() {
    let input = EXAMPLE_GROUPS_STYLE_SYMBOLS;
    let _worksheet = usv_to_xlsx_worksheet(input).unwrap();
}

#[test]
fn usv_group_to_xlsx_worksheet_test() {
    let input: usv::Group = EXAMPLE_GROUP_STYLE_SYMBOLS.groups().next().unwrap();
    let _worksheet = usv_group_to_xlsx_worksheet(&input).unwrap();
}

#[test]
fn usv_records_to_xlsx_worksheet_test() {
    let input: usv::Records = EXAMPLE_RECORDS_STYLE_SYMBOLS.records().collect();
    let _worksheet = usv_records_to_xlsx_worksheet(&input).unwrap();
}

#[test]
fn one_group_gives_one_worksheet_of_two_rows() {
    let bytes = usv_to_xlsx_buffer("a␟b␟␞c␟d␟␞␝").unwrap();
    assert!(member(&bytes, "xl/worksheets/sheet1.xml").is_some());
    assert!(member(&bytes, "xl/worksheets/sheet2.xml").is_none());
    assert_eq!(
        sheet_cells(&bytes, 1),
        cells(&[("A1", "a"), ("B1", "b"), ("A2", "c"), ("B2", "d")])
    );
}

#[test]
fn two_groups_give_two_worksheets_in_order() {
    let mut workbook = usv_to_xlsx_workbook("a␟b␟␞c␟d␟␞␝e␟f␟␞g␟h␟␞␝").unwrap();
    assert_eq!(workbook.worksheets().len(), 2);
    let bytes = save(workbook);
    assert!(member(&bytes, "xl/worksheets/sheet3.xml").is_none());
    assert_eq!(
        sheet_cells(&bytes, 1),
        cells(&[("A1", "a"), ("B1", "b"), ("A2", "c"), ("B2", "d")])
    );
    assert_eq!(
        sheet_cells(&bytes, 2),
        cells(&[("A1", "e"), ("B1", "f"), ("A2", "g"), ("B2", "h")])
    );
}

#[test]
fn empty_text_gives_no_worksheets() {
    let mut workbook = usv_to_xlsx_workbook("").unwrap();
    assert_eq!(workbook.worksheets().len(), 0);
}

#[test]
fn two_files_give_two_workbooks() {
    let text = "a␟b␟␞c␟d␟␞␝␜a␟b␟␞c␟d␟␞␝␜";
    let files = usv_files_for_destinations(text, 2).unwrap();
    assert_eq!(files.len(), 2);
    for file in files.iter() {
        let mut workbook = usv_groups_to_xlsx_workbook(file).unwrap();
        assert_eq!(workbook.worksheets().len(), 1);
        let bytes = save(workbook);
        assert_eq!(
            sheet_cells(&bytes, 1),
            cells(&[("A1", "a"), ("B1", "b"), ("A2", "c"), ("B2", "d")])
        );
    }
}

#[test]
fn fewer_destinations_than_files_is_an_error() {
    let text = "a␟b␟␞c␟d␟␞␝␜a␟b␟␞c␟d␟␞␝␜";
    match usv_files_for_destinations(text, 1) {
        Err(ConvertError::DestinationCount { files, destinations }) => {
            assert_eq!(files, 2);
            assert_eq!(destinations, 1);
        }
        other => panic!("unexpected {:?}", other.map(|f| f.len())),
    }
}

#[test]
fn more_destinations_than_files_is_an_error() {
    let text = "a␟b␟␞␝␜";
    assert!(matches!(
        usv_files_for_destinations(text, 3),
        Err(ConvertError::DestinationCount { files: 1, destinations: 3 })
    ));
}

#[test]
fn units_keep_their_columns_and_records_their_rows() {
    let groups = vec![
        vec![units(&["a", "b", "c"]), units(&[]), units(&["d"])],
        vec![],
        vec![units(&["", "e"])],
    ];
    let mut workbook = usv_groups_to_xlsx_workbook(&groups).unwrap();
    assert_eq!(workbook.worksheets().len(), 3);
    let bytes = save(workbook);
    assert_eq!(
        sheet_cells(&bytes, 1),
        cells(&[("A1", "a"), ("B1", "b"), ("C1", "c"), ("A3", "d")])
    );
    assert_eq!(sheet_cells(&bytes, 2), cells(&[]));
    assert_eq!(sheet_cells(&bytes, 3), cells(&[("B1", "e")]));
}

#[test]
fn converting_twice_gives_the_same_cells() {
    let text = "a␟b␟␞c␟d␟␞␝e␟f␟␞g␟h␟␞␝";
    let first = usv_to_xlsx_buffer(text).unwrap();
    let second = usv_to_xlsx_buffer(text).unwrap();
    for n in 1..=2 {
        assert_eq!(sheet_cells(&first, n), sheet_cells(&second, n));
    }
    assert_eq!(shared_strings(&first), shared_strings(&second));
}

#[test]
fn too_long_unit_is_refused_at_its_place() {
    let long = "x".repeat(32_768);
    let groups = vec![vec![units(&["a"]), vec!["b".to_string(), long]]];
    match usv_groups_to_xlsx_workbook(&groups) {
        Err(ConvertError::Cell { group, record, unit, .. }) => {
            assert_eq!((group, record, unit), (0, 1, 1));
        }
        _ => panic!("expected a refused cell"),
    }
}

#[test]
fn longest_unit_is_accepted() {
    let longest = "x".repeat(32_767);
    let records = vec![vec![longest]];
    assert!(usv_records_to_xlsx_worksheet(&records).is_ok());
}

#[test]
fn column_past_the_last_is_refused() {
    let record: Vec<String> = (0..16_385).map(|_| "x".to_string()).collect();
    let records = vec![record];
    let error = usv_records_to_xlsx_worksheet(&records).err().unwrap();
    assert_eq!((error.record, error.unit), (0, 16_384));
}

#[test]
fn empty_unit_past_the_last_column_is_accepted() {
    let mut record: Vec<String> = (0..16_384).map(|_| "x".to_string()).collect();
    record.push(String::new());
    let records = vec![record];
    assert!(usv_records_to_xlsx_worksheet(&records).is_ok());
}

#[test]
fn row_past_the_last_is_refused() {
    let mut records: Vec<Vec<String>> = vec![Vec::new(); 1_048_576];
    records.push(units(&["z"]));
    let error = usv_records_to_xlsx_worksheet(&records).err().unwrap();
    assert_eq!((error.record, error.unit), (1_048_576, 0));
}

#[test]
fn refused_cell_in_second_group_names_that_group() {
    let text = format!("a␟␞␝b␟{}␟␞␝", "y".repeat(40_000));
    match usv_to_xlsx_buffer(&text) {
        Err(ConvertError::Cell { group, record, unit, .. }) => {
            assert_eq!((group, record, unit), (1, 0, 1));
        }
        _ => panic!("expected a refused cell"),
    }
}

#[test]
fn worksheet_from_text_reads_records_across_groups() {
    let bytes = {
        let mut workbook = Workbook::new();
        workbook.push_worksheet(usv_to_xlsx_worksheet("a␟␞␝b␟␞␝").unwrap());
        save(workbook)
    };
    assert_eq!(sheet_cells(&bytes, 1), cells(&[("A1", "a"), ("A2", "b")]));
}

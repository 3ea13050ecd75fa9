use calamine::{Data, Reader, Xlsx};
use csv_to_xlsx::build_sheets;
use csv_to_xlsx::excel_writer::ExcelSheet;
use csv_to_xlsx::ExcelSheetInfo;
use std::io::Cursor;

fn info(name: &str, tab_color: &str) -> ExcelSheetInfo {
    ExcelSheetInfo::new("test.csv".to_string(), name.to_string(), tab_color.to_string())
}

fn read_back(sheets: Vec<rust_xlsxwriter::Worksheet>) -> Xlsx<Cursor<Vec<u8>>> {
    let mut workbook = rust_xlsxwriter::Workbook::new();
    for worksheet in sheets {
        workbook.push_worksheet(worksheet);
    }
    let buffer = workbook.save_to_buffer().unwrap();
    Xlsx::new(Cursor::new(buffer)).unwrap()
}

fn one_sheet(source: &[u8]) -> calamine::Range<Data> {
    let sheet = ExcelSheet::new(info("Sheet1", "FF0000"));
    let (worksheet, _rows) = sheet.write_worksheet(source).unwrap();
    let mut xlsx = read_back(vec![worksheet]);
    xlsx.worksheet_range("Sheet1").unwrap()
}

#[test]
fn test_example_worksheet() {
    let range = one_sheet(b"col1,col2\n10,hello\n,3.5\n");
    assert_eq!(range.get_value((0, 0)), Some(&Data::String("col1".to_string())));
    assert_eq!(range.get_value((0, 1)), Some(&Data::String("col2".to_string())));
    assert_eq!(range.get_value((1, 0)), Some(&Data::Float(10.0)));
    assert_eq!(range.get_value((1, 1)), Some(&Data::String("hello".to_string())));
    assert!(matches!(range.get_value((2, 0)), None | Some(&Data::Empty)));
    assert_eq!(range.get_value((2, 1)), Some(&Data::Float(3.5)));
}

#[test]
fn test_number_roundtrip_exact() {
    let range = one_sheet(b"a\n2.5e-3\n0.1\n-42\n");
    assert_eq!(range.get_value((1, 0)), Some(&Data::Float(2.5e-3)));
    assert_eq!(range.get_value((2, 0)), Some(&Data::Float(0.1)));
    assert_eq!(range.get_value((3, 0)), Some(&Data::Float(-42.0)));
}

#[test]
fn test_unparsed_text_kept_exactly() {
    let range = one_sheet(b"a,b\n\"x,y\",12x\n");
    assert_eq!(range.get_value((1, 0)), Some(&Data::String("x,y".to_string())));
    assert_eq!(range.get_value((1, 1)), Some(&Data::String("12x".to_string())));
}

#[test]
fn test_empty_fields_leave_no_cell() {
    let range = one_sheet(b"a,,c\nx,,z\n");
    assert_eq!(range.get_value((0, 0)), Some(&Data::String("a".to_string())));
    assert!(matches!(range.get_value((0, 1)), None | Some(&Data::Empty)));
    assert_eq!(range.get_value((0, 2)), Some(&Data::String("c".to_string())));
    assert!(matches!(range.get_value((1, 1)), None | Some(&Data::Empty)));
    assert_eq!(range.get_value((1, 2)), Some(&Data::String("z".to_string())));
}

#[test]
fn test_nan_field_leaves_no_cell() {
    let range = one_sheet(b"a,b\nNaN,2\n");
    assert!(matches!(range.get_value((1, 0)), None | Some(&Data::Empty)));
    assert_eq!(range.get_value((1, 1)), Some(&Data::Float(2.0)));
}

#[test]
fn test_column_truncation() {
    let header: Vec<String> = (0..16390).map(|i| format!("h{}", i)).collect();
    let data: Vec<String> = (0..16390).map(|i| format!("v{}", i)).collect();
    let source = format!("{}\n{}\n", header.join(","), data.join(","));
    let range = one_sheet(source.as_bytes());
    assert_eq!(range.get_value((0, 16383)), Some(&Data::String("h16383".to_string())));
    assert_eq!(range.get_value((1, 16383)), Some(&Data::String("v16383".to_string())));
    assert_eq!(range.width(), 16384);
}

#[test]
fn test_two_sheets_in_order() {
    let inputs = vec![
        (b"a\n1\n".to_vec(), info("Sheet1", "FF0000")),
        (b"b\n2\n".to_vec(), info("Sheet2", "0000FF")),
    ];
    let sheets = build_sheets(&inputs).unwrap();
    assert_eq!(sheets.len(), 2);

    let mut xlsx = read_back(sheets);
    assert_eq!(xlsx.sheet_names(), vec!["Sheet1".to_string(), "Sheet2".to_string()]);
    let first = xlsx.worksheet_range("Sheet1").unwrap();
    assert_eq!(first.get_value((1, 0)), Some(&Data::Float(1.0)));
    let second = xlsx.worksheet_range("Sheet2").unwrap();
    assert_eq!(second.get_value((1, 0)), Some(&Data::Float(2.0)));
}

#[test]
fn test_build_sheets_fails_fast() {
    let inputs = vec![
        (b"a\n1\n".to_vec(), info("Sheet1", "FF0000")),
        (b"a,b\n1,2,3\n".to_vec(), info("Sheet2", "0000FF")),
    ];
    assert!(matches!(build_sheets(&inputs), Err(csv_to_xlsx::ConvertError::UnreadableRecord)));
}

#[test]
fn test_infinite_fields_become_markers() {
    let range = one_sheet(b"a\ninf\n-inf\n1e999\nInfinity\n");
    assert_eq!(range.get_value((1, 0)), Some(&Data::String("INF".to_string())));
    assert_eq!(range.get_value((2, 0)), Some(&Data::String("-INF".to_string())));
    assert_eq!(range.get_value((3, 0)), Some(&Data::String("INF".to_string())));
    assert_eq!(range.get_value((4, 0)), Some(&Data::String("INF".to_string())));
}

#[test]
fn test_row_count_returned() {
    let sheet = ExcelSheet::new(info("Sheet1", "red"));
    let (_, rows) = sheet.write_worksheet(b"col1,col2\n10,hello\n,3.5\n").unwrap();
    assert_eq!(rows, 3);

    let sheet = ExcelSheet::new(info("Sheet1", "red"));
    let (_, rows) = sheet.write_worksheet(b"").unwrap();
    assert_eq!(rows, 0);
}

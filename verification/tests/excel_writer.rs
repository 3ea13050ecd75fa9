use csv_to_xlsx::classify::FieldClass;
use csv_to_xlsx::excel_writer::ExcelSheet;
use csv_to_xlsx::ConvertError;
use csv_to_xlsx::ExcelSheetInfo;

fn info(name: &str, tab_color: &str) -> ExcelSheetInfo {
    ExcelSheetInfo::new("test.csv".to_string(), name.to_string(), tab_color.to_string())
}

#[test]
fn test_write_worksheet() {
    let excel_info = ExcelSheetInfo {
        file_path: "test.csv".to_string(),
        name: "Sheet1".to_string(),
        tab_color: "red".to_string(),
    };
    let excel_sheet = ExcelSheet::new(excel_info);

    let result = excel_sheet.write_worksheet(b"column1,column2\nvalue1,value2\n");
    assert!(result.is_ok());
}

#[test]
fn test_counter_exceeds_limit() {
    assert_eq!(ExcelSheet::counter_exceeds_limit(5, 10, "test", false), false);
    assert_eq!(ExcelSheet::counter_exceeds_limit(10, 10, "test", false), true);
    assert_eq!(ExcelSheet::counter_exceeds_limit(15, 10, "test", false), true);
}

#[test]
fn test_classify_fields() {
    assert_eq!(csv_to_xlsx::classify::classify(""), FieldClass::Empty);
    assert_eq!(csv_to_xlsx::classify::classify("NaN"), FieldClass::NanNumber);
    assert_eq!(csv_to_xlsx::classify::classify("-nan"), FieldClass::NanNumber);
    assert_eq!(csv_to_xlsx::classify::classify("10"), FieldClass::Number);
    assert_eq!(csv_to_xlsx::classify::classify("3.5"), FieldClass::Number);
    assert_eq!(csv_to_xlsx::classify::classify("-2.5e-3"), FieldClass::Number);
    assert_eq!(csv_to_xlsx::classify::classify("hello"), FieldClass::Text);
    assert_eq!(csv_to_xlsx::classify::classify("12x"), FieldClass::Text);
    assert_eq!(csv_to_xlsx::classify::classify(" 12"), FieldClass::Text);
    assert_eq!(csv_to_xlsx::classify::classify("inf"), FieldClass::Number);
}

#[test]
fn test_resolve_tab_color() {
    assert_eq!(csv_to_xlsx::colors::resolve_tab_color("red"), "FF0000");
    assert_eq!(csv_to_xlsx::colors::resolve_tab_color("blue"), "0000FF");
    assert_eq!(csv_to_xlsx::colors::resolve_tab_color("navy"), "000080");
    assert_eq!(csv_to_xlsx::colors::resolve_tab_color("123ABC"), "123ABC");
    assert_eq!(csv_to_xlsx::colors::resolve_tab_color("no such color"), "no such color");
}

#[test]
fn test_invalid_sheet_name() {
    let sheet = ExcelSheet::new(info("bad[name]", "FF0000"));
    assert!(matches!(sheet.write_worksheet(b"a\n1\n"), Err(ConvertError::InvalidSheetName)));

    let sheet = ExcelSheet::new(info("", "FF0000"));
    assert!(matches!(sheet.write_worksheet(b"a\n1\n"), Err(ConvertError::InvalidSheetName)));
}

#[test]
fn test_unreadable_record() {
    let sheet = ExcelSheet::new(info("Sheet1", "FF0000"));
    assert!(matches!(sheet.write_worksheet(b"a,b\n1,2,3\n"), Err(ConvertError::UnreadableRecord)));
}

#[test]
fn test_oversize_cell() {
    let long_text = "x".repeat(32768);
    let source = format!("a\n{}\n", long_text);
    let sheet = ExcelSheet::new(info("Sheet1", "FF0000"));
    assert!(matches!(sheet.write_worksheet(source.as_bytes()), Err(ConvertError::OversizeCell)));
}

#[test]
fn test_longest_cell_accepted() {
    let long_text = "x".repeat(32767);
    let source = format!("a\n{}\n", long_text);
    let sheet = ExcelSheet::new(info("Sheet1", "FF0000"));
    assert!(sheet.write_worksheet(source.as_bytes()).is_ok());
}

#[test]
fn test_empty_source() {
    let sheet = ExcelSheet::new(info("Sheet1", "FF0000"));
    assert!(sheet.write_worksheet(b"").is_ok());
}

#[test]
fn test_row_cap_still_succeeds() {
    let mut source = String::from("h\n");
    for _ in 0..1048580u32 {
        source.push_str("1\n");
    }
    let sheet = ExcelSheet::new(info("Sheet1", "FF0000"));
    assert!(sheet.write_worksheet(source.as_bytes()).is_ok());
}

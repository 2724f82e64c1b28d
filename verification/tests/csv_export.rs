use wif::docs::csv::{encode_row, CsvExporter};
use wif::docs::get_exporter;

#[test]
fn encode_row_simple() {
    let row = vec!["a".to_string(), "b".to_string(), "c".to_string()];
    assert_eq!(encode_row(&row), "a,b,c");
}

#[test]
fn encode_row_quotes_fields_with_commas() {
    let row = vec!["a,b".to_string(), "c".to_string()];
    assert_eq!(encode_row(&row), "\"a,b\",c");
}

#[test]
fn encode_row_escapes_embedded_quotes() {
    let row = vec!["say \"hi\"".to_string()];
    assert_eq!(encode_row(&row), "\"say \"\"hi\"\"\"");
}

#[test]
fn export_creates_valid_csv() {
    let exporter = CsvExporter;
    let headers = vec!["name".to_string(), "age".to_string()];
    let rows = vec![
        vec!["Alice".to_string(), "30".to_string()],
        vec!["Bob".to_string(), "25".to_string()],
    ];
    let content = exporter.document(&headers, &rows);
    assert!(content.contains("name,age"));
    assert!(content.contains("Alice,30"));
    assert!(content.contains("Bob,25"));
}

#[test]
fn format_returns_csv() {
    assert_eq!(CsvExporter.format(), "csv");
}

#[test]
fn returns_exporter_for_csv() {
    assert!(get_exporter("csv").is_some());
    assert!(get_exporter("CSV").is_some());
}

#[test]
fn returns_none_for_unknown_format() {
    assert!(get_exporter("xlsx").is_none());
    assert!(get_exporter("pdf").is_none());
    assert!(get_exporter("").is_none());
}

#[test]
fn document_is_header_then_rows_each_on_a_line() {
    let headers = vec!["name".to_string(), "note".to_string()];
    let rows = vec![vec!["Al".to_string(), "x\ny".to_string()], vec![]];
    assert_eq!(CsvExporter.document(&headers, &rows), "name,note\nAl,\"x\ny\"\n\n");
}

#[test]
fn encode_row_quotes_line_breaks() {
    let row = vec!["a\rb".to_string(), "".to_string(), "c\nd".to_string()];
    assert_eq!(encode_row(&row), "\"a\rb\",,\"c\nd\"");
}

#[test]
fn encode_row_of_no_fields_is_empty() {
    let row: Vec<String> = vec![];
    assert_eq!(encode_row(&row), "");
}

#[test]
fn exporter_name_ignores_case() {
    assert!(get_exporter("Csv").is_some());
    assert!(get_exporter("csv ").is_none());
}

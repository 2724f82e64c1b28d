use wif::docs::processors::{line_count, CsvProcessor, ProcessorChoice, TextProcessor, XlsxProcessor};
use wif::docs::get_processor;

#[test]
fn supports_csv_case_insensitive() {
    let p = CsvProcessor;
    assert!(p.supports("csv"));
    assert!(p.supports("CSV"));
    assert!(!p.supports("xlsx"));
    assert!(!p.supports("txt"));
}

#[test]
fn returns_processor_for_known_extensions() {
    assert!(get_processor("xlsx").is_some());
    assert!(get_processor("xls").is_some());
    assert!(get_processor("csv").is_some());
    assert!(get_processor("txt").is_some());
}

#[test]
fn returns_none_for_unknown_extension() {
    assert!(get_processor("pdf").is_none());
    assert!(get_processor("docx").is_none());
    assert!(get_processor("pptx").is_none());
    assert!(get_processor("").is_none());
}

#[test]
fn supports_txt_case_insensitive() {
    let p = TextProcessor;
    assert!(p.supports("txt"));
    assert!(p.supports("TXT"));
    assert!(!p.supports("csv"));
    assert!(!p.supports("xlsx"));
}

#[test]
fn supports_xlsx_and_xls() {
    let p = XlsxProcessor;
    assert!(p.supports("xlsx"));
    assert!(p.supports("xls"));
    assert!(p.supports("XLSX"));
    assert!(!p.supports("csv"));
    assert!(!p.supports("docx"));
}

#[test]
fn extract_metadata_counts_lines() {
    // the text that `writeln!(tmp, "header\nrow1\nrow2")` leaves in a file
    let content = "header\nrow1\nrow2\n";
    let meta = CsvProcessor.describe("t.csv".to_string(), content.len() as u64, content);
    assert_eq!(meta.content_type, "text/csv");
    assert!(meta.page_count.unwrap() >= 3);
}

#[test]
fn extract_metadata_has_correct_content_type() {
    let content = "line1\nline2\n";
    let meta = TextProcessor.describe("t.txt".to_string(), content.len() as u64, content);
    assert_eq!(meta.content_type, "text/plain");
    assert!(meta.page_count.unwrap() >= 2);
}

#[test]
fn processor_choice_follows_extension() {
    assert!(matches!(get_processor("XLS"), Some(ProcessorChoice::Xlsx(_))));
    assert!(matches!(get_processor("Csv"), Some(ProcessorChoice::Csv(_))));
    assert!(matches!(get_processor("tXt"), Some(ProcessorChoice::Text(_))));
}

#[test]
fn line_count_matches_str_lines() {
    for s in ["", "a", "a\n", "\n", "a\nb", "a\r\nb\r\n", "\n\n", "x\ny\nz"] {
        assert_eq!(line_count(s), s.lines().count(), "for {:?}", s);
    }
}

#[test]
fn metadata_fields() {
    let meta = XlsxProcessor.describe("book.xlsx".to_string(), 2048, 3);
    assert_eq!(meta.file_name, "book.xlsx");
    assert_eq!(meta.file_size, 2048);
    assert_eq!(
        meta.content_type,
        "application/vnd.openxmlformats-officedocument.spreadsheetml.sheet"
    );
    assert_eq!(meta.page_count, Some(3));
    assert!(meta.author.is_none() && meta.title.is_none());
    assert!(meta.created_date.is_none() && meta.modified_date.is_none());
}

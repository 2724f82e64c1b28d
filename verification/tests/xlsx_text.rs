use wif::docs::xlsx::{workbook_to_text, CellValue, SheetData};

#[test]
fn workbook_text_lists_readable_sheets() {
    let sheets = vec![
        SheetData {
            name: "Sheet1".into(),
            rows: Some(vec![
                vec![CellValue::Text("name".into()), CellValue::Text("n".into())],
                vec![
                    CellValue::Text("a".into()),
                    CellValue::Int(-42),
                    CellValue::Float(1.5f64.to_string()),
                    CellValue::Bool(true),
                    CellValue::Other,
                ],
            ]),
        },
        SheetData { name: "Broken".into(), rows: None },
        SheetData { name: "Empty".into(), rows: Some(vec![]) },
    ];
    assert_eq!(
        workbook_to_text(&sheets),
        "=== Sheet1 ===\nname\tn\na\t-42\t1.5\ttrue\t\n=== Empty ===\n"
    );
}

#[test]
fn integer_cells_are_written_in_decimal() {
    for i in [0i64, 7, 10, 1234567890, -1, i64::MIN, i64::MAX] {
        let sheets = vec![SheetData {
            name: "s".into(),
            rows: Some(vec![vec![CellValue::Int(i), CellValue::Bool(false)]]),
        }];
        assert_eq!(workbook_to_text(&sheets), format!("=== s ===\n{}\tfalse\n", i));
    }
}

#[test]
fn empty_workbook_has_no_text() {
    assert_eq!(workbook_to_text(&vec![]), "");
}

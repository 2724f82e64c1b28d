//! The text of a spreadsheet: each readable sheet under a heading, one line
//! per row, cells separated by tabs.

use vstd::prelude::*;

use crate::text::{chars_of, decimal_text, push_decimal, string_from_chars};

verus! {

broadcast use vstd::string::group_string_axioms;

/// The value of one spreadsheet cell, as far as its text is concerned.
pub enum CellValue {
    /// A text cell.
    Text(String),
    /// A floating-point cell, held as the text that Rust's `Display` writes for it.
    Float(String),
    /// An integer cell.
    Int(i64),
    /// A boolean cell.
    Bool(bool),
    /// Any other cell: empty, a date, a duration or an error.
    Other,
}

/// One sheet of a workbook: its name, and its rows when the sheet could be read.
pub struct SheetData {
    pub name: String,
    pub rows: Option<Vec<Vec<CellValue>>>,
}

/// The text of one cell.
pub open spec fn cell_text(c: CellValue) -> Seq<char> {
    match c {
        CellValue::Text(s) => s@,
        CellValue::Float(s) => s@,
        CellValue::Int(i) => decimal_text(i as int),
        CellValue::Bool(b) => if b {
            "true"@
        } else {
            "false"@
        },
        CellValue::Other => Seq::empty(),
    }
}

/// The cells of a row, as texts separated by tabs.
pub open spec fn row_text(cells: Seq<CellValue>) -> Seq<char>
    decreases cells.len(),
{
    if cells.len() == 0 {
        Seq::empty()
    } else if cells.len() == 1 {
        cell_text(cells[0])
    } else {
        row_text(cells.drop_last()) + seq!['\t'] + cell_text(cells.last())
    }
}

/// The lines of a sheet's rows, each ended by a line feed.
pub open spec fn rows_text(rows: Seq<Vec<CellValue>>) -> Seq<char>
    decreases rows.len(),
{
    if rows.len() == 0 {
        Seq::empty()
    } else {
        rows_text(rows.drop_last()) + row_text(rows.last()@).push('\n')
    }
}

/// The text of one sheet: nothing for a sheet that could not be read, else a
/// `=== name ===` heading line and then its rows.
pub open spec fn sheet_text(sheet: SheetData) -> Seq<char> {
    match sheet.rows {
        None => Seq::empty(),
        Some(rows) => "=== "@ + sheet.name@ + " ===\n"@ + rows_text(rows@),
    }
}

/// The text of a workbook: the texts of its sheets, in order.
pub open spec fn workbook_text(sheets: Seq<SheetData>) -> Seq<char>
    decreases sheets.len(),
{
    if sheets.len() == 0 {
        Seq::empty()
    } else {
        workbook_text(sheets.drop_last()) + sheet_text(sheets.last())
    }
}

/// Appends `ys` to `xs`.
fn append_chars(xs: &mut Vec<char>, ys: &Vec<char>)
    ensures
        final(xs)@ == old(xs)@ + ys@,
{
    let ghost start = xs@;
    for i in 0..ys.len()
        invariant
            xs@ == start + ys@.take(i as int),
    {
        xs.push(ys[i]);
        assert(ys@.take(i + 1) =~= ys@.take(i as int).push(ys@[i as int]));
    }
    assert(ys@.take(ys.len() as int) =~= ys@);
}

/// Appends the text of cell `c` to `out`.
fn push_cell(out: &mut Vec<char>, c: &CellValue)
    ensures
        final(out)@ == old(out)@ + cell_text(*c),
{
    match c {
        CellValue::Text(s) => append_chars(out, &chars_of(s.as_str())),
        CellValue::Float(s) => append_chars(out, &chars_of(s.as_str())),
        CellValue::Int(i) => push_decimal(out, *i),
        CellValue::Bool(b) => {
            if *b {
                append_chars(out, &chars_of("true"));
            } else {
                append_chars(out, &chars_of("false"));
            }
        },
        CellValue::Other => {
            assert(old(out)@ + Seq::<char>::empty() =~= old(out)@);
        },
    }
}

/// Appends the line of a row, with its line feed, to `out`.
fn push_row(out: &mut Vec<char>, cells: &Vec<CellValue>)
    ensures
        final(out)@ == old(out)@ + row_text(cells@).push('\n'),
{
    let ghost start = out@;
    for i in 0..cells.len()
        invariant
            out@ == start + row_text(cells@.take(i as int)),
    {
        assert(cells@.take(0) =~= Seq::<CellValue>::empty());
        assert(cells@.take(i + 1).drop_last() =~= cells@.take(i as int));
        if i > 0 {
            out.push('\t');
        }
        push_cell(out, &cells[i]);
        assert(out@ =~= start + row_text(cells@.take(i + 1)));
    }
    assert(cells@.take(cells.len() as int) =~= cells@);
    let ghost before = out@;
    out.push('\n');
    assert(out@ =~= start + row_text(cells@).push('\n'));
}

/// Extract the text of a workbook: for each sheet that could be read, a
/// `=== name ===` line, then one line per row with its cells separated by tabs.
pub fn workbook_to_text(sheets: &Vec<SheetData>) -> (r: String)
    ensures
        r@ == workbook_text(sheets@),
{
    let mut out: Vec<char> = Vec::new();
    for i in 0..sheets.len()
        invariant
            out@ == workbook_text(sheets@.take(i as int)),
    {
        assert(sheets@.take(0) =~= Seq::<SheetData>::empty());
        assert(sheets@.take(i + 1).drop_last() =~= sheets@.take(i as int));
        let ghost before = out@;
        let sheet = &sheets[i];
        match &sheet.rows {
            None => {
                assert(before + Seq::<char>::empty() =~= before);
            },
            Some(rows) => {
                append_chars(&mut out, &chars_of("=== "));
                append_chars(&mut out, &chars_of(sheet.name.as_str()));
                append_chars(&mut out, &chars_of(" ===\n"));
                let ghost head = out@;
                for j in 0..rows.len()
                    invariant
                        out@ == head + rows_text(rows@.take(j as int)),
                {
                    assert(rows@.take(0) =~= Seq::<Vec<CellValue>>::empty());
                    assert(rows@.take(j + 1).drop_last() =~= rows@.take(j as int));
                    push_row(&mut out, &rows[j]);
                    assert(out@ =~= head + rows_text(rows@.take(j + 1)));
                }
                assert(rows@.take(rows.len() as int) =~= rows@);
            },
        }
        assert(out@ =~= workbook_text(sheets@.take(i + 1)));
    }
    assert(sheets@.take(sheets.len() as int) =~= sheets@);
    string_from_chars(&out)
}

/// What a cell writes: a text or float cell its text, an integer cell its
/// decimal text, a boolean cell `true` or `false`, any other cell nothing.
pub proof fn lemma_cell_texts(s: String, i: i64)
    ensures
        cell_text(CellValue::Text(s)) == s@,
        cell_text(CellValue::Float(s)) == s@,
        cell_text(CellValue::Int(i)) == decimal_text(i as int),
        cell_text(CellValue::Bool(true)) == "true"@,
        cell_text(CellValue::Bool(false)) == "false"@,
        cell_text(CellValue::Other) == Seq::<char>::empty(),
{
}

/// A row's text joins its cells' texts with tabs: nothing for no cell, the
/// cell's own text for one cell, and one more cell adds a tab and its text.
pub proof fn lemma_row_text_joins_cells(cells: Seq<CellValue>, c: CellValue)
    ensures
        row_text(Seq::<CellValue>::empty()) == Seq::<char>::empty(),
        row_text(seq![c]) == cell_text(c),
        cells.len() > 0 ==> row_text(cells.push(c)) == row_text(cells) + seq!['\t'] + cell_text(c),
{
    assert(cells.push(c).drop_last() =~= cells);
}

/// Every row gives one line, whatever its length: the text of some rows
/// followed by one more row is their text, then that row's cells joined by
/// tabs, then a line feed; a one-cell row's line is that cell's text.
pub proof fn lemma_rows_text_push(rows: Seq<Vec<CellValue>>, row: Vec<CellValue>)
    ensures
        rows_text(Seq::<Vec<CellValue>>::empty()) == Seq::<char>::empty(),
        rows_text(rows.push(row)) == rows_text(rows) + row_text(row@) + seq!['\n'],
        row@.len() == 1 ==> rows_text(rows.push(row)) == rows_text(rows) + cell_text(row@[0]) + seq!['\n'],
{
    assert(rows.push(row).drop_last() =~= rows);
    assert(rows_text(rows.push(row)) =~= rows_text(rows) + row_text(row@) + seq!['\n']);
    if row@.len() == 1 {
        assert(row_text(row@) == cell_text(row@[0]));
    }
}

/// The text of a workbook is its sheets' texts in order: a sheet that could
/// not be read adds nothing, a read sheet adds its `=== name ===` heading line
/// and then its rows' lines.
pub proof fn lemma_workbook_text_push(sheets: Seq<SheetData>, sheet: SheetData)
    ensures
        workbook_text(Seq::<SheetData>::empty()) == Seq::<char>::empty(),
        sheet.rows is None ==> workbook_text(sheets.push(sheet)) == workbook_text(sheets),
        sheet.rows matches Some(rs) ==> workbook_text(sheets.push(sheet)) == workbook_text(sheets)
            + "=== "@ + sheet.name@ + " ===\n"@ + rows_text(rs@),
{
    assert(sheets.push(sheet).drop_last() =~= sheets);
    if sheet.rows is None {
        assert(workbook_text(sheets) + Seq::<char>::empty() =~= workbook_text(sheets));
    } else {
        let rs = sheet.rows->0;
        assert(workbook_text(sheets) + ("=== "@ + sheet.name@ + " ===\n"@ + rows_text(rs@)) =~= workbook_text(sheets)
            + "=== "@ + sheet.name@ + " ===\n"@ + rows_text(rs@));
    }
}

} // verus!

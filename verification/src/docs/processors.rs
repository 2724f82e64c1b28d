//! File types the document layer can read, and what it reads from them.

use vstd::prelude::*;

use crate::docs::csv::CsvExporter;
use crate::docs::metadata::DocumentMetadata;
use crate::text::{ascii_lower, chars_of, eq_ignore_ascii_case};

verus! {

broadcast use vstd::string::group_string_axioms;

/// The number of line feeds in `s`.
pub open spec fn count_line_feeds(s: Seq<char>) -> nat
    decreases s.len(),
{
    if s.len() == 0 {
        0
    } else {
        count_line_feeds(s.drop_last()) + if s.last() == '\n' {
            1nat
        } else {
            0nat
        }
    }
}

/// The number of lines of a text, as `str::lines` counts them: one per line
/// feed, plus one for a last line that has no line feed.
pub open spec fn count_lines(s: Seq<char>) -> nat {
    count_line_feeds(s) + if s.len() > 0 && s.last() != '\n' {
        1nat
    } else {
        0nat
    }
}

/// A run of characters without a line feed adds no line feed.
proof fn lemma_line_feeds_without_lf(t: Seq<char>, l: Seq<char>)
    requires
        forall|k: int| 0 <= k < l.len() ==> l[k] != '\n',
    ensures
        count_line_feeds(t + l) == count_line_feeds(t),
    decreases l.len(),
{
    if l.len() == 0 {
        assert(t + l =~= t);
    } else {
        lemma_line_feeds_without_lf(t, l.drop_last());
        assert((t + l).drop_last() =~= t + l.drop_last());
    }
}

/// Lines are counted one by one: the empty text has none, and after a text
/// that is empty or ends with a line feed, a line of characters other than
/// line feeds adds one line, whether or not it ends with a line feed.
pub proof fn lemma_count_lines_adds_a_line(t: Seq<char>, l: Seq<char>)
    requires
        t.len() == 0 || t.last() == '\n',
        forall|k: int| 0 <= k < l.len() ==> l[k] != '\n',
    ensures
        count_lines(Seq::<char>::empty()) == 0,
        count_lines(t + l.push('\n')) == count_lines(t) + 1,
        l.len() > 0 ==> count_lines(t + l) == count_lines(t) + 1,
{
    lemma_line_feeds_without_lf(t, l);
    assert((t + l.push('\n')).drop_last() =~= t + l);
    if l.len() > 0 {
        assert((t + l).last() == l.last());
    }
}

/// Whether an extension names a spreadsheet, whatever the case of its ASCII letters.
pub open spec fn is_xlsx_extension(ext: Seq<char>) -> bool {
    ascii_lower(ext) == "xlsx"@ || ascii_lower(ext) == "xls"@
}

/// Whether an extension names a CSV file, whatever the case of its ASCII letters.
pub open spec fn is_csv_extension(ext: Seq<char>) -> bool {
    ascii_lower(ext) == "csv"@
}

/// Whether an extension names a plain-text file, whatever the case of its ASCII letters.
pub open spec fn is_text_extension(ext: Seq<char>) -> bool {
    ascii_lower(ext) == "txt"@
}

/// File types are recognised whatever the case of their ASCII letters: two
/// extensions equal once lowercased are recognised alike, as is the exporter
/// name `csv`.
pub proof fn lemma_extensions_ignore_ascii_case(a: Seq<char>, b: Seq<char>)
    requires
        ascii_lower(a) == ascii_lower(b),
    ensures
        is_xlsx_extension(a) == is_xlsx_extension(b),
        is_csv_extension(a) == is_csv_extension(b),
        is_text_extension(a) == is_text_extension(b),
{
}

/// The number of lines of `content`, as `str::lines` counts them.
pub fn line_count(content: &str) -> (r: usize)
    ensures
        r == count_lines(content@),
{
    let cs = chars_of(content);
    let mut n: usize = 0;
    for i in 0..cs.len()
        invariant
            cs@ == content@,
            n == count_line_feeds(cs@.take(i as int)),
            n <= i,
            i > 0 && cs@[i - 1] != '\n' ==> n < i,
    {
        assert(cs@.take(i + 1).drop_last() =~= cs@.take(i as int));
        if cs[i] == '\n' {
            n = n + 1;
        }
    }
    assert(cs@.take(cs.len() as int) =~= cs@);
    if cs.len() > 0 && cs[cs.len() - 1] != '\n' {
        n + 1
    } else {
        n
    }
}

/// Reads plain `.csv` files.
pub struct CsvProcessor;

/// Reads plain `.txt` files.
pub struct TextProcessor;

/// Reads `.xlsx` and `.xls` spreadsheets.
pub struct XlsxProcessor;

/// The content type that the CSV processor reports.
pub open spec fn csv_content_type() -> Seq<char> {
    "text/csv"@
}

/// The content type that the text processor reports.
pub open spec fn text_content_type() -> Seq<char> {
    "text/plain"@
}

/// The content type that the spreadsheet processor reports.
pub open spec fn xlsx_content_type() -> Seq<char> {
    "application/vnd.openxmlformats-officedocument.spreadsheetml.sheet"@
}

/// Whether `m` is the metadata of a file named `file_name` of `file_size` bytes,
/// of content type `content_type`, counting `pages` pages, with nothing else known.
pub open spec fn describes(
    m: DocumentMetadata,
    file_name: Seq<char>,
    file_size: u64,
    content_type: Seq<char>,
    pages: u32,
) -> bool {
    &&& m.file_name@ == file_name
    &&& m.file_size == file_size
    &&& m.content_type@ == content_type
    &&& m.page_count == Some(pages)
    &&& m.author is None
    &&& m.created_date is None
    &&& m.modified_date is None
    &&& m.title is None
}

/// Builds the metadata record of a file.
fn metadata(file_name: String, file_size: u64, content_type: &str, pages: u32) -> (r: DocumentMetadata)
    ensures
        describes(r, file_name@, file_size, content_type@, pages),
{
    DocumentMetadata {
        file_name,
        file_size,
        content_type: String::from_str(content_type),
        page_count: Some(pages),
        author: None,
        created_date: None,
        modified_date: None,
        title: None,
    }
}

impl CsvProcessor {
    /// Return `true` if this processor handles the given file extension
    /// (given without a leading dot), ignoring ASCII case.
    pub fn supports(&self, extension: &str) -> (r: bool)
        ensures
            r == is_csv_extension(extension@),
    {
        proof {
            reveal_strlit("csv");
            assert(ascii_lower("csv"@) =~= "csv"@);
        }
        eq_ignore_ascii_case(extension, "csv")
    }

    /// The metadata of a CSV file named `file_name`, of `file_size` bytes,
    /// whose text is `content`: its page count is its number of lines.
    pub fn describe(&self, file_name: String, file_size: u64, content: &str) -> (r: DocumentMetadata)
        ensures
            describes(r, file_name@, file_size, csv_content_type(), count_lines(content@) as u32),
    {
        let lines = line_count(content);
        metadata(file_name, file_size, "text/csv", lines as u32)
    }
}

impl TextProcessor {
    /// Return `true` if this processor handles the given file extension
    /// (given without a leading dot), ignoring ASCII case.
    pub fn supports(&self, extension: &str) -> (r: bool)
        ensures
            r == is_text_extension(extension@),
    {
        proof {
            reveal_strlit("txt");
            assert(ascii_lower("txt"@) =~= "txt"@);
        }
        eq_ignore_ascii_case(extension, "txt")
    }

    /// The metadata of a text file named `file_name`, of `file_size` bytes,
    /// whose text is `content`: its page count is its number of lines.
    pub fn describe(&self, file_name: String, file_size: u64, content: &str) -> (r: DocumentMetadata)
        ensures
            describes(r, file_name@, file_size, text_content_type(), count_lines(content@) as u32),
    {
        let lines = line_count(content);
        metadata(file_name, file_size, "text/plain", lines as u32)
    }
}

impl XlsxProcessor {
    /// Return `true` if this processor handles the given file extension
    /// (given without a leading dot): `xlsx` or `xls`, ignoring ASCII case.
    ///
    /// (No character outside ASCII lowercases to a letter of these names, so
    /// ignoring ASCII case is ignoring case.)
    pub fn supports(&self, extension: &str) -> (r: bool)
        ensures
            r == is_xlsx_extension(extension@),
    {
        proof {
            reveal_strlit("xlsx");
            reveal_strlit("xls");
            assert(ascii_lower("xlsx"@) =~= "xlsx"@);
            assert(ascii_lower("xls"@) =~= "xls"@);
        }
        eq_ignore_ascii_case(extension, "xlsx") || eq_ignore_ascii_case(extension, "xls")
    }

    /// The metadata of a spreadsheet named `file_name`, of `file_size` bytes,
    /// holding `sheet_count` sheets: its page count is its number of sheets.
    pub fn describe(&self, file_name: String, file_size: u64, sheet_count: usize) -> (r: DocumentMetadata)
        ensures
            describes(r, file_name@, file_size, xlsx_content_type(), sheet_count as u32),
    {
        metadata(
            file_name,
            file_size,
            "application/vnd.openxmlformats-officedocument.spreadsheetml.sheet",
            sheet_count as u32,
        )
    }
}

/// The processor chosen for a file extension.
pub enum ProcessorChoice {
    Xlsx(XlsxProcessor),
    Csv(CsvProcessor),
    Text(TextProcessor),
}

/// Return the first processor, trying spreadsheets, then CSV, then plain text,
/// that supports the given file extension (given without a leading dot), or
/// `None` if no processor supports it.
pub fn get_processor(extension: &str) -> (r: Option<ProcessorChoice>)
    ensures
        is_xlsx_extension(extension@) ==> r matches Some(ProcessorChoice::Xlsx(_)),
        !is_xlsx_extension(extension@) && is_csv_extension(extension@) ==> r matches Some(
            ProcessorChoice::Csv(_),
        ),
        !is_xlsx_extension(extension@) && !is_csv_extension(extension@) && is_text_extension(
            extension@,
        ) ==> r matches Some(ProcessorChoice::Text(_)),
        !is_xlsx_extension(extension@) && !is_csv_extension(extension@) && !is_text_extension(
            extension@,
        ) ==> r is None,
{
    if XlsxProcessor.supports(extension) {
        Some(ProcessorChoice::Xlsx(XlsxProcessor))
    } else if CsvProcessor.supports(extension) {
        Some(ProcessorChoice::Csv(CsvProcessor))
    } else if TextProcessor.supports(extension) {
        Some(ProcessorChoice::Text(TextProcessor))
    } else {
        None
    }
}

/// Return the exporter for the requested format name, ignoring case, or `None`
/// if no exporter exists for that format. Only `csv` has one.
///
/// (No character outside ASCII lowercases to `c`, `s` or `v`, so ignoring
/// ASCII case is ignoring case.)
pub fn get_exporter(format: &str) -> (r: Option<CsvExporter>)
    ensures
        r is Some <==> is_csv_extension(format@),
{
    proof {
        reveal_strlit("csv");
        assert(ascii_lower("csv"@) =~= "csv"@);
    }
    if eq_ignore_ascii_case(format, "csv") {
        Some(CsvExporter)
    } else {
        None
    }
}

} // verus!

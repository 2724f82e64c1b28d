//! CSV export: RFC 4180 quoting of fields and rows.

use vstd::prelude::*;

use crate::text::{chars_of, string_from_chars, string_views};

verus! {

broadcast use vstd::string::group_string_axioms;

/// Whether a field must be quoted: it holds a comma, a double quote, a line feed
/// or a carriage return.
pub open spec fn needs_quotes(f: Seq<char>) -> bool {
    f.contains(',') || f.contains('"') || f.contains('\n') || f.contains('\r')
}

/// `f` with every double quote doubled.
pub open spec fn double_quotes(f: Seq<char>) -> Seq<char>
    decreases f.len(),
{
    if f.len() == 0 {
        f
    } else if f.last() == '"' {
        double_quotes(f.drop_last()) + seq!['"', '"']
    } else {
        double_quotes(f.drop_last()).push(f.last())
    }
}

/// The CSV form of one field.
pub open spec fn encode_field(f: Seq<char>) -> Seq<char> {
    if needs_quotes(f) {
        seq!['"'] + double_quotes(f) + seq!['"']
    } else {
        f
    }
}

/// The CSV line of a row of fields, without its line end: the encoded fields
/// separated by commas.
pub open spec fn encode_fields(fields: Seq<Seq<char>>) -> Seq<char>
    decreases fields.len(),
{
    if fields.len() == 0 {
        seq![]
    } else if fields.len() == 1 {
        encode_field(fields[0])
    } else {
        encode_fields(fields.drop_last()) + seq![','] + encode_field(fields.last())
    }
}

/// The whole CSV document: the header line, then one line per row, each line
/// ended by a line feed.
pub open spec fn csv_document(headers: Seq<Seq<char>>, rows: Seq<Seq<Seq<char>>>) -> Seq<char>
    decreases rows.len(),
{
    if rows.len() == 0 {
        encode_fields(headers).push('\n')
    } else {
        csv_document(headers, rows.drop_last()) + encode_fields(rows.last()).push('\n')
    }
}

/// Reads the rest of a quoted field, after its opening quote: the field's
/// characters, with each doubled quote read as one, and what follows the
/// closing quote. An unterminated field runs to the end.
pub open spec fn read_quoted(s: Seq<char>) -> (Seq<char>, Seq<char>)
    decreases s.len(),
{
    if s.len() == 0 {
        (Seq::empty(), Seq::empty())
    } else if s[0] == '"' {
        if s.len() >= 2 && s[1] == '"' {
            let (f, r) = read_quoted(s.skip(2));
            (seq!['"'] + f, r)
        } else {
            (Seq::empty(), s.skip(1))
        }
    } else {
        let (f, r) = read_quoted(s.skip(1));
        (seq![s[0]] + f, r)
    }
}

/// Reads an unquoted field: everything up to the first comma.
pub open spec fn read_plain(s: Seq<char>) -> (Seq<char>, Seq<char>)
    decreases s.len(),
{
    if s.len() == 0 || s[0] == ',' {
        (Seq::empty(), s)
    } else {
        let (f, r) = read_plain(s.skip(1));
        (seq![s[0]] + f, r)
    }
}

/// Reads one field of a CSV line as RFC 4180 defines it: quoted when it opens
/// with a double quote, plain otherwise; gives the field and the rest of the line.
pub open spec fn read_field(s: Seq<char>) -> (Seq<char>, Seq<char>) {
    if s.len() > 0 && s[0] == '"' {
        read_quoted(s.skip(1))
    } else {
        read_plain(s)
    }
}

/// Reads the fields of a CSV line as RFC 4180 defines them: fields separated
/// by commas.
pub open spec fn read_record(s: Seq<char>) -> Seq<Seq<char>>
    decreases s.len(),
{
    let (f, r) = read_field(s);
    if r.len() > 0 && r[0] == ',' && r.len() <= s.len() {
        seq![f] + read_record(r.skip(1))
    } else {
        seq![f]
    }
}

/// A line of two or more fields is its first field, a comma, and the line of the others.
proof fn lemma_encode_fields_front(fields: Seq<Seq<char>>)
    requires
        fields.len() >= 2,
    ensures
        encode_fields(fields) == encode_field(fields[0]) + seq![','] + encode_fields(fields.drop_first()),
    decreases fields.len(),
{
    if fields.len() == 2 {
        assert(fields.drop_last() =~= seq![fields[0]]);
        assert(fields.drop_first() =~= seq![fields[1]]);
        assert(encode_fields(fields.drop_last()) == encode_field(fields[0]));
        assert(encode_fields(fields.drop_first()) == encode_field(fields[1]));
        assert(encode_fields(fields) =~= encode_field(fields[0]) + seq![','] + encode_fields(fields.drop_first()));
    } else {
        lemma_encode_fields_front(fields.drop_last());
        assert(fields.drop_last().drop_first() =~= fields.drop_first().drop_last());
        assert(fields.drop_first().last() == fields.last());
        assert(fields.drop_last()[0] == fields[0]);
        assert(encode_fields(fields) =~= encode_field(fields[0]) + seq![','] + encode_fields(fields.drop_first()));
    }
}

/// Doubling the quotes of two texts one after the other doubles the quotes of both.
proof fn lemma_double_quotes_append(a: Seq<char>, b: Seq<char>)
    ensures
        double_quotes(a + b) == double_quotes(a) + double_quotes(b),
    decreases b.len(),
{
    if b.len() == 0 {
        assert(a + b =~= a);
        assert(double_quotes(a) + double_quotes(b) =~= double_quotes(a));
    } else {
        lemma_double_quotes_append(a, b.drop_last());
        assert((a + b).drop_last() =~= a + b.drop_last());
        assert((a + b).last() == b.last());
        if b.last() == '"' {
            assert(double_quotes(a + b) =~= double_quotes(a) + double_quotes(b));
        } else {
            assert(double_quotes(a + b) =~= double_quotes(a) + double_quotes(b));
        }
    }
}

/// A quoted field reads back as itself, when what follows its closing quote
/// does not open with another quote.
proof fn lemma_read_quoted(f: Seq<char>, rest: Seq<char>)
    requires
        rest.len() == 0 || rest[0] != '"',
    ensures
        read_quoted(double_quotes(f) + seq!['"'] + rest) == (f, rest),
    decreases f.len(),
{
    if f.len() == 0 {
        assert(double_quotes(f) + seq!['"'] + rest =~= seq!['"'] + rest);
        assert((seq!['"'] + rest).skip(1) =~= rest);
    } else {
        let c = f[0];
        let t = f.drop_first();
        assert(f =~= seq![c] + t);
        lemma_double_quotes_append(seq![c], t);
        assert(seq![c].drop_last() =~= Seq::<char>::empty());
        assert(double_quotes(Seq::<char>::empty()) == Seq::<char>::empty());
        assert(seq![c].last() == c);
        lemma_read_quoted(t, rest);
        let s = double_quotes(f) + seq!['"'] + rest;
        if c == '"' {
            assert(double_quotes(seq![c]) =~= seq!['"', '"']);
            assert(s =~= seq!['"', '"'] + (double_quotes(t) + seq!['"'] + rest));
            assert(s.skip(2) =~= double_quotes(t) + seq!['"'] + rest);
            assert(seq!['"'] + t =~= f);
        } else {
            assert(double_quotes(seq![c]) =~= seq![c]);
            assert(s =~= seq![c] + (double_quotes(t) + seq!['"'] + rest));
            assert(s.skip(1) =~= double_quotes(t) + seq!['"'] + rest);
        }
    }
}

/// A field with no comma reads, unquoted, as itself up to the rest of the line.
proof fn lemma_read_plain(f: Seq<char>, rest: Seq<char>)
    requires
        !f.contains(','),
        rest.len() == 0 || rest[0] == ',',
    ensures
        read_plain(f + rest) == (f, rest),
    decreases f.len(),
{
    if f.len() == 0 {
        assert(f + rest =~= rest);
    } else {
        let t = f.drop_first();
        assert(!t.contains(',')) by {
            if t.contains(',') {
                let k = choose|k: int| 0 <= k < t.len() && t[k] == ',';
                assert(f[k + 1] == ',');
            }
        }
        lemma_read_plain(t, rest);
        assert(f[0] != ',');
        assert((f + rest).skip(1) =~= t + rest);
        assert(seq![f[0]] + t =~= f);
    }
}

/// An encoded field reads back as itself, followed by the rest of the line.
proof fn lemma_read_field(f: Seq<char>, rest: Seq<char>)
    requires
        rest.len() == 0 || rest[0] == ',',
    ensures
        read_field(encode_field(f) + rest) == (f, rest),
{
    if needs_quotes(f) {
        lemma_read_quoted(f, rest);
        let s = encode_field(f) + rest;
        assert(s =~= seq!['"'] + (double_quotes(f) + seq!['"'] + rest));
        assert(s.skip(1) =~= double_quotes(f) + seq!['"'] + rest);
    } else {
        lemma_read_plain(f, rest);
        if f.len() > 0 {
            assert(f[0] != '"') by {
                if f[0] == '"' {
                    assert(f.contains('"'));
                }
            }
            assert((f + rest)[0] == f[0]);
        }
    }
}

/// Fields are quoted per RFC 4180: reading back the CSV line of one or more
/// fields gives those fields.
pub proof fn lemma_csv_line_roundtrip(fields: Seq<Seq<char>>)
    requires
        fields.len() > 0,
    ensures
        read_record(encode_fields(fields)) == fields,
    decreases fields.len(),
{
    if fields.len() == 1 {
        lemma_read_field(fields[0], Seq::empty());
        assert(encode_field(fields[0]) + Seq::<char>::empty() =~= encode_field(fields[0]));
        assert(seq![fields[0]] =~= fields);
    } else {
        lemma_encode_fields_front(fields);
        let e = encode_fields(fields.drop_first());
        let rest = seq![','] + e;
        lemma_read_field(fields[0], rest);
        assert(encode_fields(fields) =~= encode_field(fields[0]) + rest);
        assert(rest.skip(1) =~= e);
        lemma_csv_line_roundtrip(fields.drop_first());
        assert(seq![fields[0]] + fields.drop_first() =~= fields);
    }
}

/// Appends `ys` to `xs`.
fn extend_chars(xs: &mut Vec<char>, ys: &Vec<char>)
    ensures
        final(xs)@ == old(xs)@ + ys@,
{
    let ghost start = xs@;
    for i in 0..ys.len()
        invariant
            xs@ == start + ys@.take(i as int),
    {
        xs.push(ys[i]);
        assert(ys@.take(i + 1) =~= ys@.take(i as int).push(ys@[i as int]));
    }
    assert(ys@.take(ys.len() as int) =~= ys@);
}

/// Appends the CSV form of field `f` to `out`.
fn push_field(out: &mut Vec<char>, f: &str)
    ensures
        final(out)@ == old(out)@ + encode_field(f@),
{
    let cs = chars_of(f);
    let mut quote = false;
    for i in 0..cs.len()
        invariant
            cs@ == f@,
            quote == (cs@.take(i as int).contains(',') || cs@.take(i as int).contains('"')
                || cs@.take(i as int).contains('\n') || cs@.take(i as int).contains('\r')),
    {
        let c = cs[i];
        proof {
            let t = cs@.take(i + 1);
            assert(t =~= cs@.take(i as int).push(c));
            assert(t[i as int] == c);
            assert forall|x: char| t.contains(x) <==> cs@.take(i as int).contains(x) || x == c by {
                if t.contains(x) {
                    let k = choose|k: int| 0 <= k < t.len() && t[k] == x;
                    if k < i {
                        assert(cs@.take(i as int)[k] == x);
                    }
                }
                if cs@.take(i as int).contains(x) {
                    let k = choose|k: int| 0 <= k < i && cs@.take(i as int)[k] == x;
                    assert(t[k] == x);
                }
            }
        }
        if c == ',' || c == '"' || c == '\n' || c == '\r' {
            quote = true;
        }
    }
    assert(cs@.take(cs.len() as int) =~= cs@);
    if !quote {
        extend_chars(out, &cs);
        return;
    }
    let ghost start = out@;
    out.push('"');
    for i in 0..cs.len()
        invariant
            cs@ == f@,
            out@ == start + seq!['"'] + double_quotes(cs@.take(i as int)),
    {
        let c = cs[i];
        let ghost before = out@;
        assert(cs@.take(i + 1).drop_last() =~= cs@.take(i as int));
        if c == '"' {
            out.push('"');
            out.push('"');
            assert(out@ =~= before + seq!['"', '"']);
        } else {
            out.push(c);
        }
        assert(out@ =~= start + seq!['"'] + double_quotes(cs@.take(i + 1)));
    }
    out.push('"');
    assert(cs@.take(cs.len() as int) =~= cs@);
    assert(out@ =~= start + encode_field(f@));
}

/// Appends the CSV line of `fields`, without its line end, to `out`.
fn push_fields(out: &mut Vec<char>, fields: &[String])
    ensures
        final(out)@ == old(out)@ + encode_fields(string_views(fields@)),
{
    let ghost start = out@;
    for i in 0..fields.len()
        invariant
            out@ == start + encode_fields(string_views(fields@).take(i as int)),
    {
        let ghost before = out@;
        let ghost taken = string_views(fields@).take(i + 1);
        assert(taken.drop_last() =~= string_views(fields@).take(i as int));
        assert(taken.last() == fields@[i as int]@);
        if i > 0 {
            out.push(',');
        }
        push_field(out, fields[i].as_str());
        if i == 0 {
            assert(out@ =~= start + encode_fields(taken));
        } else {
            assert(out@ =~= start + encode_fields(taken));
        }
    }
    assert(string_views(fields@).take(fields.len() as int) =~= string_views(fields@));
}

/// Encode a single row as a comma-separated line.
///
/// Fields containing `,`, `"`, or newline characters are wrapped in double
/// quotes, and any embedded double-quote characters are escaped as `""`.
pub fn encode_row(fields: &[String]) -> (r: String)
    ensures
        r@ == encode_fields(string_views(fields@)),
{
    let mut out: Vec<char> = Vec::new();
    push_fields(&mut out, fields);
    assert(out@ =~= encode_fields(string_views(fields@)));
    string_from_chars(&out)
}

/// Exports tabular data as CSV text.
///
/// Values that contain commas, quotes, or newlines are quoted per RFC 4180.
pub struct CsvExporter;

impl CsvExporter {
    /// Human-readable name for the export format.
    pub fn format(&self) -> (r: &'static str)
        ensures
            r@ == "csv"@,
    {
        "csv"
    }

    /// The text of the CSV file holding `headers` and then `rows`, one line each.
    pub fn document(&self, headers: &[String], rows: &[Vec<String>]) -> (r: String)
        ensures
            r@ == csv_document(string_views(headers@), rows@.map_values(|row: Vec<String>| string_views(row@))),
    {
        let ghost all = rows@.map_values(|row: Vec<String>| string_views(row@));
        let mut out: Vec<char> = Vec::new();
        push_fields(&mut out, headers);
        out.push('\n');
        for i in 0..rows.len()
            invariant
                all == rows@.map_values(|row: Vec<String>| string_views(row@)),
                out@ == csv_document(string_views(headers@), all.take(i as int)),
        {
            assert(all.take(0) =~= Seq::<Seq<Seq<char>>>::empty());
            let ghost before = out@;
            push_fields(&mut out, rows[i].as_slice());
            out.push('\n');
            assert(all.take(i + 1).drop_last() =~= all.take(i as int));
            assert(all.take(i + 1).last() == string_views(rows@[i as int]@));
            assert(out@ =~= csv_document(string_views(headers@), all.take(i + 1)));
        }
        assert(all.take(rows.len() as int) =~= all);
        string_from_chars(&out)
    }
}

/// Each line of a CSV document reads back as what was written on it: the
/// document of the headers alone is one line that reads back as the headers,
/// and one more row adds one line, after the lines before, that reads back as
/// that row.
pub proof fn lemma_csv_document_lines(
    headers: Seq<Seq<char>>,
    rows: Seq<Seq<Seq<char>>>,
    row: Seq<Seq<char>>,
)
    ensures
        headers.len() > 0 ==> exists|line: Seq<char>|
            csv_document(headers, Seq::empty()) == line.push('\n') && #[trigger] read_record(line) == headers,
        row.len() > 0 ==> exists|line: Seq<char>|
            csv_document(headers, rows.push(row)) == csv_document(headers, rows) + line.push('\n')
                && #[trigger] read_record(line) == row,
{
    if headers.len() > 0 {
        lemma_csv_line_roundtrip(headers);
    }
    if row.len() > 0 {
        lemma_csv_line_roundtrip(row);
        assert(rows.push(row).drop_last() =~= rows);
        assert(csv_document(headers, rows.push(row)) == csv_document(headers, rows) + encode_fields(row).push('\n'));
    }
}

/// The document of the first rows is the start of the document of all rows.
proof fn lemma_csv_document_prefix(headers: Seq<Seq<char>>, rows: Seq<Seq<Seq<char>>>, k: int)
    requires
        0 <= k <= rows.len(),
    ensures
        csv_document(headers, rows.take(k)).is_prefix_of(csv_document(headers, rows)),
    decreases rows.len(),
{
    if k == rows.len() {
        assert(rows.take(k) =~= rows);
    } else {
        lemma_csv_document_prefix(headers, rows.drop_last(), k);
        assert(rows.drop_last().take(k) =~= rows.take(k));
    }
}

/// Every data row of a CSV document stands on a line of its own, in order:
/// for each row `i` with a field, the document starts with the document of the
/// rows before it and then a line that reads back as row `i`.
pub proof fn lemma_csv_document_row_lines(headers: Seq<Seq<char>>, rows: Seq<Seq<Seq<char>>>, i: int)
    requires
        0 <= i < rows.len(),
        rows[i].len() > 0,
    ensures
        exists|line: Seq<char>|
            (csv_document(headers, rows.take(i)) + line.push('\n')).is_prefix_of(csv_document(headers, rows))
                && #[trigger] read_record(line) == rows[i],
{
    lemma_csv_document_lines(headers, rows.take(i), rows[i]);
    assert(rows.take(i).push(rows[i]) =~= rows.take(i + 1));
    lemma_csv_document_prefix(headers, rows, i + 1);
    lemma_csv_line_roundtrip(rows[i]);
    assert(rows.take(i + 1).drop_last() =~= rows.take(i));
}

/// A field is written as it is unless it holds a comma, a double quote, a
/// line feed or a carriage return; such a field is written between double
/// quotes, with each of its double quotes doubled.
pub proof fn lemma_encode_field_quotes_only_when_needed(f: Seq<char>)
    ensures
        (forall|k: int| 0 <= k < f.len() ==> f[k] != ',' && f[k] != '"' && f[k] != '\n' && f[k] != '\r')
            ==> encode_field(f) == f,
        (exists|k: int| 0 <= k < f.len() && (f[k] == ',' || f[k] == '"' || f[k] == '\n' || f[k] == '\r'))
            ==> encode_field(f) == seq!['"'] + double_quotes(f) + seq!['"'],
        !f.contains('"') ==> double_quotes(f) == f,
{
    lemma_double_quotes_without_quotes(f);
}

/// A field without double quotes keeps its characters when its quotes are doubled.
proof fn lemma_double_quotes_without_quotes(f: Seq<char>)
    ensures
        !f.contains('"') ==> double_quotes(f) == f,
    decreases f.len(),
{
    if f.len() > 0 && !f.contains('"') {
        assert(!f.drop_last().contains('"')) by {
            if f.drop_last().contains('"') {
                let k = choose|k: int| 0 <= k < f.drop_last().len() && f.drop_last()[k] == '"';
                assert(f[k] == '"');
            }
        }
        lemma_double_quotes_without_quotes(f.drop_last());
        assert(f.last() != '"') by {
            assert(f[f.len() - 1] == f.last());
        }
        assert(f.drop_last().push(f.last()) =~= f);
    }
}

} // verus!

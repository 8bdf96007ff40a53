//! CSV emission with an exact character-level specification: fields that
//! contain a quote, a comma or a line break are wrapped in double quotes with
//! inner quotes doubled, fields are joined by commas, and every row ends in a
//! line feed. The produced text is pinned down to the character by
//! [`csv_table`].

use vstd::prelude::*;
use vstd::string::StrSliceExecFns;
use crate::text::append_str_chars;
use crate::text::chars_to_string;

verus! {

/// Whether a CSV field must be quoted: it holds a quote, a comma, a line
/// feed or a carriage return.
pub open spec fn field_needs_quoting(f: Seq<char>) -> bool {
    exists|i: int|
        0 <= i < f.len() && (f[i] == '"' || f[i] == ',' || f[i] == '\n' || f[i] == '\r')
}

/// A field's characters with every double quote doubled.
pub open spec fn escape_quotes(f: Seq<char>) -> Seq<char>
    decreases f.len(),
{
    if f.len() == 0 {
        Seq::empty()
    } else {
        escape_quotes(f.drop_last()) + (if f.last() == '"' {
            seq!['"', '"']
        } else {
            seq![f.last()]
        })
    }
}

/// A field as it appears in the output: quoted and escaped when necessary,
/// verbatim otherwise.
pub open spec fn csv_field(f: Seq<char>) -> Seq<char> {
    if field_needs_quoting(f) {
        seq!['"'] + escape_quotes(f) + seq!['"']
    } else {
        f
    }
}

/// The separator written after the field at position `j` of a row: a comma
/// between fields, a line feed after the last.
pub open spec fn field_sep(len: int, j: int) -> char {
    if j == len - 1 {
        '\n'
    } else {
        ','
    }
}

/// The output for the fields of a row from position `j` on.
pub open spec fn csv_row_from(fs: Seq<Seq<char>>, j: int) -> Seq<char>
    decreases fs.len() - j,
{
    if j < 0 || j >= fs.len() {
        Seq::empty()
    } else {
        csv_field(fs[j]) + seq![field_sep(fs.len() as int, j)] + csv_row_from(fs, j + 1)
    }
}

/// One output row: the escaped fields joined by commas, ending in a line
/// feed. A row without fields produces nothing.
pub open spec fn csv_row(fs: Seq<Seq<char>>) -> Seq<char> {
    csv_row_from(fs, 0)
}

/// The output for the rows of a table from position `k` on.
pub open spec fn csv_table_from(rows: Seq<Seq<Seq<char>>>, k: int) -> Seq<char>
    decreases rows.len() - k,
{
    if k < 0 || k >= rows.len() {
        Seq::empty()
    } else {
        csv_row(rows[k]) + csv_table_from(rows, k + 1)
    }
}

/// A whole CSV table: the concatenation of its rows.
pub open spec fn csv_table(rows: Seq<Seq<Seq<char>>>) -> Seq<char> {
    csv_table_from(rows, 0)
}

/// The views of a vector of strings.
pub open spec fn views_of(fields: Seq<String>) -> Seq<Seq<char>> {
    fields.map_values(|s: String| s@)
}


/// Taking views distributes over concatenation.
pub proof fn lemma_views_of_concat(a: Seq<String>, b: Seq<String>)
    ensures
        views_of(a + b) =~= views_of(a) + views_of(b),
{
}

/// The views of a table of strings.
pub open spec fn table_views(rows: Seq<Vec<String>>) -> Seq<Seq<Seq<char>>> {
    rows.map_values(|row: Vec<String>| views_of(row@))
}


/// Pushing a row onto a table pushes its views.
pub proof fn lemma_table_views_push(rows: Seq<Vec<String>>, row: Vec<String>)
    ensures
        table_views(rows.push(row)) =~= table_views(rows).push(views_of(row@)),
{
    assert forall|m: int| 0 <= m < rows.len() + 1 implies table_views(rows.push(row))[m]
        == table_views(rows).push(views_of(row@))[m] by {
        if m < rows.len() {
            assert(rows.push(row)[m] == rows[m]);
        } else {
            assert(rows.push(row)[m] == row);
        }
    }
}

/// Escaping one more character appends its escaped form.
proof fn lemma_escape_snoc(f: Seq<char>, i: int)
    requires
        0 <= i < f.len(),
    ensures
        escape_quotes(f.subrange(0, i + 1)) == escape_quotes(f.subrange(0, i)) + (if f[i] == '"' {
            seq!['"', '"']
        } else {
            seq![f[i]]
        }),
{
    let ext = f.subrange(0, i + 1);
    assert(ext.drop_last() =~= f.subrange(0, i));
    assert(ext.last() == f[i]);
}

/// Reports whether a field must be quoted.
fn needs_quoting(f: &str) -> (r: bool)
    ensures
        r == field_needs_quoting(f@),
{
    let n = f.unicode_len();
    let mut i: usize = 0;
    while i < n
        invariant
            0 <= i <= n,
            n == f@.len(),
            forall|j: int|
                0 <= j < i ==> !(f@[j] == '"' || f@[j] == ',' || f@[j] == '\n' || f@[j] == '\r'),
        decreases n - i,
    {
        let c = f.get_char(i);
        if c == '"' || c == ',' || c == '\n' || c == '\r' {
            return true;
        }
        i = i + 1;
    }
    false
}

/// Appends one escaped, possibly quoted field to the output.
fn csv_field_into(out: &mut Vec<char>, f: &str)
    ensures
        final(out)@ == old(out)@ + csv_field(f@),
{
    if !needs_quoting(f) {
        append_str_chars(out, f);
        return;
    }
    out.push('"');
    let ghost start = out@;
    let n = f.unicode_len();
    let mut i: usize = 0;
    while i < n
        invariant
            0 <= i <= n,
            n == f@.len(),
            out@ == start + escape_quotes(f@.subrange(0, i as int)),
        decreases n - i,
    {
        let c = f.get_char(i);
        if c == '"' {
            out.push('"');
            out.push('"');
        } else {
            out.push(c);
        }
        proof {
            lemma_escape_snoc(f@, i as int);
        }
        i = i + 1;
    }
    assert(f@.subrange(0, f@.len() as int) =~= f@);
    out.push('"');
    assert(out@ =~= old(out)@ + csv_field(f@));
}

/// Appends one row — fields joined by commas, terminated by a line feed — to
/// the output.
pub fn csv_row_into(out: &mut Vec<char>, fields: &Vec<String>)
    ensures
        final(out)@ == old(out)@ + csv_row(views_of(fields@)),
{
    let ghost fs = views_of(fields@);
    let mut j: usize = 0;
    while j < fields.len()
        invariant
            0 <= j <= fields@.len(),
            fs == views_of(fields@),
            fs.len() == fields@.len(),
            old(out)@ + csv_row(fs) == out@ + csv_row_from(fs, j as int),
        decreases fields.len() - j,
    {
        assert(fs[j as int] == fields@[j as int]@);
        csv_field_into(out, fields[j].as_str());
        if j == fields.len() - 1 {
            out.push('\n');
        } else {
            out.push(',');
        }
        assert(csv_row_from(fs, j as int) == csv_field(fs[j as int]) + seq![
            field_sep(fs.len() as int, j as int),
        ] + csv_row_from(fs, j as int + 1));
        j = j + 1;
        assert(old(out)@ + csv_row(fs) =~= out@ + csv_row_from(fs, j as int));
    }
    assert(out@ =~= old(out)@ + csv_row(fs));
}

/// Renders a whole table. The result is exactly [`csv_table`] of the rows.
pub fn csv_table_string(rows: &Vec<Vec<String>>) -> (r: String)
    ensures
        r@ == csv_table(table_views(rows@)),
{
    let ghost tv = table_views(rows@);
    let mut out: Vec<char> = Vec::new();
    let mut k: usize = 0;
    while k < rows.len()
        invariant
            0 <= k <= rows@.len(),
            tv == table_views(rows@),
            tv.len() == rows@.len(),
            csv_table(tv) == out@ + csv_table_from(tv, k as int),
        decreases rows.len() - k,
    {
        assert(tv[k as int] == views_of(rows@[k as int]@));
        csv_row_into(&mut out, &rows[k]);
        assert(csv_table_from(tv, k as int) == csv_row(tv[k as int]) + csv_table_from(
            tv,
            k as int + 1,
        ));
        k = k + 1;
        assert(csv_table(tv) =~= out@ + csv_table_from(tv, k as int));
    }
    assert(out@ =~= csv_table(tv));
    chars_to_string(&out)
}

} // verus!

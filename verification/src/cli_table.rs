//! The text of the command-line SQL runner: what to do with a typed line, and
//! how results are printed as an aligned table.
use vstd::prelude::*;
use vstd::utf8::encode_utf8;
use vstd::utf8::is_ascii_chars;
use vstd::utf8::is_ascii_chars_encode_utf8;
use crate::changes::{lemma_concat_step, seq_concat};
use crate::schema::Column;
use crate::text::{
    decimal, eq_ignore_ascii_case, eq_ignore_ascii_case_spec, push_decimal, push_signed_decimal,
    signed_decimal, to_chars, trim, trim_spec,
};

verus! {

/// A value of a result set. A floating-point value carries the text that
/// its `Display` writes (floating point stays outside this library).
pub enum Value {
    Integer(i64),
    Float(String),
    Text(String),
    Blob(Vec<u8>),
}

/// The printed text of a value.
pub open spec fn value_text(v: Value) -> Seq<char> {
    match v {
        Value::Integer(i) => signed_decimal(i as int),
        Value::Float(t) => t@,
        Value::Text(t) => t@,
        Value::Blob(b) => "<"@ + decimal(b@.len()) + " bytes>"@,
    }
}

/// The printed text of a value (`NULL` for none).
pub open spec fn cell_text(v: Option<Value>) -> Seq<char> {
    match v {
        Some(x) => value_text(x),
        None => "NULL"@,
    }
}

/// Byte length of a text in UTF-8 (`str::len`).
pub open spec fn utf8_len(s: Seq<char>) -> nat {
    encode_utf8(s).len()
}

/// The width counted for a cell: the byte length of its text; 4 for `NULL`.
pub open spec fn cell_width(v: Option<Value>) -> nat {
    match v {
        Some(x) => utf8_len(value_text(x)),
        None => 4,
    }
}

/// The width of column `i`: the widest of its name and of the cells of
/// column `i` in `rows`.
pub open spec fn column_width(cols: Seq<Column>, rows: Seq<Seq<Option<Value>>>, i: int) -> nat
    decreases rows.len(),
{
    if rows.len() == 0 {
        utf8_len(cols[i].name@)
    } else {
        let w = column_width(cols, rows.drop_last(), i);
        let r = rows.last();
        if i < r.len() && cell_width(r[i]) > w {
            cell_width(r[i])
        } else {
            w
        }
    }
}

/// `s` padded with spaces to `w` characters (as `{:<w$}` formats it).
pub open spec fn padded(s: Seq<char>, w: nat) -> Seq<char> {
    s + Seq::new(if s.len() < w { (w - s.len()) as nat } else { 0 }, |_k: int| ' ')
}

/// One cell of a printed line: ` text |`.
pub open spec fn field(s: Seq<char>, w: nat) -> Seq<char> {
    " "@ + padded(s, w) + " |"@
}

/// The printed table: a header line of column names, a separator of dashes,
/// one line per row, and the row count.
pub open spec fn table_text(cols: Seq<Column>, rows: Seq<Seq<Option<Value>>>) -> Seq<char> {
    let n = cols.len();
    let header = "|"@ + seq_concat(
        Seq::new(n, |i: int| field(cols[i].name@, column_width(cols, rows, i))),
    ) + "\n"@;
    let separator = "|"@ + seq_concat(
        Seq::new(
            n,
            |i: int| Seq::new(column_width(cols, rows, i) + 2, |_k: int| '-') + "|"@,
        ),
    ) + "\n"@;
    let lines = seq_concat(
        rows.map_values(
            |r: Seq<Option<Value>>|
                "|"@ + seq_concat(
                    Seq::new(r.len(), |i: int| field(cell_text(r[i]), column_width(cols, rows, i))),
                ) + "\n"@,
        ),
    );
    header + separator + lines + "("@ + decimal(rows.len()) + " rows)\n\n"@
}

/// Appends the printed text of a value.
pub fn push_value(out: &mut String, v: &Value)
    ensures
        final(out)@ == old(out)@ + value_text(*v),
{
    match v {
        Value::Integer(i) => push_signed_decimal(out, *i),
        Value::Float(t) => out.append(t.as_str()),
        Value::Text(t) => out.append(t.as_str()),
        Value::Blob(b) => {
            let ghost before = out@;
            out.append("<");
            push_decimal(out, b.len() as u64);
            out.append(" bytes>");
            assert(out@ =~= before + ("<"@ + decimal(b@.len()) + " bytes>"@));
        },
    }
}

/// The printed text of a value.
pub fn format_value(v: &Value) -> (r: String)
    ensures
        r@ == value_text(*v),
{
    let mut s = String::new();
    push_value(&mut s, v);
    assert(s@ =~= value_text(*v));
    s
}

/// Appends `s` padded with spaces to `w` characters.
fn push_padded(out: &mut String, s: &str, w: usize)
    ensures
        final(out)@ == old(out)@ + padded(s@, w as nat),
{
    let ghost before = out@;
    out.append(s);
    let n = to_chars(s).len();
    if n >= w {
        assert(out@ =~= before + padded(s@, w as nat));
        return ;
    }
    let mut k = n;
    while k < w
        invariant
            n == s@.len(),
            n <= k <= w,
            out@ == before + s@ + Seq::new((k - n) as nat, |_k: int| ' '),
        decreases w - k,
    {
        out.append(" ");
        proof {
            reveal_strlit(" ");
            assert(Seq::new((k + 1 - n) as nat, |_k: int| ' ') =~= Seq::new(
                (k - n) as nat,
                |_k: int| ' ',
            ).push(' '));
        }
        k += 1;
        assert(out@ =~= before + s@ + Seq::new((k - n) as nat, |_k: int| ' '));
    }
}

proof fn lemma_column_width_bound(cols: Seq<Column>, rows: Seq<Seq<Option<Value>>>, i: int, m: nat)
    requires
        0 <= i < cols.len(),
        utf8_len(cols[i].name@) <= m,
        forall|r: int, j: int| 0 <= r < rows.len() && 0 <= j < rows[r].len() ==> cell_width(
            #[trigger] rows[r][j],
        ) <= m,
    ensures
        column_width(cols, rows, i) <= m,
    decreases rows.len(),
{
    if rows.len() > 0 {
        let p = rows.drop_last();
        assert forall|r: int, j: int| 0 <= r < p.len() && 0 <= j < p[r].len() implies cell_width(
            #[trigger] p[r][j],
        ) <= m by {
            assert(p[r] == rows[r]);
        }
        lemma_column_width_bound(cols, p, i, m);
        let last = rows.last();
        if i < last.len() {
            assert(cell_width(rows[rows.len() - 1][i]) <= m);
        }
    }
}

/// The widths of the columns (see `column_width`).
fn column_widths(cols: &[Column], rows: &[Vec<Option<Value>>]) -> (w: Vec<usize>)
    requires
        forall|r: int, i: int| 0 <= r < rows@.len() && 0 <= i < rows@[r]@.len() ==> cell_width(
            #[trigger] rows@[r]@[i],
        ) <= usize::MAX,
        forall|i: int| 0 <= i < cols@.len() ==> utf8_len((#[trigger] cols@[i]).name@) <= usize::MAX,
    ensures
        w@.len() == cols@.len(),
        forall|i: int| 0 <= i < cols@.len() ==> (#[trigger] w@[i]) == column_width(
            cols@,
            rows@.map_values(|r: Vec<Option<Value>>| r@),
            i,
        ),
{
    let ghost all = rows@.map_values(|r: Vec<Option<Value>>| r@);
    let mut widths: Vec<usize> = Vec::new();
    let mut i: usize = 0;
    while i < cols.len()
        invariant
            i <= cols@.len(),
            widths@.len() == i,
            forall|j: int| 0 <= j < cols@.len() ==> utf8_len((#[trigger] cols@[j]).name@) <= usize::MAX,
            forall|j: int| 0 <= j < i ==> (#[trigger] widths@[j]) == utf8_len(cols@[j].name@),
        decreases cols.len() - i,
    {
        widths.push(cols[i].name.as_str().len());
        i += 1;
    }
    let mut r: usize = 0;
    while r < rows.len()
        invariant
            r <= rows@.len(),
            widths@.len() == cols@.len(),
            all == rows@.map_values(|r: Vec<Option<Value>>| r@),
            forall|a: int, b: int| 0 <= a < rows@.len() && 0 <= b < rows@[a]@.len() ==> cell_width(
                #[trigger] rows@[a]@[b],
            ) <= usize::MAX,
            forall|j: int| 0 <= j < cols@.len() ==> (#[trigger] widths@[j]) == column_width(
                cols@,
                all.take(r as int),
                j,
            ),
        decreases rows.len() - r,
    {
        let values = &rows[r];
        let ghost before = widths@;
        let mut c: usize = 0;
        while c < values.len()
            invariant
                c <= values@.len(),
                values@ == rows@[r as int]@,
                widths@.len() == cols@.len(),
                forall|b: int| 0 <= b < values@.len() ==> cell_width(#[trigger] values@[b]) <= usize::MAX,
                forall|j: int| 0 <= j < cols@.len() ==> (#[trigger] widths@[j]) == if j < c && j < values@.len() && cell_width(values@[j]) > before[j] {
                    cell_width(values@[j])
                } else {
                    before[j] as nat
                },
            decreases values.len() - c,
        {
            if c < widths.len() {
                let len: usize = match &values[c] {
                    Some(v) => {
                        let t = format_value(v);
                        t.as_str().len()
                    },
                    None => 4,
                };
                if len > widths[c] {
                    widths.set(c, len);
                }
            }
            c += 1;
        }
        proof {
            let p = all.take(r + 1);
            assert(p.drop_last() =~= all.take(r as int));
            assert(p.last() == values@);
            assert forall|j: int| 0 <= j < cols@.len() implies (#[trigger] widths@[j]) == column_width(cols@, p, j) by {
                assert(before[j] == column_width(cols@, all.take(r as int), j));
            }
        }
        r += 1;
    }
    assert(all.take(rows@.len() as int) =~= all);
    widths
}

/// The printed table of a result set (see `table_text`). Every row has at
/// most as many values as there are columns, as the engine returns them.
pub fn print_table(columns: &[Column], rows: &[Vec<Option<Value>>]) -> (r: String)
    requires
        forall|a: int| 0 <= a < rows@.len() ==> (#[trigger] rows@[a])@.len() <= columns@.len(),
        forall|r: int, i: int| 0 <= r < rows@.len() && 0 <= i < rows@[r]@.len() ==> cell_width(
            #[trigger] rows@[r]@[i],
        ) + 2 <= usize::MAX,
        forall|i: int| 0 <= i < columns@.len() ==> utf8_len((#[trigger] columns@[i]).name@) + 2
            <= usize::MAX,
    ensures
        r@ == table_text(columns@, rows@.map_values(|r: Vec<Option<Value>>| r@)),
{
    let ghost all = rows@.map_values(|r: Vec<Option<Value>>| r@);
    let widths = column_widths(columns, rows);
    let ghost n = columns@.len();
    proof {
        assert forall|j: int| 0 <= j < n implies (#[trigger] widths@[j]) + 2 <= usize::MAX by {
            assert forall|r: int, c: int| 0 <= r < all.len() && 0 <= c < all[r].len() implies cell_width(
                #[trigger] all[r][c],
            ) <= (usize::MAX - 2) as nat by {
                assert(all[r][c] == rows@[r]@[c]);
            }
            lemma_column_width_bound(columns@, all, j, (usize::MAX - 2) as nat);
        }
    }
    let mut out = String::new();
    // header
    out.append("|");
    let ghost hf = |i: int| field(columns@[i].name@, column_width(columns@, all, i));
    let ghost hs = Seq::new(n, hf);
    let mut i: usize = 0;
    while i < columns.len()
        invariant
            i <= n,
            n == columns@.len(),
            widths@.len() == n,
            forall|j: int| 0 <= j < n ==> (#[trigger] widths@[j]) == column_width(columns@, all, j),
            hs == Seq::new(n, hf),
            hf == (|i: int| field(columns@[i].name@, column_width(columns@, all, i))),
            out@ == "|"@ + seq_concat(hs.take(i as int)),
        decreases columns.len() - i,
    {
        proof {
            lemma_concat_step(hs, i as int);
        }
        let ghost before = out@;
        out.append(" ");
        push_padded(&mut out, columns[i].name.as_str(), widths[i]);
        out.append(" |");
        assert(out@ =~= before + hf(i as int));
        i += 1;
    }
    assert(hs.take(n as int) =~= hs);
    out.append("\n");
    let ghost header = out@;
    // separator
    out.append("|");
    let ghost sf = |i: int| Seq::new(column_width(columns@, all, i) + 2, |_k: int| '-') + "|"@;
    let ghost ss = Seq::new(n, sf);
    let mut i: usize = 0;
    while i < widths.len()
        invariant
            i <= n,
            widths@.len() == n,
            forall|j: int| 0 <= j < n ==> (#[trigger] widths@[j]) == column_width(columns@, all, j),
            forall|j: int| 0 <= j < n ==> (#[trigger] widths@[j]) + 2 <= usize::MAX,
            ss == Seq::new(n, sf),
            sf == (|i: int| Seq::new(column_width(columns@, all, i) + 2, |_k: int| '-') + "|"@),
            out@ == header + "|"@ + seq_concat(ss.take(i as int)),
        decreases n - i,
    {
        proof {
            lemma_concat_step(ss, i as int);
        }
        let ghost before = out@;
        let w = widths[i] + 2;
        let mut k: usize = 0;
        while k < w
            invariant
                k <= w,
                out@ == before + Seq::new(k as nat, |_k: int| '-'),
            decreases w - k,
        {
            out.append("-");
            proof {
                reveal_strlit("-");
                assert(Seq::new((k + 1) as nat, |_k: int| '-') =~= Seq::new(k as nat, |_k: int| '-').push('-'));
            }
            k += 1;
        }
        out.append("|");
        assert(out@ =~= before + sf(i as int));
        i += 1;
    }
    assert(ss.take(n as int) =~= ss);
    out.append("\n");
    let ghost upto_lines = out@;
    // rows
    let ghost rf = |r: Seq<Option<Value>>|
        "|"@ + seq_concat(Seq::new(r.len(), |i: int| field(cell_text(r[i]), column_width(columns@, all, i)))) + "\n"@;
    let mut r: usize = 0;
    while r < rows.len()
        invariant
            r <= rows@.len(),
            widths@.len() == n,
            n == columns@.len(),
            all == rows@.map_values(|r: Vec<Option<Value>>| r@),
            forall|j: int| 0 <= j < n ==> (#[trigger] widths@[j]) == column_width(columns@, all, j),
            forall|a: int| 0 <= a < rows@.len() ==> (#[trigger] rows@[a])@.len() <= n,
            rf == (|r: Seq<Option<Value>>|
                "|"@ + seq_concat(Seq::new(r.len(), |i: int| field(cell_text(r[i]), column_width(columns@, all, i)))) + "\n"@),
            out@ == upto_lines + seq_concat(all.map_values(rf).take(r as int)),
        decreases rows.len() - r,
    {
        proof {
            lemma_concat_step(all.map_values(rf), r as int);
        }
        let ghost before = out@;
        let values = &rows[r];
        let ghost cf = |i: int| field(cell_text(values@[i]), column_width(columns@, all, i));
        let ghost cs = Seq::new(values@.len(), cf);
        out.append("|");
        let mut c: usize = 0;
        while c < values.len()
            invariant
                c <= values@.len(),
                values@.len() <= n,
                widths@.len() == n,
                forall|j: int| 0 <= j < n ==> (#[trigger] widths@[j]) == column_width(columns@, all, j),
                cs == Seq::new(values@.len(), cf),
                cf == (|i: int| field(cell_text(values@[i]), column_width(columns@, all, i))),
                out@ == before + "|"@ + seq_concat(cs.take(c as int)),
            decreases values.len() - c,
        {
            proof {
                lemma_concat_step(cs, c as int);
            }
            let ghost b2 = out@;
            let s = match &values[c] {
                Some(v) => format_value(v),
                None => String::from_str("NULL"),
            };
            out.append(" ");
            push_padded(&mut out, s.as_str(), widths[c]);
            out.append(" |");
            assert(out@ =~= b2 + cf(c as int));
            c += 1;
        }
        assert(cs.take(values@.len() as int) =~= cs);
        out.append("\n");
        proof {
            assert(all[r as int] == values@);
            assert(cs =~= Seq::new(all[r as int].len(), |i: int| field(cell_text(all[r as int][i]), column_width(columns@, all, i))));
            assert(out@ =~= before + rf(all[r as int]));
            assert(all.map_values(rf)[r as int] == rf(all[r as int]));
        }
        r += 1;
    }
    assert(all.map_values(rf).take(rows@.len() as int) =~= all.map_values(rf));
    let ghost upto_count = out@;
    out.append("(");
    push_decimal(&mut out, rows.len() as u64);
    out.append(" rows)\n\n");
    proof {
        assert(out@ =~= upto_count + ("("@ + decimal(rows@.len()) + " rows)\n\n"@));
        assert(out@ =~= table_text(columns@, all));
    }
    out
}

/// What the runner does with a typed line.
pub enum CliCommand {
    /// `exit` or `quit`, in any ASCII case: leave.
    Exit,
    /// A blank line: ask again.
    Skip,
    /// Run this statement (the line without surrounding whitespace).
    Run(String),
}

/// Reads a typed line.
pub fn parse_cli_input(input: &str) -> (r: CliCommand)
    ensures
        ({
            let q = trim_spec(input@);
            if eq_ignore_ascii_case_spec(q, "exit"@) || eq_ignore_ascii_case_spec(q, "quit"@) {
                r is Exit
            } else if q.len() == 0 {
                r is Skip
            } else {
                r matches CliCommand::Run(s) && s@ == q
            }
        }),
{
    let query = trim(input);
    if eq_ignore_ascii_case(query.as_str(), "exit") || eq_ignore_ascii_case(query.as_str(), "quit") {
        return CliCommand::Exit;
    }
    if query.as_str().is_empty() {
        return CliCommand::Skip;
    }
    CliCommand::Run(query)
}

/// What the runner prints for a statement that returns no rows: the rows it
/// affected, the id of the row it inserted when there is one, then a blank
/// line.
pub fn execution_report(rows_affected: u64, last_insert_rowid: Option<i64>) -> (r: String)
    ensures
        r@ == decimal(rows_affected as nat) + " rows affected\n"@ + match last_insert_rowid {
            Some(id) => "last_insert_rowid: "@ + signed_decimal(id as int) + "\n"@,
            None => Seq::<char>::empty(),
        } + "\n"@,
{
    let mut out = String::new();
    push_decimal(&mut out, rows_affected);
    out.append(" rows affected\n");
    let ghost mid = out@;
    match last_insert_rowid {
        Some(id) => {
            out.append("last_insert_rowid: ");
            push_signed_decimal(&mut out, id);
            out.append("\n");
            assert(out@ =~= mid + ("last_insert_rowid: "@ + signed_decimal(id as int) + "\n"@));
        },
        None => {
            assert(out@ =~= mid + Seq::<char>::empty());
        },
    }
    out.append("\n");
    out
}

/// Law: a cell is counted by the byte length of the text printed for it,
/// `NULL` (4 bytes) included.
pub proof fn lemma_cell_width_is_printed_length(v: Option<Value>)
    ensures
        cell_width(v) == utf8_len(cell_text(v)),
{
    if v is None {
        reveal_strlit("NULL");
        assert(is_ascii_chars("NULL"@));
        is_ascii_chars_encode_utf8("NULL"@);
    }
}

/// Law: every column is at least as wide as its name and as the printed text
/// of each of its cells, `NULL` included, so no cell overflows its column.
pub proof fn lemma_column_fits_its_cells(cols: Seq<Column>, rows: Seq<Seq<Option<Value>>>, i: int)
    requires
        0 <= i < cols.len(),
    ensures
        utf8_len(cols[i].name@) <= column_width(cols, rows, i),
        forall|r: int|
            0 <= r < rows.len() && i < rows[r].len() ==> utf8_len(cell_text(#[trigger] rows[r][i]))
                <= column_width(cols, rows, i),
    decreases rows.len(),
{
    if rows.len() > 0 {
        lemma_column_fits_its_cells(cols, rows.drop_last(), i);
        assert forall|r: int|
            0 <= r < rows.len() && i < rows[r].len() implies utf8_len(cell_text(#[trigger] rows[r][i]))
            <= column_width(cols, rows, i) by {
            lemma_cell_width_is_printed_length(rows[r][i]);
            if r < rows.len() - 1 {
                assert(rows.drop_last()[r] == rows[r]);
            }
        }
    }
}

} // verus!

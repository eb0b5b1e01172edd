//! Query gateway: run one statement, serialize the whole result eagerly.
//!
//! A result set is an ordered sequence of rows, each row a mapping from
//! column name to a displayed value, where SQL null renders as the literal
//! `"NULL"` and every other value through its textual form. The serialized
//! wire form concatenates every cell as `name|value` with no further
//! delimiter — lossy for multi-row results, a documented limitation of the
//! format that must not be silently repaired.
//!
//! A statement error is never raised: it is captured as data
//! (`QueryOutcome::Failure`) and rendered as the result string, which the
//! caller must disambiguate.

use vstd::prelude::*;
use vstd::string::StringExecFns;
use vstd::string::StrSliceExecFns;

verus! {

/// The value of one column in one row: SQL null, or the value's textual form
/// (original typing is discarded).
#[derive(Debug, Clone, PartialEq, Eq)]
pub enum CellValue {
    /// An explicit SQL null.
    Null,
    /// Any non-null value, already rendered to text.
    Text(String),
}

/// One column of one row: the column name and its displayed value.
#[derive(Debug, Clone, PartialEq, Eq)]
pub struct Cell {
    /// The column name, unique within its row.
    pub name: String,
    /// The value under that column.
    pub value: CellValue,
}

/// One row of a result set.
#[derive(Debug, Clone, PartialEq, Eq)]
pub struct Row {
    /// The cells, one per column.
    pub cells: Vec<Cell>,
}

/// What running one statement produced: the full result set, fetched
/// eagerly, or the textual description of the statement's error.
#[derive(Debug, Clone, PartialEq, Eq)]
pub enum QueryOutcome {
    /// The statement succeeded with these rows.
    Rows(Vec<Row>),
    /// The statement failed; the description is returned as ordinary data.
    Failure(String),
}

/// The displayed form of a value: nulls render as the literal `NULL`.
pub open spec fn rendered_value(v: CellValue) -> Seq<char> {
    match v {
        CellValue::Null => "NULL"@,
        CellValue::Text(s) => s@,
    }
}

/// The serialized form of one cell: its name, a `'|'`, its displayed value.
pub open spec fn cell_text(c: Cell) -> Seq<char> {
    c.name@ + seq!['|'] + rendered_value(c.value)
}

/// The serialized form of a row's cells, concatenated with no delimiter.
pub open spec fn cells_text(cs: Seq<Cell>) -> Seq<char>
    decreases cs.len(),
{
    if cs.len() == 0 {
        Seq::<char>::empty()
    } else {
        cell_text(cs.first()) + cells_text(cs.drop_first())
    }
}

/// The serialized form of one row.
pub open spec fn row_text(r: Row) -> Seq<char> {
    cells_text(r.cells@)
}

/// The serialized form of a whole result set: the rows' serialized forms
/// concatenated with no row delimiter.
pub open spec fn rows_text(rs: Seq<Row>) -> Seq<char>
    decreases rs.len(),
{
    if rs.len() == 0 {
        Seq::<char>::empty()
    } else {
        row_text(rs.first()) + rows_text(rs.drop_first())
    }
}

/// `s` holds no `'|'` separator.
pub open spec fn pipe_free(s: Seq<char>) -> bool {
    forall|i: int| 0 <= i < s.len() ==> s[i] != '|'
}

pub proof fn lemma_cells_text_push(cs: Seq<Cell>, c: Cell)
    ensures
        cells_text(cs.push(c)) == cells_text(cs) + cell_text(c),
    decreases cs.len(),
{
    let p = cs.push(c);
    if cs.len() == 0 {
        assert(p.first() == c);
        assert(p.drop_first() =~= Seq::<Cell>::empty());
        assert(cells_text(Seq::<Cell>::empty()) == Seq::<char>::empty());
        assert(cells_text(p) == cell_text(c) + Seq::<char>::empty());
        assert(cells_text(p) =~= cells_text(cs) + cell_text(c));
    } else {
        assert(p.first() == cs.first());
        assert(p.drop_first() =~= cs.drop_first().push(c));
        lemma_cells_text_push(cs.drop_first(), c);
        assert(cells_text(cs.drop_first().push(c)) == cells_text(cs.drop_first()) + cell_text(c));
        assert(cells_text(p) == cell_text(cs.first()) + (cells_text(cs.drop_first()) + cell_text(c)));
        assert(cells_text(p) =~= cells_text(cs) + cell_text(c));
    }
}

pub proof fn lemma_rows_text_push(rs: Seq<Row>, r: Row)
    ensures
        rows_text(rs.push(r)) == rows_text(rs) + row_text(r),
    decreases rs.len(),
{
    let p = rs.push(r);
    if rs.len() == 0 {
        assert(p.first() == r);
        assert(p.drop_first() =~= Seq::<Row>::empty());
        assert(rows_text(Seq::<Row>::empty()) == Seq::<char>::empty());
        assert(rows_text(p) == row_text(r) + Seq::<char>::empty());
        assert(rows_text(p) =~= rows_text(rs) + row_text(r));
    } else {
        assert(p.first() == rs.first());
        assert(p.drop_first() =~= rs.drop_first().push(r));
        lemma_rows_text_push(rs.drop_first(), r);
        assert(rows_text(rs.drop_first().push(r)) == rows_text(rs.drop_first()) + row_text(r));
        assert(rows_text(p) == row_text(rs.first()) + (rows_text(rs.drop_first()) + row_text(r)));
        assert(rows_text(p) =~= rows_text(rs) + row_text(r));
    }
}

/// Render one value for display.
pub fn render_value(v: &CellValue) -> (r: String)
    ensures
        r@ == rendered_value(*v),
{
    match v {
        CellValue::Null => "NULL".to_owned(),
        CellValue::Text(s) => s.clone(),
    }
}

fn push_cell(c: &Cell, out: &mut String)
    ensures
        final(out)@ == old(out)@ + cell_text(*c),
{
    out.append(c.name.as_str());
    out.append("|");
    let v = render_value(&c.value);
    out.append(v.as_str());
    proof {
        reveal_strlit("|");
        assert("|"@ =~= seq!['|']);
        assert(out@ =~= old(out)@ + cell_text(*c));
    }
}

fn push_row(r: &Row, out: &mut String)
    ensures
        final(out)@ == old(out)@ + row_text(*r),
{
    let n = r.cells.len();
    let mut i: usize = 0;
    while i < n
        invariant
            n == r.cells@.len(),
            i <= n,
            out@ == old(out)@ + cells_text(r.cells@.take(i as int)),
        decreases n - i,
    {
        push_cell(&r.cells[i], out);
        proof {
            assert(r.cells@.take(i as int).push(r.cells@[i as int]) =~= r.cells@.take(i + 1));
            lemma_cells_text_push(r.cells@.take(i as int), r.cells@[i as int]);
            assert(out@ =~= old(out)@ + cells_text(r.cells@.take(i + 1)));
        }
        i += 1;
    }
    proof {
        assert(r.cells@.take(n as int) =~= r.cells@);
    }
}

/// Serialize a whole result set into the single pipe-delimited wire string.
pub fn serialize_rows(rows: &Vec<Row>) -> (out: String)
    ensures
        out@ == rows_text(rows@),
{
    let mut out = String::new();
    let n = rows.len();
    let mut i: usize = 0;
    while i < n
        invariant
            n == rows@.len(),
            i <= n,
            out@ == rows_text(rows@.take(i as int)),
        decreases n - i,
    {
        push_row(&rows[i], &mut out);
        proof {
            assert(rows@.take(i as int).push(rows@[i as int]) =~= rows@.take(i + 1));
            lemma_rows_text_push(rows@.take(i as int), rows@[i as int]);
            assert(out@ =~= rows_text(rows@.take(i + 1)));
        }
        i += 1;
    }
    proof {
        assert(rows@.take(n as int) =~= rows@);
    }
    out
}

/// Convert an outcome to the one string handed to the UI: the serialized
/// rows on success, the captured error description verbatim on failure.
///
/// An erroring statement thus still returns a descriptive string through the
/// ordinary path — error-as-data, never a raise — and the caller must
/// disambiguate it from a genuine result.
pub fn render_outcome(outcome: &QueryOutcome) -> (r: String)
    ensures
        outcome matches QueryOutcome::Rows(rows) ==> r@ == rows_text(rows@),
        outcome matches QueryOutcome::Failure(msg) ==> r@ == msg@,
{
    match outcome {
        QueryOutcome::Rows(rows) => serialize_rows(rows),
        QueryOutcome::Failure(msg) => msg.clone(),
    }
}

/// Splitting a string on `'|'`: the pieces between separators, in order.
/// The empty string splits into one empty piece.
pub open spec fn split_text(s: Seq<char>) -> Seq<Seq<char>>
    decreases s.len(),
{
    if s.len() == 0 {
        seq![s]
    } else {
        let rest = split_text(s.drop_first());
        if s.first() == '|' {
            seq![Seq::<char>::empty()] + rest
        } else {
            seq![seq![s.first()] + rest.first()] + rest.drop_first()
        }
    }
}

pub proof fn lemma_split_nonempty(s: Seq<char>)
    ensures
        split_text(s).len() >= 1,
    decreases s.len(),
{
    if s.len() > 0 {
        lemma_split_nonempty(s.drop_first());
    }
}

/// A string without separators splits into exactly itself.
pub proof fn lemma_split_no_sep(s: Seq<char>)
    requires
        pipe_free(s),
    ensures
        split_text(s) == seq![s],
    decreases s.len(),
{
    if s.len() > 0 {
        assert(forall|i: int| 0 <= i < s.drop_first().len() ==> s.drop_first()[i] == s[i + 1]);
        lemma_split_no_sep(s.drop_first());
        assert(seq![s.first()] + s.drop_first() =~= s);
        assert(split_text(s) =~= seq![s]);
    }
}

/// Splitting `k|v` for a separator-free `k` peels `k` off as the first piece.
pub proof fn lemma_split_sep_concat(k: Seq<char>, v: Seq<char>)
    requires
        pipe_free(k),
    ensures
        split_text(k + seq!['|'] + v) == seq![k] + split_text(v),
    decreases k.len(),
{
    let s = k + seq!['|'] + v;
    if k.len() == 0 {
        assert(s.first() == '|');
        assert(s.drop_first() =~= v);
        assert(k =~= Seq::<char>::empty());
        assert(split_text(s) == seq![Seq::<char>::empty()] + split_text(s.drop_first()));
        assert(split_text(s.drop_first()) == split_text(v));
        assert(split_text(s) =~~= seq![k] + split_text(v));
    } else {
        assert(s.first() == k.first());
        assert(s.first() != '|');
        assert(s.drop_first() =~= k.drop_first() + seq!['|'] + v);
        assert(forall|i: int| 0 <= i < k.drop_first().len() ==> k.drop_first()[i] == k[i + 1]);
        lemma_split_sep_concat(k.drop_first(), v);
        let rest = split_text(s.drop_first());
        assert(rest == seq![k.drop_first()] + split_text(v));
        assert(rest.first() == k.drop_first());
        assert(rest.drop_first() =~~= split_text(v));
        assert(split_text(s) == seq![seq![s.first()] + rest.first()] + rest.drop_first());
        assert(seq![s.first()] + rest.first() =~= k);
        assert(split_text(s) =~~= seq![k] + split_text(v));
    }
}

/// A single-row, single-column result round-trips losslessly: splitting its
/// serialized form on `'|'` yields exactly the column name and the displayed
/// value, so the row can be reconstructed. (Results of more than one row are
/// not uniquely invertible — distinct result sets share one serialized form —
/// so no such statement holds of them; the tests exhibit the ambiguity.)
pub proof fn lemma_single_row_round_trip(r: Row)
    requires
        r.cells@.len() == 1,
        pipe_free(r.cells@[0].name@),
        pipe_free(rendered_value(r.cells@[0].value)),
    ensures
        split_text(rows_text(seq![r])) == seq![
            r.cells@[0].name@,
            rendered_value(r.cells@[0].value),
        ],
{
    let c = r.cells@[0];
    assert(seq![r].first() == r);
    assert(seq![r].drop_first() =~= Seq::<Row>::empty());
    assert(rows_text(Seq::<Row>::empty()) == Seq::<char>::empty());
    assert(rows_text(seq![r]) == row_text(r) + Seq::<char>::empty());
    assert(rows_text(seq![r]) =~= row_text(r));
    assert(r.cells@.first() == c);
    assert(r.cells@.drop_first() =~= Seq::<Cell>::empty());
    assert(cells_text(Seq::<Cell>::empty()) == Seq::<char>::empty());
    assert(row_text(r) == cell_text(c) + Seq::<char>::empty());
    assert(row_text(r) =~= cell_text(c));
    lemma_split_sep_concat(c.name@, rendered_value(c.value));
    lemma_split_no_sep(rendered_value(c.value));
    assert(split_text(cell_text(c)) == seq![c.name@] + seq![rendered_value(c.value)]);
    assert(split_text(rows_text(seq![r])) =~~= seq![c.name@, rendered_value(c.value)]);
}

/// The views of the pieces a split produced.
pub open spec fn piece_views(v: Seq<String>) -> Seq<Seq<char>> {
    v.map_values(|p: String| p@)
}

/// Split `s` on `'|'`, as a reader of the wire string does to take a
/// single-row result apart.
pub fn split_on_pipe(s: &str) -> (pieces: Vec<String>)
    ensures
        piece_views(pieces@) == split_text(s@),
    decreases s@.len(),
{
    let n = s.unicode_len();
    if n == 0 {
        let mut pieces: Vec<String> = Vec::new();
        pieces.push(String::new());
        proof {
            assert(piece_views(pieces@) =~~= split_text(s@));
        }
        pieces
    } else {
        let c0 = s.get_char(0);
        let tail = s.substring_char(1, n);
        proof {
            assert(tail@ =~= s@.drop_first());
            lemma_split_nonempty(s@.drop_first());
        }
        let mut rest = split_on_pipe(tail);
        if c0 == '|' {
            let mut pieces: Vec<String> = Vec::new();
            pieces.push(String::new());
            pieces.append(&mut rest);
            proof {
                assert(piece_views(pieces@) =~~= split_text(s@));
            }
            pieces
        } else {
            let old_first = rest.remove(0);
            let mut first = s.substring_char(0, 1).to_owned();
            first.append(old_first.as_str());
            let mut pieces: Vec<String> = Vec::new();
            pieces.push(first);
            pieces.append(&mut rest);
            proof {
                assert(first@ =~= seq![s@.first()] + split_text(s@.drop_first()).first());
                assert(piece_views(pieces@) =~~= split_text(s@));
            }
            pieces
        }
    }
}

} // verus!

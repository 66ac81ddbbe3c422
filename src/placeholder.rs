//! Result rows, the coercion of column values to text, and the substitution
//! of `{{name}}` placeholders in a row-template.
use vstd::prelude::*;
use crate::text::{chars_of, decimal, occurs_at, push_decimal, string_of, append_all, matches_at};

verus! {

/// A column value as read from the database.
pub enum ColumnValue {
    Text(String),
    Integer(i64),
    /// A floating-point value, held as its canonical text form.
    Float(String),
    /// Null, or a value of a type that none of the other variants reads.
    Null,
}

pub struct Column {
    pub name: String,
    pub value: ColumnValue,
}

/// One result row: its columns in query order.
pub struct ResultRow {
    pub columns: Vec<Column>,
}

/// The text that stands for a value: text verbatim, an integer in decimal,
/// a float in its text form, and nothing for the rest.
pub open spec fn value_text(v: ColumnValue) -> Seq<char> {
    match v {
        ColumnValue::Text(s) => s@,
        ColumnValue::Integer(n) => decimal(n as int),
        ColumnValue::Float(t) => t@,
        ColumnValue::Null => Seq::empty(),
    }
}

/// The index of the first column of `cols` called `name`, or -1.
pub open spec fn column_index(cols: Seq<Column>, name: Seq<char>) -> int
    decreases cols.len(),
{
    if cols.len() == 0 {
        -1
    } else if cols.last().name@ == name {
        let k = column_index(cols.drop_last(), name);
        if k >= 0 { k } else { cols.len() - 1 }
    } else {
        column_index(cols.drop_last(), name)
    }
}

/// The text a placeholder called `name` resolves to in `row`; empty where the
/// row has no such column.
pub open spec fn cell_text(row: ResultRow, name: Seq<char>) -> Seq<char> {
    let k = column_index(row.columns@, name);
    if k >= 0 {
        value_text(row.columns@[k].value)
    } else {
        Seq::empty()
    }
}

/// Whether `c` is a word character of regular expressions (`\w`).
pub uninterp spec fn word_char(c: char) -> bool;

/// Relies on `regex_syntax::is_word_character`: membership of `c` in the
/// Unicode `\w` class, which depends on the character alone.
#[verifier::external_body]
fn is_word_char(c: char) -> (r: bool)
    ensures
        r == word_char(c),
{
    regex_syntax::is_word_character(c)
}

pub open spec fn braces_open() -> Seq<char> {
    seq!['{', '{']
}

pub open spec fn braces_close() -> Seq<char> {
    seq!['}', '}']
}

/// The first index at or after `j` that does not hold a word character.
pub open spec fn word_end(t: Seq<char>, j: int) -> int
    decreases t.len() - j,
{
    if 0 <= j < t.len() && word_char(t[j]) {
        word_end(t, j + 1)
    } else {
        j
    }
}

/// A placeholder starts at `i`: `{{`, one or more word characters, `}}`.
/// No `}` is a word character, so the longest run of word characters is the
/// only one that `}}` can follow.
pub open spec fn token_at(t: Seq<char>, i: int) -> bool {
    &&& occurs_at(t, i, braces_open())
    &&& word_end(t, i + 2) > i + 2
    &&& occurs_at(t, word_end(t, i + 2), braces_close())
}

/// The name inside the placeholder that starts at `i`.
pub open spec fn token_name(t: Seq<char>, i: int) -> Seq<char> {
    t.subrange(i + 2, word_end(t, i + 2))
}

/// `t` from index `i` on, with each placeholder replaced by its text in `row`.
pub open spec fn expand_from(t: Seq<char>, i: int, row: ResultRow) -> Seq<char>
    decreases t.len() - i,
{
    if i < 0 || i >= t.len() {
        Seq::empty()
    } else if token_at(t, i) {
        cell_text(row, token_name(t, i)) + expand_from(t, word_end(t, i + 2) + 2, row)
    } else {
        seq![t[i]] + expand_from(t, i + 1, row)
    }
}

/// The row-template `t` with each placeholder replaced by its text in `row`.
pub open spec fn expand(t: Seq<char>, row: ResultRow) -> Seq<char> {
    expand_from(t, 0, row)
}

/// `t` holds no placeholder.
pub open spec fn no_tokens(t: Seq<char>) -> bool {
    forall|i: int| 0 <= i < t.len() ==> !token_at(t, i)
}

proof fn lemma_word_end_bounds(t: Seq<char>, j: int)
    requires
        0 <= j <= t.len(),
    ensures
        j <= word_end(t, j) <= t.len(),
    decreases t.len() - j,
{
    if j < t.len() && word_char(t[j]) {
        lemma_word_end_bounds(t, j + 1);
    }
}

/// Appends the text of `value` to `out`.
pub fn push_value_text(value: &ColumnValue, out: &mut Vec<char>)
    ensures
        final(out)@ == old(out)@ + value_text(*value),
{
    match value {
        ColumnValue::Text(s) => {
            let cs = chars_of(s.as_str());
            append_all(out, &cs);
        },
        ColumnValue::Integer(n) => {
            push_decimal(*n, out);
        },
        ColumnValue::Float(t) => {
            let cs = chars_of(t.as_str());
            append_all(out, &cs);
        },
        ColumnValue::Null => {
            assert(out@ =~= old(out)@ + value_text(*value));
        },
    }
}

impl ResultRow {
    /// The index of the first column called `name`.
    pub fn find_column(&self, name: &String) -> (r: Option<usize>)
        ensures
            match r {
                Some(k) => k < self.columns@.len() && column_index(self.columns@, name@) == k as int,
                None => column_index(self.columns@, name@) == -1,
            },
    {
        let mut k: usize = 0;
        while k < self.columns.len()
            invariant
                k <= self.columns@.len(),
                forall|j: int| 0 <= j < k ==> self.columns@[j].name@ != name@,
            decreases self.columns@.len() - k,
        {
            if self.columns[k].name == *name {
                proof {
                    lemma_column_index_first(self.columns@, name@, k as int);
                }
                return Some(k);
            }
            k = k + 1;
        }
        proof {
            lemma_column_index_absent(self.columns@, name@);
        }
        None
    }

    /// Appends the text that the placeholder called `name` resolves to.
    pub fn push_cell_text(&self, name: &String, out: &mut Vec<char>)
        ensures
            final(out)@ == old(out)@ + cell_text(*self, name@),
    {
        match self.find_column(name) {
            Some(k) => push_value_text(&self.columns[k].value, out),
            None => {
                assert(out@ =~= old(out)@ + cell_text(*self, name@));
            },
        }
    }
}

proof fn lemma_column_index_first(cols: Seq<Column>, name: Seq<char>, k: int)
    requires
        0 <= k < cols.len(),
        cols[k].name@ == name,
        forall|j: int| 0 <= j < k ==> cols[j].name@ != name,
    ensures
        column_index(cols, name) == k,
    decreases cols.len(),
{
    if k < cols.len() - 1 {
        lemma_column_index_first(cols.drop_last(), name, k);
    } else {
        lemma_column_index_absent(cols.drop_last(), name);
    }
}

proof fn lemma_column_index_absent(cols: Seq<Column>, name: Seq<char>)
    requires
        forall|j: int| 0 <= j < cols.len() ==> cols[j].name@ != name,
    ensures
        column_index(cols, name) == -1,
    decreases cols.len(),
{
    if cols.len() > 0 {
        lemma_column_index_absent(cols.drop_last(), name);
    }
}

/// The end of the run of word characters that starts at `j`.
fn find_word_end(t: &Vec<char>, j: usize) -> (r: usize)
    requires
        j <= t@.len(),
    ensures
        r as int == word_end(t@, j as int),
{
    let mut e: usize = j;
    while e < t.len() && is_word_char(t[e])
        invariant
            j <= e <= t@.len(),
            word_end(t@, j as int) == word_end(t@, e as int),
        decreases t@.len() - e,
    {
        e = e + 1;
    }
    e
}

/// Where a placeholder starts at `i`, the index where its name ends.
fn token_end(t: &Vec<char>, i: usize) -> (r: Option<usize>)
    requires
        i < t@.len(),
    ensures
        match r {
            Some(e) => token_at(t@, i as int) && e as int == word_end(t@, i + 2),
            None => !token_at(t@, i as int),
        },
{
    let open: Vec<char> = vec!['{', '{'];
    let close: Vec<char> = vec!['}', '}'];
    assert(open@ =~= braces_open());
    assert(close@ =~= braces_close());
    if !matches_at(t, i, &open) {
        return None;
    }
    assert(i + 2 <= t@.len());
    assert(t@.len() == t.len());
    let e = find_word_end(t, i + 2);
    if e > i + 2 && matches_at(t, e, &close) {
        Some(e)
    } else {
        None
    }
}

/// Appends `t` with each placeholder replaced by its text in `row`.
pub fn push_expansion(t: &Vec<char>, row: &ResultRow, out: &mut Vec<char>)
    ensures
        final(out)@ == old(out)@ + expand(t@, *row),
{
    let mut i: usize = 0;
    while i < t.len()
        invariant
            i <= t@.len(),
            old(out)@ + expand(t@, *row) == out@ + expand_from(t@, i as int, *row),
        decreases t@.len() - i,
    {
        match token_end(t, i) {
            Some(e) => {
                proof {
                    lemma_word_end_bounds(t@, i + 2);
                }
                let name = string_of(&crate::text::slice_chars(t, i + 2, e));
                let ghost before = out@;
                row.push_cell_text(&name, out);
                assert(out@ + expand_from(t@, e + 2, *row) =~= before + expand_from(
                    t@,
                    i as int,
                    *row,
                ));
                i = e + 2;
            },
            None => {
                let ghost before = out@;
                out.push(t[i]);
                assert(out@ + expand_from(t@, i + 1, *row) =~= before + expand_from(
                    t@,
                    i as int,
                    *row,
                ));
                i = i + 1;
            },
        }
    }
    assert(out@ =~= out@ + expand_from(t@, i as int, *row));
}

/// Resolves each placeholder of `template` against `row`.
pub fn expand_row(template: &str, row: &ResultRow) -> (r: String)
    ensures
        r@ == expand(template@, *row),
{
    let t = chars_of(template);
    let mut out: Vec<char> = Vec::new();
    push_expansion(&t, row, &mut out);
    assert(out@ =~= expand(template@, *row));
    string_of(out.as_slice())
}

/// A row with no column called `name` resolves that placeholder to nothing:
/// the text after the placeholder follows directly on the text before it.
pub proof fn lemma_missing_column_is_empty(t: Seq<char>, i: int, row: ResultRow)
    requires
        0 <= i < t.len(),
        token_at(t, i),
        column_index(row.columns@, token_name(t, i)) < 0,
    ensures
        cell_text(row, token_name(t, i)) == Seq::<char>::empty(),
        expand_from(t, i, row) == expand_from(t, word_end(t, i + 2) + 2, row),
{
    assert(expand_from(t, i, row) =~= Seq::<char>::empty() + expand_from(
        t,
        word_end(t, i + 2) + 2,
        row,
    ));
}

/// A row-template without placeholders resolves to itself, whatever the row.
pub proof fn lemma_no_tokens_verbatim(t: Seq<char>, row: ResultRow)
    requires
        no_tokens(t),
    ensures
        expand(t, row) == t,
{
    lemma_verbatim_from(t, 0, row);
    assert(t.subrange(0, t.len() as int) =~= t);
}

proof fn lemma_verbatim_from(t: Seq<char>, i: int, row: ResultRow)
    requires
        no_tokens(t),
        0 <= i <= t.len(),
    ensures
        expand_from(t, i, row) == t.subrange(i, t.len() as int),
    decreases t.len() - i,
{
    if i < t.len() {
        lemma_verbatim_from(t, i + 1, row);
        assert(seq![t[i]] + t.subrange(i + 1, t.len() as int) =~= t.subrange(i, t.len() as int));
    } else {
        assert(t.subrange(i, t.len() as int) =~= Seq::<char>::empty());
    }
}

} // verus!

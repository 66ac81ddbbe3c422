//! Discovery of SQL-tagged blocks in a template and the resolution of a
//! template into its final document, one block's rows at a time.
use vstd::prelude::*;
use crate::placeholder::{expand, push_expansion, ResultRow};
use crate::text::{
    append_range, chars_of, find, find_from, lemma_find_from_bounds, newlines_to_spaces,
    occurs_at, replace_newlines, slice_chars, string_of, trim, trim_chars,
};

verus! {

/// `{{#sql(`, which opens a block and its query.
pub open spec fn open_marker() -> Seq<char> {
    seq!['{', '{', '#', 's', 'q', 'l', '(']
}

/// `)}}`, which ends a block's query.
pub open spec fn query_close() -> Seq<char> {
    seq![')', '}', '}']
}

/// `{{/sql}}`, which closes a block.
pub open spec fn close_marker() -> Seq<char> {
    seq!['{', '{', '/', 's', 'q', 'l', '}', '}']
}

/// Where a block lies in its document: the index of its opening marker, of
/// the `)}}` that ends its query, and of its closing marker.
pub type Span = (int, int, int);

pub open spec fn span_end(b: Span) -> int {
    b.2 + 8
}

/// The first block at or after `from`: the first opening marker, the first
/// `)}}` after it, and the first closing marker after that. Where one of them
/// is missing there is no block, here or further on.
pub open spec fn block_at(s: Seq<char>, from: int) -> Option<Span> {
    let p = find_from(s, from, open_marker());
    if p < 0 {
        None
    } else {
        let j = find_from(s, p + 7, query_close());
        if j < 0 {
            None
        } else {
            let k = find_from(s, j + 3, close_marker());
            if k < 0 {
                None
            } else {
                Some((p, j, k))
            }
        }
    }
}

/// The blocks of `s` at or after `from`, in source order.
pub open spec fn spans_from(s: Seq<char>, from: int) -> Seq<Span>
    decreases s.len() - from,
{
    match block_at(s, from) {
        Some(b) => if from < span_end(b) <= s.len() {
            seq![b] + spans_from(s, span_end(b))
        } else {
            Seq::empty()
        },
        None => Seq::empty(),
    }
}

/// The blocks of `s`, in source order.
pub open spec fn spans(s: Seq<char>) -> Seq<Span> {
    spans_from(s, 0)
}

/// The query of a block: its text trimmed, with line feeds turned into spaces.
pub open spec fn block_query(s: Seq<char>, b: Span) -> Seq<char> {
    newlines_to_spaces(trim(s.subrange(b.0 + 7, b.1)))
}

/// The row-template of a block, verbatim.
pub open spec fn block_body(s: Seq<char>, b: Span) -> Seq<char> {
    s.subrange(b.1 + 3, b.2)
}

/// A block lies inside `s` with its markers in order, at or after `from`.
pub open spec fn placed(s: Seq<char>, b: Span, from: int) -> bool {
    &&& from <= b.0
    &&& b.0 + 7 <= b.1
    &&& b.1 + 3 <= b.2
    &&& span_end(b) <= s.len()
    &&& occurs_at(s, b.0, open_marker())
    &&& occurs_at(s, b.1, query_close())
    &&& occurs_at(s, b.2, close_marker())
}

/// One SQL-tagged block of a template.
pub struct TaggedBlock {
    pub query: String,
    pub row_template: String,
    /// Index, in characters, of the block's first character.
    pub start: usize,
    /// Index, in characters, just past the block.
    pub end: usize,
}

pub open spec fn describes(tb: TaggedBlock, s: Seq<char>, b: Span) -> bool {
    &&& tb.query@ == block_query(s, b)
    &&& tb.row_template@ == block_body(s, b)
    &&& tb.start == b.0
    &&& tb.end == span_end(b)
}

/// The row-template expanded once for each row, in row order.
pub open spec fn expand_rows(t: Seq<char>, rows: Seq<ResultRow>) -> Seq<char>
    decreases rows.len(),
{
    if rows.len() == 0 {
        Seq::empty()
    } else {
        expand_rows(t, rows.drop_last()) + expand(t, rows.last())
    }
}

/// Where the text before block `k` starts.
pub open spec fn prev_end(sp: Seq<Span>, k: int) -> int {
    if k <= 0 {
        0
    } else {
        span_end(sp[k - 1])
    }
}

/// The document up to the end of block `n - 1`, each block replaced by its
/// rows' expansions.
pub open spec fn resolved_prefix(
    s: Seq<char>,
    sp: Seq<Span>,
    rows: Seq<Seq<ResultRow>>,
    n: int,
) -> Seq<char>
    decreases n,
{
    if n <= 0 {
        Seq::empty()
    } else {
        resolved_prefix(s, sp, rows, n - 1) + s.subrange(prev_end(sp, n - 1), sp[n - 1].0)
            + expand_rows(block_body(s, sp[n - 1]), rows[n - 1])
    }
}

/// The resolved document: `s` with each block replaced by the expansion of
/// its row-template over the rows of its query, in order.
pub open spec fn resolved(s: Seq<char>, rows: Seq<Seq<ResultRow>>) -> Seq<char> {
    let sp = spans(s);
    resolved_prefix(s, sp, rows, sp.len() as int) + s.subrange(
        prev_end(sp, sp.len() as int),
        s.len() as int,
    )
}

/// Blocks are found in source order and do not overlap: each lies inside the
/// document after the one before, so replacing an earlier block cannot touch
/// the span or the query of a later one.
pub proof fn lemma_spans_ordered(s: Seq<char>, from: int)
    requires
        0 <= from,
    ensures
        forall|k: int|
            0 <= k < spans_from(s, from).len() ==> placed(
                s,
                #[trigger] spans_from(s, from)[k],
                if k == 0 {
                    from
                } else {
                    span_end(spans_from(s, from)[k - 1])
                },
            ),
    decreases s.len() - from,
{
    let sp = spans_from(s, from);
    match block_at(s, from) {
        Some(b) => {
            if from < span_end(b) <= s.len() {
                lemma_block_at_placed(s, from);
                lemma_spans_ordered(s, span_end(b));
                let rest = spans_from(s, span_end(b));
                assert forall|k: int| 0 <= k < sp.len() implies placed(
                    s,
                    #[trigger] sp[k],
                    if k == 0 {
                        from
                    } else {
                        span_end(sp[k - 1])
                    },
                ) by {
                    if k > 0 {
                        assert(sp[k] == rest[k - 1]);
                        if k > 1 {
                            assert(sp[k - 1] == rest[k - 2]);
                        }
                    }
                }
            }
        },
        None => {},
    }
}

/// Block `n` lies inside `s`, after the end of the block before it.
pub proof fn lemma_span_placed(s: Seq<char>, n: int)
    requires
        0 <= n < spans(s).len(),
    ensures
        placed(s, spans(s)[n], prev_end(spans(s), n)),
{
    lemma_spans_ordered(s, 0);
    assert(placed(s, spans_from(s, 0)[n], if n == 0 { 0 } else { span_end(spans_from(s, 0)[n - 1]) }));
}

proof fn lemma_block_at_placed(s: Seq<char>, from: int)
    requires
        0 <= from,
        block_at(s, from) is Some,
    ensures
        placed(s, block_at(s, from)->0, from),
{
    let p = find_from(s, from, open_marker());
    lemma_find_from_bounds(s, from, open_marker());
    let j = find_from(s, p + 7, query_close());
    lemma_find_from_bounds(s, p + 7, query_close());
    let k = find_from(s, j + 3, close_marker());
    lemma_find_from_bounds(s, j + 3, close_marker());
}

/// The blocks of a template, in source order.
pub fn scan_blocks(doc: &Vec<char>) -> (r: Vec<TaggedBlock>)
    ensures
        r@.len() == spans(doc@).len(),
        forall|k: int| 0 <= k < r@.len() ==> describes(#[trigger] r@[k], doc@, spans(doc@)[k]),
{
    let open: Vec<char> = vec!['{', '{', '#', 's', 'q', 'l', '('];
    let qclose: Vec<char> = vec![')', '}', '}'];
    let close: Vec<char> = vec!['{', '{', '/', 's', 'q', 'l', '}', '}'];
    assert(open@ =~= open_marker());
    assert(qclose@ =~= query_close());
    assert(close@ =~= close_marker());
    let ghost s = doc@;
    let mut r: Vec<TaggedBlock> = Vec::new();
    let mut pos: usize = 0;
    let ghost mut done: Seq<Span> = Seq::empty();
    loop
        invariant
            s == doc@,
            open@ == open_marker(),
            qclose@ == query_close(),
            close@ == close_marker(),
            pos <= s.len(),
            spans(s) == done + spans_from(s, pos as int),
            r@.len() == done.len(),
            forall|k: int| 0 <= k < r@.len() ==> describes(#[trigger] r@[k], s, done[k]),
        decreases s.len() - pos,
    {
        let p = match find(doc, pos, &open) {
            Some(p) => p,
            None => {
                assert(spans(s) =~= done);
                return r;
            },
        };
        proof {
            lemma_find_from_bounds(s, pos as int, open_marker());
            assert(open_marker().len() == 7);
            assert(s.len() == doc.len());
        }
        let j = match find(doc, p + 7, &qclose) {
            Some(j) => j,
            None => {
                assert(spans(s) =~= done);
                return r;
            },
        };
        proof {
            lemma_find_from_bounds(s, p + 7, query_close());
            assert(query_close().len() == 3);
        }
        let k = match find(doc, j + 3, &close) {
            Some(k) => k,
            None => {
                assert(spans(s) =~= done);
                return r;
            },
        };
        proof {
            lemma_find_from_bounds(s, j + 3, close_marker());
            assert(close_marker().len() == 8);
        }
        let ghost b: Span = (p as int, j as int, k as int);
        let raw = slice_chars(doc, p + 7, j);
        let trimmed = trim_chars(&raw);
        let query = replace_newlines(&trimmed);
        let body = slice_chars(doc, j + 3, k);
        let block = TaggedBlock {
            query: string_of(query.as_slice()),
            row_template: string_of(body.as_slice()),
            start: p,
            end: k + 8,
        };
        assert(describes(block, s, b));
        r.push(block);
        proof {
            assert(spans_from(s, pos as int) == seq![b] + spans_from(s, span_end(b)));
            assert(done.push(b) + spans_from(s, span_end(b)) =~= done + spans_from(
                s,
                pos as int,
            ));
            done = done.push(b);
        }
        pos = k + 8;
    }
}

/// The failure of a block's query, with the query that failed.
pub struct QueryExecutionError {
    pub query: String,
    pub cause: String,
}

/// A template being resolved: its blocks' queries are answered one at a
/// time, in source order, and each answer is expanded as it comes.
pub struct TemplateResolution {
    doc: Vec<char>,
    blocks: Vec<TaggedBlock>,
    next: usize,
    out: Vec<char>,
    rows: Ghost<Seq<Seq<ResultRow>>>,
}

impl TemplateResolution {
    /// The template being resolved.
    pub closed spec fn document(&self) -> Seq<char> {
        self.doc@
    }

    /// The rows supplied so far, one sequence for each answered block.
    pub closed spec fn supplied(&self) -> Seq<Seq<ResultRow>> {
        self.rows@
    }

    pub closed spec fn wf(&self) -> bool {
        let sp = spans(self.doc@);
        &&& self.blocks@.len() == sp.len()
        &&& forall|k: int|
            0 <= k < self.blocks@.len() ==> describes(#[trigger] self.blocks@[k], self.doc@, sp[k])
        &&& self.rows@.len() <= sp.len()
        &&& self.next == self.rows@.len()
        &&& self.out@ == resolved_prefix(self.doc@, sp, self.rows@, self.rows@.len() as int)
    }

    /// Starts resolving `template`.
    pub fn new(template: &str) -> (r: Self)
        ensures
            r.wf(),
            r.document() == template@,
            r.supplied() == Seq::<Seq<ResultRow>>::empty(),
    {
        let doc = chars_of(template);
        let blocks = scan_blocks(&doc);
        TemplateResolution { doc, blocks, next: 0, out: Vec::new(), rows: Ghost(Seq::empty()) }
    }

    /// The number of blocks in the template.
    pub fn block_count(&self) -> (r: usize)
        requires
            self.wf(),
        ensures
            r == spans(self.document()).len(),
    {
        self.blocks.len()
    }

    /// The block at index `k`.
    pub fn block(&self, k: usize) -> (r: &TaggedBlock)
        requires
            self.wf(),
            k < spans(self.document()).len(),
        ensures
            describes(*r, self.document(), spans(self.document())[k as int]),
    {
        &self.blocks[k]
    }

    /// The query to run next, or `None` once every block has its rows.
    pub fn pending_query(&self) -> (r: Option<String>)
        requires
            self.wf(),
        ensures
            match r {
                Some(q) => self.supplied().len() < spans(self.document()).len() && q@
                    == block_query(self.document(), spans(self.document())[self.supplied().len() as int]),
                None => self.supplied().len() == spans(self.document()).len(),
            },
    {
        let n = self.next_index();
        if n < self.blocks.len() {
            Some(self.blocks[n].query.clone())
        } else {
            None
        }
    }

    fn next_index(&self) -> (r: usize)
        requires
            self.wf(),
        ensures
            r == self.supplied().len(),
    {
        self.next
    }

    /// Expands the pending block over the rows its query returned.
    pub fn supply_rows(&mut self, rows: &Vec<ResultRow>)
        requires
            old(self).wf(),
            old(self).supplied().len() < spans(old(self).document()).len(),
        ensures
            final(self).wf(),
            final(self).document() == old(self).document(),
            final(self).supplied() == old(self).supplied().push(rows@),
    {
        let ghost s = self.doc@;
        let ghost sp = spans(s);
        let n = self.next_index();
        proof {
            lemma_span_placed(s, n as int);
        }
        let from: usize = if n == 0 {
            0
        } else {
            self.blocks[n - 1].end
        };
        let start = self.blocks[n].start;
        assert(describes(self.blocks@[n as int], s, sp[n as int]));
        if n > 0 {
            assert(describes(self.blocks@[n - 1], s, sp[n - 1]));
        }
        append_range(&mut self.out, &self.doc, from, start);
        let t = chars_of(self.blocks[n].row_template.as_str());
        let piece = expand_rows_exec(&t, rows);
        crate::text::append_all(&mut self.out, &piece);
        proof {
            lemma_prefix_push(s, sp, self.rows@, rows@, n as int);
        }
        self.rows = Ghost(self.rows@.push(rows@));
        assert(n < self.blocks.len());
        self.next = n + 1;
    }

    /// The failure of the pending block's query.
    pub fn query_failed(&self, cause: String) -> (e: QueryExecutionError)
        requires
            self.wf(),
            self.supplied().len() < spans(self.document()).len(),
        ensures
            e.query@ == block_query(
                self.document(),
                spans(self.document())[self.supplied().len() as int],
            ),
            e.cause == cause,
    {
        let n = self.next_index();
        QueryExecutionError { query: self.blocks[n].query.clone(), cause }
    }

    /// The resolved document, once every block has its rows.
    pub fn finish(&self) -> (r: String)
        requires
            self.wf(),
            self.supplied().len() == spans(self.document()).len(),
        ensures
            r@ == resolved(self.document(), self.supplied()),
    {
        proof {
            lemma_spans_ordered(self.doc@, 0);
        }
        let ghost sp = spans(self.doc@);
        let n = self.blocks.len();
        let from: usize = if n == 0 {
            0
        } else {
            self.blocks[n - 1].end
        };
        let mut out: Vec<char> = Vec::new();
        append_range(&mut out, &self.out, 0, self.out.len());
        append_range(&mut out, &self.doc, from, self.doc.len());
        assert(self.out@.subrange(0, self.out@.len() as int) =~= self.out@);
        assert(out@ =~= resolved(self.doc@, self.rows@));
        string_of(out.as_slice())
    }
}

/// The row-template `t` expanded once for each of `rows`, in order.
pub fn expand_rows_exec(t: &Vec<char>, rows: &Vec<ResultRow>) -> (r: Vec<char>)
    ensures
        r@ == expand_rows(t@, rows@),
{
    let mut out: Vec<char> = Vec::new();
    let mut i: usize = 0;
    while i < rows.len()
        invariant
            i <= rows@.len(),
            out@ == expand_rows(t@, rows@.subrange(0, i as int)),
        decreases rows@.len() - i,
    {
        push_expansion(t, &rows[i], &mut out);
        assert(rows@.subrange(0, i + 1).drop_last() =~= rows@.subrange(0, i as int));
        i = i + 1;
    }
    assert(rows@.subrange(0, rows@.len() as int) =~= rows@);
    out
}

proof fn lemma_prefix_push(
    s: Seq<char>,
    sp: Seq<Span>,
    done: Seq<Seq<ResultRow>>,
    rows: Seq<ResultRow>,
    n: int,
)
    requires
        n == done.len(),
    ensures
        resolved_prefix(s, sp, done.push(rows), n + 1) == resolved_prefix(s, sp, done, n)
            + s.subrange(prev_end(sp, n), sp[n].0) + expand_rows(block_body(s, sp[n]), rows),
{
    let a = done.push(rows);
    assert(a[n] == rows);
    lemma_prefix_depends_on_first(s, sp, a, done, n);
}

/// A template without blocks resolves to itself, whatever rows are given.
pub proof fn lemma_no_blocks_identity(s: Seq<char>, rows: Seq<Seq<ResultRow>>)
    requires
        spans(s).len() == 0,
    ensures
        resolved(s, rows) == s,
{
    assert(s.subrange(0, s.len() as int) =~= s);
    assert(resolved(s, rows) =~= s);
}

/// A template with one block resolves to the text before the block, the
/// row-template expanded once for each row in the order the query returned
/// them, and the text after the block.
pub proof fn lemma_one_block(s: Seq<char>, rows: Seq<ResultRow>)
    requires
        spans(s).len() == 1,
    ensures
        resolved(s, seq![rows]) == s.subrange(0, spans(s)[0].0) + expand_rows(
            block_body(s, spans(s)[0]),
            rows,
        ) + s.subrange(span_end(spans(s)[0]), s.len() as int),
        expand_rows(block_body(s, spans(s)[0]), rows).len() == 0 <==> (forall|i: int|
            0 <= i < rows.len() ==> expand(block_body(s, spans(s)[0]), #[trigger] rows[i]).len()
                == 0),
{
    let sp = spans(s);
    assert(resolved_prefix(s, sp, seq![rows], 0) =~= Seq::<char>::empty());
    assert(resolved(s, seq![rows]) =~= s.subrange(0, sp[0].0) + expand_rows(
        block_body(s, sp[0]),
        rows,
    ) + s.subrange(span_end(sp[0]), s.len() as int));
    lemma_expand_rows_empty(block_body(s, sp[0]), rows);
}

/// The expansion over `rows` is empty exactly when each row's expansion is.
proof fn lemma_expand_rows_empty(t: Seq<char>, rows: Seq<ResultRow>)
    ensures
        expand_rows(t, rows).len() == 0 <==> (forall|i: int|
            0 <= i < rows.len() ==> expand(t, #[trigger] rows[i]).len() == 0),
    decreases rows.len(),
{
    if rows.len() > 0 {
        lemma_expand_rows_empty(t, rows.drop_last());
        if expand_rows(t, rows).len() == 0 {
            assert forall|i: int| 0 <= i < rows.len() implies expand(t, #[trigger] rows[i]).len()
                == 0 by {
                if i < rows.len() - 1 {
                    assert(rows[i] == rows.drop_last()[i]);
                }
            }
        } else {
            if expand_rows(t, rows.drop_last()).len() != 0 {
                let i = choose|i: int|
                    0 <= i < rows.drop_last().len() && expand(t, #[trigger] rows.drop_last()[i]).len()
                        != 0;
                assert(rows[i] == rows.drop_last()[i]);
            } else {
                assert(expand(t, rows[rows.len() - 1]).len() != 0);
            }
        }
    }
}

/// Expansion over a row-template without placeholders repeats it once for
/// each row.
pub proof fn lemma_no_tokens_rows(t: Seq<char>, rows: Seq<ResultRow>)
    requires
        crate::placeholder::no_tokens(t),
    ensures
        forall|i: int| 0 <= i < rows.len() ==> expand(t, #[trigger] rows[i]) == t,
        expand_rows(t, rows).len() == rows.len() * t.len(),
    decreases rows.len(),
{
    assert forall|i: int| 0 <= i < rows.len() implies expand(t, #[trigger] rows[i]) == t by {
        crate::placeholder::lemma_no_tokens_verbatim(t, rows[i]);
    }
    if rows.len() > 0 {
        lemma_no_tokens_rows(t, rows.drop_last());
        crate::placeholder::lemma_no_tokens_verbatim(t, rows.last());
        assert(expand_rows(t, rows).len() == (rows.len() - 1) * t.len() + t.len()) ;
        assert((rows.len() - 1) * t.len() + t.len() == rows.len() * t.len()) by (nonlinear_arith);
    }
}

/// The resolution of the first `m` blocks depends only on the rows of those
/// blocks: rows given to later blocks never change it.
pub proof fn lemma_prefix_depends_on_first(
    s: Seq<char>,
    sp: Seq<Span>,
    a: Seq<Seq<ResultRow>>,
    b: Seq<Seq<ResultRow>>,
    m: int,
)
    requires
        m <= a.len(),
        m <= b.len(),
        forall|k: int| 0 <= k < m ==> a[k] == b[k],
    ensures
        resolved_prefix(s, sp, a, m) == resolved_prefix(s, sp, b, m),
    decreases m,
{
    if m > 0 {
        lemma_prefix_depends_on_first(s, sp, a, b, m - 1);
    }
}

} // verus!

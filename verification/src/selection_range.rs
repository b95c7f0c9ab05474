//! Selection ranges: for a cursor position, the chain of ranges from the
//! identifier under the cursor (if any) out through every statement that
//! encloses it to the whole program.
use crate::protocol::{chain_ranges, Position as LspPosition, Range, SelectionRange};
use crate::syntax::{
    find_token_index, identifier_index_at, lsp_range, span_contains, span_contains_position,
    span_to_range, statement_span, on_cursor_path, on_cursor_path_cases, on_cursor_path_else,
    on_cursor_path_within, CaseClause, Program, Span, Statement, Token,
};
use vstd::prelude::*;

verus! {

/// Provides Selection Range functionality.
pub struct SelectionRangeProvider;

/// The spans, outermost first, of the first statement of the list that
/// contains `pos` and of what encloses `pos` inside it.
pub open spec fn enclosing_spans(stmts: Seq<Statement>, pos: LspPosition) -> Seq<Span>
    decreases stmts,
{
    if stmts.len() == 0 {
        Seq::empty()
    } else if span_contains(statement_span(stmts[0]), pos) {
        seq![statement_span(stmts[0])] + inner_spans(stmts[0], pos)
    } else {
        enclosing_spans(stmts.subrange(1, stmts.len() as int), pos)
    }
}

/// The spans that enclose `pos` inside the bodies of a statement.
pub open spec fn inner_spans(s: Statement, pos: LspPosition) -> Seq<Span>
    decreases s,
{
    match s {
        Statement::IfStatement { then_branch, else_branch, .. } => enclosing_spans(
            then_branch@,
            pos,
        ) + else_spans(else_branch, pos),
        Statement::PreprocessorConditional { then_branch, else_branch, .. } => enclosing_spans(
            then_branch@,
            pos,
        ) + else_spans(else_branch, pos),
        Statement::ForLoop { body, .. } => enclosing_spans(body@, pos),
        Statement::DoLoop { body, .. } => enclosing_spans(body@, pos),
        Statement::FunctionDefinition { body, .. } => enclosing_spans(body@, pos),
        Statement::SubroutineDefinition { body, .. } => enclosing_spans(body@, pos),
        Statement::SelectCase { cases, else_branch, .. } => case_spans(cases@, pos) + else_spans(
            else_branch,
            pos,
        ),
        _ => Seq::empty(),
    }
}

/// For every `Case` branch that contains `pos`, in order: its span, then
/// the spans enclosing `pos` in its body.
pub open spec fn case_spans(cases: Seq<CaseClause>, pos: LspPosition) -> Seq<Span>
    decreases cases,
{
    if cases.len() == 0 {
        Seq::empty()
    } else {
        let c = cases[cases.len() - 1];
        case_spans(cases.drop_last(), pos) + if span_contains(c.span, pos) {
            seq![c.span] + enclosing_spans(c.body@, pos)
        } else {
            Seq::empty()
        }
    }
}

/// The spans enclosing `pos` in an optional `Else` body.
pub open spec fn else_spans(else_branch: Option<Vec<Statement>>, pos: LspPosition) -> Seq<Span>
    decreases else_branch,
{
    match else_branch {
        Some(e) => enclosing_spans(e@, pos),
        None => Seq::empty(),
    }
}

/// `s` with each run of equal consecutive spans kept once (`Vec::dedup`).
pub open spec fn dedup(s: Seq<Span>) -> Seq<Span>
    decreases s.len(),
{
    if s.len() == 0 {
        Seq::empty()
    } else {
        let d = dedup(s.drop_last());
        if d.len() > 0 && d.last() == s.last() {
            d
        } else {
            d.push(s.last())
        }
    }
}

/// The spans of the selection chain at `pos`, outermost first: the
/// program, the enclosing statements, and the identifier token at `pos`.
pub open spec fn selection_spans(program: Program, tokens: Seq<Token>, pos: LspPosition) -> Seq<
    Span,
> {
    let base = seq![program.span] + enclosing_spans(program.statements@, pos);
    dedup(
        match identifier_index_at(tokens, pos) {
            Some(i) => base.push(tokens[i].span),
            None => base,
        },
    )
}

/// The ranges of a list of spans given outermost first, innermost first.
pub open spec fn innermost_first(spans: Seq<Span>) -> Seq<Range> {
    Seq::new(spans.len(), |k: int| lsp_range(spans[spans.len() - 1 - k]))
}

proof fn lemma_dedup_nonempty(s: Seq<Span>)
    requires
        s.len() > 0,
    ensures
        dedup(s).len() > 0,
        dedup(s)[0] == s[0],
    decreases s.len(),
{
    if s.len() > 1 {
        lemma_dedup_nonempty(s.drop_last());
    } else {
        assert(dedup(s.drop_last()) == Seq::<Span>::empty());
    }
}

/// The outermost range of every selection chain is the whole program.
pub proof fn outermost_selection_is_the_program(
    program: Program,
    tokens: Seq<Token>,
    pos: LspPosition,
)
    ensures
        innermost_first(selection_spans(program, tokens, pos)).len() > 0,
        innermost_first(selection_spans(program, tokens, pos)).last() == lsp_range(program.span),
{
    let base = seq![program.span] + enclosing_spans(program.statements@, pos);
    let all = match identifier_index_at(tokens, pos) {
        Some(i) => base.push(tokens[i].span),
        None => base,
    };
    assert(all[0] == program.span);
    lemma_dedup_nonempty(all);
}

impl SelectionRangeProvider {
    /// Builds one selection chain for each requested position (0-indexed).
    pub fn get_selection_ranges(
        program: &Program,
        tokens: &[Token],
        positions: &[LspPosition],
    ) -> (r: Vec<SelectionRange>)
        ensures
            r@.len() == positions@.len(),
            forall|i: int|
                0 <= i < positions@.len() ==> chain_ranges(#[trigger] r@[i]) == innermost_first(
                    selection_spans(*program, tokens@, positions@[i]),
                ),
    {
        let mut result: Vec<SelectionRange> = Vec::new();
        let mut i: usize = 0;
        while i < positions.len()
            invariant
                i <= positions@.len(),
                result@.len() == i,
                forall|j: int|
                    0 <= j < i ==> chain_ranges(#[trigger] result@[j]) == innermost_first(
                        selection_spans(*program, tokens@, positions@[j]),
                    ),
            decreases positions@.len() - i,
        {
            result.push(Self::build_selection_range(program, tokens, positions[i]));
            i += 1;
        }
        result
    }

    /// Builds the chain for one position.
    fn build_selection_range(program: &Program, tokens: &[Token], position: LspPosition) -> (r:
        SelectionRange)
        ensures
            chain_ranges(r) == innermost_first(selection_spans(*program, tokens@, position)),
    {
        let mut spans: Vec<Span> = Vec::new();
        spans.push(program.span);
        Self::collect_enclosing_statement_spans(&program.statements, position, &mut spans);
        let ghost base = spans@;
        if let Some(i) = find_token_index(tokens, position, true) {
            spans.push(tokens[i].span);
        }
        let ghost all = spans@;
        assert(all =~= match identifier_index_at(tokens@, position) {
            Some(i) => base.push(tokens@[i].span),
            None => base,
        });
        let deduped = Self::dedup_spans(&spans);
        proof {
            lemma_dedup_nonempty(all);
        }
        Self::chain_from_outermost(&deduped)
    }

    /// Drops each span equal to the one kept just before it.
    fn dedup_spans(spans: &Vec<Span>) -> (r: Vec<Span>)
        ensures
            r@ == dedup(spans@),
    {
        let mut r: Vec<Span> = Vec::new();
        let mut i: usize = 0;
        while i < spans.len()
            invariant
                i <= spans@.len(),
                r@ == dedup(spans@.take(i as int)),
            decreases spans@.len() - i,
        {
            proof {
                assert(spans@.take(i + 1).drop_last() =~= spans@.take(i as int));
            }
            let s = spans[i];
            if r.len() == 0 || r[r.len() - 1] != s {
                r.push(s);
            }
            i += 1;
        }
        proof {
            assert(spans@.take(i as int) =~= spans@);
        }
        r
    }

    /// Appends the span of the first statement that contains `position`,
    /// then the spans enclosing `position` inside it.
    fn collect_enclosing_statement_spans(
        statements: &Vec<Statement>,
        position: LspPosition,
        spans: &mut Vec<Span>,
    )
        ensures
            final(spans)@ == old(spans)@ + enclosing_spans(statements@, position),
        decreases statements@,
    {
        proof {
            assert(statements@.subrange(0, statements@.len() as int) =~= statements@);
        }
        let mut i: usize = 0;
        while i < statements.len()
            invariant
                i <= statements@.len(),
                spans@ == old(spans)@,
                enclosing_spans(statements@, position) == enclosing_spans(
                    statements@.subrange(i as int, statements@.len() as int),
                    position,
                ),
            decreases statements@.len() - i,
        {
            let statement = &statements[i];
            let ghost rest = statements@.subrange(i as int, statements@.len() as int);
            proof {
                assert(rest[0] == statements@[i as int]);
                assert(rest.subrange(1, rest.len() as int) =~= statements@.subrange(
                    i + 1,
                    statements@.len() as int,
                ));
            }
            let span = statement.span();
            if span_contains_position(span, position) {
                spans.push(span);
                Self::collect_inner_spans(statement, position, spans);
                return;
            }
            i += 1;
        }
    }

    /// Appends the spans enclosing `position` inside a statement's bodies.
    fn collect_inner_spans(statement: &Statement, position: LspPosition, spans: &mut Vec<Span>)
        ensures
            final(spans)@ == old(spans)@ + inner_spans(*statement, position),
        decreases statement,
    {
        let ghost start = spans@;
        match statement {
            Statement::IfStatement { then_branch, else_branch, .. } => {
                Self::collect_enclosing_statement_spans(then_branch, position, spans);
                if let Some(else_stmts) = else_branch {
                    Self::collect_enclosing_statement_spans(else_stmts, position, spans);
                }
            },
            Statement::PreprocessorConditional { then_branch, else_branch, .. } => {
                Self::collect_enclosing_statement_spans(then_branch, position, spans);
                if let Some(else_stmts) = else_branch {
                    Self::collect_enclosing_statement_spans(else_stmts, position, spans);
                }
            },
            Statement::ForLoop { body, .. } => {
                Self::collect_enclosing_statement_spans(body, position, spans);
            },
            Statement::DoLoop { body, .. } => {
                Self::collect_enclosing_statement_spans(body, position, spans);
            },
            Statement::FunctionDefinition { body, .. } => {
                Self::collect_enclosing_statement_spans(body, position, spans);
            },
            Statement::SubroutineDefinition { body, .. } => {
                Self::collect_enclosing_statement_spans(body, position, spans);
            },
            Statement::SelectCase { cases, else_branch, .. } => {
                Self::collect_case_spans(cases, position, spans);
                if let Some(else_stmts) = else_branch {
                    Self::collect_enclosing_statement_spans(else_stmts, position, spans);
                }
            },
            _ => {},
        }
    }

    /// Appends, for every `Case` branch that contains `position`, its span
    /// and the spans enclosing `position` in its body.
    fn collect_case_spans(cases: &Vec<CaseClause>, position: LspPosition, spans: &mut Vec<Span>)
        ensures
            final(spans)@ == old(spans)@ + case_spans(cases@, position),
        decreases cases@,
    {
        let ghost start = spans@;
        let mut i: usize = 0;
        while i < cases.len()
            invariant
                i <= cases@.len(),
                spans@ == start + case_spans(cases@.take(i as int), position),
            decreases cases@.len() - i,
        {
            proof {
                assert(cases@.take(i + 1).drop_last() =~= cases@.take(i as int));
            }
            let case = &cases[i];
            if span_contains_position(case.span, position) {
                spans.push(case.span);
                Self::collect_enclosing_statement_spans(&case.body, position, spans);
            }
            i += 1;
        }
        proof {
            assert(cases@.take(i as int) =~= cases@);
        }
    }

    /// Links the spans, given outermost first, into a chain whose head is
    /// the innermost.
    fn chain_from_outermost(spans: &Vec<Span>) -> (r: SelectionRange)
        requires
            spans@.len() > 0,
        ensures
            chain_ranges(r) == innermost_first(spans@),
    {
        let mut current = SelectionRange { range: span_to_range(spans[0]), parent: None };
        proof {
            assert(chain_ranges(current) =~= innermost_first(spans@.take(1)));
        }
        let mut i: usize = 1;
        while i < spans.len()
            invariant
                1 <= i <= spans@.len(),
                chain_ranges(current) == innermost_first(spans@.take(i as int)),
            decreases spans@.len() - i,
        {
            let next = SelectionRange {
                range: span_to_range(spans[i]),
                parent: Some(Box::new(current)),
            };
            proof {
                assert(chain_ranges(next) =~= innermost_first(spans@.take(i + 1)));
            }
            current = next;
            i += 1;
        }
        proof {
            assert(spans@.take(i as int) =~= spans@);
        }
        current
    }
}

proof fn lemma_span_in_sum(a: Seq<Span>, b: Seq<Span>, x: Span)
    requires
        a.contains(x) || b.contains(x),
    ensures
        (a + b).contains(x),
{
    if a.contains(x) {
        let k = choose|k: int| 0 <= k < a.len() && a[k] == x;
        assert((a + b)[k] == x);
    } else {
        let k = choose|k: int| 0 <= k < b.len() && b[k] == x;
        assert((a + b)[a.len() + k] == x);
    }
}

proof fn lemma_path_list(stmts: Seq<Statement>, t: Statement, pos: LspPosition)
    requires
        on_cursor_path(stmts, t, pos),
    ensures
        enclosing_spans(stmts, pos).contains(statement_span(t)),
    decreases stmts,
{
    let i = choose|i: int|
        0 <= i < stmts.len() && span_contains(statement_span(#[trigger] stmts[i]), pos) && (forall|
            j: int,
        | 0 <= j < i ==> !span_contains(statement_span(#[trigger] stmts[j]), pos)) && (stmts[i]
            == t || on_cursor_path_within(stmts[i], t, pos));
    if i == 0 {
        let s0 = stmts[0];
        if s0 == t {
            assert(enclosing_spans(stmts, pos)[0] == statement_span(t));
        } else {
            lemma_path_within(s0, t, pos);
            lemma_span_in_sum(seq![statement_span(s0)], inner_spans(s0, pos), statement_span(t));
        }
    } else {
        let rest = stmts.subrange(1, stmts.len() as int);
        assert(!span_contains(statement_span(stmts[0]), pos));
        assert(rest[i - 1] == stmts[i]);
        assert forall|j: int| 0 <= j < i - 1 implies !span_contains(
            statement_span(#[trigger] rest[j]),
            pos,
        ) by {
            assert(rest[j] == stmts[j + 1]);
        }
        assert(on_cursor_path(rest, t, pos));
        lemma_path_list(rest, t, pos);
    }
}

proof fn lemma_path_within(s: Statement, t: Statement, pos: LspPosition)
    requires
        on_cursor_path_within(s, t, pos),
    ensures
        inner_spans(s, pos).contains(statement_span(t)),
    decreases s,
{
    match s {
        Statement::IfStatement { then_branch, else_branch, .. } => {
            if on_cursor_path(then_branch@, t, pos) {
                lemma_path_list(then_branch@, t, pos);
            } else {
                lemma_path_else(else_branch, t, pos);
            }
            lemma_span_in_sum(
                enclosing_spans(then_branch@, pos),
                else_spans(else_branch, pos),
                statement_span(t),
            );
        },
        Statement::PreprocessorConditional { then_branch, else_branch, .. } => {
            if on_cursor_path(then_branch@, t, pos) {
                lemma_path_list(then_branch@, t, pos);
            } else {
                lemma_path_else(else_branch, t, pos);
            }
            lemma_span_in_sum(
                enclosing_spans(then_branch@, pos),
                else_spans(else_branch, pos),
                statement_span(t),
            );
        },
        Statement::ForLoop { body, .. } => lemma_path_list(body@, t, pos),
        Statement::DoLoop { body, .. } => lemma_path_list(body@, t, pos),
        Statement::FunctionDefinition { body, .. } => lemma_path_list(body@, t, pos),
        Statement::SubroutineDefinition { body, .. } => lemma_path_list(body@, t, pos),
        Statement::SelectCase { cases, else_branch, .. } => {
            if on_cursor_path_cases(cases@, t, pos) {
                lemma_path_cases(cases@, t, pos);
            } else {
                lemma_path_else(else_branch, t, pos);
            }
            lemma_span_in_sum(case_spans(cases@, pos), else_spans(else_branch, pos), statement_span(t));
        },
        _ => {},
    }
}

proof fn lemma_path_else(else_branch: Option<Vec<Statement>>, t: Statement, pos: LspPosition)
    requires
        on_cursor_path_else(else_branch, t, pos),
    ensures
        else_spans(else_branch, pos).contains(statement_span(t)),
    decreases else_branch,
{
    match else_branch {
        Some(b) => lemma_path_list(b@, t, pos),
        None => {},
    }
}

proof fn lemma_path_cases(cases: Seq<CaseClause>, t: Statement, pos: LspPosition)
    requires
        on_cursor_path_cases(cases, t, pos),
    ensures
        case_spans(cases, pos).contains(statement_span(t)),
    decreases cases,
{
    let c = cases[cases.len() - 1];
    if on_cursor_path_cases(cases.drop_last(), t, pos) {
        lemma_path_cases(cases.drop_last(), t, pos);
        lemma_span_in_sum(
            case_spans(cases.drop_last(), pos),
            if span_contains(c.span, pos) {
                seq![c.span] + enclosing_spans(c.body@, pos)
            } else {
                Seq::empty()
            },
            statement_span(t),
        );
    } else {
        lemma_path_list(c.body@, t, pos);
        lemma_span_in_sum(seq![c.span], enclosing_spans(c.body@, pos), statement_span(t));
        lemma_span_in_sum(
            case_spans(cases.drop_last(), pos),
            seq![c.span] + enclosing_spans(c.body@, pos),
            statement_span(t),
        );
    }
}

proof fn lemma_dedup_keeps(s: Seq<Span>, x: Span)
    requires
        s.contains(x),
    ensures
        dedup(s).contains(x),
    decreases s.len(),
{
    let d = dedup(s.drop_last());
    if s.last() == x {
        if d.len() > 0 && d.last() == x {
            assert(d[d.len() - 1] == x);
        } else {
            assert(dedup(s)[d.len() as int] == x);
        }
    } else {
        let k = choose|k: int| 0 <= k < s.len() && s[k] == x;
        assert(s.drop_last()[k] == x);
        lemma_dedup_keeps(s.drop_last(), x);
        let j = choose|j: int| 0 <= j < d.len() && d[j] == x;
        assert(dedup(s)[j] == x);
    }
}

/// Every statement on the cursor's path (the statement containing the
/// cursor in each list, at any depth: inside `If`/`#If` branches and their
/// `Else`, `For`/`Do` bodies, `Select Case` branches or `Function`/`Sub`
/// bodies) has its range in the selection chain, as does the program.
pub proof fn every_statement_around_the_cursor_is_selected(
    program: Program,
    tokens: Seq<Token>,
    pos: LspPosition,
    t: Statement,
)
    requires
        on_cursor_path(program.statements@, t, pos),
    ensures
        innermost_first(selection_spans(program, tokens, pos)).contains(
            lsp_range(statement_span(t)),
        ),
{
    lemma_path_list(program.statements@, t, pos);
    let base = seq![program.span] + enclosing_spans(program.statements@, pos);
    lemma_span_in_sum(seq![program.span], enclosing_spans(program.statements@, pos), statement_span(t));
    let all = match identifier_index_at(tokens, pos) {
        Some(i) => base.push(tokens[i].span),
        None => base,
    };
    let k = choose|k: int| 0 <= k < base.len() && base[k] == statement_span(t);
    assert(all[k] == statement_span(t));
    lemma_dedup_keeps(all, statement_span(t));
    let spans = selection_spans(program, tokens, pos);
    let j = choose|j: int| 0 <= j < spans.len() && spans[j] == statement_span(t);
    assert(innermost_first(spans)[spans.len() - 1 - j] == lsp_range(statement_span(t)));
}

} // verus!

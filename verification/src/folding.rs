//! Folding ranges for CRBasic.
//!
//! Block statements (`If`/`For`/`Do`/`Function`/`Sub`, ...) carry a span that
//! covers their closing keyword, so each becomes one folding range directly.
//! The flat markers (`BeginProg`/`EndProg`, `DataTable`/`EndTable`,
//! `Scan`/`NextScan`, ...) are separate statements; this module pairs each
//! closer with the latest unpaired opener of its kind in the same list.
use crate::protocol::FoldingRange;
use crate::syntax::{
    occurs_in, occurs_in_cases, occurs_in_else, occurs_within, one_less, statement_span, CaseClause,
    Position, Program, Statement,
};
use crate::text::str_eq;
use vstd::prelude::*;

verus! {

/// Provides Folding Range functionality.
pub struct FoldingRangeProvider;

/// The number of paired block kinds.
pub const BLOCK_KINDS: usize = 13;

/// The block kind a statement opens, if it is an opener:
/// `BeginProg`, `DataTable`, `ConstTable`, `ApplyAndRestartSequence`,
/// `ShutDownBegin`, `Scan(...)`, `SubScan(...)`, `SlowSequence`,
/// `DisplayMenu(...)`, `SubMenu(...)`, `WebPageBegin(...)`,
/// `ModemHangup(...)`, `VoiceBeg`.
pub open spec fn opener_kind(s: Statement) -> Option<int> {
    match s {
        Statement::ProgramStructure { keyword, .. } => {
            let k = keyword@;
            if k == "BeginProg"@ {
                Some(0)
            } else if k == "DataTable"@ {
                Some(1)
            } else if k == "ConstTable"@ {
                Some(2)
            } else if k == "ApplyAndRestartSequence"@ {
                Some(3)
            } else if k == "ShutDownBegin"@ {
                Some(4)
            } else if k == "SlowSequence"@ {
                Some(7)
            } else if k == "VoiceBeg"@ {
                Some(12)
            } else {
                None
            }
        },
        Statement::FunctionCall { name, .. } => {
            let n = name@;
            if n == "Scan"@ {
                Some(5)
            } else if n == "SubScan"@ {
                Some(6)
            } else if n == "DisplayMenu"@ {
                Some(8)
            } else if n == "SubMenu"@ {
                Some(9)
            } else if n == "WebPageBegin"@ {
                Some(10)
            } else if n == "ModemHangup"@ {
                Some(11)
            } else {
                None
            }
        },
        _ => None,
    }
}

/// The block kind a statement closes, if it is a closer: `EndProg`,
/// `EndTable`, `EndConstTable`, `EndApplyAndRestartSequence`,
/// `ShutDownEnd`, `NextScan`, `NextSubScan`, `EndSequence`, `EndMenu`,
/// `EndSubMenu`, `WebPageEnd`, `EndModemHangup`, `EndVoice`.
pub open spec fn closer_kind(s: Statement) -> Option<int> {
    match s {
        Statement::ProgramStructure { keyword, .. } => {
            let k = keyword@;
            if k == "EndProg"@ {
                Some(0)
            } else if k == "EndTable"@ {
                Some(1)
            } else if k == "EndConstTable"@ {
                Some(2)
            } else if k == "EndApplyAndRestartSequence"@ {
                Some(3)
            } else if k == "ShutDownEnd"@ {
                Some(4)
            } else if k == "NextScan"@ {
                Some(5)
            } else if k == "NextSubScan"@ {
                Some(6)
            } else if k == "EndSequence"@ {
                Some(7)
            } else if k == "EndMenu"@ {
                Some(8)
            } else if k == "EndSubMenu"@ {
                Some(9)
            } else if k == "WebPageEnd"@ {
                Some(10)
            } else if k == "EndModemHangup"@ {
                Some(11)
            } else if k == "EndVoice"@ {
                Some(12)
            } else {
                None
            }
        },
        _ => None,
    }
}

/// The folding range between two source positions, if it spans more than
/// one line.
pub open spec fn range_between(start: Position, end: Position) -> Seq<FoldingRange> {
    let start_line = one_less(start.line) as u32;
    let end_line = one_less(end.line) as u32;
    if end_line > start_line {
        seq![FoldingRange { start_line, end_line }]
    } else {
        Seq::empty()
    }
}

/// The pairing state of a statement list: the unpaired openers of each
/// kind (latest last) and the ranges produced so far.
pub struct FoldState {
    pub stacks: Seq<Seq<Position>>,
    pub ranges: Seq<FoldingRange>,
}

/// The state before any statement.
pub open spec fn fold_start() -> FoldState {
    FoldState { stacks: Seq::new(BLOCK_KINDS as nat, |i: int| Seq::<Position>::empty()), ranges: Seq::empty() }
}

/// The state after the statements of a list, in order.
pub open spec fn fold_state(stmts: Seq<Statement>) -> FoldState
    decreases stmts,
{
    if stmts.len() == 0 {
        fold_start()
    } else {
        let s = stmts[stmts.len() - 1];
        fold_step(fold_state(stmts.drop_last()), s, block_ranges(s))
    }
}

/// The ranges of the `Case` branches: each branch's own range, then its body's.
pub open spec fn fold_cases(cases: Seq<CaseClause>) -> Seq<FoldingRange>
    decreases cases,
{
    if cases.len() == 0 {
        Seq::empty()
    } else {
        let c = cases[cases.len() - 1];
        fold_cases(cases.drop_last()) + range_between(c.span.start, c.span.end) + fold_state(
            c.body@,
        ).ranges
    }
}

/// The ranges of an optional `Else` body.
pub open spec fn fold_else(else_branch: Option<Vec<Statement>>) -> Seq<FoldingRange>
    decreases else_branch,
{
    match else_branch {
        Some(e) => fold_state(e@).ranges,
        None => Seq::empty(),
    }
}

/// The state after one more statement, given the ranges inside it
/// (`nested`, used when it is neither an opener nor a closer).
pub open spec fn fold_step(st: FoldState, s: Statement, nested: Seq<FoldingRange>) -> FoldState {
    match opener_kind(s) {
        Some(k) => FoldState {
            stacks: st.stacks.update(k, st.stacks[k].push(crate::syntax::statement_span(s).start)),
            ranges: st.ranges,
        },
        None => match closer_kind(s) {
            Some(k) => if st.stacks[k].len() > 0 {
                FoldState {
                    stacks: st.stacks.update(k, st.stacks[k].drop_last()),
                    ranges: st.ranges + range_between(
                        st.stacks[k].last(),
                        crate::syntax::statement_span(s).end,
                    ),
                }
            } else {
                st
            },
            None => FoldState { stacks: st.stacks, ranges: st.ranges + nested },
        },
    }
}

/// The ranges of a block statement: its own range, then those of its bodies.
pub open spec fn block_ranges(s: Statement) -> Seq<FoldingRange>
    decreases s,
{
    match s {
        Statement::IfStatement { then_branch, else_branch, span, .. } => range_between(
            span.start,
            span.end,
        ) + fold_state(then_branch@).ranges + fold_else(else_branch),
        Statement::PreprocessorConditional { then_branch, else_branch, span, .. } => range_between(
            span.start,
            span.end,
        ) + fold_state(then_branch@).ranges + fold_else(else_branch),
        Statement::ForLoop { body, span, .. } => range_between(span.start, span.end) + fold_state(
            body@,
        ).ranges,
        Statement::DoLoop { body, span, .. } => range_between(span.start, span.end) + fold_state(
            body@,
        ).ranges,
        Statement::FunctionDefinition { body, span, .. } => range_between(span.start, span.end)
            + fold_state(body@).ranges,
        Statement::SubroutineDefinition { body, span, .. } => range_between(span.start, span.end)
            + fold_state(body@).ranges,
        Statement::StructureType { span, .. } => range_between(span.start, span.end),
        Statement::SelectCase { cases, else_branch, span, .. } => range_between(span.start, span.end)
            + fold_cases(cases@) + fold_else(else_branch),
        _ => Seq::empty(),
    }
}

/// The block kind of an opener statement.
fn opener_of(s: &Statement) -> (r: Option<usize>)
    ensures
        match (r, opener_kind(*s)) {
            (Some(k), Some(k2)) => k == k2,
            (None, None) => true,
            _ => false,
        },
{
    match s {
        Statement::ProgramStructure { keyword, .. } => {
            let k = keyword.as_str();
            if str_eq(k, "BeginProg") {
                Some(0)
            } else if str_eq(k, "DataTable") {
                Some(1)
            } else if str_eq(k, "ConstTable") {
                Some(2)
            } else if str_eq(k, "ApplyAndRestartSequence") {
                Some(3)
            } else if str_eq(k, "ShutDownBegin") {
                Some(4)
            } else if str_eq(k, "SlowSequence") {
                Some(7)
            } else if str_eq(k, "VoiceBeg") {
                Some(12)
            } else {
                None
            }
        },
        Statement::FunctionCall { name, .. } => {
            let n = name.as_str();
            if str_eq(n, "Scan") {
                Some(5)
            } else if str_eq(n, "SubScan") {
                Some(6)
            } else if str_eq(n, "DisplayMenu") {
                Some(8)
            } else if str_eq(n, "SubMenu") {
                Some(9)
            } else if str_eq(n, "WebPageBegin") {
                Some(10)
            } else if str_eq(n, "ModemHangup") {
                Some(11)
            } else {
                None
            }
        },
        _ => None,
    }
}

/// The block kind of a closer statement.
fn closer_of(s: &Statement) -> (r: Option<usize>)
    ensures
        match (r, closer_kind(*s)) {
            (Some(k), Some(k2)) => k == k2,
            (None, None) => true,
            _ => false,
        },
{
    match s {
        Statement::ProgramStructure { keyword, .. } => {
            let k = keyword.as_str();
            if str_eq(k, "EndProg") {
                Some(0)
            } else if str_eq(k, "EndTable") {
                Some(1)
            } else if str_eq(k, "EndConstTable") {
                Some(2)
            } else if str_eq(k, "EndApplyAndRestartSequence") {
                Some(3)
            } else if str_eq(k, "ShutDownEnd") {
                Some(4)
            } else if str_eq(k, "NextScan") {
                Some(5)
            } else if str_eq(k, "NextSubScan") {
                Some(6)
            } else if str_eq(k, "EndSequence") {
                Some(7)
            } else if str_eq(k, "EndMenu") {
                Some(8)
            } else if str_eq(k, "EndSubMenu") {
                Some(9)
            } else if str_eq(k, "WebPageEnd") {
                Some(10)
            } else if str_eq(k, "EndModemHangup") {
                Some(11)
            } else if str_eq(k, "EndVoice") {
                Some(12)
            } else {
                None
            }
        },
        _ => None,
    }
}

impl FoldingRangeProvider {
    /// Extracts every foldable range from a parsed program.
    pub fn get_folding_ranges(program: &Program) -> (r: Vec<FoldingRange>)
        ensures
            r@ == fold_state(program.statements@).ranges,
    {
        let mut ranges = Vec::new();
        Self::collect_from_statements(&program.statements, &mut ranges);
        ranges
    }

    /// Walks a statement list, pairing up its flat block markers and
    /// recursing into block bodies.
    fn collect_from_statements(statements: &Vec<Statement>, ranges: &mut Vec<FoldingRange>)
        ensures
            final(ranges)@ == old(ranges)@ + fold_state(statements@).ranges,
        decreases statements@,
    {
        let ghost start = ranges@;
        let mut stacks: Vec<Vec<Position>> = Vec::new();
        let mut k: usize = 0;
        while k < BLOCK_KINDS
            invariant
                k <= BLOCK_KINDS,
                stacks@.len() == k,
                forall|j: int| 0 <= j < k ==> (#[trigger] stacks@[j])@ == Seq::<Position>::empty(),
            decreases BLOCK_KINDS - k,
        {
            stacks.push(Vec::new());
            k += 1;
        }
        assert(stacks@.map_values(|v: Vec<Position>| v@) =~= fold_start().stacks);
        let mut i: usize = 0;
        while i < statements.len()
            invariant
                i <= statements@.len(),
                stacks@.len() == BLOCK_KINDS,
                stacks@.map_values(|v: Vec<Position>| v@) == fold_state(
                    statements@.take(i as int),
                ).stacks,
                ranges@ == start + fold_state(statements@.take(i as int)).ranges,
            decreases statements@.len() - i,
        {
            proof {
                assert(statements@.take(i + 1).drop_last() =~= statements@.take(i as int));
                lemma_fold_stacks_len(statements@.take(i as int));
                lemma_kinds_in_range(statements@[i as int]);
                assert(statements@.take(i + 1)[i as int] == statements@[i as int]);
            }
            let statement = &statements[i];
            let ghost st = fold_state(statements@.take(i as int));
            let ghost before = ranges@;
            match opener_of(statement) {
                Some(kind) => {
                    let mut stack = stacks.remove(kind);
                    stack.push(statement.span().start);
                    stacks.insert(kind, stack);
                    proof {
                        assert(stacks@.map_values(|v: Vec<Position>| v@) =~= st.stacks.update(
                            kind as int,
                            st.stacks[kind as int].push(crate::syntax::statement_span(*statement).start),
                        ));
                    }
                },
                None => match closer_of(statement) {
                    Some(kind) => {
                        let mut stack = stacks.remove(kind);
                        let ghost old_stack = stack@;
                        if let Some(start) = stack.pop() {
                            Self::push_range(ranges, start, statement.span().end);
                            stacks.insert(kind, stack);
                            proof {
                                assert(stacks@.map_values(|v: Vec<Position>| v@) =~= st.stacks.update(
                                    kind as int,
                                    st.stacks[kind as int].drop_last(),
                                ));
                            }
                        } else {
                            stacks.insert(kind, stack);
                            proof {
                                assert(stacks@.map_values(|v: Vec<Position>| v@) =~= st.stacks);
                            }
                        }
                    },
                    None => {
                        Self::collect_block(statement, ranges);
                    },
                },
            }
            i += 1;
        }
        proof {
            assert(statements@.take(i as int) =~= statements@);
        }
    }

    /// Pushes the ranges of a block statement: its own, then its bodies'.
    fn collect_block(statement: &Statement, ranges: &mut Vec<FoldingRange>)
        ensures
            final(ranges)@ == old(ranges)@ + block_ranges(*statement),
        decreases statement,
    {
        let ghost start = ranges@;
        match statement {
            Statement::IfStatement { then_branch, else_branch, span, .. } => {
                Self::push_range(ranges, span.start, span.end);
                Self::collect_from_statements(then_branch, ranges);
                if let Some(else_stmts) = else_branch {
                    Self::collect_from_statements(else_stmts, ranges);
                }
            },
            Statement::PreprocessorConditional { then_branch, else_branch, span, .. } => {
                Self::push_range(ranges, span.start, span.end);
                Self::collect_from_statements(then_branch, ranges);
                if let Some(else_stmts) = else_branch {
                    Self::collect_from_statements(else_stmts, ranges);
                }
            },
            Statement::ForLoop { body, span, .. } => {
                Self::push_range(ranges, span.start, span.end);
                Self::collect_from_statements(body, ranges);
            },
            Statement::DoLoop { body, span, .. } => {
                Self::push_range(ranges, span.start, span.end);
                Self::collect_from_statements(body, ranges);
            },
            Statement::FunctionDefinition { body, span, .. } => {
                Self::push_range(ranges, span.start, span.end);
                Self::collect_from_statements(body, ranges);
            },
            Statement::SubroutineDefinition { body, span, .. } => {
                Self::push_range(ranges, span.start, span.end);
                Self::collect_from_statements(body, ranges);
            },
            Statement::StructureType { span, .. } => {
                Self::push_range(ranges, span.start, span.end);
            },
            Statement::SelectCase { cases, else_branch, span, .. } => {
                Self::push_range(ranges, span.start, span.end);
                Self::collect_cases(cases, ranges);
                if let Some(else_stmts) = else_branch {
                    Self::collect_from_statements(else_stmts, ranges);
                }
            },
            _ => {},
        }
    }

    /// Pushes the ranges of `Case` branches: each branch's own, then its body's.
    fn collect_cases(cases: &Vec<CaseClause>, ranges: &mut Vec<FoldingRange>)
        ensures
            final(ranges)@ == old(ranges)@ + fold_cases(cases@),
        decreases cases@,
    {
        let ghost start = ranges@;
        let mut i: usize = 0;
        while i < cases.len()
            invariant
                i <= cases@.len(),
                ranges@ == start + fold_cases(cases@.take(i as int)),
            decreases cases@.len() - i,
        {
            proof {
                assert(cases@.take(i + 1).drop_last() =~= cases@.take(i as int));
            }
            let case = &cases[i];
            Self::push_range(ranges, case.span.start, case.span.end);
            Self::collect_from_statements(&case.body, ranges);
            i += 1;
        }
        proof {
            assert(cases@.take(i as int) =~= cases@);
        }
    }

    /// Pushes a folding range if it spans more than one line.
    fn push_range(ranges: &mut Vec<FoldingRange>, start: Position, end: Position)
        ensures
            final(ranges)@ == old(ranges)@ + range_between(start, end),
    {
        let start_line = start.line.saturating_sub(1) as u32;
        let end_line = end.line.saturating_sub(1) as u32;
        if end_line > start_line {
            ranges.push(FoldingRange { start_line, end_line });
        }
    }
}

proof fn lemma_fold_stacks_len(stmts: Seq<Statement>)
    ensures
        fold_state(stmts).stacks.len() == BLOCK_KINDS,
    decreases stmts.len(),
{
    if stmts.len() > 0 {
        lemma_fold_stacks_len(stmts.drop_last());
        let st = fold_state(stmts.drop_last());
        let s = stmts[stmts.len() - 1];
        lemma_kinds_in_range(s);
    }
}

proof fn lemma_kinds_in_range(s: Statement)
    ensures
        opener_kind(s) matches Some(k) ==> 0 <= k < BLOCK_KINDS,
        closer_kind(s) matches Some(k) ==> 0 <= k < BLOCK_KINDS,
{
}

/// Every range in the list spans more than one line.
pub open spec fn all_multiline(ranges: Seq<FoldingRange>) -> bool {
    forall|i: int| 0 <= i < ranges.len() ==> (#[trigger] ranges[i]).end_line > ranges[i].start_line
}

/// No folding range starts and ends on the same line: a block that fits on
/// one line is never offered for folding.
pub proof fn folding_ranges_span_several_lines(program: Program)
    ensures
        all_multiline(fold_state(program.statements@).ranges),
{
    lemma_state_multiline(program.statements@);
}

proof fn lemma_concat_multiline(a: Seq<FoldingRange>, b: Seq<FoldingRange>)
    requires
        all_multiline(a),
        all_multiline(b),
    ensures
        all_multiline(a + b),
{
    assert forall|i: int| 0 <= i < (a + b).len() implies (#[trigger] (a + b)[i]).end_line > (a
        + b)[i].start_line by {
        if i < a.len() {
            assert((a + b)[i] == a[i]);
        } else {
            assert((a + b)[i] == b[i - a.len()]);
        }
    }
}

proof fn lemma_state_multiline(stmts: Seq<Statement>)
    ensures
        all_multiline(fold_state(stmts).ranges),
    decreases stmts,
{
    if stmts.len() > 0 {
        let s = stmts[stmts.len() - 1];
        let st = fold_state(stmts.drop_last());
        lemma_state_multiline(stmts.drop_last());
        lemma_block_multiline(s);
        lemma_kinds_in_range(s);
        match opener_kind(s) {
            Some(k) => {},
            None => match closer_kind(s) {
                Some(k) => {
                    if st.stacks[k].len() > 0 {
                        lemma_concat_multiline(
                            st.ranges,
                            range_between(st.stacks[k].last(), crate::syntax::statement_span(s).end),
                        );
                    }
                },
                None => {
                    lemma_concat_multiline(st.ranges, block_ranges(s));
                },
            },
        }
    }
}

proof fn lemma_cases_multiline(cases: Seq<CaseClause>)
    ensures
        all_multiline(fold_cases(cases)),
    decreases cases,
{
    if cases.len() > 0 {
        let c = cases[cases.len() - 1];
        lemma_cases_multiline(cases.drop_last());
        lemma_state_multiline(c.body@);
        lemma_concat_multiline(fold_cases(cases.drop_last()), range_between(c.span.start, c.span.end));
        lemma_concat_multiline(
            fold_cases(cases.drop_last()) + range_between(c.span.start, c.span.end),
            fold_state(c.body@).ranges,
        );
    }
}

proof fn lemma_else_multiline(else_branch: Option<Vec<Statement>>)
    ensures
        all_multiline(fold_else(else_branch)),
    decreases else_branch,
{
    if let Some(e) = else_branch {
        lemma_state_multiline(e@);
    }
}

proof fn lemma_block_multiline(s: Statement)
    ensures
        all_multiline(block_ranges(s)),
    decreases s,
{
    match s {
        Statement::IfStatement { then_branch, else_branch, span, .. } => {
            lemma_state_multiline(then_branch@);
            lemma_else_multiline(else_branch);
            lemma_concat_multiline(range_between(span.start, span.end), fold_state(then_branch@).ranges);
            lemma_concat_multiline(
                range_between(span.start, span.end) + fold_state(then_branch@).ranges,
                fold_else(else_branch),
            );
        },
        Statement::PreprocessorConditional { then_branch, else_branch, span, .. } => {
            lemma_state_multiline(then_branch@);
            lemma_else_multiline(else_branch);
            lemma_concat_multiline(range_between(span.start, span.end), fold_state(then_branch@).ranges);
            lemma_concat_multiline(
                range_between(span.start, span.end) + fold_state(then_branch@).ranges,
                fold_else(else_branch),
            );
        },
        Statement::ForLoop { body, span, .. } => {
            lemma_state_multiline(body@);
            lemma_concat_multiline(range_between(span.start, span.end), fold_state(body@).ranges);
        },
        Statement::DoLoop { body, span, .. } => {
            lemma_state_multiline(body@);
            lemma_concat_multiline(range_between(span.start, span.end), fold_state(body@).ranges);
        },
        Statement::FunctionDefinition { body, span, .. } => {
            lemma_state_multiline(body@);
            lemma_concat_multiline(range_between(span.start, span.end), fold_state(body@).ranges);
        },
        Statement::SubroutineDefinition { body, span, .. } => {
            lemma_state_multiline(body@);
            lemma_concat_multiline(range_between(span.start, span.end), fold_state(body@).ranges);
        },
        Statement::SelectCase { cases, else_branch, span, .. } => {
            lemma_cases_multiline(cases@);
            lemma_else_multiline(else_branch);
            lemma_concat_multiline(range_between(span.start, span.end), fold_cases(cases@));
            lemma_concat_multiline(
                range_between(span.start, span.end) + fold_cases(cases@),
                fold_else(else_branch),
            );
        },
        _ => {},
    }
}

/// Whether `s` is a block statement: one whose span runs from its opening
/// to its closing keyword (`If`, `#If`, `For`, `Do`, `Select Case`,
/// `Function`, `Sub`, `StructureType`).
pub open spec fn is_block_statement(s: Statement) -> bool {
    ||| s is IfStatement
    ||| s is PreprocessorConditional
    ||| s is ForLoop
    ||| s is DoLoop
    ||| s is SelectCase
    ||| s is FunctionDefinition
    ||| s is SubroutineDefinition
    ||| s is StructureType
}

/// The folding range a block statement spanning several lines must get:
/// from its 0-indexed start line to its 0-indexed end line.
pub open spec fn statement_fold(s: Statement) -> FoldingRange {
    FoldingRange {
        start_line: one_less(statement_span(s).start.line) as u32,
        end_line: one_less(statement_span(s).end.line) as u32,
    }
}

/// Whether `s` spans several lines, all of which fit the protocol's `u32`.
pub open spec fn spans_several_lines(s: Statement) -> bool {
    &&& one_less(statement_span(s).start.line) < one_less(statement_span(s).end.line)
    &&& one_less(statement_span(s).end.line) <= u32::MAX
}

proof fn lemma_fold_ranges_grow(stmts: Seq<Statement>, r: FoldingRange)
    requires
        stmts.len() > 0,
        fold_state(stmts.drop_last()).ranges.contains(r),
    ensures
        fold_state(stmts).ranges.contains(r),
{
    let prev = fold_state(stmts.drop_last());
    let k = choose|k: int| 0 <= k < prev.ranges.len() && prev.ranges[k] == r;
    let next = fold_state(stmts);
    assert(next.ranges.len() >= prev.ranges.len() && next.ranges[k] == prev.ranges[k]);
}

proof fn lemma_last_block_folds(stmts: Seq<Statement>, r: FoldingRange)
    requires
        stmts.len() > 0,
        is_block_statement(stmts[stmts.len() - 1]),
        block_ranges(stmts[stmts.len() - 1]).contains(r),
    ensures
        fold_state(stmts).ranges.contains(r),
{
    let prev = fold_state(stmts.drop_last());
    let b = block_ranges(stmts[stmts.len() - 1]);
    let k = choose|k: int| 0 <= k < b.len() && b[k] == r;
    assert(fold_state(stmts).ranges == prev.ranges + b);
    assert(fold_state(stmts).ranges[prev.ranges.len() + k] == r);
}

proof fn lemma_fold_list(stmts: Seq<Statement>, t: Statement)
    requires
        occurs_in(stmts, t),
        is_block_statement(t),
        spans_several_lines(t),
    ensures
        fold_state(stmts).ranges.contains(statement_fold(t)),
    decreases stmts,
{
    let last = stmts[stmts.len() - 1];
    if occurs_in(stmts.drop_last(), t) {
        lemma_fold_list(stmts.drop_last(), t);
        lemma_fold_ranges_grow(stmts, statement_fold(t));
    } else if last == t {
        assert(block_ranges(t)[0] == statement_fold(t));
        lemma_last_block_folds(stmts, statement_fold(t));
    } else {
        lemma_fold_within(last, t);
        lemma_last_block_folds(stmts, statement_fold(t));
    }
}

proof fn lemma_contains_in_sum(a: Seq<FoldingRange>, b: Seq<FoldingRange>, c: Seq<FoldingRange>, r: FoldingRange)
    requires
        a.contains(r) || b.contains(r) || c.contains(r),
    ensures
        (a + b + c).contains(r),
{
    if a.contains(r) {
        let k = choose|k: int| 0 <= k < a.len() && a[k] == r;
        assert((a + b + c)[k] == r);
    } else if b.contains(r) {
        let k = choose|k: int| 0 <= k < b.len() && b[k] == r;
        assert((a + b + c)[a.len() + k] == r);
    } else {
        let k = choose|k: int| 0 <= k < c.len() && c[k] == r;
        assert((a + b + c)[a.len() + b.len() + k] == r);
    }
}

proof fn lemma_fold_within(s: Statement, t: Statement)
    requires
        occurs_within(s, t),
        is_block_statement(t),
        spans_several_lines(t),
    ensures
        is_block_statement(s),
        block_ranges(s).contains(statement_fold(t)),
    decreases s,
{
    let r = statement_fold(t);
    let e = Seq::<FoldingRange>::empty();
    match s {
        Statement::IfStatement { then_branch, else_branch, span, .. } => {
            if occurs_in(then_branch@, t) {
                lemma_fold_list(then_branch@, t);
            } else {
                lemma_fold_else(else_branch, t);
            }
            lemma_contains_in_sum(
                range_between(span.start, span.end),
                fold_state(then_branch@).ranges,
                fold_else(else_branch),
                r,
            );
        },
        Statement::PreprocessorConditional { then_branch, else_branch, span, .. } => {
            if occurs_in(then_branch@, t) {
                lemma_fold_list(then_branch@, t);
            } else {
                lemma_fold_else(else_branch, t);
            }
            lemma_contains_in_sum(
                range_between(span.start, span.end),
                fold_state(then_branch@).ranges,
                fold_else(else_branch),
                r,
            );
        },
        Statement::ForLoop { body, span, .. } => {
            lemma_fold_list(body@, t);
            lemma_contains_in_sum(range_between(span.start, span.end), fold_state(body@).ranges, e, r);
            assert(range_between(span.start, span.end) + fold_state(body@).ranges + e =~= block_ranges(s));
        },
        Statement::DoLoop { body, span, .. } => {
            lemma_fold_list(body@, t);
            lemma_contains_in_sum(range_between(span.start, span.end), fold_state(body@).ranges, e, r);
            assert(range_between(span.start, span.end) + fold_state(body@).ranges + e =~= block_ranges(s));
        },
        Statement::FunctionDefinition { body, span, .. } => {
            lemma_fold_list(body@, t);
            lemma_contains_in_sum(range_between(span.start, span.end), fold_state(body@).ranges, e, r);
            assert(range_between(span.start, span.end) + fold_state(body@).ranges + e =~= block_ranges(s));
        },
        Statement::SubroutineDefinition { body, span, .. } => {
            lemma_fold_list(body@, t);
            lemma_contains_in_sum(range_between(span.start, span.end), fold_state(body@).ranges, e, r);
            assert(range_between(span.start, span.end) + fold_state(body@).ranges + e =~= block_ranges(s));
        },
        Statement::SelectCase { cases, else_branch, span, .. } => {
            if occurs_in_cases(cases@, t) {
                lemma_fold_cases(cases@, t);
            } else {
                lemma_fold_else(else_branch, t);
            }
            lemma_contains_in_sum(
                range_between(span.start, span.end),
                fold_cases(cases@),
                fold_else(else_branch),
                r,
            );
        },
        _ => {},
    }
}

proof fn lemma_fold_else(else_branch: Option<Vec<Statement>>, t: Statement)
    requires
        occurs_in_else(else_branch, t),
        is_block_statement(t),
        spans_several_lines(t),
    ensures
        fold_else(else_branch).contains(statement_fold(t)),
    decreases else_branch,
{
    match else_branch {
        Some(b) => lemma_fold_list(b@, t),
        None => {},
    }
}

proof fn lemma_fold_cases(cases: Seq<CaseClause>, t: Statement)
    requires
        occurs_in_cases(cases, t),
        is_block_statement(t),
        spans_several_lines(t),
    ensures
        fold_cases(cases).contains(statement_fold(t)),
    decreases cases,
{
    let c = cases[cases.len() - 1];
    if occurs_in_cases(cases.drop_last(), t) {
        lemma_fold_cases(cases.drop_last(), t);
    } else {
        lemma_fold_list(c.body@, t);
    }
    lemma_contains_in_sum(
        fold_cases(cases.drop_last()),
        range_between(c.span.start, c.span.end),
        fold_state(c.body@).ranges,
        statement_fold(t),
    );
}

/// Every block statement anywhere in the program (at the top level or
/// nested at any depth, inside `If`/`#If` branches and their `Else`, loop
/// bodies, `Select Case` branches or `Function`/`Sub` bodies) that spans
/// several lines gets a folding range from its start line to its end line.
pub proof fn every_multiline_block_folds(program: Program, t: Statement)
    requires
        occurs_in(program.statements@, t),
        is_block_statement(t),
        spans_several_lines(t),
    ensures
        fold_state(program.statements@).ranges.contains(
            FoldingRange {
                start_line: one_less(statement_span(t).start.line) as u32,
                end_line: one_less(statement_span(t).end.line) as u32,
            },
        ),
{
    lemma_fold_list(program.statements@, t);
}

} // verus!

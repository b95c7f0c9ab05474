//! Every function call of a statement list, with the named `Function`/`Sub`
//! (if any) each call is made from.
use crate::syntax::{
    call_within_expression, call_within_expressions, occurs_in, occurs_in_cases, occurs_in_else,
    occurs_within, statement_expressions, AssignmentTarget, CaseClause, Expression, Span, Statement,
};
use vstd::prelude::*;

verus! {

/// A single function call found while walking a statement list.
#[derive(Debug, Clone, Copy)]
pub struct CallSite<'a> {
    /// The `Function`/`Sub` this call is made from, or `None` for the
    /// top-level program body
    pub enclosing: Option<&'a str>,
    /// The name of the function being called
    pub name: &'a str,
    /// The call's argument expressions
    pub arguments: &'a [Expression],
    /// The source span of the call expression itself
    pub span: Span,
}

/// The value of a `CallSite`.
pub struct CallSiteView {
    pub enclosing: Option<Seq<char>>,
    pub name: Seq<char>,
    pub arguments: Seq<Expression>,
    pub span: Span,
}

impl<'a> View for CallSite<'a> {
    type V = CallSiteView;

    open spec fn view(&self) -> CallSiteView {
        CallSiteView {
            enclosing: match self.enclosing {
                Some(e) => Some(e@),
                None => None,
            },
            name: self.name@,
            arguments: self.arguments@,
            span: self.span,
        }
    }
}

/// The values of a list of call sites.
pub open spec fn sites_view(sites: Seq<CallSite>) -> Seq<CallSiteView> {
    sites.map_values(|c: CallSite| c@)
}

/// The calls inside a list of expressions, in order.
pub open spec fn calls_in_expressions(es: Seq<Expression>, enclosing: Option<Seq<char>>) -> Seq<
    CallSiteView,
>
    decreases es,
{
    if es.len() == 0 {
        Seq::empty()
    } else {
        calls_in_expressions(es.drop_last(), enclosing) + calls_in_expression(
            es[es.len() - 1],
            enclosing,
        )
    }
}

/// The calls inside an expression: a call comes before the calls in its arguments.
pub open spec fn calls_in_expression(e: Expression, enclosing: Option<Seq<char>>) -> Seq<
    CallSiteView,
>
    decreases e,
{
    match e {
        Expression::BinaryOp { left, right, .. } => calls_in_expression(*left, enclosing)
            + calls_in_expression(*right, enclosing),
        Expression::UnaryOp { operand, .. } => calls_in_expression(*operand, enclosing),
        Expression::FunctionCall { name, arguments, span } => seq![
            CallSiteView { enclosing, name: name@, arguments: arguments@, span },
        ] + calls_in_expressions(arguments@, enclosing),
        Expression::ArrayAccess { array, index, .. } => calls_in_expression(*array, enclosing)
            + calls_in_expression(*index, enclosing),
        _ => Seq::empty(),
    }
}

/// The calls inside an optional expression.
pub open spec fn calls_in_option(e: Option<Expression>, enclosing: Option<Seq<char>>) -> Seq<
    CallSiteView,
> {
    match e {
        Some(x) => calls_in_expression(x, enclosing),
        None => Seq::empty(),
    }
}

/// The calls inside a list of statements, in order.
pub open spec fn calls_in_statements(stmts: Seq<Statement>, enclosing: Option<Seq<char>>) -> Seq<
    CallSiteView,
>
    decreases stmts,
{
    if stmts.len() == 0 {
        Seq::empty()
    } else {
        calls_in_statements(stmts.drop_last(), enclosing) + calls_in_statement(
            stmts[stmts.len() - 1],
            enclosing,
        )
    }
}

/// The calls inside an optional `Else` body.
pub open spec fn calls_in_else(else_branch: Option<Vec<Statement>>, enclosing: Option<Seq<char>>) -> Seq<
    CallSiteView,
>
    decreases else_branch,
{
    match else_branch {
        Some(e) => calls_in_statements(e@, enclosing),
        None => Seq::empty(),
    }
}

/// The calls inside the bodies of `Case` branches, branch by branch.
pub open spec fn calls_in_cases(cases: Seq<CaseClause>, enclosing: Option<Seq<char>>) -> Seq<
    CallSiteView,
>
    decreases cases,
{
    if cases.len() == 0 {
        Seq::empty()
    } else {
        calls_in_cases(cases.drop_last(), enclosing) + calls_in_statements(
            cases[cases.len() - 1].body@,
            enclosing,
        )
    }
}

/// The calls inside a statement; a `Function`/`Sub` body's calls are made
/// from that `Function`/`Sub`.
pub open spec fn calls_in_statement(s: Statement, enclosing: Option<Seq<char>>) -> Seq<
    CallSiteView,
>
    decreases s,
{
    match s {
        Statement::VarDeclaration { array_dimensions, initializer, .. } => (match array_dimensions {
            Some(d) => calls_in_expressions(d@, enclosing),
            None => Seq::empty(),
        }) + calls_in_option(initializer, enclosing),
        Statement::Assignment { target, value, .. } => (match target {
            AssignmentTarget::ArrayElement { indices, .. } => calls_in_expressions(
                indices@,
                enclosing,
            ),
            _ => Seq::empty(),
        }) + calls_in_expression(value, enclosing),
        Statement::IfStatement { condition, then_branch, else_branch, .. } => calls_in_expression(
            condition,
            enclosing,
        ) + calls_in_statements(then_branch@, enclosing) + calls_in_else(else_branch, enclosing),
        Statement::PreprocessorConditional { condition, then_branch, else_branch, .. } =>
            calls_in_expression(condition, enclosing) + calls_in_statements(then_branch@, enclosing)
            + calls_in_else(else_branch, enclosing),
        Statement::SelectCase { selector, cases, else_branch, .. } => calls_in_expression(
            selector,
            enclosing,
        ) + calls_in_cases(cases@, enclosing) + calls_in_else(else_branch, enclosing),
        Statement::ForLoop { start, end, step, body, .. } => calls_in_expression(start, enclosing)
            + calls_in_expression(end, enclosing) + calls_in_option(step, enclosing)
            + calls_in_statements(body@, enclosing),
        Statement::DoLoop { condition, body, .. } => calls_in_option(condition, enclosing)
            + calls_in_statements(body@, enclosing),
        Statement::FunctionCall { name, arguments, span } => seq![
            CallSiteView { enclosing, name: name@, arguments: arguments@, span },
        ] + calls_in_expressions(arguments@, enclosing),
        Statement::Expression { expression, .. } => calls_in_expression(expression, enclosing),
        Statement::ProgramStructure { arguments, .. } => match arguments {
            Some(a) => calls_in_expressions(a@, enclosing),
            None => Seq::empty(),
        },
        Statement::FunctionDefinition { name, body, .. } => calls_in_statements(body@, Some(name@)),
        Statement::SubroutineDefinition { name, body, .. } => calls_in_statements(
            body@,
            Some(name@),
        ),
        _ => Seq::empty(),
    }
}

/// Whether `sites` holds a call of `name` with `arguments` at `span`
/// (made from whichever `Function`/`Sub`).
pub open spec fn has_call(sites: Seq<CallSiteView>, name: Seq<char>, arguments: Seq<Expression>, span: Span) -> bool {
    exists|k: int|
        0 <= k < sites.len() && (#[trigger] sites[k]).name == name && sites[k].arguments
            == arguments && sites[k].span == span
}

proof fn lemma_has_call_sum(
    a: Seq<CallSiteView>,
    b: Seq<CallSiteView>,
    c: Seq<CallSiteView>,
    name: Seq<char>,
    arguments: Seq<Expression>,
    span: Span,
)
    requires
        has_call(a, name, arguments, span) || has_call(b, name, arguments, span) || has_call(
            c,
            name,
            arguments,
            span,
        ),
    ensures
        has_call(a + b + c, name, arguments, span),
{
    let all = a + b + c;
    if has_call(a, name, arguments, span) {
        let k = choose|k: int|
            0 <= k < a.len() && (#[trigger] a[k]).name == name && a[k].arguments == arguments
                && a[k].span == span;
        assert(all[k] == a[k]);
    } else if has_call(b, name, arguments, span) {
        let k = choose|k: int|
            0 <= k < b.len() && (#[trigger] b[k]).name == name && b[k].arguments == arguments
                && b[k].span == span;
        assert(all[a.len() + k] == b[k]);
    } else {
        let k = choose|k: int|
            0 <= k < c.len() && (#[trigger] c[k]).name == name && c[k].arguments == arguments
                && c[k].span == span;
        assert(all[a.len() + b.len() + k] == c[k]);
    }
}

/// Whether the sites of `t` include the call, whichever `Function`/`Sub`
/// they are made from.
pub open spec fn sites_of_have_call(t: Statement, name: Seq<char>, arguments: Seq<Expression>, span: Span) -> bool {
    forall|e: Option<Seq<char>>| #[trigger] has_call(calls_in_statement(t, e), name, arguments, span)
}

proof fn lemma_calls_list(
    stmts: Seq<Statement>,
    enclosing: Option<Seq<char>>,
    t: Statement,
    name: Seq<char>,
    arguments: Seq<Expression>,
    span: Span,
)
    requires
        occurs_in(stmts, t),
        sites_of_have_call(t, name, arguments, span),
    ensures
        has_call(calls_in_statements(stmts, enclosing), name, arguments, span),
    decreases stmts,
{
    let last = stmts[stmts.len() - 1];
    let e = Seq::<CallSiteView>::empty();
    if occurs_in(stmts.drop_last(), t) {
        lemma_calls_list(stmts.drop_last(), enclosing, t, name, arguments, span);
    } else if last == t {
        assert(has_call(calls_in_statement(t, enclosing), name, arguments, span));
    } else {
        lemma_calls_within(last, enclosing, t, name, arguments, span);
    }
    lemma_has_call_sum(
        calls_in_statements(stmts.drop_last(), enclosing),
        calls_in_statement(last, enclosing),
        e,
        name,
        arguments,
        span,
    );
    assert(calls_in_statements(stmts.drop_last(), enclosing) + calls_in_statement(last, enclosing)
        + e =~= calls_in_statements(stmts, enclosing));
}

proof fn lemma_calls_within(
    s: Statement,
    enclosing: Option<Seq<char>>,
    t: Statement,
    name: Seq<char>,
    args: Seq<Expression>,
    span: Span,
)
    requires
        occurs_within(s, t),
        sites_of_have_call(t, name, args, span),
    ensures
        has_call(calls_in_statement(s, enclosing), name, args, span),
    decreases s,
{
    let e = Seq::<CallSiteView>::empty();
    match s {
        Statement::IfStatement { condition, then_branch, else_branch, .. } => {
            if occurs_in(then_branch@, t) {
                lemma_calls_list(then_branch@, enclosing, t, name, args, span);
            } else {
                lemma_calls_else(else_branch, enclosing, t, name, args, span);
            }
            lemma_has_call_sum(
                calls_in_expression(condition, enclosing),
                calls_in_statements(then_branch@, enclosing),
                calls_in_else(else_branch, enclosing),
                name,
                args,
                span,
            );
        },
        Statement::PreprocessorConditional { condition, then_branch, else_branch, .. } => {
            if occurs_in(then_branch@, t) {
                lemma_calls_list(then_branch@, enclosing, t, name, args, span);
            } else {
                lemma_calls_else(else_branch, enclosing, t, name, args, span);
            }
            lemma_has_call_sum(
                calls_in_expression(condition, enclosing),
                calls_in_statements(then_branch@, enclosing),
                calls_in_else(else_branch, enclosing),
                name,
                args,
                span,
            );
        },
        Statement::ForLoop { start, end, step, body, .. } => {
            lemma_calls_list(body@, enclosing, t, name, args, span);
            lemma_has_call_sum(
                calls_in_expression(start, enclosing) + calls_in_expression(end, enclosing),
                calls_in_option(step, enclosing),
                calls_in_statements(body@, enclosing),
                name,
                args,
                span,
            );
        },
        Statement::DoLoop { condition, body, .. } => {
            lemma_calls_list(body@, enclosing, t, name, args, span);
            lemma_has_call_sum(
                calls_in_option(condition, enclosing),
                calls_in_statements(body@, enclosing),
                e,
                name,
                args,
                span,
            );
            assert(calls_in_option(condition, enclosing) + calls_in_statements(body@, enclosing) + e
                =~= calls_in_statement(s, enclosing));
        },
        Statement::SelectCase { selector, cases, else_branch, .. } => {
            if occurs_in_cases(cases@, t) {
                lemma_calls_cases(cases@, enclosing, t, name, args, span);
            } else {
                lemma_calls_else(else_branch, enclosing, t, name, args, span);
            }
            lemma_has_call_sum(
                calls_in_expression(selector, enclosing),
                calls_in_cases(cases@, enclosing),
                calls_in_else(else_branch, enclosing),
                name,
                args,
                span,
            );
        },
        Statement::FunctionDefinition { name: f, body, .. } => {
            lemma_calls_list(body@, Some(f@), t, name, args, span);
        },
        Statement::SubroutineDefinition { name: f, body, .. } => {
            lemma_calls_list(body@, Some(f@), t, name, args, span);
        },
        _ => {},
    }
}

proof fn lemma_calls_else(
    else_branch: Option<Vec<Statement>>,
    enclosing: Option<Seq<char>>,
    t: Statement,
    name: Seq<char>,
    args: Seq<Expression>,
    span: Span,
)
    requires
        occurs_in_else(else_branch, t),
        sites_of_have_call(t, name, args, span),
    ensures
        has_call(calls_in_else(else_branch, enclosing), name, args, span),
    decreases else_branch,
{
    match else_branch {
        Some(b) => lemma_calls_list(b@, enclosing, t, name, args, span),
        None => {},
    }
}

proof fn lemma_calls_cases(
    cases: Seq<CaseClause>,
    enclosing: Option<Seq<char>>,
    t: Statement,
    name: Seq<char>,
    args: Seq<Expression>,
    span: Span,
)
    requires
        occurs_in_cases(cases, t),
        sites_of_have_call(t, name, args, span),
    ensures
        has_call(calls_in_cases(cases, enclosing), name, args, span),
    decreases cases,
{
    let c = cases[cases.len() - 1];
    if occurs_in_cases(cases.drop_last(), t) {
        lemma_calls_cases(cases.drop_last(), enclosing, t, name, args, span);
    } else {
        lemma_calls_list(c.body@, enclosing, t, name, args, span);
    }
    lemma_has_call_sum(
        calls_in_cases(cases.drop_last(), enclosing),
        calls_in_statements(c.body@, enclosing),
        Seq::empty(),
        name,
        args,
        span,
    );
    assert(calls_in_cases(cases.drop_last(), enclosing) + calls_in_statements(c.body@, enclosing)
        + Seq::<CallSiteView>::empty() =~= calls_in_cases(cases, enclosing));
}

proof fn lemma_expression_calls(
    x: Expression,
    enclosing: Option<Seq<char>>,
    name: Seq<char>,
    args: Seq<Expression>,
    span: Span,
)
    requires
        call_within_expression(x, name, args, span),
    ensures
        has_call(calls_in_expression(x, enclosing), name, args, span),
    decreases x,
{
    let e = Seq::<CallSiteView>::empty();
    match x {
        Expression::FunctionCall { name: n, arguments: a, span: sp } => {
            let own = seq![CallSiteView { enclosing, name: n@, arguments: a@, span: sp }];
            if !(n@ == name && a@ == args && sp == span) {
                lemma_expressions_calls(a@, enclosing, name, args, span);
            } else {
                assert(own[0].name == name);
            }
            lemma_has_call_sum(own, calls_in_expressions(a@, enclosing), e, name, args, span);
            assert(own + calls_in_expressions(a@, enclosing) + e =~= calls_in_expression(x, enclosing));
        },
        Expression::BinaryOp { left, right, .. } => {
            if call_within_expression(*left, name, args, span) {
                lemma_expression_calls(*left, enclosing, name, args, span);
            } else {
                lemma_expression_calls(*right, enclosing, name, args, span);
            }
            lemma_has_call_sum(
                calls_in_expression(*left, enclosing),
                calls_in_expression(*right, enclosing),
                e,
                name,
                args,
                span,
            );
            assert(calls_in_expression(*left, enclosing) + calls_in_expression(*right, enclosing) + e
                =~= calls_in_expression(x, enclosing));
        },
        Expression::UnaryOp { operand, .. } => {
            lemma_expression_calls(*operand, enclosing, name, args, span);
        },
        Expression::ArrayAccess { array, index, .. } => {
            if call_within_expression(*array, name, args, span) {
                lemma_expression_calls(*array, enclosing, name, args, span);
            } else {
                lemma_expression_calls(*index, enclosing, name, args, span);
            }
            lemma_has_call_sum(
                calls_in_expression(*array, enclosing),
                calls_in_expression(*index, enclosing),
                e,
                name,
                args,
                span,
            );
            assert(calls_in_expression(*array, enclosing) + calls_in_expression(*index, enclosing) + e
                =~= calls_in_expression(x, enclosing));
        },
        _ => {},
    }
}

proof fn lemma_expressions_calls(
    xs: Seq<Expression>,
    enclosing: Option<Seq<char>>,
    name: Seq<char>,
    args: Seq<Expression>,
    span: Span,
)
    requires
        call_within_expressions(xs, name, args, span),
    ensures
        has_call(calls_in_expressions(xs, enclosing), name, args, span),
    decreases xs,
{
    let last = xs[xs.len() - 1];
    if call_within_expressions(xs.drop_last(), name, args, span) {
        lemma_expressions_calls(xs.drop_last(), enclosing, name, args, span);
    } else {
        lemma_expression_calls(last, enclosing, name, args, span);
    }
    lemma_has_call_sum(
        calls_in_expressions(xs.drop_last(), enclosing),
        calls_in_expression(last, enclosing),
        Seq::empty(),
        name,
        args,
        span,
    );
    assert(calls_in_expressions(xs.drop_last(), enclosing) + calls_in_expression(last, enclosing)
        + Seq::<CallSiteView>::empty() =~= calls_in_expressions(xs, enclosing));
}

proof fn lemma_option_calls(
    o: Option<Expression>,
    enclosing: Option<Seq<char>>,
    name: Seq<char>,
    args: Seq<Expression>,
    span: Span,
)
    requires
        o matches Some(x) && call_within_expression(x, name, args, span),
    ensures
        has_call(calls_in_option(o, enclosing), name, args, span),
{
    lemma_expression_calls(o->0, enclosing, name, args, span);
}

proof fn lemma_within_split(a: Seq<Expression>, b: Seq<Expression>, name: Seq<char>, args: Seq<Expression>, span: Span)
    requires
        call_within_expressions(a + b, name, args, span),
    ensures
        call_within_expressions(a, name, args, span) || call_within_expressions(b, name, args, span),
    decreases b.len(),
{
    if b.len() > 0 {
        assert((a + b).drop_last() =~= a + b.drop_last());
        assert((a + b)[(a + b).len() - 1] == b[b.len() - 1]);
        if call_within_expressions(a + b.drop_last(), name, args, span) {
            lemma_within_split(a, b.drop_last(), name, args, span);
        }
    } else {
        assert(a + b =~= a);
    }
}

proof fn lemma_within_single(x: Expression, name: Seq<char>, args: Seq<Expression>, span: Span)
    requires
        call_within_expressions(seq![x], name, args, span),
    ensures
        call_within_expression(x, name, args, span),
{
    reveal_with_fuel(call_within_expressions, 2);
    assert(seq![x].drop_last() =~= Seq::<Expression>::empty());
    assert(seq![x][0] == x);
}

proof fn lemma_own_expression_calls(
    t: Statement,
    enclosing: Option<Seq<char>>,
    name: Seq<char>,
    args: Seq<Expression>,
    span: Span,
)
    requires
        call_within_expressions(statement_expressions(t), name, args, span),
    ensures
        has_call(calls_in_statement(t, enclosing), name, args, span),
{
    let e = Seq::<CallSiteView>::empty();
    let xs = statement_expressions(t);
    match t {
        Statement::VarDeclaration { array_dimensions, initializer, .. } => {
            let dims = match array_dimensions {
                Some(d) => d@,
                None => Seq::<Expression>::empty(),
            };
            let init = match initializer {
                Some(x) => seq![x],
                None => Seq::<Expression>::empty(),
            };
            lemma_within_split(dims, init, name, args, span);
            let dcalls = match array_dimensions {
                Some(d) => calls_in_expressions(d@, enclosing),
                None => Seq::empty(),
            };
            if call_within_expressions(dims, name, args, span) {
                lemma_expressions_calls(dims, enclosing, name, args, span);
            } else {
                lemma_within_single(initializer->0, name, args, span);
                lemma_option_calls(initializer, enclosing, name, args, span);
            }
            lemma_has_call_sum(dcalls, calls_in_option(initializer, enclosing), e, name, args, span);
            assert(dcalls + calls_in_option(initializer, enclosing) + e =~= calls_in_statement(
                t,
                enclosing,
            ));
        },
        Statement::Assignment { target, value, .. } => {
            let idx = match target {
                AssignmentTarget::ArrayElement { indices, .. } => indices@,
                _ => Seq::<Expression>::empty(),
            };
            let icalls = match target {
                AssignmentTarget::ArrayElement { indices, .. } => calls_in_expressions(
                    indices@,
                    enclosing,
                ),
                _ => Seq::empty(),
            };
            assert(xs.drop_last() =~= idx);
            if call_within_expressions(idx, name, args, span) {
                lemma_expressions_calls(idx, enclosing, name, args, span);
            } else {
                lemma_expression_calls(value, enclosing, name, args, span);
            }
            lemma_has_call_sum(icalls, calls_in_expression(value, enclosing), e, name, args, span);
            assert(icalls + calls_in_expression(value, enclosing) + e =~= calls_in_statement(
                t,
                enclosing,
            ));
        },
        Statement::IfStatement { condition, then_branch, else_branch, .. } => {
            lemma_within_single(condition, name, args, span);
            lemma_expression_calls(condition, enclosing, name, args, span);
            lemma_has_call_sum(
                calls_in_expression(condition, enclosing),
                calls_in_statements(then_branch@, enclosing),
                calls_in_else(else_branch, enclosing),
                name,
                args,
                span,
            );
        },
        Statement::PreprocessorConditional { condition, then_branch, else_branch, .. } => {
            lemma_within_single(condition, name, args, span);
            lemma_expression_calls(condition, enclosing, name, args, span);
            lemma_has_call_sum(
                calls_in_expression(condition, enclosing),
                calls_in_statements(then_branch@, enclosing),
                calls_in_else(else_branch, enclosing),
                name,
                args,
                span,
            );
        },
        Statement::SelectCase { selector, cases, else_branch, .. } => {
            lemma_within_single(selector, name, args, span);
            lemma_expression_calls(selector, enclosing, name, args, span);
            lemma_has_call_sum(
                calls_in_expression(selector, enclosing),
                calls_in_cases(cases@, enclosing),
                calls_in_else(else_branch, enclosing),
                name,
                args,
                span,
            );
        },
        Statement::ForLoop { start, end, step, body, .. } => {
            let steps = match step {
                Some(x) => seq![x],
                None => Seq::<Expression>::empty(),
            };
            lemma_within_split(seq![start, end], steps, name, args, span);
            let se = calls_in_expression(start, enclosing) + calls_in_expression(end, enclosing);
            if call_within_expressions(seq![start, end], name, args, span) {
                reveal_with_fuel(call_within_expressions, 3);
                assert(seq![start, end].drop_last() =~= seq![start]);
                assert(seq![start].drop_last() =~= Seq::<Expression>::empty());
                assert(seq![start, end][1] == end);
                assert(seq![start][0] == start);
                if call_within_expression(start, name, args, span) {
                    lemma_expression_calls(start, enclosing, name, args, span);
                } else {
                    lemma_expression_calls(end, enclosing, name, args, span);
                }
                lemma_has_call_sum(
                    calls_in_expression(start, enclosing),
                    calls_in_expression(end, enclosing),
                    e,
                    name,
                    args,
                    span,
                );
                assert(se + e =~= se);
            } else {
                lemma_within_single(step->0, name, args, span);
                lemma_option_calls(step, enclosing, name, args, span);
            }
            lemma_has_call_sum(
                se,
                calls_in_option(step, enclosing),
                calls_in_statements(body@, enclosing),
                name,
                args,
                span,
            );
        },
        Statement::DoLoop { condition, body, .. } => {
            lemma_within_single(condition->0, name, args, span);
            lemma_option_calls(condition, enclosing, name, args, span);
            lemma_has_call_sum(
                calls_in_option(condition, enclosing),
                calls_in_statements(body@, enclosing),
                e,
                name,
                args,
                span,
            );
            assert(calls_in_option(condition, enclosing) + calls_in_statements(body@, enclosing) + e
                =~= calls_in_statement(t, enclosing));
        },
        Statement::FunctionCall { name: n, arguments: a, span: sp } => {
            let own = seq![CallSiteView { enclosing, name: n@, arguments: a@, span: sp }];
            lemma_expressions_calls(a@, enclosing, name, args, span);
            lemma_has_call_sum(own, calls_in_expressions(a@, enclosing), e, name, args, span);
            assert(own + calls_in_expressions(a@, enclosing) + e =~= calls_in_statement(t, enclosing));
        },
        Statement::Expression { expression, .. } => {
            lemma_within_single(expression, name, args, span);
            lemma_expression_calls(expression, enclosing, name, args, span);
        },
        Statement::ProgramStructure { arguments, .. } => {
            lemma_expressions_calls(xs, enclosing, name, args, span);
        },
        _ => {},
    }
}

/// Every call statement anywhere in a statement list (at the top level or
/// nested at any depth, inside `If`/`#If` branches and their `Else`, `For`
/// and `Do` bodies, `Select Case` branches or `Function`/`Sub` bodies) is
/// one of the collected call sites, with its name, arguments and span.
pub proof fn every_call_statement_is_a_call_site(
    statements: Seq<Statement>,
    name: String,
    arguments: Vec<Expression>,
    span: Span,
)
    requires
        occurs_in(statements, Statement::FunctionCall { name, arguments, span }),
    ensures
        has_call(calls_in_statements(statements, None), name@, arguments@, span),
{
    let t = Statement::FunctionCall { name, arguments, span };
    assert forall|e: Option<Seq<char>>| #[trigger] has_call(calls_in_statement(t, e), name@, arguments@, span) by {
        assert(calls_in_statement(t, e)[0].name == name@);
    }
    lemma_calls_list(statements, None, t, name@, arguments@, span);
}

/// Every call inside an expression of any statement anywhere in a
/// statement list (an initializer, an assigned value or index, a condition,
/// a loop bound or step, a call or marker argument, an expression
/// statement, a `Select Case` selector; at any depth of operands, call
/// arguments and array parts) is one of the collected call sites, with its
/// name, arguments and span.
pub proof fn every_call_in_an_expression_is_a_call_site(
    statements: Seq<Statement>,
    t: Statement,
    name: Seq<char>,
    arguments: Seq<Expression>,
    span: Span,
)
    requires
        occurs_in(statements, t),
        call_within_expressions(statement_expressions(t), name, arguments, span),
    ensures
        has_call(calls_in_statements(statements, None), name, arguments, span),
{
    assert forall|e: Option<Seq<char>>| #[trigger] has_call(calls_in_statement(t, e), name, arguments, span) by {
        lemma_own_expression_calls(t, e, name, arguments, span);
    }
    lemma_calls_list(statements, None, t, name, arguments, span);
}

/// Collects every function call in `statements`, including calls nested
/// inside expressions, in conditions and selectors, and inside the bodies of
/// `If`, `#If`, `Select Case`, `For`, `Do`, `Function` and `Sub` blocks, in
/// source order.
pub fn collect_call_sites(statements: &Vec<Statement>) -> (r: Vec<CallSite<'_>>)
    ensures
        sites_view(r@) =~= calls_in_statements(statements@, None),
{
    let mut sites = Vec::new();
    walk_statements(statements, None, &mut sites);
    sites
}

fn walk_statements<'a>(
    statements: &'a Vec<Statement>,
    enclosing: Option<&'a str>,
    sites: &mut Vec<CallSite<'a>>,
)
    ensures
        sites_view(final(sites)@) =~= sites_view(old(sites)@) + calls_in_statements(
            statements@,
            match enclosing {
                Some(e) => Some(e@),
                None => None,
            },
        ),
    decreases statements@,
{
    let ghost enc = match enclosing {
        Some(e) => Some(e@),
        None => None,
    };
    let ghost start = sites_view(sites@);
    let mut i: usize = 0;
    while i < statements.len()
        invariant
            i <= statements@.len(),
            enc == match enclosing {
                Some(e) => Some(e@),
                None => None::<Seq<char>>,
            },
            sites_view(sites@) =~= start + calls_in_statements(statements@.take(i as int), enc),
        decreases statements@.len() - i,
    {
        proof {
            assert(statements@.take(i + 1).drop_last() =~= statements@.take(i as int));
        }
        walk_statement(&statements[i], enclosing, sites);
        i += 1;
    }
    proof {
        assert(statements@.take(i as int) =~= statements@);
    }
}

fn walk_statement<'a>(
    statement: &'a Statement,
    enclosing: Option<&'a str>,
    sites: &mut Vec<CallSite<'a>>,
)
    ensures
        sites_view(final(sites)@) =~= sites_view(old(sites)@) + calls_in_statement(
            *statement,
            match enclosing {
                Some(e) => Some(e@),
                None => None,
            },
        ),
    decreases statement,
{
    match statement {
        Statement::VarDeclaration { array_dimensions, initializer, .. } => {
            if let Some(dimensions) = array_dimensions {
                walk_expressions(dimensions, enclosing, sites);
            }
            if let Some(init) = initializer {
                walk_expression(init, enclosing, sites);
            }
        },
        Statement::Assignment { target, value, .. } => {
            if let AssignmentTarget::ArrayElement { indices, .. } = target {
                walk_expressions(indices, enclosing, sites);
            }
            walk_expression(value, enclosing, sites);
        },
        Statement::IfStatement { condition, then_branch, else_branch, .. } => {
            walk_expression(condition, enclosing, sites);
            walk_statements(then_branch, enclosing, sites);
            if let Some(else_stmts) = else_branch {
                walk_statements(else_stmts, enclosing, sites);
            }
        },
        Statement::PreprocessorConditional { condition, then_branch, else_branch, .. } => {
            walk_expression(condition, enclosing, sites);
            walk_statements(then_branch, enclosing, sites);
            if let Some(else_stmts) = else_branch {
                walk_statements(else_stmts, enclosing, sites);
            }
        },
        Statement::SelectCase { selector, cases, else_branch, .. } => {
            walk_expression(selector, enclosing, sites);
            walk_cases(cases, enclosing, sites);
            if let Some(else_stmts) = else_branch {
                walk_statements(else_stmts, enclosing, sites);
            }
        },
        Statement::ForLoop { start, end, step, body, .. } => {
            walk_expression(start, enclosing, sites);
            walk_expression(end, enclosing, sites);
            if let Some(step_expr) = step {
                walk_expression(step_expr, enclosing, sites);
            }
            walk_statements(body, enclosing, sites);
        },
        Statement::DoLoop { condition, body, .. } => {
            if let Some(cond) = condition {
                walk_expression(cond, enclosing, sites);
            }
            walk_statements(body, enclosing, sites);
        },
        Statement::FunctionCall { name, arguments, span } => {
            sites.push(
                CallSite { enclosing, name: name.as_str(), arguments: arguments.as_slice(), span: *span },
            );
            walk_expressions(arguments, enclosing, sites);
        },
        Statement::Expression { expression, .. } => {
            walk_expression(expression, enclosing, sites);
        },
        Statement::ProgramStructure { arguments, .. } => {
            if let Some(args) = arguments {
                walk_expressions(args, enclosing, sites);
            }
        },
        Statement::FunctionDefinition { name, body, .. } => {
            walk_statements(body, Some(name.as_str()), sites);
        },
        Statement::SubroutineDefinition { name, body, .. } => {
            walk_statements(body, Some(name.as_str()), sites);
        },
        _ => {},
    }
}

fn walk_cases<'a>(
    cases: &'a Vec<CaseClause>,
    enclosing: Option<&'a str>,
    sites: &mut Vec<CallSite<'a>>,
)
    ensures
        sites_view(final(sites)@) =~= sites_view(old(sites)@) + calls_in_cases(
            cases@,
            match enclosing {
                Some(e) => Some(e@),
                None => None,
            },
        ),
    decreases cases@,
{
    let ghost enc = match enclosing {
        Some(e) => Some(e@),
        None => None,
    };
    let ghost start = sites_view(sites@);
    let mut i: usize = 0;
    while i < cases.len()
        invariant
            i <= cases@.len(),
            enc == match enclosing {
                Some(e) => Some(e@),
                None => None::<Seq<char>>,
            },
            sites_view(sites@) =~= start + calls_in_cases(cases@.take(i as int), enc),
        decreases cases@.len() - i,
    {
        proof {
            assert(cases@.take(i + 1).drop_last() =~= cases@.take(i as int));
        }
        walk_statements(&cases[i].body, enclosing, sites);
        i += 1;
    }
    proof {
        assert(cases@.take(i as int) =~= cases@);
    }
}

fn walk_expressions<'a>(
    expressions: &'a Vec<Expression>,
    enclosing: Option<&'a str>,
    sites: &mut Vec<CallSite<'a>>,
)
    ensures
        sites_view(final(sites)@) =~= sites_view(old(sites)@) + calls_in_expressions(
            expressions@,
            match enclosing {
                Some(e) => Some(e@),
                None => None,
            },
        ),
    decreases expressions@,
{
    let ghost enc = match enclosing {
        Some(e) => Some(e@),
        None => None,
    };
    let ghost start = sites_view(sites@);
    let mut i: usize = 0;
    while i < expressions.len()
        invariant
            i <= expressions@.len(),
            enc == match enclosing {
                Some(e) => Some(e@),
                None => None::<Seq<char>>,
            },
            sites_view(sites@) =~= start + calls_in_expressions(expressions@.take(i as int), enc),
        decreases expressions@.len() - i,
    {
        proof {
            assert(expressions@.take(i + 1).drop_last() =~= expressions@.take(i as int));
        }
        walk_expression(&expressions[i], enclosing, sites);
        i += 1;
    }
    proof {
        assert(expressions@.take(i as int) =~= expressions@);
    }
}

fn walk_expression<'a>(
    expr: &'a Expression,
    enclosing: Option<&'a str>,
    sites: &mut Vec<CallSite<'a>>,
)
    ensures
        sites_view(final(sites)@) =~= sites_view(old(sites)@) + calls_in_expression(
            *expr,
            match enclosing {
                Some(e) => Some(e@),
                None => None,
            },
        ),
    decreases expr,
{
    match expr {
        Expression::BinaryOp { left, right, .. } => {
            walk_expression(left, enclosing, sites);
            walk_expression(right, enclosing, sites);
        },
        Expression::UnaryOp { operand, .. } => walk_expression(operand, enclosing, sites),
        Expression::FunctionCall { name, arguments, span } => {
            sites.push(
                CallSite { enclosing, name: name.as_str(), arguments: arguments.as_slice(), span: *span },
            );
            walk_expressions(arguments, enclosing, sites);
        },
        Expression::ArrayAccess { array, index, .. } => {
            walk_expression(array, enclosing, sites);
            walk_expression(index, enclosing, sites);
        },
        _ => {},
    }
}

} // verus!

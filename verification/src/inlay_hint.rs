//! Inlay hints: the parameter name shown before each argument of a call to
//! a known function (e.g. `Scan(Interval:1, ...)`), taking the names from
//! the program's own `Function`/`Sub` definitions first, then from the
//! built-in signature table, then from the keyword statements that take
//! their arguments without parentheses (`CallTable TableName`).
use crate::call_sites::{
    collect_call_sites, calls_in_statements, every_call_statement_is_a_call_site, sites_view,
    CallSiteView,
};
use crate::protocol::{
    position_is_before_or_at, position_le, InlayHint, InlayHintKind, InlayHintView,
    Position as LspPosition, Range,
};
use crate::signature::{signature_table, SignatureProvider, SignatureView};
use crate::syntax::{
    expression_span, lsp_position, occurs_in, position_to_lsp, Expression, Program, Span, Statement,
};
use crate::text::{lowercase, owned, str_eq, to_lowercase};
use vstd::prelude::*;

verus! {

/// Provides Inlay Hint functionality.
pub struct InlayHintProvider;

/// The parameter names of the keyword statement called `name` (ignoring
/// case), if it is one that takes its arguments without parentheses.
fn keyword_statement_parameter_names(name: &str) -> (r: Option<Vec<String>>)
    ensures
        match (r, keyword_statement_parameters(lowercase(name@))) {
            (Some(v), Some(p)) => v@.map_values(|s: String| s@) == p,
            (None, None) => true,
            _ => false,
        },
{
    let key = to_lowercase(name);
    proof {
        reveal_strlit("calltable");
        reveal_strlit("TableName");
    }
    if str_eq(key.as_str(), "calltable") {
        let names = vec![owned("TableName")];
        proof {
            assert(names@.map_values(|s: String| s@) =~= seq!["TableName"@]);
        }
        Some(names)
    } else {
        None
    }
}

/// The parameter names of a signature, in order.
pub open spec fn parameter_names(sig: SignatureView) -> Seq<Seq<char>> {
    sig.parameters.map_values(|p: crate::signature::ParameterView| p.name)
}

/// The plain value of a table of user-defined parameter lists.
pub open spec fn table_view(table: Seq<(String, Vec<String>)>) -> Seq<(Seq<char>, Seq<Seq<char>>)> {
    table.map_values(|e: (String, Vec<String>)| (e.0@, e.1@.map_values(|p: String| p@)))
}

/// The parameter names the table holds for `name`: those of its last
/// definition.
pub open spec fn user_parameters(table: Seq<(Seq<char>, Seq<Seq<char>>)>, name: Seq<char>) -> Option<
    Seq<Seq<char>>,
>
    decreases table.len(),
{
    if table.len() == 0 {
        None
    } else if table.last().0 == name {
        Some(table.last().1)
    } else {
        user_parameters(table.drop_last(), name)
    }
}

/// The parameters of the keyword statements that take their arguments
/// without parentheses, by lowercase name: `CallTable TableName`.
pub open spec fn keyword_statement_parameters(key: Seq<char>) -> Option<Seq<Seq<char>>> {
    if key == "calltable"@ {
        Some(seq!["TableName"@])
    } else {
        None
    }
}

/// The parameter names of a called function: a user definition first (by
/// exact name), then the built-in signature, then a keyword statement (both
/// by name, ignoring case).
pub open spec fn resolved_parameters(table: Seq<(Seq<char>, Seq<Seq<char>>)>, name: Seq<char>) -> Option<
    Seq<Seq<char>>,
> {
    match user_parameters(table, name) {
        Some(p) => Some(p),
        None => match signature_table(lowercase(name)) {
            Some(sig) => Some(parameter_names(sig)),
            None => keyword_statement_parameters(lowercase(name)),
        },
    }
}

/// The `Function`/`Sub` definitions among the top-level statements, in
/// order, with their parameter names.
pub open spec fn user_definitions(stmts: Seq<Statement>) -> Seq<(Seq<char>, Seq<Seq<char>>)>
    decreases stmts.len(),
{
    if stmts.len() == 0 {
        Seq::empty()
    } else {
        user_definitions(stmts.drop_last()) + match stmts.last() {
            Statement::FunctionDefinition { name, parameters, .. } => seq![
                (name@, parameters@.map_values(|p: String| p@)),
            ],
            Statement::SubroutineDefinition { name, parameters, .. } => seq![
                (name@, parameters@.map_values(|p: String| p@)),
            ],
            _ => Seq::empty(),
        }
    }
}

/// The hint for one argument.
pub open spec fn hint_for(parameter: Seq<char>, argument: Expression) -> InlayHintView {
    InlayHintView {
        position: lsp_position(expression_span(argument).start),
        label: parameter + ":"@,
        kind: Some(InlayHintKind::Parameter),
        padding_left: Some(false),
        padding_right: Some(true),
    }
}

/// The hints of one call: each argument paired with its parameter, as far
/// as both go.
pub open spec fn call_hints(parameters: Seq<Seq<char>>, arguments: Seq<Expression>) -> Seq<
    InlayHintView,
> {
    let n = if parameters.len() < arguments.len() {
        parameters.len()
    } else {
        arguments.len()
    };
    Seq::new(n, |i: int| hint_for(parameters[i], arguments[i]))
}

/// The hints of the call sites, in order; calls of unknown functions give none.
pub open spec fn sites_hints(table: Seq<(Seq<char>, Seq<Seq<char>>)>, sites: Seq<CallSiteView>) -> Seq<
    InlayHintView,
>
    decreases sites.len(),
{
    if sites.len() == 0 {
        Seq::empty()
    } else {
        sites_hints(table, sites.drop_last()) + match resolved_parameters(table, sites.last().name) {
            Some(p) => call_hints(p, sites.last().arguments),
            None => Seq::empty(),
        }
    }
}

/// Whether `position` lies in `range`, both ends included.
pub open spec fn within(position: LspPosition, range: Range) -> bool {
    position_le(range.start, position) && position_le(position, range.end)
}

/// The hints whose position lies in `range`, in order.
pub open spec fn hints_within(hints: Seq<InlayHintView>, range: Range) -> Seq<InlayHintView>
    decreases hints.len(),
{
    if hints.len() == 0 {
        Seq::empty()
    } else if within(hints.last().position, range) {
        hints_within(hints.drop_last(), range).push(hints.last())
    } else {
        hints_within(hints.drop_last(), range)
    }
}

/// Every hint kept lies within the requested range.
pub proof fn hints_lie_within_the_range(hints: Seq<InlayHintView>, range: Range)
    ensures
        forall|i: int|
            0 <= i < hints_within(hints, range).len() ==> within(
                (#[trigger] hints_within(hints, range)[i]).position,
                range,
            ),
    decreases hints.len(),
{
    if hints.len() > 0 {
        hints_lie_within_the_range(hints.drop_last(), range);
    }
}

/// The inlay hints of a program within `range`.
pub open spec fn program_hints(program: Program, range: Range) -> Seq<InlayHintView> {
    hints_within(
        sites_hints(
            user_definitions(program.statements@),
            calls_in_statements(program.statements@, None),
        ),
        range,
    )
}

/// The plain values of a list of hints.
pub open spec fn hints_view(hints: Seq<InlayHint>) -> Seq<InlayHintView> {
    hints.map_values(|h: InlayHint| h@)
}

fn copy_strings(v: &Vec<String>) -> (r: Vec<String>)
    ensures
        r@.map_values(|p: String| p@) == v@.map_values(|p: String| p@),
{
    let mut r: Vec<String> = Vec::new();
    let mut i: usize = 0;
    while i < v.len()
        invariant
            i <= v@.len(),
            r@.len() == i,
            forall|k: int| 0 <= k < i ==> (#[trigger] r@[k])@ == v@[k]@,
        decreases v@.len() - i,
    {
        r.push(owned(v[i].as_str()));
        i += 1;
    }
    proof {
        assert(r@.map_values(|p: String| p@) =~= v@.map_values(|p: String| p@));
    }
    r
}

impl InlayHintProvider {
    /// Builds a parameter-name hint for every argument of a call to a known
    /// function whose position falls within `range`.
    pub fn get_inlay_hints(program: &Program, range: Range) -> (r: Vec<InlayHint>)
        ensures
            hints_view(r@) == program_hints(*program, range),
    {
        let user_defined = Self::collect_user_defined_parameters(&program.statements);
        let sites = collect_call_sites(&program.statements);
        let ghost table = user_definitions(program.statements@);
        let ghost all_sites = calls_in_statements(program.statements@, None);
        let mut result: Vec<InlayHint> = Vec::new();
        let mut i: usize = 0;
        while i < sites.len()
            invariant
                i <= sites@.len(),
                table_view(user_defined@) == table,
                table == user_definitions(program.statements@),
                sites_view(sites@) == all_sites,
                hints_view(result@) == hints_within(
                    sites_hints(table, all_sites.take(i as int)),
                    range,
                ),
            decreases sites@.len() - i,
        {
            proof {
                assert(all_sites.take(i + 1).drop_last() =~= all_sites.take(i as int));
                assert(all_sites.take(i + 1).last() == sites@[i as int]@);
            }
            let site = sites[i];
            if let Some(parameters) = Self::resolve_parameter_names(site.name, &user_defined) {
                let hints = Self::hints_for_call(&parameters, site.arguments);
                let ghost before = hints_view(result@);
                let ghost prefix = sites_hints(table, all_sites.take(i as int));
                let ghost added = hints_view(hints@);
                let mut j: usize = 0;
                while j < hints.len()
                    invariant
                        j <= hints@.len(),
                        added == hints_view(hints@),
                        before == hints_within(prefix, range),
                        hints_view(result@) == hints_within(prefix + added.take(j as int), range),
                    decreases hints@.len() - j,
                {
                    proof {
                        assert((prefix + added.take(j + 1)).drop_last() =~= prefix + added.take(
                            j as int,
                        ));
                        assert((prefix + added.take(j + 1)).last() == hints@[j as int]@);
                    }
                    if Self::within_range(hints[j].position, range) {
                        let h = InlayHint {
                            position: hints[j].position,
                            label: owned(hints[j].label.as_str()),
                            kind: hints[j].kind,
                            padding_left: hints[j].padding_left,
                            padding_right: hints[j].padding_right,
                        };
                        result.push(h);
                        proof {
                            assert(hints_view(result@) =~= hints_view(result@.drop_last()).push(
                                h@,
                            ));
                        }
                    }
                    j += 1;
                }
                proof {
                    assert(added.take(j as int) =~= added);
                }
            } else {
                proof {
                    assert(sites_hints(table, all_sites.take(i + 1)) =~= sites_hints(
                        table,
                        all_sites.take(i as int),
                    ));
                }
            }
            i += 1;
        }
        proof {
            assert(all_sites.take(i as int) =~= all_sites);
        }
        result
    }

    /// The ordered parameter names of a called function: those of the
    /// program's own `Function`/`Sub` of that name first, then those of the
    /// built-in signature.
    pub fn resolve_parameter_names(name: &str, user_defined: &Vec<(String, Vec<String>)>) -> (r:
        Option<Vec<String>>)
        ensures
            match (r, resolved_parameters(table_view(user_defined@), name@)) {
                (Some(v), Some(p)) => v@.map_values(|s: String| s@) == p,
                (None, None) => true,
                _ => false,
            },
    {
        let ghost table = table_view(user_defined@);
        proof {
            assert(table.take(table.len() as int) =~= table);
        }
        let mut i: usize = user_defined.len();
        while i > 0
            invariant
                i <= user_defined@.len(),
                table == table_view(user_defined@),
                user_parameters(table, name@) == user_parameters(table.take(i as int), name@),
            decreases i,
        {
            proof {
                assert(table.take(i as int).drop_last() =~= table.take(i - 1));
            }
            if str_eq(user_defined[i - 1].0.as_str(), name) {
                return Some(copy_strings(&user_defined[i - 1].1));
            }
            i -= 1;
        }
        match SignatureProvider::get_function_signature(name) {
            Some(signature) => {
                let mut names: Vec<String> = Vec::new();
                let mut k: usize = 0;
                while k < signature.parameters.len()
                    invariant
                        k <= signature.parameters@.len(),
                        names@.len() == k,
                        forall|m: int|
                            0 <= m < k ==> (#[trigger] names@[m])@
                                == signature.parameters@[m].name@,
                    decreases signature.parameters@.len() - k,
                {
                    names.push(owned(signature.parameters[k].name.as_str()));
                    k += 1;
                }
                proof {
                    assert(names@.map_values(|s: String| s@) =~= parameter_names(signature@));
                }
                Some(names)
            },
            None => keyword_statement_parameter_names(name),
        }
    }

    /// Pairs each argument with its parameter name, dropping arguments past
    /// the last known parameter.
    fn hints_for_call(parameter_names: &Vec<String>, arguments: &[Expression]) -> (r: Vec<
        InlayHint,
    >)
        ensures
            hints_view(r@) == call_hints(parameter_names@.map_values(|p: String| p@), arguments@),
    {
        let ghost names = parameter_names@.map_values(|p: String| p@);
        let mut hints: Vec<InlayHint> = Vec::new();
        let mut i: usize = 0;
        while i < parameter_names.len() && i < arguments.len()
            invariant
                i <= parameter_names@.len(),
                i <= arguments@.len(),
                names == parameter_names@.map_values(|p: String| p@),
                hints@.len() == i,
                forall|k: int|
                    0 <= k < i ==> (#[trigger] hints@[k])@ == hint_for(names[k], arguments@[k]),
            decreases parameter_names@.len() - i,
        {
            let mut label = owned(parameter_names[i].as_str());
            label.append(":");
            let h = InlayHint {
                position: position_to_lsp(arguments[i].span().start),
                label,
                kind: Some(InlayHintKind::Parameter),
                padding_left: Some(false),
                padding_right: Some(true),
            };
            hints.push(h);
            i += 1;
        }
        proof {
            assert(hints_view(hints@) =~= call_hints(names, arguments@));
        }
        hints
    }

    /// Whether `position` lies in `range`, both ends included.
    fn within_range(position: LspPosition, range: Range) -> (r: bool)
        ensures
            r == within(position, range),
    {
        position_is_before_or_at(range.start, position) && position_is_before_or_at(
            position,
            range.end,
        )
    }

    /// The parameter names of every top-level `Function`/`Sub`, in order.
    fn collect_user_defined_parameters(statements: &Vec<Statement>) -> (r: Vec<
        (String, Vec<String>),
    >)
        ensures
            table_view(r@) == user_definitions(statements@),
    {
        let mut table: Vec<(String, Vec<String>)> = Vec::new();
        let mut i: usize = 0;
        while i < statements.len()
            invariant
                i <= statements@.len(),
                table_view(table@) == user_definitions(statements@.take(i as int)),
            decreases statements@.len() - i,
        {
            proof {
                assert(statements@.take(i + 1).drop_last() =~= statements@.take(i as int));
                assert(statements@.take(i + 1).last() == statements@[i as int]);
            }
            match &statements[i] {
                Statement::FunctionDefinition { name, parameters, .. } => {
                    table.push((owned(name.as_str()), copy_strings(parameters)));
                    proof {
                        assert(table_view(table@) =~= user_definitions(statements@.take(i + 1)));
                    }
                },
                Statement::SubroutineDefinition { name, parameters, .. } => {
                    table.push((owned(name.as_str()), copy_strings(parameters)));
                    proof {
                        assert(table_view(table@) =~= user_definitions(statements@.take(i + 1)));
                    }
                },
                _ => {
                    proof {
                        assert(table_view(table@) =~= user_definitions(statements@.take(i + 1)));
                    }
                },
            }
            i += 1;
        }
        proof {
            assert(statements@.take(i as int) =~= statements@);
        }
        table
    }
}

proof fn lemma_hint_of_site(
    table: Seq<(Seq<char>, Seq<Seq<char>>)>,
    sites: Seq<CallSiteView>,
    k: int,
    parameters: Seq<Seq<char>>,
    i: int,
)
    requires
        0 <= k < sites.len(),
        resolved_parameters(table, sites[k].name) == Some(parameters),
        0 <= i < parameters.len(),
        i < sites[k].arguments.len(),
    ensures
        sites_hints(table, sites).contains(hint_for(parameters[i], sites[k].arguments[i])),
    decreases sites.len(),
{
    let prev = sites_hints(table, sites.drop_last());
    let h = hint_for(parameters[i], sites[k].arguments[i]);
    if k < sites.len() - 1 {
        lemma_hint_of_site(table, sites.drop_last(), k, parameters, i);
        assert(sites.drop_last()[k] == sites[k]);
        let j = choose|j: int| 0 <= j < prev.len() && prev[j] == h;
        assert(sites_hints(table, sites)[j] == h);
    } else {
        let added = call_hints(parameters, sites.last().arguments);
        assert(added[i] == h);
        assert(sites_hints(table, sites)[prev.len() + i] == h);
    }
}

proof fn lemma_kept_within(hints: Seq<InlayHintView>, range: Range, h: InlayHintView)
    requires
        hints.contains(h),
        within(h.position, range),
    ensures
        hints_within(hints, range).contains(h),
    decreases hints.len(),
{
    if hints.last() == h {
        assert(hints_within(hints, range).last() == h);
    } else {
        let j = choose|j: int| 0 <= j < hints.len() && hints[j] == h;
        assert(hints.drop_last()[j] == h);
        lemma_kept_within(hints.drop_last(), range, h);
        let k = choose|k: int|
            0 <= k < hints_within(hints.drop_last(), range).len() && hints_within(
                hints.drop_last(),
                range,
            )[k] == h;
        assert(hints_within(hints, range)[k] == h);
    }
}

/// Every argument of a call of a known function anywhere in the program
/// (at the top level or nested at any depth, in loop bodies, branches,
/// `Select Case` branches or `Function`/`Sub` bodies) that has a
/// corresponding parameter gets a hint naming that parameter at the
/// argument's start, when that start lies in the requested range.
pub proof fn every_known_call_gets_its_hints(
    program: Program,
    range: Range,
    name: String,
    arguments: Vec<Expression>,
    span: Span,
    parameters: Seq<Seq<char>>,
    i: int,
)
    requires
        occurs_in(program.statements@, Statement::FunctionCall { name, arguments, span }),
        resolved_parameters(user_definitions(program.statements@), name@) == Some(parameters),
        0 <= i < parameters.len(),
        i < arguments@.len(),
        within(lsp_position(expression_span(arguments@[i]).start), range),
    ensures
        program_hints(program, range).contains(
            InlayHintView {
                position: lsp_position(expression_span(arguments@[i]).start),
                label: parameters[i] + ":"@,
                kind: Some(InlayHintKind::Parameter),
                padding_left: Some(false),
                padding_right: Some(true),
            },
        ),
{
    let sites = calls_in_statements(program.statements@, None);
    let table = user_definitions(program.statements@);
    every_call_statement_is_a_call_site(program.statements@, name, arguments, span);
    let k = choose|k: int|
        0 <= k < sites.len() && (#[trigger] sites[k]).name == name@ && sites[k].arguments
            == arguments@ && sites[k].span == span;
    lemma_hint_of_site(table, sites, k, parameters, i);
    lemma_kept_within(sites_hints(table, sites), range, hint_for(parameters[i], arguments@[i]));
}

} // verus!

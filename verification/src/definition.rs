//! Go to definition: the declarations of a program, by name, and the
//! declaration of the identifier under the cursor.
use crate::protocol::{Location, Position};
use crate::syntax::{
    declared_name, identifier_at, identifier_name_at, occurs_in, occurs_in_cases, occurs_within, lsp_range, span_to_range, CaseClause, Program, Span,
    Statement, Token,
};
use crate::text::{owned, str_eq};
use vstd::prelude::*;

verus! {

/// What a declared symbol is.
#[derive(Debug, Clone, Copy, PartialEq, Eq)]
pub enum SymbolKind {
    /// Variable symbol
    Variable,
    /// Function symbol
    Function,
    /// Subroutine symbol
    Subroutine,
}

/// A declared symbol and where it is declared.
#[derive(Debug, Clone, PartialEq, Eq)]
pub struct SymbolDefinition {
    /// The symbol name
    pub name: String,
    /// The kind of symbol
    pub kind: SymbolKind,
    /// The source code location of the declaration
    pub span: Span,
}

/// The value of a `SymbolDefinition`.
pub struct DefinitionView {
    pub name: Seq<char>,
    pub kind: SymbolKind,
    pub span: Span,
}

impl View for SymbolDefinition {
    type V = DefinitionView;

    open spec fn view(&self) -> DefinitionView {
        DefinitionView { name: self.name@, kind: self.kind, span: self.span }
    }
}

/// Symbol definitions by name; inserting a name again replaces its definition.
#[derive(Debug)]
pub struct DefinitionMap {
    entries: Vec<(String, SymbolDefinition)>,
}

/// The map that `entries` stand for, later entries replacing earlier ones.
pub open spec fn entries_map(entries: Seq<(String, SymbolDefinition)>) -> Map<
    Seq<char>,
    DefinitionView,
>
    decreases entries.len(),
{
    if entries.len() == 0 {
        Map::empty()
    } else {
        entries_map(entries.drop_last()).insert(entries.last().0@, entries.last().1@)
    }
}

/// Whether no two entries share a key.
pub open spec fn distinct_keys(entries: Seq<(String, SymbolDefinition)>) -> bool {
    forall|i: int, j: int|
        0 <= i < entries.len() && 0 <= j < entries.len() && i != j ==> entries[i].0@
            != entries[j].0@
}

proof fn lemma_entries_map_lookup(entries: Seq<(String, SymbolDefinition)>, i: int)
    requires
        distinct_keys(entries),
        0 <= i < entries.len(),
    ensures
        entries_map(entries).contains_key(entries[i].0@),
        entries_map(entries)[entries[i].0@] == entries[i].1@,
    decreases entries.len(),
{
    if i < entries.len() - 1 {
        lemma_entries_map_lookup(entries.drop_last(), i);
    }
}

proof fn lemma_entries_map_domain(entries: Seq<(String, SymbolDefinition)>, k: Seq<char>)
    ensures
        entries_map(entries).contains_key(k) <==> exists|i: int|
            0 <= i < entries.len() && entries[i].0@ == k,
    decreases entries.len(),
{
    if entries.len() > 0 {
        lemma_entries_map_domain(entries.drop_last(), k);
        if entries_map(entries.drop_last()).contains_key(k) {
            let i = choose|i: int|
                0 <= i < entries.drop_last().len() && entries.drop_last()[i].0@ == k;
            assert(entries[i].0@ == k);
        }
        if exists|i: int| 0 <= i < entries.len() && entries[i].0@ == k {
            let i = choose|i: int| 0 <= i < entries.len() && entries[i].0@ == k;
            if i < entries.len() - 1 {
                assert(entries.drop_last()[i].0@ == k);
            }
        }
    }
}

proof fn lemma_entries_map_update(
    entries: Seq<(String, SymbolDefinition)>,
    j: int,
    e: (String, SymbolDefinition),
)
    requires
        distinct_keys(entries),
        0 <= j < entries.len(),
        entries[j].0@ == e.0@,
    ensures
        entries_map(entries.update(j, e)) =~= entries_map(entries).insert(e.0@, e.1@),
    decreases entries.len(),
{
    let n = entries.len();
    if j == n - 1 {
        assert(entries.update(j, e).drop_last() =~= entries.drop_last());
    } else {
        assert(entries.update(j, e).drop_last() =~= entries.drop_last().update(j, e));
        lemma_entries_map_update(entries.drop_last(), j, e);
        assert(entries.last().0@ != e.0@);
    }
}

proof fn lemma_entries_map_len(entries: Seq<(String, SymbolDefinition)>)
    requires
        distinct_keys(entries),
    ensures
        entries_map(entries).dom().finite(),
        entries_map(entries).len() == entries.len(),
    decreases entries.len(),
{
    if entries.len() > 0 {
        lemma_entries_map_len(entries.drop_last());
        lemma_entries_map_domain(entries.drop_last(), entries.last().0@);
    }
}

impl View for DefinitionMap {
    type V = Map<Seq<char>, DefinitionView>;

    closed spec fn view(&self) -> Map<Seq<char>, DefinitionView> {
        entries_map(self.entries@)
    }
}

impl DefinitionMap {
    /// The map's invariant: no name is held twice.
    pub closed spec fn wf(&self) -> bool {
        distinct_keys(self.entries@)
    }

    /// The definitions, in the order their names were first inserted.
    pub closed spec fn definitions(&self) -> Seq<SymbolDefinition> {
        self.entries@.map_values(|e: (String, SymbolDefinition)| e.1)
    }

    /// An empty map.
    pub fn new() -> (r: DefinitionMap)
        ensures
            r.wf(),
            r@ == Map::<Seq<char>, DefinitionView>::empty(),
    {
        DefinitionMap { entries: Vec::new() }
    }

    /// The number of names in the map.
    pub fn len(&self) -> (r: usize)
        requires
            self.wf(),
        ensures
            r == self@.len(),
    {
        proof {
            lemma_entries_map_len(self.entries@);
        }
        self.entries.len()
    }

    /// Finds the index of `name`.
    fn position(&self, name: &str) -> (r: Option<usize>)
        requires
            self.wf(),
        ensures
            match r {
                Some(i) => i < self.entries@.len() && self.entries@[i as int].0@ == name@,
                None => !self@.contains_key(name@),
            },
    {
        let mut i: usize = 0;
        while i < self.entries.len()
            invariant
                i <= self.entries@.len(),
                forall|j: int| 0 <= j < i ==> self.entries@[j].0@ != name@,
            decreases self.entries@.len() - i,
        {
            if str_eq(self.entries[i].0.as_str(), name) {
                return Some(i);
            }
            i += 1;
        }
        proof {
            lemma_entries_map_domain(self.entries@, name@);
        }
        None
    }

    /// The definition held for `name`, if any.
    pub fn get(&self, name: &str) -> (r: Option<&SymbolDefinition>)
        requires
            self.wf(),
        ensures
            match r {
                Some(d) => self@.contains_key(name@) && self@[name@] == d@,
                None => !self@.contains_key(name@),
            },
    {
        match self.position(name) {
            Some(i) => {
                proof {
                    lemma_entries_map_lookup(self.entries@, i as int);
                }
                Some(&self.entries[i].1)
            },
            None => None,
        }
    }

    /// Whether `name` is in the map.
    pub fn contains_key(&self, name: &str) -> (r: bool)
        requires
            self.wf(),
        ensures
            r == self@.contains_key(name@),
    {
        self.get(name).is_some()
    }

    /// Holds `definition` under `name`, replacing what `name` held.
    pub fn insert(&mut self, name: String, definition: SymbolDefinition)
        requires
            old(self).wf(),
        ensures
            final(self).wf(),
            final(self)@ == old(self)@.insert(name@, definition@),
    {
        let ghost before = self.entries@;
        match self.position(name.as_str()) {
            Some(i) => {
                proof {
                    lemma_entries_map_update(self.entries@, i as int, (name, definition));
                }
                self.entries.set(i, (name, definition));
                assert(self.entries@ == before.update(i as int, (name, definition)));
            },
            None => {
                proof {
                    lemma_entries_map_domain(self.entries@, name@);
                }
                self.entries.push((name, definition));
                assert(self.entries@.drop_last() =~= before);
            },
        }
    }

    /// The names held, in the order they were first inserted.
    pub closed spec fn keys(&self) -> Seq<Seq<char>> {
        self.entries@.map_values(|e: (String, SymbolDefinition)| e.0@)
    }

    /// The held definitions are the map's values, one for each name held.
    pub proof fn lemma_definitions(&self)
        requires
            self.wf(),
        ensures
            self.definitions().len() == self@.len(),
            self.keys().len() == self@.len(),
            forall|i: int|
                0 <= i < self.keys().len() ==> self@.contains_key(#[trigger] self.keys()[i])
                    && self@[self.keys()[i]] == self.definitions()[i]@,
            forall|i: int, j: int|
                0 <= i < j < self.keys().len() ==> #[trigger] self.keys()[i] != #[trigger] self.keys()[j],
    {
        lemma_entries_map_len(self.entries@);
        assert forall|i: int| 0 <= i < self.keys().len() implies self@.contains_key(
            #[trigger] self.keys()[i],
        ) && self@[self.keys()[i]] == self.definitions()[i]@ by {
            lemma_entries_map_lookup(self.entries@, i);
        }
    }

    /// The held definitions, in the order their names were first inserted.
    pub fn values(&self) -> (r: Vec<&SymbolDefinition>)
        requires
            self.wf(),
        ensures
            r@.len() == self.definitions().len(),
            forall|i: int| 0 <= i < r@.len() ==> *#[trigger] r@[i] == self.definitions()[i],
    {
        let mut r: Vec<&SymbolDefinition> = Vec::new();
        let mut i: usize = 0;
        while i < self.entries.len()
            invariant
                i <= self.entries@.len(),
                r@.len() == i,
                forall|j: int| 0 <= j < i ==> *#[trigger] r@[j] == self.entries@[j].1,
            decreases self.entries@.len() - i,
        {
            r.push(&self.entries[i].1);
            i += 1;
        }
        r
    }
}

/// The definition a statement itself declares, if any.
pub open spec fn declared(s: Statement) -> Option<DefinitionView> {
    match s {
        Statement::VarDeclaration { name, span, .. } => Some(
            DefinitionView { name: name@, kind: SymbolKind::Variable, span },
        ),
        Statement::FunctionDefinition { name, span, .. } => Some(
            DefinitionView { name: name@, kind: SymbolKind::Function, span },
        ),
        Statement::SubroutineDefinition { name, span, .. } => Some(
            DefinitionView { name: name@, kind: SymbolKind::Subroutine, span },
        ),
        _ => None,
    }
}

/// `m` with the declarations of `statements` inserted, in source order,
/// descending into block bodies.
pub open spec fn collect_definitions(
    statements: Seq<Statement>,
    m: Map<Seq<char>, DefinitionView>,
) -> Map<Seq<char>, DefinitionView>
    decreases statements,
{
    if statements.len() == 0 {
        m
    } else {
        collect_statement(
            statements[statements.len() - 1],
            collect_definitions(statements.drop_last(), m),
        )
    }
}

/// `m` with the declarations of the `Case` bodies inserted, in order.
pub open spec fn collect_cases(cases: Seq<CaseClause>, m: Map<Seq<char>, DefinitionView>) -> Map<
    Seq<char>,
    DefinitionView,
>
    decreases cases,
{
    if cases.len() == 0 {
        m
    } else {
        collect_definitions(
            cases[cases.len() - 1].body@,
            collect_cases(cases.drop_last(), m),
        )
    }
}

/// `m` with the declarations of one statement inserted: its own, then
/// those of its bodies.
pub open spec fn collect_statement(s: Statement, m: Map<Seq<char>, DefinitionView>) -> Map<
    Seq<char>,
    DefinitionView,
>
    decreases s,
{
    match s {
        Statement::VarDeclaration { name, span, .. } => m.insert(
            name@,
            DefinitionView { name: name@, kind: SymbolKind::Variable, span },
        ),
        Statement::FunctionDefinition { name, body, span, .. } => collect_definitions(
            body@,
            m.insert(name@, DefinitionView { name: name@, kind: SymbolKind::Function, span }),
        ),
        Statement::SubroutineDefinition { name, body, span, .. } => collect_definitions(
            body@,
            m.insert(name@, DefinitionView { name: name@, kind: SymbolKind::Subroutine, span }),
        ),
        Statement::IfStatement { then_branch, else_branch, .. } => {
            let after_then = collect_definitions(then_branch@, m);
            match else_branch {
                Some(e) => collect_definitions(e@, after_then),
                None => after_then,
            }
        },
        Statement::PreprocessorConditional { then_branch, else_branch, .. } => {
            let after_then = collect_definitions(then_branch@, m);
            match else_branch {
                Some(e) => collect_definitions(e@, after_then),
                None => after_then,
            }
        },
        Statement::ForLoop { body, .. } => collect_definitions(body@, m),
        Statement::DoLoop { body, .. } => collect_definitions(body@, m),
        Statement::SelectCase { cases, else_branch, .. } => {
            let after_cases = collect_cases(cases@, m);
            match else_branch {
                Some(e) => collect_definitions(e@, after_cases),
                None => after_cases,
            }
        },
        _ => m,
    }
}

/// Whether every definition of `m` is held under its own name.
pub open spec fn keyed_by_name(m: Map<Seq<char>, DefinitionView>) -> bool {
    forall|k: Seq<char>| m.contains_key(k) ==> (#[trigger] m[k]).name == k
}

/// Collecting declarations holds each under its own name.
pub proof fn lemma_collect_keyed(statements: Seq<Statement>, m: Map<Seq<char>, DefinitionView>)
    requires
        keyed_by_name(m),
    ensures
        keyed_by_name(collect_definitions(statements, m)),
    decreases statements,
{
    if statements.len() > 0 {
        lemma_collect_keyed(statements.drop_last(), m);
        lemma_statement_keyed(
            statements[statements.len() - 1],
            collect_definitions(statements.drop_last(), m),
        );
    }
}

proof fn lemma_cases_keyed(cases: Seq<CaseClause>, m: Map<Seq<char>, DefinitionView>)
    requires
        keyed_by_name(m),
    ensures
        keyed_by_name(collect_cases(cases, m)),
    decreases cases,
{
    if cases.len() > 0 {
        lemma_cases_keyed(cases.drop_last(), m);
        lemma_collect_keyed(cases[cases.len() - 1].body@, collect_cases(cases.drop_last(), m));
    }
}

proof fn lemma_statement_keyed(s: Statement, m: Map<Seq<char>, DefinitionView>)
    requires
        keyed_by_name(m),
    ensures
        keyed_by_name(collect_statement(s, m)),
    decreases s,
{
    match s {
        Statement::VarDeclaration { name, span, .. } => {},
        Statement::FunctionDefinition { name, body, span, .. } => {
            lemma_collect_keyed(
                body@,
                m.insert(name@, DefinitionView { name: name@, kind: SymbolKind::Function, span }),
            );
        },
        Statement::SubroutineDefinition { name, body, span, .. } => {
            lemma_collect_keyed(
                body@,
                m.insert(name@, DefinitionView { name: name@, kind: SymbolKind::Subroutine, span }),
            );
        },
        Statement::IfStatement { then_branch, else_branch, .. } => {
            lemma_collect_keyed(then_branch@, m);
            if let Some(e) = else_branch {
                lemma_collect_keyed(e@, collect_definitions(then_branch@, m));
            }
        },
        Statement::PreprocessorConditional { then_branch, else_branch, .. } => {
            lemma_collect_keyed(then_branch@, m);
            if let Some(e) = else_branch {
                lemma_collect_keyed(e@, collect_definitions(then_branch@, m));
            }
        },
        Statement::ForLoop { body, .. } => {
            lemma_collect_keyed(body@, m);
        },
        Statement::DoLoop { body, .. } => {
            lemma_collect_keyed(body@, m);
        },
        Statement::SelectCase { cases, else_branch, .. } => {
            lemma_cases_keyed(cases@, m);
            if let Some(e) = else_branch {
                lemma_collect_keyed(e@, collect_cases(cases@, m));
            }
        },
        _ => {},
    }
}

proof fn lemma_keys_kept_list(statements: Seq<Statement>, m: Map<Seq<char>, DefinitionView>, k: Seq<char>)
    requires
        m.contains_key(k),
    ensures
        collect_definitions(statements, m).contains_key(k),
    decreases statements,
{
    if statements.len() > 0 {
        lemma_keys_kept_list(statements.drop_last(), m, k);
        lemma_keys_kept_statement(
            statements[statements.len() - 1],
            collect_definitions(statements.drop_last(), m),
            k,
        );
    }
}

proof fn lemma_keys_kept_cases(cases: Seq<CaseClause>, m: Map<Seq<char>, DefinitionView>, k: Seq<char>)
    requires
        m.contains_key(k),
    ensures
        collect_cases(cases, m).contains_key(k),
    decreases cases,
{
    if cases.len() > 0 {
        lemma_keys_kept_cases(cases.drop_last(), m, k);
        lemma_keys_kept_list(cases[cases.len() - 1].body@, collect_cases(cases.drop_last(), m), k);
    }
}

proof fn lemma_keys_kept_statement(s: Statement, m: Map<Seq<char>, DefinitionView>, k: Seq<char>)
    requires
        m.contains_key(k),
    ensures
        collect_statement(s, m).contains_key(k),
    decreases s,
{
    match s {
        Statement::FunctionDefinition { name, body, span, .. } => {
            lemma_keys_kept_list(
                body@,
                m.insert(name@, DefinitionView { name: name@, kind: SymbolKind::Function, span }),
                k,
            );
        },
        Statement::SubroutineDefinition { name, body, span, .. } => {
            lemma_keys_kept_list(
                body@,
                m.insert(name@, DefinitionView { name: name@, kind: SymbolKind::Subroutine, span }),
                k,
            );
        },
        Statement::IfStatement { then_branch, else_branch, .. } => {
            lemma_keys_kept_list(then_branch@, m, k);
            match else_branch {
                Some(e) => lemma_keys_kept_list(e@, collect_definitions(then_branch@, m), k),
                None => {},
            }
        },
        Statement::PreprocessorConditional { then_branch, else_branch, .. } => {
            lemma_keys_kept_list(then_branch@, m, k);
            match else_branch {
                Some(e) => lemma_keys_kept_list(e@, collect_definitions(then_branch@, m), k),
                None => {},
            }
        },
        Statement::ForLoop { body, .. } => lemma_keys_kept_list(body@, m, k),
        Statement::DoLoop { body, .. } => lemma_keys_kept_list(body@, m, k),
        Statement::SelectCase { cases, else_branch, .. } => {
            lemma_keys_kept_cases(cases@, m, k);
            match else_branch {
                Some(e) => lemma_keys_kept_list(e@, collect_cases(cases@, m), k),
                None => {},
            }
        },
        _ => {},
    }
}

proof fn lemma_found_list(statements: Seq<Statement>, m: Map<Seq<char>, DefinitionView>, t: Statement)
    requires
        occurs_in(statements, t),
        declared_name(t) is Some,
    ensures
        collect_definitions(statements, m).contains_key(declared_name(t)->0),
    decreases statements,
{
    let last = statements[statements.len() - 1];
    let before = collect_definitions(statements.drop_last(), m);
    let n = declared_name(t)->0;
    assert(collect_definitions(statements, m) == collect_statement(last, before));
    if occurs_in(statements.drop_last(), t) {
        lemma_found_list(statements.drop_last(), m, t);
        lemma_keys_kept_statement(last, before, n);
    } else if last == t {
        match t {
            Statement::FunctionDefinition { name, body, span, .. } => {
                lemma_keys_kept_list(
                    body@,
                    before.insert(name@, DefinitionView { name: name@, kind: SymbolKind::Function, span }),
                    n,
                );
            },
            Statement::SubroutineDefinition { name, body, span, .. } => {
                lemma_keys_kept_list(
                    body@,
                    before.insert(name@, DefinitionView { name: name@, kind: SymbolKind::Subroutine, span }),
                    n,
                );
            },
            Statement::VarDeclaration { name, span, .. } => {
                assert(collect_statement(t, before) == before.insert(
                    name@,
                    DefinitionView { name: name@, kind: SymbolKind::Variable, span },
                ));
            },
            _ => {},
        }
    } else {
        lemma_found_within(last, before, t);
    }
}

proof fn lemma_found_cases(cases: Seq<CaseClause>, m: Map<Seq<char>, DefinitionView>, t: Statement)
    requires
        occurs_in_cases(cases, t),
        declared_name(t) is Some,
    ensures
        collect_cases(cases, m).contains_key(declared_name(t)->0),
    decreases cases,
{
    let last = cases[cases.len() - 1];
    if occurs_in_cases(cases.drop_last(), t) {
        lemma_found_cases(cases.drop_last(), m, t);
        lemma_keys_kept_list(last.body@, collect_cases(cases.drop_last(), m), declared_name(t)->0);
    } else {
        lemma_found_list(last.body@, collect_cases(cases.drop_last(), m), t);
    }
}

proof fn lemma_found_within(s: Statement, m: Map<Seq<char>, DefinitionView>, t: Statement)
    requires
        occurs_within(s, t),
        declared_name(t) is Some,
    ensures
        collect_statement(s, m).contains_key(declared_name(t)->0),
    decreases s,
{
    let n = declared_name(t)->0;
    match s {
        Statement::FunctionDefinition { name, body, span, .. } => {
            lemma_found_list(
                body@,
                m.insert(name@, DefinitionView { name: name@, kind: SymbolKind::Function, span }),
                t,
            );
        },
        Statement::SubroutineDefinition { name, body, span, .. } => {
            lemma_found_list(
                body@,
                m.insert(name@, DefinitionView { name: name@, kind: SymbolKind::Subroutine, span }),
                t,
            );
        },
        Statement::IfStatement { then_branch, else_branch, .. } => {
            let after_then = collect_definitions(then_branch@, m);
            if occurs_in(then_branch@, t) {
                lemma_found_list(then_branch@, m, t);
                match else_branch {
                    Some(e) => lemma_keys_kept_list(e@, after_then, n),
                    None => {},
                }
            } else {
                match else_branch {
                    Some(e) => lemma_found_list(e@, after_then, t),
                    None => {},
                }
            }
        },
        Statement::PreprocessorConditional { then_branch, else_branch, .. } => {
            let after_then = collect_definitions(then_branch@, m);
            if occurs_in(then_branch@, t) {
                lemma_found_list(then_branch@, m, t);
                match else_branch {
                    Some(e) => lemma_keys_kept_list(e@, after_then, n),
                    None => {},
                }
            } else {
                match else_branch {
                    Some(e) => lemma_found_list(e@, after_then, t),
                    None => {},
                }
            }
        },
        Statement::ForLoop { body, .. } => lemma_found_list(body@, m, t),
        Statement::DoLoop { body, .. } => lemma_found_list(body@, m, t),
        Statement::SelectCase { cases, else_branch, .. } => {
            let after_cases = collect_cases(cases@, m);
            if occurs_in_cases(cases@, t) {
                lemma_found_cases(cases@, m, t);
                match else_branch {
                    Some(e) => lemma_keys_kept_list(e@, after_cases, n),
                    None => {},
                }
            } else {
                match else_branch {
                    Some(e) => lemma_found_list(e@, after_cases, t),
                    None => {},
                }
            }
        },
        _ => {},
    }
}

/// Every declaration anywhere in the program (at the top level or nested
/// at any depth, inside `If`/`#If` branches and their `Else`, `For`/`Do`
/// bodies, `Select Case` branches or `Function`/`Sub` bodies) is found by
/// go-to-definition: its name is a key of the extracted definitions.
pub proof fn every_declaration_is_defined(statements: Seq<Statement>, t: Statement)
    requires
        occurs_in(statements, t),
        declared_name(t) is Some,
    ensures
        collect_definitions(statements, Map::empty()).contains_key(declared_name(t)->0),
{
    lemma_found_list(statements, Map::empty(), t);
}

/// Provides Go to Definition functionality.
pub struct DefinitionProvider;

impl DefinitionProvider {
    /// Extracts every symbol declaration of the program, descending into
    /// block bodies; a later declaration of a name replaces an earlier one.
    pub fn extract_definitions(ast: &Program) -> (r: DefinitionMap)
        ensures
            r.wf(),
            r@ == collect_definitions(ast.statements@, Map::empty()),
    {
        let mut definitions = DefinitionMap::new();
        Self::extract_from_statements(&ast.statements, &mut definitions);
        definitions
    }

    fn extract_from_statements(statements: &Vec<Statement>, definitions: &mut DefinitionMap)
        requires
            old(definitions).wf(),
        ensures
            final(definitions).wf(),
            final(definitions)@ == collect_definitions(statements@, old(definitions)@),
        decreases statements@,
    {
        let ghost start = definitions@;
        let mut i: usize = 0;
        while i < statements.len()
            invariant
                i <= statements@.len(),
                definitions.wf(),
                definitions@ == collect_definitions(statements@.take(i as int), start),
            decreases statements@.len() - i,
        {
            proof {
                assert(statements@.take(i + 1).drop_last() =~= statements@.take(i as int));
            }
            Self::extract_from_statement(&statements[i], definitions);
            i += 1;
        }
        proof {
            assert(statements@.take(i as int) =~= statements@);
        }
    }

    fn extract_from_cases(cases: &Vec<CaseClause>, definitions: &mut DefinitionMap)
        requires
            old(definitions).wf(),
        ensures
            final(definitions).wf(),
            final(definitions)@ == collect_cases(cases@, old(definitions)@),
        decreases cases@,
    {
        let ghost start = definitions@;
        let mut i: usize = 0;
        while i < cases.len()
            invariant
                i <= cases@.len(),
                definitions.wf(),
                definitions@ == collect_cases(cases@.take(i as int), start),
            decreases cases@.len() - i,
        {
            proof {
                assert(cases@.take(i + 1).drop_last() =~= cases@.take(i as int));
            }
            Self::extract_from_statements(&cases[i].body, definitions);
            i += 1;
        }
        proof {
            assert(cases@.take(i as int) =~= cases@);
        }
    }

    /// Inserts the declarations of one statement, descending into its bodies.
    fn extract_from_statement(statement: &Statement, definitions: &mut DefinitionMap)
        requires
            old(definitions).wf(),
        ensures
            final(definitions).wf(),
            final(definitions)@ == collect_statement(*statement, old(definitions)@),
        decreases statement,
    {
        match statement {
            Statement::VarDeclaration { name, span, .. } => {
                definitions.insert(
                    owned(name.as_str()),
                    SymbolDefinition {
                        name: owned(name.as_str()),
                        kind: SymbolKind::Variable,
                        span: *span,
                    },
                );
            },
            Statement::FunctionDefinition { name, body, span, .. } => {
                definitions.insert(
                    owned(name.as_str()),
                    SymbolDefinition {
                        name: owned(name.as_str()),
                        kind: SymbolKind::Function,
                        span: *span,
                    },
                );
                Self::extract_from_statements(body, definitions);
            },
            Statement::SubroutineDefinition { name, body, span, .. } => {
                definitions.insert(
                    owned(name.as_str()),
                    SymbolDefinition {
                        name: owned(name.as_str()),
                        kind: SymbolKind::Subroutine,
                        span: *span,
                    },
                );
                Self::extract_from_statements(body, definitions);
            },
            Statement::IfStatement { then_branch, else_branch, .. } => {
                Self::extract_from_statements(then_branch, definitions);
                if let Some(else_stmts) = else_branch {
                    Self::extract_from_statements(else_stmts, definitions);
                }
            },
            Statement::PreprocessorConditional { then_branch, else_branch, .. } => {
                Self::extract_from_statements(then_branch, definitions);
                if let Some(else_stmts) = else_branch {
                    Self::extract_from_statements(else_stmts, definitions);
                }
            },
            Statement::ForLoop { body, .. } => {
                Self::extract_from_statements(body, definitions);
            },
            Statement::DoLoop { body, .. } => {
                Self::extract_from_statements(body, definitions);
            },
            Statement::SelectCase { cases, else_branch, .. } => {
                Self::extract_from_cases(cases, definitions);
                if let Some(else_stmts) = else_branch {
                    Self::extract_from_statements(else_stmts, definitions);
                }
            },
            _ => {},
        }
    }

    /// Finds the identifier at the given position (0-indexed) and returns its text.
    pub fn find_identifier_at_position(tokens: &[Token], position: Position) -> (r: Option<
        String,
    >)
        ensures
            match (r, identifier_name_at(tokens@, position)) {
                (Some(s), Some(t)) => s@ == t,
                (None, None) => true,
                _ => false,
            },
    {
        identifier_at(tokens, position)
    }

    /// The location, in document `uri`, of the declaration of the
    /// identifier at the given position.
    pub fn get_definition(
        tokens: &[Token],
        position: Position,
        definitions: &DefinitionMap,
        uri: &str,
    ) -> (r: Option<Location>)
        requires
            definitions.wf(),
        ensures
            match identifier_name_at(tokens@, position) {
                Some(name) if definitions@.contains_key(name) => r matches Some(l) && l.uri@
                    == uri@ && l.range == lsp_range(definitions@[name].span),
                _ => r is None,
            },
    {
        let identifier = match Self::find_identifier_at_position(tokens, position) {
            Some(s) => s,
            None => return None,
        };
        let definition = match definitions.get(identifier.as_str()) {
            Some(d) => d,
            None => return None,
        };
        Some(Location { uri: owned(uri), range: span_to_range(definition.span) })
    }
}

} // verus!

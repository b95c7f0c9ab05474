//! Call hierarchy: the callable symbol at a position, the named
//! `Function`/`Sub`s that call it, and the user-defined `Function`/`Sub`s it
//! calls, across the given documents.
//!
//! Only calls made from inside a named `Function`/`Sub` count as incoming
//! calls: a call from the main program body has no callable symbol to
//! attribute it to. Calls are grouped by caller (or callee) in the order
//! the first call of each group appears.
use crate::call_sites::{
    calls_in_statements, collect_call_sites, sites_view, CallSite, CallSiteView,
};
use crate::definition::{
    collect_definitions, keyed_by_name, lemma_collect_keyed, DefinitionMap, DefinitionProvider,
    DefinitionView, SymbolDefinition, SymbolKind as DefinitionKind,
};
use crate::protocol::{
    CallHierarchyIncomingCall, CallHierarchyItem, CallHierarchyItemView,
    CallHierarchyOutgoingCall, Position as LspPosition, Range, SymbolKind,
};
use crate::references::ReferencesProvider;
use crate::syntax::{identifier_name_at, lsp_range, span_to_range, Program, Statement, Token};
use crate::text::{owned, str_eq};
use vstd::prelude::*;

verus! {

/// Provides Call Hierarchy functionality.
pub struct CallHierarchyProvider;

/// A call of the hierarchy as plain values: the item at its other end and
/// the ranges of the calls.
pub struct CallView {
    pub item: CallHierarchyItemView,
    pub ranges: Seq<Range>,
}

/// The plain value of an incoming call.
pub open spec fn incoming_view(c: CallHierarchyIncomingCall) -> CallView {
    CallView { item: c.from@, ranges: c.from_ranges@ }
}

/// The plain value of an outgoing call.
pub open spec fn outgoing_view(c: CallHierarchyOutgoingCall) -> CallView {
    CallView { item: c.to@, ranges: c.from_ranges@ }
}

/// The call hierarchy item of a declaration in document `uri`: functions
/// and subroutines have one, variables none.
pub open spec fn item_for(d: DefinitionView, uri: Seq<char>) -> Option<CallHierarchyItemView> {
    match d.kind {
        DefinitionKind::Variable => None,
        _ => Some(
            CallHierarchyItemView {
                name: d.name,
                kind: if d.kind == DefinitionKind::Function {
                    SymbolKind::Function
                } else {
                    SymbolKind::Method
                },
                uri,
                range: lsp_range(d.span),
                selection_range: lsp_range(d.span),
            },
        ),
    }
}

/// The group a call site falls in: with `callee` given, sites calling it
/// are grouped by their enclosing `Function`/`Sub` (top-level calls fall in
/// none); without, every site is grouped by the name it calls.
pub open spec fn group_key(site: CallSiteView, callee: Option<Seq<char>>) -> Option<Seq<char>> {
    match callee {
        Some(n) => if site.name == n {
            site.enclosing
        } else {
            None
        },
        None => Some(site.name),
    }
}

/// The groups of the sites, each once, in the order of their first site.
pub open spec fn group_keys(sites: Seq<CallSiteView>, callee: Option<Seq<char>>) -> Seq<Seq<char>>
    decreases sites.len(),
{
    if sites.len() == 0 {
        Seq::empty()
    } else {
        let prev = group_keys(sites.drop_last(), callee);
        match group_key(sites.last(), callee) {
            Some(k) => if prev.contains(k) {
                prev
            } else {
                prev.push(k)
            },
            None => prev,
        }
    }
}

/// The ranges of the sites of group `key`, in order.
pub open spec fn group_ranges(
    sites: Seq<CallSiteView>,
    callee: Option<Seq<char>>,
    key: Seq<char>,
) -> Seq<Range>
    decreases sites.len(),
{
    if sites.len() == 0 {
        Seq::empty()
    } else {
        group_ranges(sites.drop_last(), callee, key) + if group_key(sites.last(), callee) == Some(
            key,
        ) {
            seq![lsp_range(sites.last().span)]
        } else {
            Seq::empty()
        }
    }
}

/// The incoming calls of `callee` from the given callers of one document:
/// each caller that is a declared function or subroutine, with its calls.
pub open spec fn incoming_from(
    callers: Seq<Seq<char>>,
    definitions: Map<Seq<char>, DefinitionView>,
    uri: Seq<char>,
    sites: Seq<CallSiteView>,
    callee: Seq<char>,
) -> Seq<CallView>
    decreases callers.len(),
{
    if callers.len() == 0 {
        Seq::empty()
    } else {
        let c = callers.last();
        incoming_from(callers.drop_last(), definitions, uri, sites, callee) + if definitions.contains_key(c) {
            match item_for(definitions[c], uri) {
                Some(item) => seq![CallView { item, ranges: group_ranges(sites, Some(callee), c) }],
                None => Seq::empty(),
            }
        } else {
            Seq::empty()
        }
    }
}

/// The incoming calls of `callee` within one document.
pub open spec fn incoming_in_document(uri: Seq<char>, program: Program, callee: Seq<char>) -> Seq<
    CallView,
> {
    let sites = calls_in_statements(program.statements@, None);
    incoming_from(
        group_keys(sites, Some(callee)),
        collect_definitions(program.statements@, Map::empty()),
        uri,
        sites,
        callee,
    )
}

/// The incoming calls of `callee` across documents, document by document.
pub open spec fn incoming_calls_spec(documents: Seq<(&str, &Program)>, callee: Seq<char>) -> Seq<
    CallView,
>
    decreases documents.len(),
{
    if documents.len() == 0 {
        Seq::empty()
    } else {
        let (uri, program) = documents.last();
        incoming_calls_spec(documents.drop_last(), callee) + incoming_in_document(
            uri@,
            *program,
            callee,
        )
    }
}

/// The body of the first top-level `Function`/`Sub` named `name`.
pub open spec fn top_level_body(stmts: Seq<Statement>, name: Seq<char>) -> Option<Seq<Statement>>
    decreases stmts.len(),
{
    if stmts.len() == 0 {
        None
    } else {
        match top_level_body(stmts.drop_last(), name) {
            Some(b) => Some(b),
            None => match stmts.last() {
                Statement::FunctionDefinition { name: n, body, .. } => if n@ == name {
                    Some(body@)
                } else {
                    None
                },
                Statement::SubroutineDefinition { name: n, body, .. } => if n@ == name {
                    Some(body@)
                } else {
                    None
                },
                _ => None,
            },
        }
    }
}

/// The body of the `Function`/`Sub` named `name` in the first document that
/// has one.
pub open spec fn body_in_documents(documents: Seq<(&str, &Program)>, name: Seq<char>) -> Option<
    Seq<Statement>,
>
    decreases documents.len(),
{
    if documents.len() == 0 {
        None
    } else {
        match body_in_documents(documents.drop_last(), name) {
            Some(b) => Some(b),
            None => top_level_body(documents.last().1.statements@, name),
        }
    }
}

/// The declaration of `name` in the first document that declares it, with
/// that document's URI.
pub open spec fn declaration_in_documents(documents: Seq<(&str, &Program)>, name: Seq<char>) -> Option<
    (Seq<char>, DefinitionView),
>
    decreases documents.len(),
{
    if documents.len() == 0 {
        None
    } else {
        match declaration_in_documents(documents.drop_last(), name) {
            Some(found) => Some(found),
            None => {
                let m = collect_definitions(documents.last().1.statements@, Map::empty());
                if m.contains_key(name) {
                    Some((documents.last().0@, m[name]))
                } else {
                    None
                }
            },
        }
    }
}

/// The outgoing calls to the given callees: each that some document
/// declares as a function or subroutine, with the calls to it.
pub open spec fn outgoing_to(
    callees: Seq<Seq<char>>,
    documents: Seq<(&str, &Program)>,
    sites: Seq<CallSiteView>,
) -> Seq<CallView>
    decreases callees.len(),
{
    if callees.len() == 0 {
        Seq::empty()
    } else {
        let c = callees.last();
        outgoing_to(callees.drop_last(), documents, sites) + match declaration_in_documents(
            documents,
            c,
        ) {
            Some((uri, d)) => match item_for(d, uri) {
                Some(item) => seq![CallView { item, ranges: group_ranges(sites, None, c) }],
                None => Seq::empty(),
            },
            None => Seq::empty(),
        }
    }
}

/// The outgoing calls of the `Function`/`Sub` named `name`.
pub open spec fn outgoing_calls_spec(documents: Seq<(&str, &Program)>, name: Seq<char>) -> Seq<
    CallView,
> {
    match body_in_documents(documents, name) {
        None => Seq::empty(),
        Some(body) => {
            let sites = calls_in_statements(body, None);
            outgoing_to(group_keys(sites, None), documents, sites)
        },
    }
}

/// The groups of call sites as built: each key with its ranges.
pub open spec fn groups_hold(
    groups: Seq<(String, Vec<Range>)>,
    sites: Seq<CallSiteView>,
    callee: Option<Seq<char>>,
) -> bool {
    &&& groups.map_values(|g: (String, Vec<Range>)| g.0@) == group_keys(sites, callee)
    &&& forall|g: int|
        0 <= g < groups.len() ==> (#[trigger] groups[g]).1@ == group_ranges(sites, callee, groups[g].0@)
}

proof fn lemma_group_keys_distinct(sites: Seq<CallSiteView>, callee: Option<Seq<char>>)
    ensures
        forall|a: int, b: int|
            0 <= a < b < group_keys(sites, callee).len() ==> group_keys(sites, callee)[a]
                != group_keys(sites, callee)[b],
    decreases sites.len(),
{
    if sites.len() > 0 {
        lemma_group_keys_distinct(sites.drop_last(), callee);
        let prev = group_keys(sites.drop_last(), callee);
        if let Some(k) = group_key(sites.last(), callee) {
            if !prev.contains(k) {
                assert forall|a: int| 0 <= a < prev.len() implies prev[a] != k by {
                    if prev[a] == k {
                        assert(prev.contains(k));
                    }
                }
            }
        }
    }
}

fn copy_ranges(v: &Vec<Range>) -> (r: Vec<Range>)
    ensures
        r@ == v@,
{
    let mut r: Vec<Range> = Vec::new();
    let mut i: usize = 0;
    while i < v.len()
        invariant
            i <= v@.len(),
            r@ == v@.take(i as int),
        decreases v@.len() - i,
    {
        r.push(v[i]);
        proof {
            assert(r@ =~= v@.take(i + 1));
        }
        i += 1;
    }
    proof {
        assert(v@.take(i as int) =~= v@);
    }
    r
}

fn find_group(groups: &Vec<(String, Vec<Range>)>, key: &str) -> (r: Option<usize>)
    ensures
        match r {
            Some(g) => g < groups@.len() && groups@[g as int].0@ == key@,
            None => forall|g: int| 0 <= g < groups@.len() ==> groups@[g].0@ != key@,
        },
{
    let mut g: usize = 0;
    while g < groups.len()
        invariant
            g <= groups@.len(),
            forall|k: int| 0 <= k < g ==> groups@[k].0@ != key@,
        decreases groups@.len() - g,
    {
        if str_eq(groups[g].0.as_str(), key) {
            return Some(g);
        }
        g += 1;
    }
    None
}

impl CallHierarchyProvider {
    /// The item that starts a call hierarchy session: the function or
    /// subroutine declaration of the identifier at `position`.
    pub fn prepare(tokens: &[Token], ast: &Program, uri: &str, position: LspPosition) -> (r:
        Option<CallHierarchyItem>)
        ensures
            ({
                let m = collect_definitions(ast.statements@, Map::empty());
                match identifier_name_at(tokens@, position) {
                    Some(name) => if m.contains_key(name) {
                        match (r, item_for(m[name], uri@)) {
                            (Some(item), Some(v)) => item@ == v,
                            (None, None) => true,
                            _ => false,
                        }
                    } else {
                        r is None
                    },
                    None => r is None,
                }
            }),
    {
        let name = match ReferencesProvider::find_identifier_at_position(tokens, position) {
            Some(n) => n,
            None => return None,
        };
        let definitions = DefinitionProvider::extract_definitions(ast);
        match definitions.get(name.as_str()) {
            Some(definition) => Self::item_for_definition(definition, uri),
            None => None,
        }
    }

    /// Every call made to `item`'s symbol from another named
    /// `Function`/`Sub`, across the given documents (each a URI with its
    /// parsed program), one entry for each caller with the ranges of its
    /// calls.
    pub fn incoming_calls(item: &CallHierarchyItem, documents: &[(&str, &Program)]) -> (r: Vec<
        CallHierarchyIncomingCall,
    >)
        ensures
            r@.map_values(|c: CallHierarchyIncomingCall| incoming_view(c)) == incoming_calls_spec(
                documents@,
                item.name@,
            ),
    {
        let mut results: Vec<CallHierarchyIncomingCall> = Vec::new();
        let mut i: usize = 0;
        while i < documents.len()
            invariant
                i <= documents@.len(),
                results@.map_values(|c: CallHierarchyIncomingCall| incoming_view(c))
                    == incoming_calls_spec(documents@.take(i as int), item.name@),
            decreases documents@.len() - i,
        {
            proof {
                assert(documents@.take(i + 1).drop_last() =~= documents@.take(i as int));
                assert(documents@.take(i + 1).last() == documents@[i as int]);
            }
            let (uri, program) = documents[i];
            let definitions = DefinitionProvider::extract_definitions(program);
            let sites = collect_call_sites(&program.statements);
            let groups = Self::group_calls(&sites, Some(item.name.as_str()));
            let ghost view = sites_view(sites@);
            let ghost callers = group_keys(view, Some(item.name@));
            let ghost m = collect_definitions(program.statements@, Map::empty());
            let ghost start = results@.map_values(|c: CallHierarchyIncomingCall| incoming_view(c));
            let mut g: usize = 0;
            while g < groups.len()
                invariant
                    g <= groups@.len(),
                    definitions.wf(),
                    definitions@ == m,
                    groups_hold(groups@, view, Some(item.name@)),
                    callers == group_keys(view, Some(item.name@)),
                    results@.map_values(|c: CallHierarchyIncomingCall| incoming_view(c)) == start
                        + incoming_from(callers.take(g as int), m, uri@, view, item.name@),
                decreases groups@.len() - g,
            {
                proof {
                    assert(callers.take(g + 1).drop_last() =~= callers.take(g as int));
                    assert(callers[g as int] == groups@[g as int].0@);
                    assert(callers.take(g + 1).last() == callers[g as int]);
                }
                let ghost before = results@.map_values(|c: CallHierarchyIncomingCall| incoming_view(c));
                if let Some(definition) = definitions.get(groups[g].0.as_str()) {
                    if let Some(from) = Self::item_for_definition(definition, uri) {
                        let call = CallHierarchyIncomingCall {
                            from,
                            from_ranges: copy_ranges(&groups[g].1),
                        };
                        results.push(call);
                        proof {
                            assert(results@.map_values(
                                |c: CallHierarchyIncomingCall| incoming_view(c),
                            ) =~= before.push(incoming_view(call)));
                        }
                    }
                }
                g += 1;
            }
            proof {
                assert(callers.take(g as int) =~= callers);
            }
            i += 1;
        }
        proof {
            assert(documents@.take(i as int) =~= documents@);
        }
        results
    }

    /// Every call that `item`'s symbol makes to a user-defined
    /// `Function`/`Sub` declared in one of the given documents, one entry
    /// for each callee with the ranges of the calls.
    pub fn outgoing_calls(item: &CallHierarchyItem, documents: &[(&str, &Program)]) -> (r: Vec<
        CallHierarchyOutgoingCall,
    >)
        ensures
            r@.map_values(|c: CallHierarchyOutgoingCall| outgoing_view(c)) == outgoing_calls_spec(
                documents@,
                item.name@,
            ),
    {
        let body = match Self::find_body(item.name.as_str(), documents) {
            Some(b) => b,
            None => {
                let r: Vec<CallHierarchyOutgoingCall> = Vec::new();
                proof {
                    assert(r@.map_values(|c: CallHierarchyOutgoingCall| outgoing_view(c)) =~= Seq::<
                        CallView,
                    >::empty());
                }
                return r;
            },
        };
        let sites = collect_call_sites(body);
        let groups = Self::group_calls(&sites, None);
        let ghost view = sites_view(sites@);
        let ghost callees = group_keys(view, None);
        let mut results: Vec<CallHierarchyOutgoingCall> = Vec::new();
        let mut g: usize = 0;
        while g < groups.len()
            invariant
                g <= groups@.len(),
                groups_hold(groups@, view, None),
                callees == group_keys(view, None),
                results@.map_values(|c: CallHierarchyOutgoingCall| outgoing_view(c)) == outgoing_to(
                    callees.take(g as int),
                    documents@,
                    view,
                ),
            decreases groups@.len() - g,
        {
            proof {
                assert(callees.take(g + 1).drop_last() =~= callees.take(g as int));
                assert(callees[g as int] == groups@[g as int].0@);
                assert(callees.take(g + 1).last() == callees[g as int]);
            }
            let ghost before = results@.map_values(|c: CallHierarchyOutgoingCall| outgoing_view(c));
            if let Some((uri, definition)) = Self::find_declaration(groups[g].0.as_str(), documents) {
                if let Some(to) = Self::item_for_definition(&definition, uri) {
                    let call = CallHierarchyOutgoingCall { to, from_ranges: copy_ranges(&groups[g].1) };
                    results.push(call);
                    proof {
                        assert(results@.map_values(|c: CallHierarchyOutgoingCall| outgoing_view(c))
                            =~= before.push(outgoing_view(call)));
                    }
                }
            }
            g += 1;
        }
        proof {
            assert(callees.take(g as int) =~= callees);
        }
        results
    }

    /// Groups the call sites (see `group_key`), in the order of each
    /// group's first site.
    fn group_calls(sites: &Vec<CallSite>, callee: Option<&str>) -> (r: Vec<(String, Vec<Range>)>)
        ensures
            groups_hold(
                r@,
                sites_view(sites@),
                match callee {
                    Some(n) => Some(n@),
                    None => None,
                },
            ),
    {
        let ghost key_of = match callee {
            Some(n) => Some(n@),
            None => None,
        };
        let ghost view = sites_view(sites@);
        let mut groups: Vec<(String, Vec<Range>)> = Vec::new();
        proof {
            assert(groups@.map_values(|g: (String, Vec<Range>)| g.0@) =~= Seq::<Seq<char>>::empty());
        }
        let mut j: usize = 0;
        while j < sites.len()
            invariant
                j <= sites@.len(),
                view == sites_view(sites@),
                key_of == match callee {
                    Some(n) => Some(n@),
                    None => None::<Seq<char>>,
                },
                groups_hold(groups@, view.take(j as int), key_of),
            decreases sites@.len() - j,
        {
            let ghost prev_view = view.take(j as int);
            let ghost next_view = view.take(j + 1);
            proof {
                assert(next_view.drop_last() =~= prev_view);
                assert(next_view.last() == sites@[j as int]@);
                lemma_group_keys_distinct(prev_view, key_of);
            }
            let site = sites[j];
            let key: Option<&str> = match callee {
                Some(n) => if str_eq(site.name, n) {
                    site.enclosing
                } else {
                    None
                },
                None => Some(site.name),
            };
            let ghost prev_groups = groups@;
            if let Some(k) = key {
                let range = span_to_range(site.span);
                match find_group(&groups, k) {
                    Some(g) => {
                        let mut entry = groups.remove(g);
                        entry.1.push(range);
                        groups.insert(g, entry);
                        proof {
                            assert(groups@ == prev_groups.update(g as int, entry));
                            assert(groups@.map_values(|e: (String, Vec<Range>)| e.0@)
                                =~= prev_groups.map_values(|e: (String, Vec<Range>)| e.0@));
                            assert(group_keys(prev_view, key_of).contains(k@)) by {
                                assert(group_keys(prev_view, key_of)[g as int] == k@);
                            }
                            assert forall|h: int| 0 <= h < groups@.len() implies (#[trigger] groups@[h]).1@
                                == group_ranges(next_view, key_of, groups@[h].0@) by {
                                if h != g {
                                    assert(groups@[h] == prev_groups[h]);
                                    assert(group_keys(prev_view, key_of)[h] != group_keys(
                                        prev_view,
                                        key_of,
                                    )[g as int]) by {
                                        if h < g {
                                        } else {
                                        }
                                    }
                                }
                            }
                        }
                    },
                    None => {
                        let mut ranges: Vec<Range> = Vec::new();
                        ranges.push(range);
                        groups.push((owned(k), ranges));
                        proof {
                            assert(!group_keys(prev_view, key_of).contains(k@)) by {
                                if group_keys(prev_view, key_of).contains(k@) {
                                    let h = choose|h: int|
                                        0 <= h < group_keys(prev_view, key_of).len()
                                            && group_keys(prev_view, key_of)[h] == k@;
                                    assert(prev_groups[h].0@ == k@);
                                }
                            }
                            assert(groups@.map_values(|e: (String, Vec<Range>)| e.0@)
                                =~= prev_groups.map_values(|e: (String, Vec<Range>)| e.0@).push(
                                k@,
                            ));
                            assert forall|h: int| 0 <= h < groups@.len() implies (#[trigger] groups@[h]).1@
                                == group_ranges(next_view, key_of, groups@[h].0@) by {
                                if h < prev_groups.len() {
                                    assert(groups@[h] == prev_groups[h]);
                                    assert(prev_groups[h].0@ != k@);
                                } else {
                                    assert(group_ranges(prev_view, key_of, k@) =~= Seq::<
                                        Range,
                                    >::empty()) by {
                                        lemma_absent_key_has_no_ranges(prev_view, key_of, k@);
                                    }
                                }
                            }
                        }
                    },
                }
            } else {
                proof {
                    assert forall|h: int| 0 <= h < groups@.len() implies (#[trigger] groups@[h]).1@
                        == group_ranges(next_view, key_of, groups@[h].0@) by {
                        assert(groups@[h] == prev_groups[h]);
                    }
                }
            }
            j += 1;
        }
        proof {
            assert(view.take(j as int) =~= view);
        }
        groups
    }

    /// The body of the `Function`/`Sub` named `name` in the first document
    /// that has one at its top level.
    fn find_body<'a>(name: &str, documents: &[(&str, &'a Program)]) -> (r: Option<
        &'a Vec<Statement>,
    >)
        ensures
            match (r, body_in_documents(documents@, name@)) {
                (Some(b), Some(s)) => b@ == s,
                (None, None) => true,
                _ => false,
            },
    {
        let mut i: usize = 0;
        while i < documents.len()
            invariant
                i <= documents@.len(),
                body_in_documents(documents@.take(i as int), name@) is None,
            decreases documents@.len() - i,
        {
            proof {
                assert(documents@.take(i + 1).drop_last() =~= documents@.take(i as int));
                assert(documents@.take(i + 1).last() == documents@[i as int]);
            }
            let program = documents[i].1;
            let mut k: usize = 0;
            while k < program.statements.len()
                invariant
                    i < documents@.len(),
                    program == documents@[i as int].1,
                    body_in_documents(documents@.take(i as int), name@) is None,
                    documents@.take(i + 1).drop_last() == documents@.take(i as int),
                    documents@.take(i + 1).last() == documents@[i as int],
                    k <= program.statements@.len(),
                    top_level_body(program.statements@.take(k as int), name@) is None,
                decreases program.statements@.len() - k,
            {
                proof {
                    assert(program.statements@.take(k + 1).drop_last() =~= program.statements@.take(
                        k as int,
                    ));
                    assert(program.statements@.take(k + 1).last() == program.statements@[k as int]);
                }
                match &program.statements[k] {
                    Statement::FunctionDefinition { name: n, body, .. } => {
                        if str_eq(n.as_str(), name) {
                            proof {
                                lemma_top_level_prefix(program.statements@, k as int + 1, name@);
                                lemma_body_prefix(documents@, i as int + 1, name@);
                            }
                            return Some(body);
                        }
                    },
                    Statement::SubroutineDefinition { name: n, body, .. } => {
                        if str_eq(n.as_str(), name) {
                            proof {
                                lemma_top_level_prefix(program.statements@, k as int + 1, name@);
                                lemma_body_prefix(documents@, i as int + 1, name@);
                            }
                            return Some(body);
                        }
                    },
                    _ => {},
                }
                k += 1;
            }
            proof {
                assert(program.statements@.take(k as int) =~= program.statements@);
            }
            i += 1;
        }
        proof {
            assert(documents@.take(i as int) =~= documents@);
        }
        None
    }

    /// The declaration of `name` in the first document that declares it,
    /// with that document's URI.
    fn find_declaration<'a>(name: &str, documents: &[(&'a str, &Program)]) -> (r: Option<
        (&'a str, SymbolDefinition),
    >)
        ensures
            match (r, declaration_in_documents(documents@, name@)) {
                (Some((u, d)), Some((su, sd))) => u@ == su && d@ == sd,
                (None, None) => true,
                _ => false,
            },
    {
        let mut i: usize = 0;
        while i < documents.len()
            invariant
                i <= documents@.len(),
                declaration_in_documents(documents@.take(i as int), name@) is None,
            decreases documents@.len() - i,
        {
            proof {
                assert(documents@.take(i + 1).drop_last() =~= documents@.take(i as int));
                assert(documents@.take(i + 1).last() == documents@[i as int]);
            }
            let (uri, program) = documents[i];
            let definitions = DefinitionProvider::extract_definitions(program);
            if let Some(definition) = definitions.get(name) {
                proof {
                    lemma_declaration_prefix(documents@, i as int + 1, name@);
                }
                return Some(
                    (
                        uri,
                        SymbolDefinition {
                            name: owned(definition.name.as_str()),
                            kind: definition.kind,
                            span: definition.span,
                        },
                    ),
                );
            }
            i += 1;
        }
        proof {
            assert(documents@.take(i as int) =~= documents@);
        }
        None
    }

    /// The call hierarchy item of a declaration: `None` for a variable.
    fn item_for_definition(definition: &SymbolDefinition, uri: &str) -> (r: Option<
        CallHierarchyItem,
    >)
        ensures
            match (r, item_for(definition@, uri@)) {
                (Some(item), Some(v)) => item@ == v,
                (None, None) => true,
                _ => false,
            },
    {
        let kind = match definition.kind {
            DefinitionKind::Function => SymbolKind::Function,
            DefinitionKind::Subroutine => SymbolKind::Method,
            DefinitionKind::Variable => return None,
        };
        let range = span_to_range(definition.span);
        Some(
            CallHierarchyItem {
                name: owned(definition.name.as_str()),
                kind,
                uri: owned(uri),
                range,
                selection_range: range,
            },
        )
    }
}

/// Every incoming call produced for the given callers comes from one of
/// them, under its own name.
proof fn lemma_incoming_from_names(
    callers: Seq<Seq<char>>,
    definitions: Map<Seq<char>, DefinitionView>,
    uri: Seq<char>,
    sites: Seq<CallSiteView>,
    callee: Seq<char>,
)
    requires
        keyed_by_name(definitions),
        forall|a: int, b: int| 0 <= a < b < callers.len() ==> callers[a] != callers[b],
    ensures
        forall|i: int|
            0 <= i < incoming_from(callers, definitions, uri, sites, callee).len() ==> callers.contains(
                (#[trigger] incoming_from(callers, definitions, uri, sites, callee)[i]).item.name,
            ),
        forall|i: int, j: int|
            0 <= i < j < incoming_from(callers, definitions, uri, sites, callee).len() ==> (
            #[trigger] incoming_from(callers, definitions, uri, sites, callee)[i]).item.name != (
            #[trigger] incoming_from(callers, definitions, uri, sites, callee)[j]).item.name,
    decreases callers.len(),
{
    if callers.len() > 0 {
        let prev = callers.drop_last();
        lemma_incoming_from_names(prev, definitions, uri, sites, callee);
        let before = incoming_from(prev, definitions, uri, sites, callee);
        let all = incoming_from(callers, definitions, uri, sites, callee);
        let c = callers.last();
        assert forall|i: int| 0 <= i < all.len() implies callers.contains(
            (#[trigger] all[i]).item.name,
        ) by {
            if i < before.len() {
                assert(all[i] == before[i]);
                let k = choose|k: int| 0 <= k < prev.len() && prev[k] == before[i].item.name;
                assert(callers[k] == prev[k]);
            } else {
                assert(definitions[c].name == c);
                assert(callers[callers.len() - 1] == c);
            }
        }
        assert forall|i: int, j: int| 0 <= i < j < all.len() implies (#[trigger] all[i]).item.name
            != (#[trigger] all[j]).item.name by {
            if j < before.len() {
                assert(all[i] == before[i]);
                assert(all[j] == before[j]);
            } else {
                assert(all[i] == before[i]);
                assert(definitions[c].name == c);
                let k = choose|k: int| 0 <= k < prev.len() && prev[k] == before[i].item.name;
                assert(callers[k] == prev[k]);
                assert(callers[k] != callers[callers.len() - 1]);
            }
        }
    }
}

/// Within one document, each caller appears in at most one incoming call:
/// all its calls to the item are grouped into that entry.
pub proof fn each_caller_appears_once(uri: Seq<char>, program: Program, callee: Seq<char>)
    ensures
        forall|i: int, j: int|
            0 <= i < j < incoming_in_document(uri, program, callee).len() ==> (
            #[trigger] incoming_in_document(uri, program, callee)[i]).item.name != (
            #[trigger] incoming_in_document(uri, program, callee)[j]).item.name,
{
    let sites = calls_in_statements(program.statements@, None);
    let m = collect_definitions(program.statements@, Map::empty());
    lemma_collect_keyed(program.statements@, Map::empty());
    lemma_group_keys_distinct(sites, Some(callee));
    lemma_incoming_from_names(group_keys(sites, Some(callee)), m, uri, sites, callee);
}

proof fn lemma_absent_key_has_no_ranges(
    sites: Seq<CallSiteView>,
    callee: Option<Seq<char>>,
    key: Seq<char>,
)
    requires
        !group_keys(sites, callee).contains(key),
    ensures
        group_ranges(sites, callee, key) == Seq::<Range>::empty(),
    decreases sites.len(),
{
    if sites.len() > 0 {
        let prev = group_keys(sites.drop_last(), callee);
        if prev.contains(key) {
            let h = choose|h: int| 0 <= h < prev.len() && prev[h] == key;
            assert(group_keys(sites, callee)[h] == key);
        }
        lemma_absent_key_has_no_ranges(sites.drop_last(), callee, key);
        if group_key(sites.last(), callee) == Some(key) {
            if !prev.contains(key) {
                assert(group_keys(sites, callee).last() == key);
            }
        }
    }
}

proof fn lemma_top_level_prefix(stmts: Seq<Statement>, k: int, name: Seq<char>)
    requires
        0 <= k <= stmts.len(),
        top_level_body(stmts.take(k), name) is Some,
    ensures
        top_level_body(stmts, name) == top_level_body(stmts.take(k), name),
    decreases stmts.len() - k,
{
    if k < stmts.len() {
        assert(stmts.take(k + 1).drop_last() =~= stmts.take(k));
        lemma_top_level_prefix(stmts, k + 1, name);
    } else {
        assert(stmts.take(k) =~= stmts);
    }
}

proof fn lemma_body_prefix(documents: Seq<(&str, &Program)>, k: int, name: Seq<char>)
    requires
        0 <= k <= documents.len(),
        body_in_documents(documents.take(k), name) is Some,
    ensures
        body_in_documents(documents, name) == body_in_documents(documents.take(k), name),
    decreases documents.len() - k,
{
    if k < documents.len() {
        assert(documents.take(k + 1).drop_last() =~= documents.take(k));
        lemma_body_prefix(documents, k + 1, name);
    } else {
        assert(documents.take(k) =~= documents);
    }
}

proof fn lemma_declaration_prefix(documents: Seq<(&str, &Program)>, k: int, name: Seq<char>)
    requires
        0 <= k <= documents.len(),
        declaration_in_documents(documents.take(k), name) is Some,
    ensures
        declaration_in_documents(documents, name) == declaration_in_documents(documents.take(k), name),
    decreases documents.len() - k,
{
    if k < documents.len() {
        assert(documents.take(k + 1).drop_last() =~= documents.take(k));
        lemma_declaration_prefix(documents, k + 1, name);
    } else {
        assert(documents.take(k) =~= documents);
    }
}

} // verus!

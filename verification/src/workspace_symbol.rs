//! Workspace symbol search: the outline symbols of every given document
//! whose name contains the query, ignoring case.
use crate::protocol::{
    lemma_symbols_view, symbol_view, symbols_view, DocumentSymbol, DocumentSymbolView, Location, SymbolInformation,
    SymbolInformationView,
};
use crate::symbols::{extract_document_symbols, outline};
use crate::syntax::Program;
use crate::text::{contains_text, has_substring, lowercase, owned, to_lowercase};
use vstd::prelude::*;

verus! {

/// Provides Workspace Symbol functionality.
pub struct WorkspaceSymbolProvider;

/// Whether a symbol name matches an already lowercased query.
pub open spec fn name_matches(name: Seq<char>, query_lower: Seq<char>) -> bool {
    has_substring(lowercase(name), query_lower)
}

/// The matches among a list of symbols and everything nested in them, in
/// document order (each symbol before its children).
pub open spec fn matches_in(
    uri: Seq<char>,
    symbols: Seq<DocumentSymbolView>,
    query_lower: Seq<char>,
) -> Seq<SymbolInformationView>
    decreases symbols,
{
    if symbols.len() == 0 {
        Seq::empty()
    } else {
        matches_in(uri, symbols.drop_last(), query_lower) + matches_at(
            uri,
            symbols[symbols.len() - 1],
            query_lower,
        )
    }
}

/// The matches among one symbol and everything nested in it.
pub open spec fn matches_at(
    uri: Seq<char>,
    symbol: DocumentSymbolView,
    query_lower: Seq<char>,
) -> Seq<SymbolInformationView>
    decreases symbol,
{
    (if name_matches(symbol.name, query_lower) {
        seq![
            SymbolInformationView {
                name: symbol.name,
                kind: symbol.kind,
                uri,
                range: symbol.range,
            },
        ]
    } else {
        Seq::empty()
    }) + match symbol.children {
        Some(c) => matches_in(uri, c, query_lower),
        None => Seq::empty(),
    }
}

/// The matches across documents, document by document.
pub open spec fn search_results(
    documents: Seq<(&str, &Program)>,
    query_lower: Seq<char>,
) -> Seq<SymbolInformationView>
    decreases documents.len(),
{
    if documents.len() == 0 {
        Seq::empty()
    } else {
        let (uri, program) = documents[documents.len() - 1];
        search_results(documents.drop_last(), query_lower) + matches_in(
            uri@,
            outline(program.statements@),
            query_lower,
        )
    }
}

/// An empty query matches every symbol name.
pub proof fn empty_query_matches_every_name(name: Seq<char>)
    ensures
        name_matches(name, lowercase(Seq::empty())),
{
    let q = lowercase(Seq::<char>::empty());
    assert(q =~= Seq::<char>::empty());
    assert(lowercase(name).subrange(0int, 0int + q.len()) =~= q);
}

/// Whether `s` is one of `symbols` or nested, at any depth, among their children.
pub open spec fn in_symbol_tree(symbols: Seq<DocumentSymbolView>, s: DocumentSymbolView) -> bool
    decreases symbols,
{
    if symbols.len() == 0 {
        false
    } else {
        in_symbol_tree(symbols.drop_last(), s) || symbols[symbols.len() - 1] == s
            || in_symbol_children(symbols[symbols.len() - 1], s)
    }
}

/// Whether `s` is nested, at any depth, among the children of `p`.
pub open spec fn in_symbol_children(p: DocumentSymbolView, s: DocumentSymbolView) -> bool
    decreases p,
{
    match p.children {
        Some(c) => in_symbol_tree(c, s),
        None => false,
    }
}

/// Whether `query_lower` occurs somewhere in the lowercase form of `name`.
pub open spec fn name_contains(name: Seq<char>, query_lower: Seq<char>) -> bool {
    exists|k: int|
        0 <= k && k + query_lower.len() <= lowercase(name).len() && #[trigger] lowercase(
            name,
        ).subrange(k, k + query_lower.len()) == query_lower
}

/// The information a search reports for symbol `s` of document `uri`.
pub open spec fn reported(uri: Seq<char>, s: DocumentSymbolView) -> SymbolInformationView {
    SymbolInformationView { name: s.name, kind: s.kind, uri, range: s.range }
}

proof fn lemma_in_sum(a: Seq<SymbolInformationView>, b: Seq<SymbolInformationView>, x: SymbolInformationView)
    requires
        a.contains(x) || b.contains(x),
    ensures
        (a + b).contains(x),
{
    if a.contains(x) {
        let k = choose|k: int| 0 <= k < a.len() && a[k] == x;
        assert((a + b)[k] == x);
    } else {
        let k = choose|k: int| 0 <= k < b.len() && b[k] == x;
        assert((a + b)[a.len() + k] == x);
    }
}

proof fn lemma_found_in(uri: Seq<char>, symbols: Seq<DocumentSymbolView>, s: DocumentSymbolView, q: Seq<char>)
    requires
        in_symbol_tree(symbols, s),
        name_contains(s.name, q),
    ensures
        matches_in(uri, symbols, q).contains(reported(uri, s)),
    decreases symbols,
{
    let last = symbols[symbols.len() - 1];
    if in_symbol_tree(symbols.drop_last(), s) {
        lemma_found_in(uri, symbols.drop_last(), s, q);
    } else {
        lemma_found_at(uri, last, s, q);
    }
    lemma_in_sum(matches_in(uri, symbols.drop_last(), q), matches_at(uri, last, q), reported(uri, s));
}

proof fn lemma_found_at(uri: Seq<char>, p: DocumentSymbolView, s: DocumentSymbolView, q: Seq<char>)
    requires
        p == s || in_symbol_children(p, s),
        name_contains(s.name, q),
    ensures
        matches_at(uri, p, q).contains(reported(uri, s)),
    decreases p,
{
    let own = if name_matches(p.name, q) {
        seq![SymbolInformationView { name: p.name, kind: p.kind, uri, range: p.range }]
    } else {
        Seq::empty()
    };
    let nested = match p.children {
        Some(c) => matches_in(uri, c, q),
        None => Seq::empty(),
    };
    if p == s {
        assert(own[0] == reported(uri, s));
    } else {
        match p.children {
            Some(c) => lemma_found_in(uri, c, s, q),
            None => {},
        }
    }
    lemma_in_sum(own, nested, reported(uri, s));
}

/// A search finds every outline symbol, at any depth, of every document
/// whose lowercase name contains the lowercase query anywhere (so the query
/// "temp" finds "AirTemp"), reporting its name, kind, document and range.
pub proof fn search_finds_every_name_containing_the_query(
    documents: Seq<(&str, &Program)>,
    query_lower: Seq<char>,
    d: int,
    s: DocumentSymbolView,
)
    requires
        0 <= d < documents.len(),
        in_symbol_tree(outline(documents[d].1.statements@), s),
        name_contains(s.name, query_lower),
    ensures
        search_results(documents, query_lower).contains(reported(documents[d].0@, s)),
    decreases documents.len(),
{
    let n = documents.len() - 1;
    let (uri, program) = documents[n];
    let here = matches_in(uri@, outline(program.statements@), query_lower);
    if d < n {
        assert(documents.drop_last()[d] == documents[d]);
        search_finds_every_name_containing_the_query(documents.drop_last(), query_lower, d, s);
    } else {
        lemma_found_in(uri@, outline(program.statements@), s, query_lower);
    }
    lemma_in_sum(search_results(documents.drop_last(), query_lower), here, reported(documents[d].0@, s));
}

proof fn lemma_matches_contain(uri: Seq<char>, symbols: Seq<DocumentSymbolView>, q: Seq<char>)
    ensures
        forall|i: int|
            0 <= i < matches_in(uri, symbols, q).len() ==> name_contains(
                (#[trigger] matches_in(uri, symbols, q)[i]).name,
                q,
            ),
    decreases symbols,
{
    if symbols.len() > 0 {
        let last = symbols[symbols.len() - 1];
        lemma_matches_contain(uri, symbols.drop_last(), q);
        lemma_match_contains(uri, last, q);
        let a = matches_in(uri, symbols.drop_last(), q);
        let b = matches_at(uri, last, q);
        assert forall|i: int| 0 <= i < (a + b).len() implies name_contains((#[trigger] (a + b)[i]).name, q) by {
            if i < a.len() {
                assert((a + b)[i] == a[i]);
            } else {
                assert((a + b)[i] == b[i - a.len()]);
            }
        }
    }
}

proof fn lemma_match_contains(uri: Seq<char>, p: DocumentSymbolView, q: Seq<char>)
    ensures
        forall|i: int|
            0 <= i < matches_at(uri, p, q).len() ==> name_contains(
                (#[trigger] matches_at(uri, p, q)[i]).name,
                q,
            ),
    decreases p,
{
    let own = if name_matches(p.name, q) {
        seq![SymbolInformationView { name: p.name, kind: p.kind, uri, range: p.range }]
    } else {
        Seq::empty()
    };
    let nested = match p.children {
        Some(c) => matches_in(uri, c, q),
        None => Seq::empty(),
    };
    match p.children {
        Some(c) => lemma_matches_contain(uri, c, q),
        None => {},
    }
    assert forall|i: int| 0 <= i < (own + nested).len() implies name_contains((#[trigger] (own + nested)[i]).name, q) by {
        if i < own.len() {
            assert((own + nested)[i] == own[i]);
        } else {
            assert((own + nested)[i] == nested[i - own.len()]);
        }
    }
}

/// Every symbol a search reports has a name whose lowercase form contains
/// the lowercase query.
pub proof fn search_reports_only_names_containing_the_query(
    documents: Seq<(&str, &Program)>,
    query_lower: Seq<char>,
)
    ensures
        forall|i: int|
            0 <= i < search_results(documents, query_lower).len() ==> name_contains(
                (#[trigger] search_results(documents, query_lower)[i]).name,
                query_lower,
            ),
    decreases documents.len(),
{
    if documents.len() > 0 {
        let (uri, program) = documents[documents.len() - 1];
        search_reports_only_names_containing_the_query(documents.drop_last(), query_lower);
        lemma_matches_contain(uri@, outline(program.statements@), query_lower);
        let a = search_results(documents.drop_last(), query_lower);
        let b = matches_in(uri@, outline(program.statements@), query_lower);
        assert forall|i: int| 0 <= i < (a + b).len() implies name_contains((#[trigger] (a + b)[i]).name, query_lower) by {
            if i < a.len() {
                assert((a + b)[i] == a[i]);
            } else {
                assert((a + b)[i] == b[i - a.len()]);
            }
        }
    }
}

impl WorkspaceSymbolProvider {
    /// Searches the symbols of every given document (its URI with its
    /// parsed program) for names that contain `query`, ignoring case. An
    /// empty query matches every symbol.
    pub fn search(documents: &[(&str, &Program)], query: &str) -> (r: Vec<SymbolInformation>)
        ensures
            r@.map_values(|s: SymbolInformation| s@) == search_results(
                documents@,
                lowercase(query@),
            ),
    {
        let query_lower = to_lowercase(query);
        let mut results: Vec<SymbolInformation> = Vec::new();
        let mut i: usize = 0;
        while i < documents.len()
            invariant
                i <= documents@.len(),
                query_lower@ == lowercase(query@),
                results@.map_values(|s: SymbolInformation| s@) == search_results(
                    documents@.take(i as int),
                    query_lower@,
                ),
            decreases documents@.len() - i,
        {
            proof {
                assert(documents@.take(i + 1).drop_last() =~= documents@.take(i as int));
                assert(documents@.take(i + 1)[i as int] == documents@[i as int]);
            }
            let (uri, program) = documents[i];
            let symbols = extract_document_symbols(program);
            Self::flatten(uri, &symbols, query_lower.as_str(), &mut results);
            i += 1;
        }
        proof {
            assert(documents@.take(i as int) =~= documents@);
        }
        results
    }

    /// Appends the matches among `symbols` and everything nested in them,
    /// each with `uri` as its location's document.
    fn flatten(
        uri: &str,
        symbols: &Vec<DocumentSymbol>,
        query_lower: &str,
        results: &mut Vec<SymbolInformation>,
    )
        ensures
            final(results)@.map_values(|s: SymbolInformation| s@) == old(results)@.map_values(
                |s: SymbolInformation| s@,
            ) + matches_in(uri@, symbols_view(symbols@), query_lower@),
        decreases symbols@,
    {
        let ghost start = results@.map_values(|s: SymbolInformation| s@);
        let mut i: usize = 0;
        while i < symbols.len()
            invariant
                i <= symbols@.len(),
                results@.map_values(|s: SymbolInformation| s@) == start + matches_in(
                    uri@,
                    symbols_view(symbols@.take(i as int)),
                    query_lower@,
                ),
            decreases symbols@.len() - i,
        {
            let symbol = &symbols[i];
            proof {
                assert(symbols@.take(i + 1).drop_last() =~= symbols@.take(i as int));
                assert(symbols@.take(i + 1)[i as int] == symbols@[i as int]);
            }
            let ghost before = results@.map_values(|s: SymbolInformation| s@);
            let name_lower = to_lowercase(symbol.name.as_str());
            if contains_text(name_lower.as_str(), query_lower) {
                results.push(
                    SymbolInformation {
                        name: owned(symbol.name.as_str()),
                        kind: symbol.kind,
                        location: Location { uri: owned(uri), range: symbol.range },
                    },
                );
                proof {
                    assert(results@.map_values(|s: SymbolInformation| s@).drop_last() =~= before);
                }
            }
            let ghost middle = results@.map_values(|s: SymbolInformation| s@);
            if let Some(children) = &symbol.children {
                Self::flatten(uri, children, query_lower, results);
            }
            let ghost tail = match &symbol.children {
                Some(c) => matches_in(uri@, symbols_view(c@), query_lower@),
                None => Seq::empty(),
            };
            assert(results@.map_values(|s: SymbolInformation| s@) =~= middle + tail);
            proof {
                lemma_symbols_view(symbols@.take(i + 1));
                let prev = symbols_view(symbols@.take(i as int));
                let cur = symbols_view(symbols@.take(i + 1));
                assert(cur == prev.push(symbol_view(*symbol)));
                assert(cur.drop_last() =~= prev);
                let v = symbol_view(*symbol);
                assert(middle =~= before + (if name_matches(v.name, query_lower@) {
                    seq![
                        SymbolInformationView {
                            name: v.name,
                            kind: v.kind,
                            uri: uri@,
                            range: v.range,
                        },
                    ]
                } else {
                    Seq::empty()
                }));
                assert(matches_in(uri@, cur, query_lower@) == matches_in(uri@, prev, query_lower@)
                    + matches_at(uri@, v, query_lower@));
                assert(results@.map_values(|s: SymbolInformation| s@) =~= start + matches_in(
                    uri@,
                    cur,
                    query_lower@,
                ));
            }
            i += 1;
        }
        proof {
            assert(symbols@.take(i as int) =~= symbols@);
        }
    }
}

} // verus!

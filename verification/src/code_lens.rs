//! Code lenses: an "N references" lens above every declared variable,
//! function and subroutine, built from the declarations that go to
//! definition extracts and the occurrences that find-all-references finds.
use crate::definition::{
    keyed_by_name, lemma_collect_keyed, collect_definitions, DefinitionProvider, DefinitionView,
    SymbolDefinition,
};
use crate::protocol::{CodeLens, Command, CommandArgument, Location, Range};
use crate::references::{locations_in, locations_of, reference_spans, ReferencesProvider};
use crate::syntax::{lsp_range, span_to_range, Position, Program, Span, Token};
use crate::text::{count_string, decimal_digits, owned};
use vstd::prelude::*;

verus! {

/// Provides Code Lens functionality.
pub struct CodeLensProvider;

/// Whether source position `a` comes before or at `b`.
pub open spec fn source_le(a: Position, b: Position) -> bool {
    a.line < b.line || (a.line == b.line && a.column <= b.column)
}

/// `defs` lists the definitions of `m`, each once, ordered by where they
/// are declared (ties in any order).
pub open spec fn declaration_order(m: Map<Seq<char>, DefinitionView>, defs: Seq<DefinitionView>) -> bool {
    &&& defs.len() == m.len()
    &&& forall|i: int|
        0 <= i < defs.len() ==> m.contains_key((#[trigger] defs[i]).name) && m[defs[i].name]
            == defs[i]
    &&& forall|i: int, j: int|
        0 <= i < j < defs.len() ==> (#[trigger] defs[i]).name != (#[trigger] defs[j]).name
    &&& forall|i: int, j: int|
        0 <= i < j < defs.len() ==> source_le(
            (#[trigger] defs[i]).span.start,
            (#[trigger] defs[j]).span.start,
        )
}

/// The occurrences of a symbol other than its declaring one: the first
/// occurrence on the declaration's line is dropped.
pub open spec fn without_declaration(spans: Seq<Span>, line: usize) -> Seq<Span>
    decreases spans.len(),
{
    if spans.len() == 0 {
        Seq::empty()
    } else if spans[0].start.line == line {
        spans.subrange(1, spans.len() as int)
    } else {
        seq![spans[0]] + without_declaration(spans.subrange(1, spans.len() as int), line)
    }
}

/// The references a lens counts for a definition.
pub open spec fn counted_references(d: DefinitionView, tokens: Seq<Token>) -> Seq<Span> {
    without_declaration(reference_spans(tokens, d.name), d.span.start.line)
}

/// The title of a lens counting `n` references.
pub open spec fn lens_title(n: nat) -> Seq<char> {
    if n == 1 {
        decimal_digits(n) + " reference"@
    } else {
        decimal_digits(n) + " references"@
    }
}

/// Whether `lens` is the lens of definition `d` in document `uri`: at the
/// declaration's range, titled with the reference count, running the
/// show-references command on the references' locations.
pub open spec fn is_lens_for(lens: CodeLens, d: DefinitionView, tokens: Seq<Token>, uri: Seq<char>) -> bool {
    let refs = counted_references(d, tokens);
    &&& lens.range == lsp_range(d.span)
    &&& lens.command matches Some(c) && {
        &&& c.title@ == lens_title(refs.len())
        &&& c.command@ == "editor.action.showReferences"@
        &&& c.arguments matches Some(args) && args@.len() == 3 && (args@[0] matches CommandArgument::Uri(u) && u@ == uri)
            && args@[1] == CommandArgument::Position(lsp_range(d.span).start)
            && (args@[2] matches CommandArgument::Locations(locs) && locations_of(uri, refs, locs@))
    }
}

impl CodeLensProvider {
    /// Builds a "N references" lens for every declared symbol of the
    /// program, ordered by declaration position.
    pub fn get_code_lenses(ast: &Program, tokens: &[Token], uri: &str) -> (r: Vec<CodeLens>)
        ensures
            exists|defs: Seq<DefinitionView>|
                #![trigger declaration_order(collect_definitions(ast.statements@, Map::empty()), defs)]
                declaration_order(collect_definitions(ast.statements@, Map::empty()), defs)
                    && r@.len() == defs.len() && forall|i: int|
                    0 <= i < r@.len() ==> is_lens_for(#[trigger] r@[i], defs[i], tokens@, uri@),
    {
        let map = DefinitionProvider::extract_definitions(ast);
        let ghost m = collect_definitions(ast.statements@, Map::empty());
        proof {
            map.lemma_definitions();
            lemma_collect_keyed(ast.statements@, Map::empty());
        }
        let definitions = map.values();
        let order = Self::declaration_order_of(&definitions);
        let ghost defs = order@.map_values(|k: usize| definitions@[k as int]@);
        proof {
            assert forall|i: int| 0 <= i < defs.len() implies m.contains_key(
                (#[trigger] defs[i]).name,
            ) && m[defs[i].name] == defs[i] by {
                let k = order@[i] as int;
                assert(m[map.keys()[k]] == map.definitions()[k]@);
                assert(m[map.keys()[k]].name == map.keys()[k]);
            }
            assert forall|i: int, j: int| 0 <= i < j < defs.len() implies (#[trigger] defs[i]).name
                != (#[trigger] defs[j]).name by {
                let a = order@[i] as int;
                let b = order@[j] as int;
                assert(m[map.keys()[a]].name == map.keys()[a]);
                assert(m[map.keys()[b]].name == map.keys()[b]);
                if a < b {
                    assert(map.keys()[a] != map.keys()[b]);
                } else {
                    assert(map.keys()[b] != map.keys()[a]);
                }
            }
            assert(declaration_order(m, defs));
        }
        let mut lenses: Vec<CodeLens> = Vec::new();
        let mut i: usize = 0;
        while i < order.len()
            invariant
                i <= order@.len(),
                order@.len() == definitions@.len(),
                forall|k: int| 0 <= k < order@.len() ==> (#[trigger] order@[k]) < definitions@.len(),
                defs == order@.map_values(|k: usize| definitions@[k as int]@),
                lenses@.len() == i,
                forall|k: int|
                    0 <= k < i ==> is_lens_for(#[trigger] lenses@[k], defs[k], tokens@, uri@),
            decreases order@.len() - i,
        {
            let definition = definitions[order[i]];
            lenses.push(Self::lens_for_definition(definition, tokens, uri));
            i += 1;
        }
        lenses
    }

    /// The indices of `definitions` ordered by declaration position;
    /// definitions declared at the same position keep their order.
    fn declaration_order_of(definitions: &Vec<&SymbolDefinition>) -> (r: Vec<usize>)
        ensures
            r@.len() == definitions@.len(),
            forall|k: int| 0 <= k < r@.len() ==> (#[trigger] r@[k]) < definitions@.len(),
            forall|a: int, b: int|
                0 <= a < b < r@.len() ==> #[trigger] r@[a] != #[trigger] r@[b],
            forall|a: int, b: int|
                0 <= a < b < r@.len() ==> source_le(
                    definitions@[#[trigger] r@[a] as int].span.start,
                    definitions@[#[trigger] r@[b] as int].span.start,
                ),
    {
        let mut order: Vec<usize> = Vec::new();
        let mut i: usize = 0;
        while i < definitions.len()
            invariant
                i <= definitions@.len(),
                order@.len() == i,
                forall|k: int| 0 <= k < order@.len() ==> (#[trigger] order@[k]) < i,
                forall|a: int, b: int|
                    0 <= a < b < order@.len() ==> #[trigger] order@[a] != #[trigger] order@[b],
                forall|a: int, b: int|
                    0 <= a < b < order@.len() ==> source_le(
                        definitions@[#[trigger] order@[a] as int].span.start,
                        definitions@[#[trigger] order@[b] as int].span.start,
                    ),
            decreases definitions@.len() - i,
        {
            let start = definitions[i].span.start;
            let mut p: usize = order.len();
            while p > 0 && !Self::starts_before_or_at(definitions[order[p - 1]].span.start, start)
                invariant
                    p <= order@.len(),
                    order@.len() == i,
                    i < definitions@.len(),
                    start == definitions@[i as int].span.start,
                    forall|k: int| 0 <= k < order@.len() ==> (#[trigger] order@[k]) < i,
                    forall|k: int|
                        p <= k < order@.len() ==> !source_le(
                            definitions@[#[trigger] order@[k] as int].span.start,
                            start,
                        ),
                decreases p,
            {
                p -= 1;
            }
            let ghost before = order@;
            order.insert(p, i);
            proof {
                assert forall|k: int| 0 <= k < order@.len() implies (#[trigger] order@[k]) < i + 1 by {
                    if k < p {
                        assert(order@[k] == before[k]);
                    } else if k > p {
                        assert(order@[k] == before[k - 1]);
                    }
                }
                assert forall|a: int, b: int| 0 <= a < b < order@.len() implies #[trigger] order@[a]
                    != #[trigger] order@[b] by {
                    if a < p {
                        assert(order@[a] == before[a]);
                    } else if a > p {
                        assert(order@[a] == before[a - 1]);
                    }
                    if b < p {
                        assert(order@[b] == before[b]);
                    } else if b > p {
                        assert(order@[b] == before[b - 1]);
                    }
                }
                assert forall|a: int, b: int| 0 <= a < b < order@.len() implies source_le(
                    definitions@[#[trigger] order@[a] as int].span.start,
                    definitions@[#[trigger] order@[b] as int].span.start,
                ) by {
                    if a < p {
                        assert(order@[a] == before[a]);
                    } else if a > p {
                        assert(order@[a] == before[a - 1]);
                    }
                    if b < p {
                        assert(order@[b] == before[b]);
                    } else if b > p {
                        assert(order@[b] == before[b - 1]);
                    }
                    if b == p && a < p - 1 {
                        assert(source_le(
                            definitions@[before[a] as int].span.start,
                            definitions@[before[p - 1] as int].span.start,
                        ));
                    }
                }
            }
            i += 1;
        }
        order
    }

    /// Whether source position `a` comes before or at `b`.
    fn starts_before_or_at(a: Position, b: Position) -> (r: bool)
        ensures
            r == source_le(a, b),
    {
        a.line < b.line || (a.line == b.line && a.column <= b.column)
    }

    /// Builds the "N references" lens of one declared symbol.
    fn lens_for_definition(definition: &SymbolDefinition, tokens: &[Token], uri: &str) -> (r:
        CodeLens)
        ensures
            is_lens_for(r, definition@, tokens@, uri@),
    {
        let locations = Self::reference_locations(definition, tokens, uri);
        let count = locations.len();
        let mut title = count_string(count);
        if count == 1 {
            title.append(" reference");
        } else {
            title.append(" references");
        }
        let range = span_to_range(definition.span);
        let mut arguments: Vec<CommandArgument> = Vec::new();
        arguments.push(CommandArgument::Uri(owned(uri)));
        arguments.push(CommandArgument::Position(range.start));
        arguments.push(CommandArgument::Locations(locations));
        CodeLens {
            range,
            command: Some(
                Command {
                    title,
                    command: owned("editor.action.showReferences"),
                    arguments: Some(arguments),
                },
            ),
        }
    }

    /// The locations of every occurrence of the symbol but its declaring
    /// one: the first occurrence on the declaration's line.
    fn reference_locations(definition: &SymbolDefinition, tokens: &[Token], uri: &str) -> (r: Vec<
        Location,
    >)
        ensures
            locations_of(uri@, counted_references(definition@, tokens@), r@),
    {
        let declaration_line = definition.span.start.line;
        let spans = ReferencesProvider::find_all_references(tokens, definition.name.as_str());
        let mut kept: Vec<Span> = Vec::new();
        let mut skipped_declaration = false;
        proof {
            assert(spans@.subrange(0, spans@.len() as int) =~= spans@);
            assert(kept@ + without_declaration(spans@, declaration_line) =~= without_declaration(
                spans@,
                declaration_line,
            ));
        }
        let mut i: usize = 0;
        while i < spans.len()
            invariant
                i <= spans@.len(),
                without_declaration(spans@, declaration_line) == if skipped_declaration {
                    kept@ + spans@.subrange(i as int, spans@.len() as int)
                } else {
                    kept@ + without_declaration(
                        spans@.subrange(i as int, spans@.len() as int),
                        declaration_line,
                    )
                },
            decreases spans@.len() - i,
        {
            let ghost rest = spans@.subrange(i as int, spans@.len() as int);
            proof {
                assert(rest[0] == spans@[i as int]);
                assert(rest.subrange(1, rest.len() as int) =~= spans@.subrange(
                    i + 1,
                    spans@.len() as int,
                ));
                assert(rest =~= seq![spans@[i as int]] + spans@.subrange(
                    i + 1,
                    spans@.len() as int,
                ));
            }
            if !skipped_declaration && spans[i].start.line == declaration_line {
                skipped_declaration = true;
            } else {
                kept.push(spans[i]);
            }
            i += 1;
        }
        proof {
            assert(spans@.subrange(i as int, spans@.len() as int) =~= Seq::<Span>::empty());
            assert(kept@ + Seq::<Span>::empty() =~= kept@);
        }
        locations_in(uri, &kept)
    }
}

} // verus!

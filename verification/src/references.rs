//! Find-all-references: every occurrence of the identifier under the cursor.
use crate::protocol::{Location, Position};
use crate::syntax::{identifier_at, identifier_name_at, lsp_range, span_to_range, Span, Token, TokenKind};
use crate::text::{owned, str_eq};
use vstd::prelude::*;

verus! {

/// Provides Find All References functionality.
pub struct ReferencesProvider;

/// Whether `t` is an occurrence of `name`: an identifier token whose name or
/// source text is `name`.
pub open spec fn is_reference(t: Token, name: Seq<char>) -> bool {
    t.kind matches TokenKind::Identifier(n) && (n@ == name || t.lexeme@ == name)
}

/// The spans of every occurrence of `name`, in token order.
pub open spec fn reference_spans(tokens: Seq<Token>, name: Seq<char>) -> Seq<Span>
    decreases tokens.len(),
{
    if tokens.len() == 0 {
        Seq::empty()
    } else {
        reference_spans(tokens.drop_last(), name) + if is_reference(tokens.last(), name) {
            seq![tokens.last().span]
        } else {
            Seq::empty()
        }
    }
}

/// The locations of a list of spans inside document `uri`.
pub open spec fn locations_of(uri: Seq<char>, spans: Seq<Span>, locations: Seq<Location>) -> bool {
    &&& locations.len() == spans.len()
    &&& forall|i: int|
        0 <= i < spans.len() ==> #[trigger] locations[i].uri@ == uri && locations[i].range
            == lsp_range(spans[i])
}

/// The occurrences of the identifier at `pos`, if there is one and it has
/// any occurrence.
pub open spec fn references_at(tokens: Seq<Token>, pos: Position) -> Option<Seq<Span>> {
    match identifier_name_at(tokens, pos) {
        None => None,
        Some(name) => if reference_spans(tokens, name).len() == 0 {
            None
        } else {
            Some(reference_spans(tokens, name))
        },
    }
}

/// The occurrences to report: all of them, or, when the declaration is not
/// wanted, all but the declaring one. CRBasic requires a name to be declared
/// before it is used, so the declaring occurrence is the first.
pub open spec fn reported_spans(spans: Seq<Span>, include_declaration: bool) -> Seq<Span> {
    if include_declaration {
        spans
    } else {
        spans.drop_first()
    }
}

impl ReferencesProvider {
    /// Finds the identifier at the given position (0-indexed) and returns its text.
    pub fn find_identifier_at_position(tokens: &[Token], position: Position) -> (r: Option<
        String,
    >)
        ensures
            match (r, identifier_name_at(tokens@, position)) {
                (Some(s), Some(t)) => s@ == t,
                (None, None) => true,
                _ => false,
            },
    {
        identifier_at(tokens, position)
    }

    /// Finds the spans of every occurrence of `symbol_name`: identifier
    /// tokens whose name or source text equals it.
    pub fn find_all_references(tokens: &[Token], symbol_name: &str) -> (r: Vec<Span>)
        ensures
            r@ == reference_spans(tokens@, symbol_name@),
    {
        let mut spans: Vec<Span> = Vec::new();
        let mut i: usize = 0;
        while i < tokens.len()
            invariant
                i <= tokens@.len(),
                spans@ == reference_spans(tokens@.take(i as int), symbol_name@),
            decreases tokens@.len() - i,
        {
            proof {
                assert(tokens@.take(i + 1).drop_last() =~= tokens@.take(i as int));
            }
            let t = &tokens[i];
            let matches = match &t.kind {
                TokenKind::Identifier(name) => str_eq(name.as_str(), symbol_name) || str_eq(
                    t.lexeme.as_str(),
                    symbol_name,
                ),
                _ => false,
            };
            if matches {
                spans.push(t.span);
            }
            proof {
                assert(spans@ =~= reference_spans(tokens@.take(i + 1), symbol_name@));
            }
            i += 1;
        }
        proof {
            assert(tokens@.take(i as int) =~= tokens@);
        }
        spans
    }

    /// Gets the location of every occurrence of the identifier at the given
    /// position, in document `uri`; `None` when the cursor is not on an
    /// identifier or it has no occurrence. The declaring occurrence (the
    /// first) is included only when `include_declaration` is set.
    pub fn get_references(
        tokens: &[Token],
        position: Position,
        uri: &str,
        include_declaration: bool,
    ) -> (r: Option<Vec<Location>>)
        ensures
            match references_at(tokens@, position) {
                None => r is None,
                Some(spans) => r matches Some(locs) && locations_of(
                    uri@,
                    reported_spans(spans, include_declaration),
                    locs@,
                ),
            },
    {
        let symbol_name = match Self::find_identifier_at_position(tokens, position) {
            Some(s) => s,
            None => return None,
        };
        let spans = Self::find_all_references(tokens, symbol_name.as_str());
        if spans.len() == 0 {
            return None;
        }
        if include_declaration {
            Some(locations_in(uri, &spans))
        } else {
            let mut rest: Vec<Span> = Vec::new();
            let mut i: usize = 1;
            while i < spans.len()
                invariant
                    1 <= i <= spans@.len(),
                    rest@ == spans@.subrange(1, i as int),
                decreases spans@.len() - i,
            {
                rest.push(spans[i]);
                i += 1;
            }
            proof {
                assert(rest@ =~= spans@.drop_first());
            }
            Some(locations_in(uri, &rest))
        }
    }
}

/// The locations of `spans` inside document `uri`.
pub fn locations_in(uri: &str, spans: &Vec<Span>) -> (r: Vec<Location>)
    ensures
        locations_of(uri@, spans@, r@),
{
    let mut locations: Vec<Location> = Vec::new();
    let mut i: usize = 0;
    while i < spans.len()
        invariant
            i <= spans@.len(),
            locations@.len() == i,
            forall|j: int|
                0 <= j < i ==> #[trigger] locations@[j].uri@ == uri@ && locations@[j].range
                    == lsp_range(spans@[j]),
        decreases spans@.len() - i,
    {
        locations.push(Location { uri: owned(uri), range: span_to_range(spans[i]) });
        i += 1;
    }
    locations
}

/// Every occurrence found is an identifier token named as the symbol.
pub proof fn references_are_occurrences(tokens: Seq<Token>, name: Seq<char>, i: int)
    requires
        0 <= i < reference_spans(tokens, name).len(),
    ensures
        exists|k: int|
            0 <= k < tokens.len() && is_reference(tokens[k], name) && tokens[k].span
                == reference_spans(tokens, name)[i],
    decreases tokens.len(),
{
    let prefix = reference_spans(tokens.drop_last(), name);
    if i < prefix.len() {
        references_are_occurrences(tokens.drop_last(), name, i);
        let k = choose|k: int|
            0 <= k < tokens.drop_last().len() && is_reference(tokens.drop_last()[k], name)
                && tokens.drop_last()[k].span == prefix[i];
        assert(tokens[k] == tokens.drop_last()[k]);
    } else {
        assert(tokens[tokens.len() - 1] == tokens.last());
    }
}

/// Every identifier token named as the symbol is found.
pub proof fn occurrences_are_references(tokens: Seq<Token>, name: Seq<char>, k: int)
    requires
        0 <= k < tokens.len(),
        is_reference(tokens[k], name),
    ensures
        reference_spans(tokens, name).contains(tokens[k].span),
    decreases tokens.len(),
{
    if k < tokens.len() - 1 {
        occurrences_are_references(tokens.drop_last(), name, k);
        let prefix = reference_spans(tokens.drop_last(), name);
        let j = choose|j: int| 0 <= j < prefix.len() && prefix[j] == tokens.drop_last()[k].span;
        assert(reference_spans(tokens, name)[j] == prefix[j]);
    } else {
        let all = reference_spans(tokens, name);
        assert(all[all.len() - 1] == tokens[k].span);
    }
}

} // verus!

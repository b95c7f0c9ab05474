//! Linked editing ranges: every occurrence of the symbol under the cursor
//! is edited together with it.
use crate::protocol::{LinkedEditingRanges, Position, Range};
use crate::references::{references_at, ReferencesProvider};
use crate::syntax::{lsp_range, span_to_range, Token};
use crate::text::owned;
use vstd::prelude::*;

verus! {

/// The word pattern of a CRBasic identifier: an ASCII letter or underscore
/// followed by any number of ASCII letters, digits or underscores.
pub const IDENTIFIER_WORD_PATTERN: &'static str = "^[A-Za-z_][A-Za-z0-9_]*$";

/// Provides Linked Editing Range functionality.
pub struct LinkedEditingRangeProvider;

impl LinkedEditingRangeProvider {
    /// The ranges of every occurrence of the symbol under the cursor, with
    /// the identifier word pattern; `None` if the cursor is not on an
    /// identifier.
    pub fn get_linked_editing_ranges(tokens: &[Token], position: Position) -> (r: Option<
        LinkedEditingRanges,
    >)
        ensures
            match references_at(tokens@, position) {
                None => r is None,
                Some(spans) => r matches Some(l) && l.word_pattern matches Some(p) && p@
                    == IDENTIFIER_WORD_PATTERN@ && l.ranges@ == spans.map_values(
                    |s| lsp_range(s),
                ),
            },
    {
        let symbol_name = match ReferencesProvider::find_identifier_at_position(tokens, position) {
            Some(s) => s,
            None => return None,
        };
        let spans = ReferencesProvider::find_all_references(tokens, symbol_name.as_str());
        if spans.len() == 0 {
            return None;
        }
        let mut ranges: Vec<Range> = Vec::new();
        let mut i: usize = 0;
        while i < spans.len()
            invariant
                i <= spans@.len(),
                ranges@ == spans@.take(i as int).map_values(|s| lsp_range(s)),
            decreases spans@.len() - i,
        {
            ranges.push(span_to_range(spans[i]));
            proof {
                assert(spans@.take(i + 1).map_values(|s| lsp_range(s)) =~= spans@.take(
                    i as int,
                ).map_values(|s| lsp_range(s)).push(lsp_range(spans@[i as int])));
            }
            i += 1;
        }
        proof {
            assert(spans@.take(i as int) =~= spans@);
        }
        Some(
            LinkedEditingRanges {
                ranges,
                word_pattern: Some(owned(IDENTIFIER_WORD_PATTERN)),
            },
        )
    }
}

} // verus!

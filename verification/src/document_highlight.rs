//! Document highlight: marks every occurrence of the symbol under the cursor.
use crate::protocol::{DocumentHighlight, DocumentHighlightKind, Position};
use crate::references::{references_at, ReferencesProvider};
use crate::syntax::{lsp_range, span_to_range, Token};
use vstd::prelude::*;

verus! {

/// Provides Document Highlight functionality.
pub struct DocumentHighlightProvider;

impl DocumentHighlightProvider {
    /// A textual highlight for every occurrence of the symbol under the
    /// cursor, or `None` if the cursor is not on an identifier.
    pub fn get_document_highlights(tokens: &[Token], position: Position) -> (r: Option<
        Vec<DocumentHighlight>,
    >)
        ensures
            match references_at(tokens@, position) {
                None => r is None,
                Some(spans) => r matches Some(hs) && hs@.len() == spans.len() && forall|i: int|
                    0 <= i < spans.len() ==> #[trigger] hs@[i] == (DocumentHighlight {
                        range: lsp_range(spans[i]),
                        kind: Some(DocumentHighlightKind::Text),
                    }),
            },
    {
        let symbol_name = match ReferencesProvider::find_identifier_at_position(tokens, position) {
            Some(s) => s,
            None => return None,
        };
        let spans = ReferencesProvider::find_all_references(tokens, symbol_name.as_str());
        if spans.len() == 0 {
            return None;
        }
        let mut highlights: Vec<DocumentHighlight> = Vec::new();
        let mut i: usize = 0;
        while i < spans.len()
            invariant
                i <= spans@.len(),
                highlights@.len() == i,
                forall|j: int|
                    0 <= j < i ==> #[trigger] highlights@[j] == (DocumentHighlight {
                        range: lsp_range(spans@[j]),
                        kind: Some(DocumentHighlightKind::Text),
                    }),
            decreases spans@.len() - i,
        {
            highlights.push(
                DocumentHighlight {
                    range: span_to_range(spans[i]),
                    kind: Some(DocumentHighlightKind::Text),
                },
            );
            i += 1;
        }
        Some(highlights)
    }
}

} // verus!

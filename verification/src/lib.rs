use vstd::prelude::*;

pub mod backend;
pub mod call_hierarchy;
pub mod call_sites;
pub mod code_action;
pub mod code_lens;
pub mod completion;
pub mod definition;
pub mod document;
pub mod folding;
pub mod document_highlight;
pub mod hover;
pub mod hover_headings;
pub mod inlay_hint;
pub mod linked_editing_range;
pub mod protocol;
pub mod references;
pub mod rename;
pub mod selection_range;
pub mod semantic_tokens;
pub mod signature;
pub mod symbols;
pub mod syntax;
pub mod text;
pub mod workspace_symbol;

verus! {

} // verus!

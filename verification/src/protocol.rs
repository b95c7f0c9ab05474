//! The Language Server Protocol values that the providers produce.
//!
//! Positions here are 0-indexed, as the protocol has them; source positions
//! of the syntax tree (`crate::syntax`) are 1-indexed.
use vstd::prelude::*;

verus! {

/// A 0-indexed (line, character) position in a document.
#[derive(Debug, Clone, Copy, PartialEq, Eq)]
pub struct Position {
    pub line: u32,
    pub character: u32,
}

/// A half-open range between two positions.
#[derive(Debug, Clone, Copy, PartialEq, Eq)]
pub struct Range {
    pub start: Position,
    pub end: Position,
}

/// How a markup string is to be rendered.
#[derive(Debug, Clone, Copy, PartialEq, Eq)]
pub enum MarkupKind {
    PlainText,
    Markdown,
}

/// A string with its rendering kind.
#[derive(Debug, Clone, PartialEq, Eq)]
pub struct MarkupContent {
    pub kind: MarkupKind,
    pub value: String,
}

/// A location inside a document.
#[derive(Debug, Clone, PartialEq, Eq)]
pub struct Location {
    pub uri: String,
    pub range: Range,
}

/// Builds a Markdown markup content.
pub fn markdown(value: String) -> (r: MarkupContent)
    ensures
        r.kind == MarkupKind::Markdown,
        r.value@ == value@,
{
    MarkupContent { kind: MarkupKind::Markdown, value }
}

/// Whether `a` comes before or at `b`, ordering by line, then character.
pub open spec fn position_le(a: Position, b: Position) -> bool {
    a.line < b.line || (a.line == b.line && a.character <= b.character)
}

/// Whether `a` comes before or at `b` (the protocol's position order).
pub fn position_is_before_or_at(a: Position, b: Position) -> (r: bool)
    ensures
        r == position_le(a, b),
{
    a.line < b.line || (a.line == b.line && a.character <= b.character)
}

/// Whether `m` is Markdown content holding `text`.
pub open spec fn is_markdown(m: Option<MarkupContent>, text: Seq<char>) -> bool {
    m matches Some(c) && c.kind == MarkupKind::Markdown && c.value@ == text
}

/// One parameter of a signature shown in signature help.
#[derive(Debug, Clone, PartialEq, Eq)]
pub struct ParameterInformation {
    pub label: String,
    pub documentation: Option<MarkupContent>,
}

/// One signature shown in signature help.
#[derive(Debug, Clone, PartialEq, Eq)]
pub struct SignatureInformation {
    pub label: String,
    pub documentation: Option<MarkupContent>,
    pub parameters: Option<Vec<ParameterInformation>>,
    pub active_parameter: Option<u32>,
}

/// The answer to a signature help request.
#[derive(Debug, Clone, PartialEq, Eq)]
pub struct SignatureHelp {
    pub signatures: Vec<SignatureInformation>,
    pub active_signature: Option<u32>,
    pub active_parameter: Option<u32>,
}

/// A replacement of the text in `range`.
#[derive(Debug, Clone, PartialEq, Eq)]
pub struct TextEdit {
    pub range: Range,
    pub new_text: String,
}

/// Edits to apply across documents, grouped by document URI.
#[derive(Debug, Clone, PartialEq, Eq)]
pub struct WorkspaceEdit {
    pub changes: Vec<(String, Vec<TextEdit>)>,
}

/// How an occurrence is highlighted.
#[derive(Debug, Clone, Copy, PartialEq, Eq)]
pub enum DocumentHighlightKind {
    Text,
    Read,
    Write,
}

/// One highlighted occurrence in a document.
#[derive(Debug, Clone, Copy, PartialEq, Eq)]
pub struct DocumentHighlight {
    pub range: Range,
    pub kind: Option<DocumentHighlightKind>,
}

/// Ranges that are edited together, and the pattern new text must match.
#[derive(Debug, Clone, PartialEq, Eq)]
pub struct LinkedEditingRanges {
    pub ranges: Vec<Range>,
    pub word_pattern: Option<String>,
}

/// A foldable line range (0-indexed lines).
#[derive(Debug, Clone, Copy, PartialEq, Eq)]
pub struct FoldingRange {
    pub start_line: u32,
    pub end_line: u32,
}

/// The kind of a document symbol.
#[derive(Debug, Clone, Copy, PartialEq, Eq)]
pub enum SymbolKind {
    Namespace,
    Method,
    Function,
    Variable,
    Constant,
}

/// A symbol of a document's outline, with the symbols nested inside it.
#[derive(Debug, PartialEq, Eq)]
pub struct DocumentSymbol {
    pub name: String,
    pub kind: SymbolKind,
    pub range: Range,
    pub selection_range: Range,
    pub children: Option<Vec<DocumentSymbol>>,
}

/// A document symbol as plain values.
pub struct DocumentSymbolView {
    pub name: Seq<char>,
    pub kind: SymbolKind,
    pub range: Range,
    pub selection_range: Range,
    pub children: Option<Seq<DocumentSymbolView>>,
}

/// The plain value of a document symbol.
pub open spec fn symbol_view(d: DocumentSymbol) -> DocumentSymbolView
    decreases d,
{
    DocumentSymbolView {
        name: d.name@,
        kind: d.kind,
        range: d.range,
        selection_range: d.selection_range,
        children: match d.children {
            Some(c) => Some(symbols_view(c@)),
            None => None,
        },
    }
}

/// The plain values of a list of document symbols.
pub open spec fn symbols_view(s: Seq<DocumentSymbol>) -> Seq<DocumentSymbolView>
    decreases s,
{
    if s.len() == 0 {
        Seq::empty()
    } else {
        symbols_view(s.drop_last()).push(symbol_view(s[s.len() - 1]))
    }
}

/// The plain values of a list of symbols are those of its elements, in order.
pub proof fn lemma_symbols_view(s: Seq<DocumentSymbol>)
    ensures
        symbols_view(s).len() == s.len(),
        forall|i: int| 0 <= i < s.len() ==> #[trigger] symbols_view(s)[i] == symbol_view(s[i]),
    decreases s.len(),
{
    if s.len() > 0 {
        lemma_symbols_view(s.drop_last());
        assert forall|i: int| 0 <= i < s.len() implies #[trigger] symbols_view(s)[i] == symbol_view(
            s[i],
        ) by {
            if i < s.len() - 1 {
                assert(symbols_view(s.drop_last())[i] == symbol_view(s.drop_last()[i]));
            }
        }
    }
}

impl View for DocumentSymbol {
    type V = DocumentSymbolView;

    open spec fn view(&self) -> DocumentSymbolView {
        symbol_view(*self)
    }
}

/// A symbol found in some document, with where it is.
#[derive(Debug, Clone, PartialEq, Eq)]
pub struct SymbolInformation {
    pub name: String,
    pub kind: SymbolKind,
    pub location: Location,
}

/// A found symbol as plain values.
pub struct SymbolInformationView {
    pub name: Seq<char>,
    pub kind: SymbolKind,
    pub uri: Seq<char>,
    pub range: Range,
}

impl View for SymbolInformation {
    type V = SymbolInformationView;

    open spec fn view(&self) -> SymbolInformationView {
        SymbolInformationView {
            name: self.name@,
            kind: self.kind,
            uri: self.location.uri@,
            range: self.location.range,
        }
    }
}

/// A selection range, inside the larger selection ranges that are its parents.
#[derive(Debug, PartialEq, Eq)]
pub struct SelectionRange {
    pub range: Range,
    pub parent: Option<Box<SelectionRange>>,
}

/// The ranges of a selection chain, innermost first.
pub open spec fn chain_ranges(r: SelectionRange) -> Seq<Range>
    decreases r,
{
    seq![r.range] + match r.parent {
        Some(p) => chain_ranges(*p),
        None => Seq::empty(),
    }
}

/// What an inlay hint annotates.
#[derive(Debug, Clone, Copy, PartialEq, Eq)]
pub enum InlayHintKind {
    Type,
    Parameter,
}

/// A label shown inline at a position of a document.
#[derive(Debug, Clone, PartialEq, Eq)]
pub struct InlayHint {
    pub position: Position,
    pub label: String,
    pub kind: Option<InlayHintKind>,
    pub padding_left: Option<bool>,
    pub padding_right: Option<bool>,
}

/// An inlay hint as plain values.
pub struct InlayHintView {
    pub position: Position,
    pub label: Seq<char>,
    pub kind: Option<InlayHintKind>,
    pub padding_left: Option<bool>,
    pub padding_right: Option<bool>,
}

impl View for InlayHint {
    type V = InlayHintView;

    open spec fn view(&self) -> InlayHintView {
        InlayHintView {
            position: self.position,
            label: self.label@,
            kind: self.kind,
            padding_left: self.padding_left,
            padding_right: self.padding_right,
        }
    }
}

/// An argument handed to a client command.
#[derive(Debug, Clone, PartialEq, Eq)]
pub enum CommandArgument {
    /// A document URI
    Uri(String),
    /// A position in a document
    Position(Position),
    /// A list of locations
    Locations(Vec<Location>),
}

/// A client command, with the title shown for it.
#[derive(Debug, Clone, PartialEq, Eq)]
pub struct Command {
    pub title: String,
    pub command: String,
    pub arguments: Option<Vec<CommandArgument>>,
}

/// A command shown above a range of a document.
#[derive(Debug, Clone, PartialEq, Eq)]
pub struct CodeLens {
    pub range: Range,
    pub command: Option<Command>,
}

/// How serious a diagnostic is.
#[derive(Debug, Clone, Copy, PartialEq, Eq)]
pub enum DiagnosticSeverity {
    Error,
    Warning,
    Information,
    Hint,
}

/// A problem reported on a range of a document, with the payload a quick
/// fix reads back from it.
#[derive(Debug, Clone, PartialEq, Eq)]
pub struct Diagnostic {
    pub range: Range,
    pub severity: Option<DiagnosticSeverity>,
    pub code: Option<String>,
    pub source: Option<String>,
    pub message: String,
    pub data: Option<crate::code_action::TruncateVariableNameData>,
}

/// A diagnostic as plain values.
pub struct DiagnosticView {
    pub range: Range,
    pub severity: Option<DiagnosticSeverity>,
    pub code: Option<Seq<char>>,
    pub source: Option<Seq<char>>,
    pub message: Seq<char>,
    pub data: Option<(Seq<char>, usize)>,
}

/// The plain value of an optional string.
pub open spec fn option_text(s: Option<String>) -> Option<Seq<char>> {
    match s {
        Some(t) => Some(t@),
        None => None,
    }
}

impl View for Diagnostic {
    type V = DiagnosticView;

    open spec fn view(&self) -> DiagnosticView {
        DiagnosticView {
            range: self.range,
            severity: self.severity,
            code: option_text(self.code),
            source: option_text(self.source),
            message: self.message@,
            data: match self.data {
                Some(d) => Some((d.variable_name@, d.target_length)),
                None => None,
            },
        }
    }
}

/// What a code action is for.
#[derive(Debug, Clone, Copy, PartialEq, Eq)]
pub enum CodeActionKind {
    QuickFix,
}

/// A change to the workspace offered to the user, with the diagnostics it
/// resolves.
#[derive(Debug, Clone, PartialEq, Eq)]
pub struct CodeAction {
    pub title: String,
    pub kind: Option<CodeActionKind>,
    pub diagnostics: Option<Vec<Diagnostic>>,
    pub edit: Option<WorkspaceEdit>,
    pub is_preferred: Option<bool>,
}

/// A callable symbol in a call hierarchy.
#[derive(Debug, Clone, PartialEq, Eq)]
pub struct CallHierarchyItem {
    pub name: String,
    pub kind: SymbolKind,
    pub uri: String,
    pub range: Range,
    pub selection_range: Range,
}

/// A call hierarchy item as plain values.
pub struct CallHierarchyItemView {
    pub name: Seq<char>,
    pub kind: SymbolKind,
    pub uri: Seq<char>,
    pub range: Range,
    pub selection_range: Range,
}

impl View for CallHierarchyItem {
    type V = CallHierarchyItemView;

    open spec fn view(&self) -> CallHierarchyItemView {
        CallHierarchyItemView {
            name: self.name@,
            kind: self.kind,
            uri: self.uri@,
            range: self.range,
            selection_range: self.selection_range,
        }
    }
}

/// A caller of an item, with the ranges of its calls to the item.
#[derive(Debug, Clone, PartialEq, Eq)]
pub struct CallHierarchyIncomingCall {
    pub from: CallHierarchyItem,
    pub from_ranges: Vec<Range>,
}

/// A callee of an item, with the ranges of the item's calls to it.
#[derive(Debug, Clone, PartialEq, Eq)]
pub struct CallHierarchyOutgoingCall {
    pub to: CallHierarchyItem,
    pub from_ranges: Vec<Range>,
}

} // verus!

//! The document outline: the symbols that a program's top-level statements
//! declare, with those declared inside function and subroutine bodies
//! nested under them.
use crate::protocol::{lemma_symbols_view, symbols_view, DocumentSymbol, DocumentSymbolView, SymbolKind};
use crate::syntax::{lsp_range, span_to_range, statement_span, Expression, Program, Span, Statement};
use crate::text::{decimal, decimal_string, join_strings, joined, owned, str_eq};
use vstd::prelude::*;

verus! {

// ---------------------------------------------------------------------------
// Symbol names
// ---------------------------------------------------------------------------

/// How an argument of a `DataTable` is shown in its symbol's name.
pub open spec fn arg_text(e: Expression) -> Seq<char> {
    match e {
        Expression::IntegerLiteral { value, .. } => decimal(value as int),
        Expression::FloatLiteral { text, .. } => text@,
        Expression::StringLiteral { value, .. } => "\""@ + value@ + "\""@,
        Expression::Identifier { name, .. } => name@,
        _ => "..."@,
    }
}

/// The arguments of a `DataTable` as shown in its symbol's name.
pub open spec fn args_text(args: Seq<Expression>) -> Seq<char> {
    joined(args.map_values(|e: Expression| arg_text(e)), ", "@)
}

/// The name of a program-structure symbol: `DataTable(<args>)` for a
/// `DataTable` with arguments, else the keyword.
pub open spec fn structure_name(keyword: Seq<char>, arguments: Option<Vec<Expression>>) -> Seq<
    char,
> {
    match arguments {
        Some(args) => if keyword == "DataTable"@ && args@.len() > 0 {
            "DataTable("@ + args_text(args@) + ")"@
        } else {
            keyword
        },
        None => keyword,
    }
}

/// The name of a function or subroutine symbol: `<name>(<p1>, <p2>, ...)`.
pub open spec fn callable_name(name: Seq<char>, parameters: Seq<String>) -> Seq<char> {
    name + "("@ + joined(parameters.map_values(|p: String| p@), ", "@) + ")"@
}

/// The name of a variable symbol: `<name> As <type>` when a type is given.
pub open spec fn variable_name(name: Seq<char>, type_annotation: Option<String>) -> Seq<char> {
    match type_annotation {
        Some(t) => name + " As "@ + t@,
        None => name,
    }
}

// ---------------------------------------------------------------------------
// The outline
// ---------------------------------------------------------------------------

/// A symbol spanning `span`, with the given name, kind and children.
pub open spec fn symbol_at(
    name: Seq<char>,
    kind: SymbolKind,
    span: Span,
    children: Seq<DocumentSymbolView>,
) -> DocumentSymbolView {
    DocumentSymbolView {
        name,
        kind,
        range: lsp_range(span),
        selection_range: lsp_range(span),
        children: if children.len() == 0 {
            None
        } else {
            Some(children)
        },
    }
}

/// The symbol a statement declares, if any.
pub open spec fn statement_symbol(s: Statement) -> Option<DocumentSymbolView>
    decreases s,
{
    match s {
        Statement::ProgramStructure { keyword, arguments, span } => Some(
            symbol_at(structure_name(keyword@, arguments), SymbolKind::Namespace, span, Seq::empty()),
        ),
        Statement::FunctionDefinition { name, parameters, body, span } => Some(
            symbol_at(
                callable_name(name@, parameters@),
                SymbolKind::Function,
                span,
                outline(body@),
            ),
        ),
        Statement::SubroutineDefinition { name, parameters, body, span } => Some(
            symbol_at(callable_name(name@, parameters@), SymbolKind::Method, span, outline(body@)),
        ),
        Statement::VarDeclaration { keyword, name, type_annotation, span, .. } => Some(
            symbol_at(
                variable_name(name@, type_annotation),
                if keyword@ == "Const"@ {
                    SymbolKind::Constant
                } else {
                    SymbolKind::Variable
                },
                span,
                Seq::empty(),
            ),
        ),
        _ => None,
    }
}

/// The symbols that a statement list declares, in order.
pub open spec fn outline(stmts: Seq<Statement>) -> Seq<DocumentSymbolView>
    decreases stmts,
{
    if stmts.len() == 0 {
        Seq::empty()
    } else {
        match statement_symbol(stmts[stmts.len() - 1]) {
            Some(d) => outline(stmts.drop_last()).push(d),
            None => outline(stmts.drop_last()),
        }
    }
}

/// Formats `DataTable` arguments for display.
fn format_args(args: &Vec<Expression>) -> (r: String)
    ensures
        r@ == args_text(args@),
{
    let mut parts: Vec<String> = Vec::new();
    let mut i: usize = 0;
    while i < args.len()
        invariant
            i <= args@.len(),
            parts@.len() == i,
            forall|j: int| 0 <= j < i ==> (#[trigger] parts@[j])@ == arg_text(args@[j]),
        decreases args@.len() - i,
    {
        let text = match &args[i] {
            Expression::IntegerLiteral { value, .. } => decimal_string(*value),
            Expression::FloatLiteral { text, .. } => owned(text.as_str()),
            Expression::StringLiteral { value, .. } => {
                let mut s = String::new();
                s.append("\"");
                s.append(value.as_str());
                s.append("\"");
                s
            },
            Expression::Identifier { name, .. } => owned(name.as_str()),
            _ => owned("..."),
        };
        parts.push(text);
        i += 1;
    }
    let r = join_strings(&parts, ", ");
    proof {
        assert(parts@.map_values(|p: String| p@) =~= args@.map_values(|e: Expression| arg_text(e)));
    }
    r
}

/// Builds a symbol spanning `span`; an empty child list becomes `None`.
fn create_symbol(name: String, kind: SymbolKind, span: Span, children: Vec<DocumentSymbol>) -> (r:
    DocumentSymbol)
    ensures
        r@ == symbol_at(name@, kind, span, symbols_view(children@)),
{
    let range = span_to_range(span);
    let empty = children.len() == 0;
    let r = DocumentSymbol {
        name,
        kind,
        range,
        selection_range: range,
        children: if empty {
            None
        } else {
            Some(children)
        },
    };
    proof {
        lemma_symbols_view(children@);
    }
    r
}

/// The name of a function or subroutine symbol.
fn callable_label(name: &String, parameters: &Vec<String>) -> (r: String)
    ensures
        r@ == callable_name(name@, parameters@),
{
    let mut r = owned(name.as_str());
    r.append("(");
    let params = join_strings(parameters, ", ");
    r.append(params.as_str());
    r.append(")");
    r
}

/// The symbol a statement declares, if any.
fn extract_symbol(statement: &Statement) -> (r: Option<DocumentSymbol>)
    ensures
        match (r, statement_symbol(*statement)) {
            (Some(d), Some(v)) => d@ == v,
            (None, None) => true,
            _ => false,
        },
    decreases statement,
{
    match statement {
        Statement::ProgramStructure { keyword, arguments, span } => {
            let mut name = owned(keyword.as_str());
            if str_eq(keyword.as_str(), "DataTable") {
                if let Some(args) = arguments {
                    if args.len() > 0 {
                        name = owned("DataTable(");
                        let text = format_args(args);
                        name.append(text.as_str());
                        name.append(")");
                    }
                }
            }
            Some(create_symbol(name, SymbolKind::Namespace, *span, Vec::new()))
        },
        Statement::FunctionDefinition { name, parameters, body, span } => {
            let label = callable_label(name, parameters);
            let children = extract_symbols(body);
            Some(create_symbol(label, SymbolKind::Function, *span, children))
        },
        Statement::SubroutineDefinition { name, parameters, body, span } => {
            let label = callable_label(name, parameters);
            let children = extract_symbols(body);
            Some(create_symbol(label, SymbolKind::Method, *span, children))
        },
        Statement::VarDeclaration { keyword, name, type_annotation, span, .. } => {
            let mut label = owned(name.as_str());
            if let Some(t) = type_annotation {
                label.append(" As ");
                label.append(t.as_str());
            }
            let kind = if str_eq(keyword.as_str(), "Const") {
                SymbolKind::Constant
            } else {
                SymbolKind::Variable
            };
            Some(create_symbol(label, kind, *span, Vec::new()))
        },
        _ => None,
    }
}

/// The symbols that a statement list declares, in order.
fn extract_symbols(statements: &Vec<Statement>) -> (r: Vec<DocumentSymbol>)
    ensures
        symbols_view(r@) == outline(statements@),
    decreases statements@,
{
    let mut symbols: Vec<DocumentSymbol> = Vec::new();
    let mut i: usize = 0;
    while i < statements.len()
        invariant
            i <= statements@.len(),
            symbols_view(symbols@) == outline(statements@.take(i as int)),
        decreases statements@.len() - i,
    {
        proof {
            assert(statements@.take(i + 1).drop_last() =~= statements@.take(i as int));
            assert(statements@.take(i + 1)[i as int] == statements@[i as int]);
        }
        let ghost before = symbols@;
        if let Some(symbol) = extract_symbol(&statements[i]) {
            symbols.push(symbol);
            proof {
                assert(symbols@.drop_last() =~= before);
            }
        }
        i += 1;
    }
    proof {
        assert(statements@.take(i as int) =~= statements@);
    }
    symbols
}

/// Extracts the outline of a parsed program: one symbol for each
/// program-structure marker, function, subroutine and variable declaration
/// among its statements, in order.
pub fn extract_document_symbols(program: &Program) -> (r: Vec<DocumentSymbol>)
    ensures
        symbols_view(r@) == outline(program.statements@),
{
    extract_symbols(&program.statements)
}

/// Whether a statement shows in the outline: a program-structure marker,
/// a `Public`/`Dim`/`Const` declaration, a `Function` or a `Sub`.
pub open spec fn is_outlined(s: Statement) -> bool {
    s is ProgramStructure || s is VarDeclaration || s is FunctionDefinition
        || s is SubroutineDefinition
}

/// The number of statements of a list that show in the outline.
pub open spec fn outlined_count(stmts: Seq<Statement>) -> nat
    decreases stmts.len(),
{
    if stmts.len() == 0 {
        0
    } else {
        outlined_count(stmts.drop_last()) + if is_outlined(stmts.last()) {
            1nat
        } else {
            0nat
        }
    }
}

/// The kind of symbol an outlined statement gets.
pub open spec fn outline_kind(s: Statement) -> SymbolKind {
    match s {
        Statement::ProgramStructure { .. } => SymbolKind::Namespace,
        Statement::FunctionDefinition { .. } => SymbolKind::Function,
        Statement::SubroutineDefinition { .. } => SymbolKind::Method,
        Statement::VarDeclaration { keyword, .. } => if keyword@ == "Const"@ {
            SymbolKind::Constant
        } else {
            SymbolKind::Variable
        },
        _ => SymbolKind::Variable,
    }
}

/// The outline has one symbol per outlined statement, in order: the
/// outlined statement that comes after `n` others is the symbol at index
/// `n`, with the statement's range and kind; a `Function` or `Sub` symbol
/// has one child per outlined statement of its body (none when there are
/// none).
pub proof fn every_outlined_statement_has_a_symbol(stmts: Seq<Statement>)
    ensures
        outline(stmts).len() == outlined_count(stmts),
        forall|i: int|
            0 <= i < stmts.len() && is_outlined(#[trigger] stmts[i]) ==> {
                let n = outlined_count(stmts.take(i)) as int;
                let sym = outline(stmts)[n];
                &&& n < outline(stmts).len()
                &&& sym.range == lsp_range(statement_span(stmts[i]))
                &&& sym.kind == outline_kind(stmts[i])
                &&& match stmts[i] {
                    Statement::FunctionDefinition { body, .. } => (outlined_count(body@) == 0
                        && sym.children is None) || (sym.children matches Some(c) && c.len()
                        == outlined_count(body@)),
                    Statement::SubroutineDefinition { body, .. } => (outlined_count(body@) == 0
                        && sym.children is None) || (sym.children matches Some(c) && c.len()
                        == outlined_count(body@)),
                    _ => true,
                }
            },
    decreases stmts,
{
    if stmts.len() > 0 {
        let p = stmts.drop_last();
        every_outlined_statement_has_a_symbol(p);
        let last = stmts[stmts.len() - 1];
        match last {
            Statement::FunctionDefinition { body, .. } => every_outlined_statement_has_a_symbol(body@),
            Statement::SubroutineDefinition { body, .. } => every_outlined_statement_has_a_symbol(body@),
            _ => {},
        }
        assert forall|i: int| 0 <= i < stmts.len() && is_outlined(#[trigger] stmts[i]) implies {
            let n = outlined_count(stmts.take(i)) as int;
            let sym = outline(stmts)[n];
            &&& n < outline(stmts).len()
            &&& sym.range == lsp_range(statement_span(stmts[i]))
            &&& sym.kind == outline_kind(stmts[i])
            &&& match stmts[i] {
                Statement::FunctionDefinition { body, .. } => (outlined_count(body@) == 0
                    && sym.children is None) || (sym.children matches Some(c) && c.len()
                    == outlined_count(body@)),
                Statement::SubroutineDefinition { body, .. } => (outlined_count(body@) == 0
                    && sym.children is None) || (sym.children matches Some(c) && c.len()
                    == outlined_count(body@)),
                _ => true,
            }
        } by {
            if i < stmts.len() - 1 {
                assert(p.take(i) =~= stmts.take(i));
                assert(p[i] == stmts[i]);
                let n = outlined_count(stmts.take(i)) as int;
                assert(outline(stmts)[n] == outline(p)[n]);
            } else {
                assert(stmts.take(i) =~= p);
                assert(outline(stmts)[outline(p).len() as int] == statement_symbol(last)->0);
            }
        }
    }
}

} // verus!

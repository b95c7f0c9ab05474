//! Semantic tokens: the identifiers that name a declared variable,
//! function or subroutine, classified and encoded as the protocol's
//! relative-delta token stream.
//!
//! A regex grammar cannot tell a declaration from a reference, or a
//! `Public` variable from a `Dim` one; the symbol table built here from the
//! syntax tree can.
use crate::syntax::{
    declared_name, occurs_in_else_outside_select, occurs_outside_select, occurs_within_outside_select,
    one_less, Program, Statement, Token, TokenKind,
};
use crate::text::{owned, str_eq};
use vstd::prelude::*;

verus! {

/// Index of the `function` token type in the legend.
pub const TOKEN_TYPE_FUNCTION: u32 = 0;

/// Index of the `variable` token type in the legend.
pub const TOKEN_TYPE_VARIABLE: u32 = 1;

/// Bit of the `declaration` modifier in the legend.
pub const MODIFIER_DECLARATION: u32 = 1;

/// Bit of the `readonly` modifier in the legend.
pub const MODIFIER_READONLY: u32 = 2;

/// Bit of the `global` modifier in the legend.
pub const MODIFIER_GLOBAL: u32 = 4;

/// The token types and modifiers that the encoded tokens refer to by index
/// and bit.
#[derive(Debug, Clone, PartialEq, Eq)]
pub struct SemanticTokensLegend {
    pub token_types: Vec<String>,
    pub token_modifiers: Vec<String>,
}

/// One encoded token: its position relative to the previous token, its
/// length, type index and modifier bits.
#[derive(Debug, Clone, Copy, PartialEq, Eq)]
pub struct SemanticToken {
    pub delta_line: u32,
    pub delta_start: u32,
    pub length: u32,
    pub token_type: u32,
    pub token_modifiers_bitset: u32,
}

/// What a declared name is.
#[derive(Debug, Clone, Copy, PartialEq, Eq)]
pub enum SymbolCategory {
    Variable { is_global: bool, is_readonly: bool },
    Callable,
}

/// A declared name's category and the (1-indexed) line of its declaration.
#[derive(Debug, Clone, Copy, PartialEq, Eq)]
pub struct SymbolEntry {
    pub category: SymbolCategory,
    pub declaration_line: usize,
}

/// Classifies CRBasic identifiers into semantic tokens.
pub struct SemanticTokensProvider;

// ---------------------------------------------------------------------------
// The symbol table
// ---------------------------------------------------------------------------

/// The declarations of a statement and of the statements nested in it, in
/// walk order: `Public`/`Dim`/`Const` variables, and functions and
/// subroutines (then their bodies); `If`/`#If` branches and `For`/`Do`
/// bodies are walked too.
pub open spec fn statement_entries(s: Statement) -> Seq<(Seq<char>, SymbolEntry)>
    decreases s,
{
    match s {
        Statement::VarDeclaration { keyword, name, span, .. } => seq![
            (
                name@,
                SymbolEntry {
                    category: SymbolCategory::Variable {
                        is_global: keyword@ == "Public"@,
                        is_readonly: keyword@ == "Const"@,
                    },
                    declaration_line: span.start.line,
                },
            ),
        ],
        Statement::FunctionDefinition { name, body, span, .. } => seq![
            (name@, SymbolEntry { category: SymbolCategory::Callable, declaration_line: span.start.line }),
        ] + list_entries(body@),
        Statement::SubroutineDefinition { name, body, span, .. } => seq![
            (name@, SymbolEntry { category: SymbolCategory::Callable, declaration_line: span.start.line }),
        ] + list_entries(body@),
        Statement::IfStatement { then_branch, else_branch, .. } => list_entries(then_branch@)
            + else_entries(else_branch),
        Statement::PreprocessorConditional { then_branch, else_branch, .. } => list_entries(
            then_branch@,
        ) + else_entries(else_branch),
        Statement::ForLoop { body, .. } => list_entries(body@),
        Statement::DoLoop { body, .. } => list_entries(body@),
        _ => Seq::empty(),
    }
}

/// The declarations of a statement list, in walk order.
pub open spec fn list_entries(stmts: Seq<Statement>) -> Seq<(Seq<char>, SymbolEntry)>
    decreases stmts,
{
    if stmts.len() == 0 {
        Seq::empty()
    } else {
        list_entries(stmts.drop_last()) + statement_entries(stmts[stmts.len() - 1])
    }
}

/// The declarations of an optional `Else` body.
pub open spec fn else_entries(else_branch: Option<Vec<Statement>>) -> Seq<(Seq<char>, SymbolEntry)>
    decreases else_branch,
{
    match else_branch {
        Some(e) => list_entries(e@),
        None => Seq::empty(),
    }
}

/// What the table says of `name`: its latest declaration in walk order.
pub open spec fn lookup(entries: Seq<(Seq<char>, SymbolEntry)>, name: Seq<char>) -> Option<
    SymbolEntry,
>
    decreases entries.len(),
{
    if entries.len() == 0 {
        None
    } else if entries.last().0 == name {
        Some(entries.last().1)
    } else {
        lookup(entries.drop_last(), name)
    }
}

// ---------------------------------------------------------------------------
// The encoding
// ---------------------------------------------------------------------------

/// The token type of an entry.
pub open spec fn token_type_of(e: SymbolEntry) -> u32 {
    match e.category {
        SymbolCategory::Callable => TOKEN_TYPE_FUNCTION,
        SymbolCategory::Variable { .. } => TOKEN_TYPE_VARIABLE,
    }
}

/// The modifier bits of an occurrence of an entry's name.
pub open spec fn modifiers_of(e: SymbolEntry, is_declaration: bool) -> u32 {
    let kind_bits: u32 = match e.category {
        SymbolCategory::Callable => 0,
        SymbolCategory::Variable { is_global, is_readonly } => ((if is_global {
            MODIFIER_GLOBAL
        } else {
            0
        }) + (if is_readonly {
            MODIFIER_READONLY
        } else {
            0
        })) as u32,
    };
    (kind_bits + if is_declaration {
        MODIFIER_DECLARATION
    } else {
        0
    }) as u32
}

/// The encoder's state after some tokens: the names whose declaring
/// occurrence has been seen, the 0-indexed line and column of the last
/// emitted token, whether every step so far was in order (a later token
/// before an earlier one, or a token ending before it starts, would make
/// the encoder's subtractions fail), and the tokens emitted.
pub struct EncodeState {
    pub declared: Set<Seq<char>>,
    pub prev_line: usize,
    pub prev_start: usize,
    pub in_order: bool,
    pub out: Seq<SemanticToken>,
}

/// The state before any token.
pub open spec fn encode_start() -> EncodeState {
    EncodeState {
        declared: Set::empty(),
        prev_line: 0,
        prev_start: 0,
        in_order: true,
        out: Seq::empty(),
    }
}

/// The state after one more token: an identifier that the table knows is
/// emitted; it is the declaring occurrence when it is the first on its
/// entry's declaration line.
pub open spec fn encode_step(
    st: EncodeState,
    t: Token,
    entries: Seq<(Seq<char>, SymbolEntry)>,
) -> EncodeState {
    match t.kind {
        TokenKind::Identifier(name) => match lookup(entries, name@) {
            Some(e) => {
                let is_declaration = !st.declared.contains(name@) && t.span.start.line
                    == e.declaration_line;
                let line = one_less(t.span.start.line);
                let start = one_less(t.span.start.column);
                let delta_line = (line - st.prev_line) as u32;
                let delta_start = if delta_line == 0 {
                    (start - st.prev_start) as u32
                } else {
                    start as u32
                };
                EncodeState {
                    declared: if is_declaration {
                        st.declared.insert(name@)
                    } else {
                        st.declared
                    },
                    prev_line: line,
                    prev_start: start,
                    in_order: st.in_order && t.span.start.column <= t.span.end.column
                        && st.prev_line <= line && (delta_line == 0 ==> st.prev_start <= start),
                    out: st.out.push(
                        SemanticToken {
                            delta_line,
                            delta_start,
                            length: (t.span.end.column - t.span.start.column) as u32,
                            token_type: token_type_of(e),
                            token_modifiers_bitset: modifiers_of(e, is_declaration),
                        },
                    ),
                }
            },
            None => st,
        },
        _ => st,
    }
}

/// The state after a token stream.
pub open spec fn encode(tokens: Seq<Token>, entries: Seq<(Seq<char>, SymbolEntry)>) -> EncodeState
    decreases tokens.len(),
{
    if tokens.len() == 0 {
        encode_start()
    } else {
        encode_step(encode(tokens.drop_last(), entries), tokens.last(), entries)
    }
}

/// The semantic tokens of a program's token stream.
pub open spec fn semantic_tokens(ast: Program, tokens: Seq<Token>) -> EncodeState {
    encode(tokens, list_entries(ast.statements@))
}

/// Whether `t` is an identifier that the table knows.
pub open spec fn resolves(t: Token, entries: Seq<(Seq<char>, SymbolEntry)>) -> bool {
    t.kind matches TokenKind::Identifier(name) && lookup(entries, name@) is Some
}

/// The number of tokens of the stream that the table knows.
pub open spec fn resolved_count(tokens: Seq<Token>, entries: Seq<(Seq<char>, SymbolEntry)>) -> nat
    decreases tokens.len(),
{
    if tokens.len() == 0 {
        0
    } else {
        resolved_count(tokens.drop_last(), entries) + if resolves(tokens.last(), entries) {
            1nat
        } else {
            0nat
        }
    }
}

/// Exactly one semantic token is emitted for each identifier that names a
/// declared variable, function or subroutine, and none for anything else.
pub proof fn one_token_per_declared_name_occurrence(
    tokens: Seq<Token>,
    entries: Seq<(Seq<char>, SymbolEntry)>,
)
    ensures
        encode(tokens, entries).out.len() == resolved_count(tokens, entries),
    decreases tokens.len(),
{
    if tokens.len() > 0 {
        one_token_per_declared_name_occurrence(tokens.drop_last(), entries);
    }
}

/// Every occurrence of a `Public` variable is marked global, and every
/// occurrence of a `Const` is marked read-only.
pub proof fn variable_modifiers_hold_at_every_occurrence(e: SymbolEntry, is_declaration: bool)
    ensures
        e.category matches SymbolCategory::Variable { is_global, is_readonly } ==> (is_global
            ==> modifiers_of(e, is_declaration) & MODIFIER_GLOBAL == MODIFIER_GLOBAL) && (
        is_readonly ==> modifiers_of(e, is_declaration) & MODIFIER_READONLY == MODIFIER_READONLY),
        (modifiers_of(e, is_declaration) & MODIFIER_DECLARATION == MODIFIER_DECLARATION)
            == is_declaration,
{
    let m = modifiers_of(e, is_declaration);
    match e.category {
        SymbolCategory::Callable => {
            if is_declaration {
                assert(m == 1);
                assert(1u32 & 1u32 == 1u32) by (bit_vector);
            } else {
                assert(m == 0);
                assert(0u32 & 1u32 == 0u32) by (bit_vector);
            }
        },
        SymbolCategory::Variable { is_global, is_readonly } => {
            let g: u32 = if is_global { 4 } else { 0 };
            let r: u32 = if is_readonly { 2 } else { 0 };
            let d: u32 = if is_declaration { 1 } else { 0 };
            assert(m == g + r + d);
            assert((g == 4 ==> ((g + r + d) as u32) & 4u32 == 4u32) && (r == 2 ==> ((g + r
                + d) as u32) & 2u32 == 2u32) && ((((g + r + d) as u32) & 1u32 == 1u32) == (d
                == 1))) by (bit_vector)
                requires
                    (g == 0 || g == 4) && (r == 0 || r == 2) && (d == 0 || d == 1),
            ;
        },
    }
}

proof fn lemma_in_order_prefix(tokens: Seq<Token>, entries: Seq<(Seq<char>, SymbolEntry)>, k: int)
    requires
        0 <= k <= tokens.len(),
        encode(tokens, entries).in_order,
    ensures
        encode(tokens.take(k), entries).in_order,
    decreases tokens.len() - k,
{
    if k == tokens.len() {
        assert(tokens.take(k) =~= tokens);
    } else {
        lemma_in_order_prefix(tokens, entries, k + 1);
        assert(tokens.take(k + 1).drop_last() =~= tokens.take(k));
    }
}

/// The plain value of a table under construction.
pub open spec fn table_view(table: Seq<(String, SymbolEntry)>) -> Seq<(Seq<char>, SymbolEntry)> {
    table.map_values(|e: (String, SymbolEntry)| (e.0@, e.1))
}

/// Whether some name in `names` is `name`.
pub open spec fn holds_name(names: Seq<String>, name: Seq<char>) -> bool {
    exists|j: int| 0 <= j < names.len() && names[j]@ == name
}

fn contains_name(names: &Vec<String>, name: &str) -> (r: bool)
    ensures
        r == holds_name(names@, name@),
{
    let mut i: usize = 0;
    while i < names.len()
        invariant
            i <= names@.len(),
            forall|j: int| 0 <= j < i ==> names@[j]@ != name@,
        decreases names@.len() - i,
    {
        if str_eq(names[i].as_str(), name) {
            return true;
        }
        i += 1;
    }
    false
}

fn lookup_entry(table: &Vec<(String, SymbolEntry)>, name: &str) -> (r: Option<SymbolEntry>)
    ensures
        r == lookup(table_view(table@), name@),
{
    let ghost view = table_view(table@);
    proof {
        assert(view.take(view.len() as int) =~= view);
    }
    let mut i: usize = table.len();
    while i > 0
        invariant
            i <= table@.len(),
            view == table_view(table@),
            lookup(view, name@) == lookup(view.take(i as int), name@),
        decreases i,
    {
        proof {
            assert(view.take(i as int).drop_last() =~= view.take(i - 1));
        }
        if str_eq(table[i - 1].0.as_str(), name) {
            return Some(table[i - 1].1);
        }
        i -= 1;
    }
    None
}

impl SemanticTokensProvider {
    /// The legend advertised to the client: token types `function`,
    /// `variable`; modifiers `declaration`, `readonly`, `global`, in the
    /// order of the indices and bits above.
    pub fn legend() -> (r: SemanticTokensLegend)
        ensures
            r.token_types@.len() == 2,
            r.token_types@[0]@ == "function"@,
            r.token_types@[1]@ == "variable"@,
            r.token_modifiers@.len() == 3,
            r.token_modifiers@[0]@ == "declaration"@,
            r.token_modifiers@[1]@ == "readonly"@,
            r.token_modifiers@[2]@ == "global"@,
    {
        let mut token_types: Vec<String> = Vec::new();
        token_types.push(owned("function"));
        token_types.push(owned("variable"));
        let mut token_modifiers: Vec<String> = Vec::new();
        token_modifiers.push(owned("declaration"));
        token_modifiers.push(owned("readonly"));
        token_modifiers.push(owned("global"));
        SemanticTokensLegend { token_types, token_modifiers }
    }

    /// Classifies every identifier of `tokens` that names a variable,
    /// function or subroutine declared in `ast`, and encodes them as
    /// relative-delta tokens. Built-in functions, keywords and `For` loop
    /// variables are left out.
    pub fn get_semantic_tokens(ast: &Program, tokens: &[Token]) -> (r: Vec<SemanticToken>)
        requires
            semantic_tokens(*ast, tokens@).in_order,
        ensures
            r@ == semantic_tokens(*ast, tokens@).out,
    {
        let table = Self::build_symbol_table(ast);
        let ghost entries = list_entries(ast.statements@);
        let mut declared: Vec<String> = Vec::new();
        let mut prev_line: usize = 0;
        let mut prev_start: usize = 0;
        let mut result: Vec<SemanticToken> = Vec::new();
        let mut i: usize = 0;
        while i < tokens.len()
            invariant
                i <= tokens@.len(),
                entries == list_entries(ast.statements@),
                table_view(table@) == entries,
                encode(tokens@, entries).in_order,
                ({
                    let st = encode(tokens@.take(i as int), entries);
                    &&& result@ == st.out
                    &&& prev_line == st.prev_line
                    &&& prev_start == st.prev_start
                    &&& forall|x: Seq<char>| st.declared.contains(x) <==> holds_name(declared@, x)
                }),
            decreases tokens@.len() - i,
        {
            proof {
                assert(tokens@.take(i + 1).drop_last() =~= tokens@.take(i as int));
                assert(tokens@.take(i + 1).last() == tokens@[i as int]);
                lemma_in_order_prefix(tokens@, entries, i + 1);
            }
            let ghost st = encode(tokens@.take(i as int), entries);
            let token = &tokens[i];
            if let TokenKind::Identifier(name) = &token.kind {
                if let Some(entry) = lookup_entry(&table, name.as_str()) {
                    let is_declaration = !contains_name(&declared, name.as_str())
                        && token.span.start.line == entry.declaration_line;
                    let ghost declared_before = declared@;
                    if is_declaration {
                        declared.push(owned(name.as_str()));
                        proof {
                            assert forall|x: Seq<char>|
                                holds_name(declared@, x) <==> (holds_name(declared_before, x) || x
                                    == name@) by {
                                if holds_name(declared@, x) {
                                    let j = choose|j: int|
                                        0 <= j < declared@.len() && declared@[j]@ == x;
                                    if j < declared_before.len() {
                                        assert(declared_before[j]@ == x);
                                    }
                                }
                                if holds_name(declared_before, x) {
                                    let j = choose|j: int|
                                        0 <= j < declared_before.len() && declared_before[j]@ == x;
                                    assert(declared@[j]@ == x);
                                }
                                if x == name@ {
                                    assert(declared@[declared@.len() - 1]@ == x);
                                }
                            }
                        }
                    }
                    let token_type = match entry.category {
                        SymbolCategory::Callable => TOKEN_TYPE_FUNCTION,
                        SymbolCategory::Variable { .. } => TOKEN_TYPE_VARIABLE,
                    };
                    let kind_bits: u32 = match entry.category {
                        SymbolCategory::Callable => 0,
                        SymbolCategory::Variable { is_global, is_readonly } => {
                            let g: u32 = if is_global {
                                MODIFIER_GLOBAL
                            } else {
                                0
                            };
                            let ro: u32 = if is_readonly {
                                MODIFIER_READONLY
                            } else {
                                0
                            };
                            g + ro
                        },
                    };
                    let modifiers: u32 = kind_bits + if is_declaration {
                        MODIFIER_DECLARATION
                    } else {
                        0
                    };
                    let line = token.span.start.line.saturating_sub(1);
                    let start = token.span.start.column.saturating_sub(1);
                    let length = (token.span.end.column - token.span.start.column) as u32;
                    let delta_line = (line - prev_line) as u32;
                    let delta_start = if delta_line == 0 {
                        (start - prev_start) as u32
                    } else {
                        start as u32
                    };
                    result.push(
                        SemanticToken {
                            delta_line,
                            delta_start,
                            length,
                            token_type,
                            token_modifiers_bitset: modifiers,
                        },
                    );
                    prev_line = line;
                    prev_start = start;
                }
            }
            i += 1;
        }
        proof {
            assert(tokens@.take(i as int) =~= tokens@);
        }
        result
    }

    /// The semantic tokens, or `None` where the token stream is out of
    /// order (an identifier to emit that starts before the previous one, or
    /// that ends before it starts).
    pub fn try_semantic_tokens(ast: &Program, tokens: &[Token]) -> (r: Option<Vec<SemanticToken>>)
        ensures
            match r {
                Some(v) => semantic_tokens(*ast, tokens@).in_order && v@ == semantic_tokens(
                    *ast,
                    tokens@,
                ).out,
                None => !semantic_tokens(*ast, tokens@).in_order,
            },
    {
        if Self::tokens_in_order(ast, tokens) {
            Some(Self::get_semantic_tokens(ast, tokens))
        } else {
            None
        }
    }

    /// Whether the token stream can be encoded.
    fn tokens_in_order(ast: &Program, tokens: &[Token]) -> (r: bool)
        ensures
            r == semantic_tokens(*ast, tokens@).in_order,
    {
        let table = Self::build_symbol_table(ast);
        let ghost entries = list_entries(ast.statements@);
        let mut declared: Vec<String> = Vec::new();
        let mut prev_line: usize = 0;
        let mut prev_start: usize = 0;
        let mut in_order = true;
        let mut i: usize = 0;
        while i < tokens.len()
            invariant
                i <= tokens@.len(),
                entries == list_entries(ast.statements@),
                table_view(table@) == entries,
                ({
                    let st = encode(tokens@.take(i as int), entries);
                    &&& in_order == st.in_order
                    &&& prev_line == st.prev_line
                    &&& prev_start == st.prev_start
                    &&& forall|x: Seq<char>| st.declared.contains(x) <==> holds_name(declared@, x)
                }),
            decreases tokens@.len() - i,
        {
            proof {
                assert(tokens@.take(i + 1).drop_last() =~= tokens@.take(i as int));
                assert(tokens@.take(i + 1).last() == tokens@[i as int]);
            }
            let token = &tokens[i];
            if let TokenKind::Identifier(name) = &token.kind {
                if let Some(entry) = lookup_entry(&table, name.as_str()) {
                    let is_declaration = !contains_name(&declared, name.as_str())
                        && token.span.start.line == entry.declaration_line;
                    let ghost declared_before = declared@;
                    if is_declaration {
                        declared.push(owned(name.as_str()));
                        proof {
                            assert forall|x: Seq<char>|
                                holds_name(declared@, x) <==> (holds_name(declared_before, x) || x
                                    == name@) by {
                                if holds_name(declared@, x) {
                                    let j = choose|j: int|
                                        0 <= j < declared@.len() && declared@[j]@ == x;
                                    if j < declared_before.len() {
                                        assert(declared_before[j]@ == x);
                                    }
                                }
                                if holds_name(declared_before, x) {
                                    let j = choose|j: int|
                                        0 <= j < declared_before.len() && declared_before[j]@ == x;
                                    assert(declared@[j]@ == x);
                                }
                                if x == name@ {
                                    assert(declared@[declared@.len() - 1]@ == x);
                                }
                            }
                        }
                    }
                    let line = token.span.start.line.saturating_sub(1);
                    let start = token.span.start.column.saturating_sub(1);
                    let ordered_line = prev_line <= line;
                    let same_line = ordered_line && ((line - prev_line) as u32) == 0;
                    let step_ok = token.span.start.column <= token.span.end.column && ordered_line
                        && (!same_line || prev_start <= start);
                    proof {
                        if !ordered_line {
                            assert(!encode(tokens@.take(i + 1), entries).in_order);
                        }
                    }
                    in_order = in_order && step_ok;
                    prev_line = line;
                    prev_start = start;
                }
            }
            i += 1;
        }
        proof {
            assert(tokens@.take(i as int) =~= tokens@);
        }
        in_order
    }

    /// The declarations of a program, in walk order; a later declaration
    /// of a name shadows an earlier one.
    fn build_symbol_table(ast: &Program) -> (r: Vec<(String, SymbolEntry)>)
        ensures
            table_view(r@) == list_entries(ast.statements@),
    {
        let mut table: Vec<(String, SymbolEntry)> = Vec::new();
        Self::collect_from_statements(&ast.statements, &mut table);
        proof {
            assert(table_view(Seq::<(String, SymbolEntry)>::empty()) =~= Seq::empty());
        }
        table
    }

    fn collect_from_statements(statements: &Vec<Statement>, table: &mut Vec<(String, SymbolEntry)>)
        ensures
            table_view(final(table)@) == table_view(old(table)@) + list_entries(statements@),
        decreases statements@,
    {
        let ghost start = table_view(table@);
        let mut i: usize = 0;
        while i < statements.len()
            invariant
                i <= statements@.len(),
                table_view(table@) == start + list_entries(statements@.take(i as int)),
            decreases statements@.len() - i,
        {
            proof {
                assert(statements@.take(i + 1).drop_last() =~= statements@.take(i as int));
                assert(statements@.take(i + 1)[i as int] == statements@[i as int]);
            }
            Self::collect_from_statement(&statements[i], table);
            i += 1;
        }
        proof {
            assert(statements@.take(i as int) =~= statements@);
        }
    }

    fn collect_from_statement(statement: &Statement, table: &mut Vec<(String, SymbolEntry)>)
        ensures
            table_view(final(table)@) == table_view(old(table)@) + statement_entries(*statement),
        decreases statement,
    {
        let ghost start = table_view(table@);
        match statement {
            Statement::VarDeclaration { keyword, name, span, .. } => {
                let entry = SymbolEntry {
                    category: SymbolCategory::Variable {
                        is_global: str_eq(keyword.as_str(), "Public"),
                        is_readonly: str_eq(keyword.as_str(), "Const"),
                    },
                    declaration_line: span.start.line,
                };
                table.push((owned(name.as_str()), entry));
                proof {
                    assert(table_view(table@) =~= start + statement_entries(*statement));
                }
            },
            Statement::FunctionDefinition { name, body, span, .. } => {
                let entry = SymbolEntry {
                    category: SymbolCategory::Callable,
                    declaration_line: span.start.line,
                };
                table.push((owned(name.as_str()), entry));
                proof {
                    assert(table_view(table@) =~= start + seq![(name@, entry)]);
                }
                Self::collect_from_statements(body, table);
                proof {
                    assert(table_view(table@) =~= start + statement_entries(*statement));
                }
            },
            Statement::SubroutineDefinition { name, body, span, .. } => {
                let entry = SymbolEntry {
                    category: SymbolCategory::Callable,
                    declaration_line: span.start.line,
                };
                table.push((owned(name.as_str()), entry));
                proof {
                    assert(table_view(table@) =~= start + seq![(name@, entry)]);
                }
                Self::collect_from_statements(body, table);
                proof {
                    assert(table_view(table@) =~= start + statement_entries(*statement));
                }
            },
            Statement::IfStatement { then_branch, else_branch, .. } => {
                Self::collect_from_statements(then_branch, table);
                if let Some(else_stmts) = else_branch {
                    Self::collect_from_statements(else_stmts, table);
                }
                proof {
                    assert(table_view(table@) =~= start + statement_entries(*statement));
                }
            },
            Statement::PreprocessorConditional { then_branch, else_branch, .. } => {
                Self::collect_from_statements(then_branch, table);
                if let Some(else_stmts) = else_branch {
                    Self::collect_from_statements(else_stmts, table);
                }
                proof {
                    assert(table_view(table@) =~= start + statement_entries(*statement));
                }
            },
            Statement::ForLoop { body, .. } => {
                Self::collect_from_statements(body, table);
            },
            Statement::DoLoop { body, .. } => {
                Self::collect_from_statements(body, table);
            },
            _ => {
                assert(table_view(table@) =~= start + statement_entries(*statement));
            },
        }
    }
}

/// The absolute (line, start) positions that a client gets back from an
/// encoded stream by adding up its deltas, starting from (0, 0): a token on
/// the previous token's line starts `delta_start` after it, a token on a
/// later line starts at `delta_start`.
pub open spec fn decoded_positions(out: Seq<SemanticToken>) -> Seq<(int, int)>
    decreases out.len(),
{
    if out.len() == 0 {
        Seq::empty()
    } else {
        let prev = decoded_positions(out.drop_last());
        let (line, start) = if prev.len() == 0 {
            (0int, 0int)
        } else {
            prev.last()
        };
        let t = out.last();
        prev.push(
            (
                line + t.delta_line,
                if t.delta_line == 0 {
                    start + t.delta_start
                } else {
                    t.delta_start as int
                },
            ),
        )
    }
}

/// The 0-indexed (line, start) positions of the identifiers of the stream
/// that the table knows, in order.
pub open spec fn resolved_positions(
    tokens: Seq<Token>,
    entries: Seq<(Seq<char>, SymbolEntry)>,
) -> Seq<(int, int)>
    decreases tokens.len(),
{
    if tokens.len() == 0 {
        Seq::empty()
    } else {
        let t = tokens.last();
        resolved_positions(tokens.drop_last(), entries) + if resolves(t, entries) {
            seq![(one_less(t.span.start.line) as int, one_less(t.span.start.column) as int)]
        } else {
            Seq::empty()
        }
    }
}

/// Whether every position fits the protocol's `u32` fields.
pub open spec fn positions_fit(positions: Seq<(int, int)>) -> bool {
    forall|i: int|
        0 <= i < positions.len() ==> (#[trigger] positions[i]).0 <= u32::MAX && positions[i].1
            <= u32::MAX
}

proof fn lemma_decoding(tokens: Seq<Token>, entries: Seq<(Seq<char>, SymbolEntry)>)
    requires
        encode(tokens, entries).in_order,
        positions_fit(resolved_positions(tokens, entries)),
    ensures
        decoded_positions(encode(tokens, entries).out) == resolved_positions(tokens, entries),
        resolved_positions(tokens, entries).len() == 0 ==> encode(tokens, entries).prev_line == 0
            && encode(tokens, entries).prev_start == 0,
        resolved_positions(tokens, entries).len() > 0 ==> resolved_positions(tokens, entries).last()
            == (encode(tokens, entries).prev_line as int, encode(tokens, entries).prev_start as int),
    decreases tokens.len(),
{
    if tokens.len() > 0 {
        let prefix = resolved_positions(tokens.drop_last(), entries);
        let all = resolved_positions(tokens, entries);
        assert forall|i: int| 0 <= i < prefix.len() implies (#[trigger] prefix[i]).0 <= u32::MAX
            && prefix[i].1 <= u32::MAX by {
            assert(all[i] == prefix[i]);
        }
        lemma_decoding(tokens.drop_last(), entries);
        let st = encode(tokens.drop_last(), entries);
        let t = tokens.last();
        if resolves(t, entries) {
            let line = one_less(t.span.start.line);
            let start = one_less(t.span.start.column);
            assert(all == prefix.push((line as int, start as int)));
            assert(all[all.len() - 1] == (line as int, start as int));
            let dl = (line - st.prev_line) as u32;
            assert(st.prev_line <= line);
            assert(dl as int == line - st.prev_line);
            let next = encode(tokens, entries);
            assert(next.out == st.out.push(next.out.last()));
            assert(next.out.drop_last() == st.out);
            assert(next.out.last().delta_line == dl);
            if dl == 0 {
                assert(st.prev_start <= start);
                assert(next.out.last().delta_start as int == start - st.prev_start);
            } else {
                assert(next.out.last().delta_start as int == start);
            }
        } else {
            assert(all == prefix);
        }
    }
}

/// Decoding the deltas gives back the positions: when the stream is in
/// order and its positions fit the protocol's fields, adding up the
/// encoded deltas yields, token by token, the 0-indexed line and start of
/// each identifier that names a declared variable, function or subroutine.
pub proof fn deltas_decode_to_the_token_positions(
    tokens: Seq<Token>,
    entries: Seq<(Seq<char>, SymbolEntry)>,
)
    requires
        encode(tokens, entries).in_order,
        positions_fit(resolved_positions(tokens, entries)),
    ensures
        decoded_positions(encode(tokens, entries).out) == resolved_positions(tokens, entries),
{
    lemma_decoding(tokens, entries);
}

/// The identifiers of the stream that the table knows, in order: the
/// tokens that get a semantic token.
pub open spec fn resolved_tokens(tokens: Seq<Token>, entries: Seq<(Seq<char>, SymbolEntry)>) -> Seq<
    Token,
>
    decreases tokens.len(),
{
    if tokens.len() == 0 {
        Seq::empty()
    } else {
        resolved_tokens(tokens.drop_last(), entries) + if resolves(tokens.last(), entries) {
            seq![tokens.last()]
        } else {
            Seq::empty()
        }
    }
}

/// The name of an identifier token (empty for other tokens).
pub open spec fn identifier_name(t: Token) -> Seq<char> {
    match t.kind {
        TokenKind::Identifier(name) => name@,
        _ => Seq::empty(),
    }
}

/// The table's entry for the name of `t`.
pub open spec fn entry_of(t: Token, entries: Seq<(Seq<char>, SymbolEntry)>) -> SymbolEntry {
    lookup(entries, identifier_name(t))->0
}

/// Whether `t` lies on the line where its name is declared.
pub open spec fn on_declaration_line(t: Token, entries: Seq<(Seq<char>, SymbolEntry)>) -> bool {
    t.span.start.line == entry_of(t, entries).declaration_line
}

/// Whether the `i`-th of the resolved tokens `rs` is its name's declaring
/// occurrence: it lies on the name's declaration line and no earlier
/// occurrence of the name does.
pub open spec fn is_declaring_occurrence(
    rs: Seq<Token>,
    i: int,
    entries: Seq<(Seq<char>, SymbolEntry)>,
) -> bool {
    &&& on_declaration_line(rs[i], entries)
    &&& forall|j: int|
        0 <= j < i ==> !(identifier_name(#[trigger] rs[j]) == identifier_name(rs[i])
            && on_declaration_line(rs[j], entries))
}

/// The names whose declaring occurrence is among `rs`.
pub open spec fn declared_names(rs: Seq<Token>, entries: Seq<(Seq<char>, SymbolEntry)>) -> Set<
    Seq<char>,
>
    decreases rs.len(),
{
    if rs.len() == 0 {
        Set::empty()
    } else if on_declaration_line(rs.last(), entries) {
        declared_names(rs.drop_last(), entries).insert(identifier_name(rs.last()))
    } else {
        declared_names(rs.drop_last(), entries)
    }
}

proof fn lemma_declared_names(rs: Seq<Token>, entries: Seq<(Seq<char>, SymbolEntry)>, n: Seq<char>)
    ensures
        declared_names(rs, entries).contains(n) <==> exists|j: int|
            0 <= j < rs.len() && identifier_name(#[trigger] rs[j]) == n && on_declaration_line(
                rs[j],
                entries,
            ),
    decreases rs.len(),
{
    if rs.len() > 0 {
        lemma_declared_names(rs.drop_last(), entries, n);
        let p = rs.drop_last();
        if declared_names(p, entries).contains(n) {
            let j = choose|j: int|
                0 <= j < p.len() && identifier_name(#[trigger] p[j]) == n && on_declaration_line(
                    p[j],
                    entries,
                );
            assert(rs[j] == p[j]);
        }
        if exists|j: int|
            0 <= j < rs.len() && identifier_name(#[trigger] rs[j]) == n && on_declaration_line(
                rs[j],
                entries,
            ) {
            let j = choose|j: int|
                0 <= j < rs.len() && identifier_name(#[trigger] rs[j]) == n && on_declaration_line(
                    rs[j],
                    entries,
                );
            if j < rs.len() - 1 {
                assert(p[j] == rs[j]);
            }
        }
    }
}

proof fn lemma_classification(tokens: Seq<Token>, entries: Seq<(Seq<char>, SymbolEntry)>)
    ensures
        encode(tokens, entries).declared == declared_names(resolved_tokens(tokens, entries), entries),
        encode(tokens, entries).out.len() == resolved_tokens(tokens, entries).len(),
        forall|i: int|
            0 <= i < encode(tokens, entries).out.len() ==> {
                let rs = resolved_tokens(tokens, entries);
                let e = entry_of(rs[i], entries);
                &&& (#[trigger] encode(tokens, entries).out[i]).token_type == token_type_of(e)
                &&& encode(tokens, entries).out[i].token_modifiers_bitset == modifiers_of(
                    e,
                    is_declaring_occurrence(rs, i, entries),
                )
            },
    decreases tokens.len(),
{
    if tokens.len() > 0 {
        let p = tokens.drop_last();
        lemma_classification(p, entries);
        let rp = resolved_tokens(p, entries);
        let rs = resolved_tokens(tokens, entries);
        let prev = encode(p, entries);
        let next = encode(tokens, entries);
        let t = tokens.last();
        if resolves(t, entries) {
            assert(rs == rp.push(t));
            let i = rp.len() as int;
            assert(rs[i] == t);
            lemma_declared_names(rp, entries, identifier_name(t));
            assert(declared_names(rs, entries) =~= if on_declaration_line(t, entries) {
                declared_names(rp, entries).insert(identifier_name(t))
            } else {
                declared_names(rp, entries)
            }) by {
                assert(rs.drop_last() =~= rp);
            }
            assert(is_declaring_occurrence(rs, i, entries) == (!prev.declared.contains(
                identifier_name(t),
            ) && on_declaration_line(t, entries))) by {
                if on_declaration_line(t, entries) && !prev.declared.contains(identifier_name(t)) {
                    assert forall|j: int| 0 <= j < i implies !(identifier_name(#[trigger] rs[j])
                        == identifier_name(rs[i]) && on_declaration_line(rs[j], entries)) by {
                        assert(rs[j] == rp[j]);
                    }
                }
                if prev.declared.contains(identifier_name(t)) {
                    let j = choose|j: int|
                        0 <= j < rp.len() && identifier_name(#[trigger] rp[j]) == identifier_name(t)
                            && on_declaration_line(rp[j], entries);
                    assert(rs[j] == rp[j]);
                }
            }
            assert forall|k: int| 0 <= k < next.out.len() implies {
                let e = entry_of(rs[k], entries);
                &&& (#[trigger] next.out[k]).token_type == token_type_of(e)
                &&& next.out[k].token_modifiers_bitset == modifiers_of(
                    e,
                    is_declaring_occurrence(rs, k, entries),
                )
            } by {
                if k < i {
                    assert(next.out[k] == prev.out[k]);
                    assert(rs[k] == rp[k]);
                    assert(is_declaring_occurrence(rs, k, entries) == is_declaring_occurrence(
                        rp,
                        k,
                        entries,
                    )) by {
                        assert forall|j: int| 0 <= j < k implies rs[j] == rp[j] by {}
                    }
                }
            }
        } else {
            assert(rs == rp);
        }
    }
}

/// Which identifiers get a semantic token, and how each is classified: in
/// token order, exactly the identifiers whose name the program declares (a
/// `Public`/`Dim`/`Const` variable, a `Function` or a `Sub`) are emitted,
/// one semantic token each; a function or subroutine gets the `function`
/// type and a variable the `variable` type; the `global` bit is set exactly
/// for `Public` variables, the `readonly` bit exactly for `Const`s, and the
/// `declaration` bit exactly on the first occurrence of the name on its
/// declaration line.
pub proof fn semantic_tokens_classify_declared_names(ast: Program, tokens: Seq<Token>)
    ensures
        ({
            let entries = list_entries(ast.statements@);
            let out = semantic_tokens(ast, tokens).out;
            let rs = resolved_tokens(tokens, entries);
            &&& out.len() == rs.len()
            &&& forall|i: int| 0 <= i < rs.len() ==> resolves(#[trigger] rs[i], entries)
            &&& forall|i: int|
                0 <= i < out.len() ==> {
                    let e = entry_of(rs[i], entries);
                    let bits = (#[trigger] out[i]).token_modifiers_bitset;
                    &&& (out[i].token_type == TOKEN_TYPE_FUNCTION) == (e.category is Callable)
                    &&& (out[i].token_type == TOKEN_TYPE_VARIABLE) == (e.category is Variable)
                    &&& (bits & MODIFIER_GLOBAL == MODIFIER_GLOBAL) == (e.category matches SymbolCategory::Variable { is_global, .. } && is_global)
                    &&& (bits & MODIFIER_READONLY == MODIFIER_READONLY) == (e.category matches SymbolCategory::Variable { is_readonly, .. } && is_readonly)
                    &&& (bits & MODIFIER_DECLARATION == MODIFIER_DECLARATION)
                        == is_declaring_occurrence(rs, i, entries)
                }
        }),
{
    let entries = list_entries(ast.statements@);
    lemma_classification(tokens, entries);
    lemma_resolved_tokens_resolve(tokens, entries);
    let out = semantic_tokens(ast, tokens).out;
    let rs = resolved_tokens(tokens, entries);
    assert forall|i: int| 0 <= i < out.len() implies {
        let e = entry_of(rs[i], entries);
        let bits = (#[trigger] out[i]).token_modifiers_bitset;
        &&& (out[i].token_type == TOKEN_TYPE_FUNCTION) == (e.category is Callable)
        &&& (out[i].token_type == TOKEN_TYPE_VARIABLE) == (e.category is Variable)
        &&& (bits & MODIFIER_GLOBAL == MODIFIER_GLOBAL) == (e.category matches SymbolCategory::Variable { is_global, .. } && is_global)
        &&& (bits & MODIFIER_READONLY == MODIFIER_READONLY) == (e.category matches SymbolCategory::Variable { is_readonly, .. } && is_readonly)
        &&& (bits & MODIFIER_DECLARATION == MODIFIER_DECLARATION)
            == is_declaring_occurrence(rs, i, entries)
    } by {
        lemma_modifier_bits(entry_of(rs[i], entries), is_declaring_occurrence(rs, i, entries));
    }
}

proof fn lemma_resolved_tokens_resolve(tokens: Seq<Token>, entries: Seq<(Seq<char>, SymbolEntry)>)
    ensures
        forall|i: int|
            0 <= i < resolved_tokens(tokens, entries).len() ==> resolves(
                #[trigger] resolved_tokens(tokens, entries)[i],
                entries,
            ),
    decreases tokens.len(),
{
    if tokens.len() > 0 {
        lemma_resolved_tokens_resolve(tokens.drop_last(), entries);
        let rp = resolved_tokens(tokens.drop_last(), entries);
        let rs = resolved_tokens(tokens, entries);
        assert forall|i: int| 0 <= i < rs.len() implies resolves(#[trigger] rs[i], entries) by {
            if i < rp.len() {
                assert(rs[i] == rp[i]);
            }
        }
    }
}

/// The three modifier bits of an occurrence, each set exactly when its
/// condition holds.
proof fn lemma_modifier_bits(e: SymbolEntry, is_declaration: bool)
    ensures
        (modifiers_of(e, is_declaration) & MODIFIER_GLOBAL == MODIFIER_GLOBAL) == (e.category matches SymbolCategory::Variable { is_global, .. } && is_global),
        (modifiers_of(e, is_declaration) & MODIFIER_READONLY == MODIFIER_READONLY) == (e.category matches SymbolCategory::Variable { is_readonly, .. } && is_readonly),
        (modifiers_of(e, is_declaration) & MODIFIER_DECLARATION == MODIFIER_DECLARATION) == is_declaration,
{
    let m = modifiers_of(e, is_declaration);
    let g: u32 = match e.category {
        SymbolCategory::Variable { is_global, .. } => if is_global { 4 } else { 0 },
        SymbolCategory::Callable => 0,
    };
    let r: u32 = match e.category {
        SymbolCategory::Variable { is_readonly, .. } => if is_readonly { 2 } else { 0 },
        SymbolCategory::Callable => 0,
    };
    let d: u32 = if is_declaration { 1 } else { 0 };
    assert(m == g + r + d);
    assert((g == 0 || g == 4) && (r == 0 || r == 2) && (d == 0 || d == 1) ==> ((g + r + d) as u32
        & 4u32 == 4u32) == (g == 4) && ((g + r + d) as u32 & 2u32 == 2u32) == (r == 2) && ((g + r
        + d) as u32 & 1u32 == 1u32) == (d == 1)) by (bit_vector);
}

/// Whether `entries` holds an entry for `name`.
pub open spec fn has_entry(entries: Seq<(Seq<char>, SymbolEntry)>, name: Seq<char>) -> bool {
    exists|j: int| 0 <= j < entries.len() && (#[trigger] entries[j]).0 == name
}

proof fn lemma_has_entry_sum(
    a: Seq<(Seq<char>, SymbolEntry)>,
    b: Seq<(Seq<char>, SymbolEntry)>,
    name: Seq<char>,
)
    requires
        has_entry(a, name) || has_entry(b, name),
    ensures
        has_entry(a + b, name),
{
    if has_entry(a, name) {
        let j = choose|j: int| 0 <= j < a.len() && (#[trigger] a[j]).0 == name;
        assert((a + b)[j] == a[j]);
    } else {
        let j = choose|j: int| 0 <= j < b.len() && (#[trigger] b[j]).0 == name;
        assert((a + b)[a.len() + j] == b[j]);
    }
}

proof fn lemma_lookup_finds(entries: Seq<(Seq<char>, SymbolEntry)>, name: Seq<char>)
    requires
        has_entry(entries, name),
    ensures
        lookup(entries, name) is Some,
    decreases entries.len(),
{
    if entries.last().0 != name {
        let j = choose|j: int| 0 <= j < entries.len() && (#[trigger] entries[j]).0 == name;
        assert(entries.drop_last()[j] == entries[j]);
        lemma_lookup_finds(entries.drop_last(), name);
    }
}

proof fn lemma_entries_list(stmts: Seq<Statement>, t: Statement)
    requires
        occurs_outside_select(stmts, t),
        declared_name(t) is Some,
    ensures
        has_entry(list_entries(stmts), declared_name(t)->0),
    decreases stmts,
{
    let last = stmts[stmts.len() - 1];
    if occurs_outside_select(stmts.drop_last(), t) {
        lemma_entries_list(stmts.drop_last(), t);
    } else if last == t {
        assert(statement_entries(t)[0].0 == declared_name(t)->0);
    } else {
        lemma_entries_within(last, t);
    }
    lemma_has_entry_sum(list_entries(stmts.drop_last()), statement_entries(last), declared_name(t)->0);
}

proof fn lemma_entries_within(s: Statement, t: Statement)
    requires
        occurs_within_outside_select(s, t),
        declared_name(t) is Some,
    ensures
        has_entry(statement_entries(s), declared_name(t)->0),
    decreases s,
{
    let n = declared_name(t)->0;
    match s {
        Statement::FunctionDefinition { name, body, span, .. } => {
            lemma_entries_list(body@, t);
            lemma_has_entry_sum(
                seq![(name@, SymbolEntry { category: SymbolCategory::Callable, declaration_line: span.start.line })],
                list_entries(body@),
                n,
            );
        },
        Statement::SubroutineDefinition { name, body, span, .. } => {
            lemma_entries_list(body@, t);
            lemma_has_entry_sum(
                seq![(name@, SymbolEntry { category: SymbolCategory::Callable, declaration_line: span.start.line })],
                list_entries(body@),
                n,
            );
        },
        Statement::IfStatement { then_branch, else_branch, .. } => {
            if occurs_outside_select(then_branch@, t) {
                lemma_entries_list(then_branch@, t);
            } else {
                lemma_entries_else(else_branch, t);
            }
            lemma_has_entry_sum(list_entries(then_branch@), else_entries(else_branch), n);
        },
        Statement::PreprocessorConditional { then_branch, else_branch, .. } => {
            if occurs_outside_select(then_branch@, t) {
                lemma_entries_list(then_branch@, t);
            } else {
                lemma_entries_else(else_branch, t);
            }
            lemma_has_entry_sum(list_entries(then_branch@), else_entries(else_branch), n);
        },
        Statement::ForLoop { body, .. } => lemma_entries_list(body@, t),
        Statement::DoLoop { body, .. } => lemma_entries_list(body@, t),
        _ => {},
    }
}

proof fn lemma_entries_else(else_branch: Option<Vec<Statement>>, t: Statement)
    requires
        occurs_in_else_outside_select(else_branch, t),
        declared_name(t) is Some,
    ensures
        has_entry(else_entries(else_branch), declared_name(t)->0),
    decreases else_branch,
{
    match else_branch {
        Some(e) => lemma_entries_list(e@, t),
        None => {},
    }
}

/// Every declaration of the program outside `Select Case` branches (at the
/// top level or nested at any depth in `If`/`#If` branches and their
/// `Else`, `For`/`Do` bodies or `Function`/`Sub` bodies) is in the symbol
/// table, so every identifier token carrying its name gets a semantic token.
pub proof fn every_declared_name_is_highlighted(ast: Program, t: Statement, token: Token)
    requires
        occurs_outside_select(ast.statements@, t),
        declared_name(t) is Some,
        token.kind matches TokenKind::Identifier(name) && name@ == declared_name(t)->0,
    ensures
        lookup(list_entries(ast.statements@), declared_name(t)->0) is Some,
        resolves(token, list_entries(ast.statements@)),
{
    lemma_entries_list(ast.statements@, t);
    lemma_lookup_finds(list_entries(ast.statements@), declared_name(t)->0);
}

} // verus!

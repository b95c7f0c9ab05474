//! The tokens and syntax tree of a CRBasic program, as the parser hands
//! them over, and the conversion of their 1-indexed source positions into
//! 0-indexed protocol positions.
use crate::protocol;
use vstd::prelude::*;

verus! {

/// A 1-indexed (line, column) position in the source text.
#[derive(Debug, Clone, Copy, PartialEq, Eq, Structural)]
pub struct Position {
    pub line: usize,
    pub column: usize,
}

impl Position {
    /// Creates a position.
    pub fn new(line: usize, column: usize) -> (r: Position)
        ensures
            r.line == line,
            r.column == column,
    {
        Position { line, column }
    }
}

/// A source range; `end` is one past the last character.
#[derive(Debug, Clone, Copy, PartialEq, Eq, Structural)]
pub struct Span {
    pub start: Position,
    pub end: Position,
}

impl Span {
    /// Creates a span.
    pub fn new(start: Position, end: Position) -> (r: Span)
        ensures
            r.start == start,
            r.end == end,
    {
        Span { start, end }
    }
}

/// What a token is, as far as the language services need to know.
#[derive(Debug, Clone, PartialEq, Eq)]
pub enum TokenKind {
    /// A language keyword, with its text
    Keyword(String),
    /// An identifier, with its name
    Identifier(String),
    /// Any other token (literal, operator, separator, ...)
    Other,
}

/// A lexical token.
#[derive(Debug, Clone, PartialEq, Eq)]
pub struct Token {
    pub kind: TokenKind,
    /// The token's source text
    pub lexeme: String,
    pub span: Span,
}

/// An expression.
#[derive(Debug, PartialEq, Eq)]
pub enum Expression {
    IntegerLiteral { value: i64, span: Span },
    /// A floating-point literal, held by its decimal rendering
    FloatLiteral { text: String, span: Span },
    StringLiteral { value: String, span: Span },
    BooleanLiteral { value: bool, span: Span },
    Identifier { name: String, span: Span },
    BinaryOp { left: Box<Expression>, operator: String, right: Box<Expression>, span: Span },
    UnaryOp { operator: String, operand: Box<Expression>, span: Span },
    FunctionCall { name: String, arguments: Vec<Expression>, span: Span },
    ArrayAccess { array: Box<Expression>, index: Box<Expression>, span: Span },
}

/// The target of an assignment.
#[derive(Debug, PartialEq, Eq)]
pub enum AssignmentTarget {
    Identifier { name: String, span: Span },
    ArrayElement { name: String, indices: Vec<Expression>, span: Span },
}

/// One `Case` branch of a `Select Case` statement.
#[derive(Debug, PartialEq, Eq)]
pub struct CaseClause {
    pub body: Vec<Statement>,
    pub span: Span,
}

/// A statement.
#[derive(Debug, PartialEq, Eq)]
pub enum Statement {
    /// `Public`/`Dim`/`Const` declaration
    VarDeclaration {
        keyword: String,
        name: String,
        array_dimensions: Option<Vec<Expression>>,
        type_annotation: Option<String>,
        initializer: Option<Expression>,
        span: Span,
    },
    Assignment { target: AssignmentTarget, value: Expression, span: Span },
    IfStatement {
        condition: Expression,
        then_branch: Vec<Statement>,
        else_branch: Option<Vec<Statement>>,
        span: Span,
    },
    /// `#If` ... `#EndIf`
    PreprocessorConditional {
        condition: Expression,
        then_branch: Vec<Statement>,
        else_branch: Option<Vec<Statement>>,
        span: Span,
    },
    ForLoop {
        variable: String,
        start: Expression,
        end: Expression,
        step: Option<Expression>,
        body: Vec<Statement>,
        span: Span,
    },
    DoLoop { condition: Option<Expression>, body: Vec<Statement>, span: Span },
    SelectCase {
        selector: Expression,
        cases: Vec<CaseClause>,
        else_branch: Option<Vec<Statement>>,
        span: Span,
    },
    FunctionCall { name: String, arguments: Vec<Expression>, span: Span },
    Expression { expression: Expression, span: Span },
    /// `BeginProg`, `EndProg`, `DataTable`, `EndTable`, and the other flat block markers
    ProgramStructure { keyword: String, arguments: Option<Vec<Expression>>, span: Span },
    FunctionDefinition { name: String, parameters: Vec<String>, body: Vec<Statement>, span: Span },
    SubroutineDefinition {
        name: String,
        parameters: Vec<String>,
        body: Vec<Statement>,
        span: Span,
    },
    StructureType { name: String, span: Span },
}

/// A parsed program.
#[derive(Debug, PartialEq, Eq)]
pub struct Program {
    pub statements: Vec<Statement>,
    pub span: Span,
}

impl Program {
    /// Creates a program.
    pub fn new(statements: Vec<Statement>, span: Span) -> (r: Program)
        ensures
            r.statements == statements,
            r.span == span,
    {
        Program { statements, span }
    }
}

/// How serious a semantic error is.
#[derive(Debug, Clone, Copy, PartialEq, Eq)]
pub enum ErrorSeverity {
    Error,
    Warning,
}

/// What a semantic error is about.
#[derive(Debug, Clone, PartialEq, Eq)]
pub enum SemanticErrorKind {
    /// A variable name longer than the datalogger model allows
    MaxLengthExceeded { variable_name: String, max_length: usize },
    /// A variable name longer than the recommended length
    RecommendedLengthExceeded { variable_name: String, recommended_length: usize },
    /// Two variable names that are the same once truncated
    TruncationCollision { variable_name: String },
}

/// A problem found by the semantic analysis of a program.
#[derive(Debug, Clone, PartialEq, Eq)]
pub struct SemanticError {
    pub message: String,
    pub span: Span,
    pub severity: ErrorSeverity,
    pub kind: SemanticErrorKind,
}

/// The span of an expression.
pub open spec fn expression_span(e: Expression) -> Span {
    match e {
        Expression::IntegerLiteral { span, .. } => span,
        Expression::FloatLiteral { span, .. } => span,
        Expression::StringLiteral { span, .. } => span,
        Expression::BooleanLiteral { span, .. } => span,
        Expression::Identifier { span, .. } => span,
        Expression::BinaryOp { span, .. } => span,
        Expression::UnaryOp { span, .. } => span,
        Expression::FunctionCall { span, .. } => span,
        Expression::ArrayAccess { span, .. } => span,
    }
}

/// The span of a statement.
pub open spec fn statement_span(s: Statement) -> Span {
    match s {
        Statement::VarDeclaration { span, .. } => span,
        Statement::Assignment { span, .. } => span,
        Statement::IfStatement { span, .. } => span,
        Statement::PreprocessorConditional { span, .. } => span,
        Statement::ForLoop { span, .. } => span,
        Statement::DoLoop { span, .. } => span,
        Statement::SelectCase { span, .. } => span,
        Statement::FunctionCall { span, .. } => span,
        Statement::Expression { span, .. } => span,
        Statement::ProgramStructure { span, .. } => span,
        Statement::FunctionDefinition { span, .. } => span,
        Statement::SubroutineDefinition { span, .. } => span,
        Statement::StructureType { span, .. } => span,
    }
}

impl Expression {
    /// The expression's source span.
    pub fn span(&self) -> (r: Span)
        ensures
            r == expression_span(*self),
    {
        match self {
            Expression::IntegerLiteral { span, .. } => *span,
            Expression::FloatLiteral { span, .. } => *span,
            Expression::StringLiteral { span, .. } => *span,
            Expression::BooleanLiteral { span, .. } => *span,
            Expression::Identifier { span, .. } => *span,
            Expression::BinaryOp { span, .. } => *span,
            Expression::UnaryOp { span, .. } => *span,
            Expression::FunctionCall { span, .. } => *span,
            Expression::ArrayAccess { span, .. } => *span,
        }
    }
}

impl Statement {
    /// The statement's source span.
    pub fn span(&self) -> (r: Span)
        ensures
            r == statement_span(*self),
    {
        match self {
            Statement::VarDeclaration { span, .. } => *span,
            Statement::Assignment { span, .. } => *span,
            Statement::IfStatement { span, .. } => *span,
            Statement::PreprocessorConditional { span, .. } => *span,
            Statement::ForLoop { span, .. } => *span,
            Statement::DoLoop { span, .. } => *span,
            Statement::SelectCase { span, .. } => *span,
            Statement::FunctionCall { span, .. } => *span,
            Statement::Expression { span, .. } => *span,
            Statement::ProgramStructure { span, .. } => *span,
            Statement::FunctionDefinition { span, .. } => *span,
            Statement::SubroutineDefinition { span, .. } => *span,
            Statement::StructureType { span, .. } => *span,
        }
    }
}

// ---------------------------------------------------------------------------
// Source positions to protocol positions
// ---------------------------------------------------------------------------

/// `n - 1`, or 0 when `n` is 0.
pub open spec fn one_less(n: usize) -> usize {
    if n == 0 {
        0
    } else {
        (n - 1) as usize
    }
}

/// The protocol position of a source position: both coordinates one less
/// (saturating at 0), truncated to 32 bits.
pub open spec fn lsp_position(p: Position) -> protocol::Position {
    protocol::Position { line: one_less(p.line) as u32, character: one_less(p.column) as u32 }
}

/// The protocol range of a source span.
pub open spec fn lsp_range(s: Span) -> protocol::Range {
    protocol::Range { start: lsp_position(s.start), end: lsp_position(s.end) }
}

/// Converts a 1-indexed source position to a 0-indexed protocol position.
pub fn position_to_lsp(pos: Position) -> (r: protocol::Position)
    ensures
        r == lsp_position(pos),
{
    protocol::Position {
        line: pos.line.saturating_sub(1) as u32,
        character: pos.column.saturating_sub(1) as u32,
    }
}

/// Converts a source span to a protocol range.
pub fn span_to_range(span: Span) -> (r: protocol::Range)
    ensures
        r == lsp_range(span),
{
    protocol::Range { start: position_to_lsp(span.start), end: position_to_lsp(span.end) }
}

/// Whether the protocol position `pos` (0-indexed) falls inside `span`
/// (1-indexed, half-open at its end).
pub open spec fn span_contains(span: Span, pos: protocol::Position) -> bool {
    let line = pos.line + 1;
    let column = pos.character + 1;
    &&& span.start.line <= line <= span.end.line
    &&& !(line == span.start.line && column < span.start.column)
    &&& !(line == span.end.line && column >= span.end.column)
}

/// Whether the protocol position `pos` falls inside `span`.
pub fn span_contains_position(span: Span, pos: protocol::Position) -> (r: bool)
    ensures
        r == span_contains(span, pos),
{
    let line = pos.line as u64 + 1;
    let column = pos.character as u64 + 1;
    let start_line = span.start.line as u64;
    let end_line = span.end.line as u64;
    if line < start_line || line > end_line {
        return false;
    }
    if line == start_line && column < span.start.column as u64 {
        return false;
    }
    if line == end_line && column >= span.end.column as u64 {
        return false;
    }
    true
}

/// Whether `t` is an identifier token.
pub open spec fn is_identifier(t: Token) -> bool {
    t.kind is Identifier
}

/// Whether token `t` is a candidate at `pos`: it contains `pos`, and is an
/// identifier when `identifiers_only` is set.
pub open spec fn token_at(t: Token, pos: protocol::Position, identifiers_only: bool) -> bool {
    (!identifiers_only || is_identifier(t)) && span_contains(t.span, pos)
}

/// The index of the first candidate token at `pos`.
pub open spec fn token_index_at(
    tokens: Seq<Token>,
    pos: protocol::Position,
    identifiers_only: bool,
) -> Option<int>
    decreases tokens.len(),
{
    if tokens.len() == 0 {
        None
    } else {
        match token_index_at(tokens.drop_last(), pos, identifiers_only) {
            Some(i) => Some(i),
            None => if token_at(tokens.last(), pos, identifiers_only) {
                Some(tokens.len() - 1)
            } else {
                None
            },
        }
    }
}

/// The index of the first identifier token that contains `pos`.
pub open spec fn identifier_index_at(tokens: Seq<Token>, pos: protocol::Position) -> Option<int> {
    token_index_at(tokens, pos, true)
}

proof fn lemma_token_index_at_bounds(
    tokens: Seq<Token>,
    pos: protocol::Position,
    identifiers_only: bool,
)
    ensures
        token_index_at(tokens, pos, identifiers_only) matches Some(i) ==> 0 <= i < tokens.len()
            && token_at(tokens[i], pos, identifiers_only),
    decreases tokens.len(),
{
    if tokens.len() > 0 {
        lemma_token_index_at_bounds(tokens.drop_last(), pos, identifiers_only);
    }
}

/// Finding in a prefix that already holds a match finds the same token.
proof fn lemma_token_prefix(
    tokens: Seq<Token>,
    k: int,
    pos: protocol::Position,
    identifiers_only: bool,
)
    requires
        0 <= k <= tokens.len(),
        token_index_at(tokens.take(k), pos, identifiers_only) is Some,
    ensures
        token_index_at(tokens, pos, identifiers_only) == token_index_at(
            tokens.take(k),
            pos,
            identifiers_only,
        ),
    decreases tokens.len() - k,
{
    if k < tokens.len() {
        assert(tokens.take(k + 1).drop_last() =~= tokens.take(k));
        lemma_token_prefix(tokens, k + 1, pos, identifiers_only);
    } else {
        assert(tokens.take(k) =~= tokens);
    }
}

/// Finds the first token that contains `pos` (only identifier tokens when
/// `identifiers_only` is set).
pub fn find_token_index(tokens: &[Token], pos: protocol::Position, identifiers_only: bool) -> (r:
    Option<usize>)
    ensures
        match (r, token_index_at(tokens@, pos, identifiers_only)) {
            (Some(i), Some(j)) => i == j,
            (None, None) => true,
            _ => false,
        },
        r matches Some(i) ==> i < tokens@.len() && token_at(tokens@[i as int], pos, identifiers_only),
{
    proof {
        lemma_token_index_at_bounds(tokens@, pos, identifiers_only);
    }
    let mut i: usize = 0;
    while i < tokens.len()
        invariant
            i <= tokens@.len(),
            token_index_at(tokens@.take(i as int), pos, identifiers_only) is None,
        decreases tokens@.len() - i,
    {
        proof {
            assert(tokens@.take(i + 1).drop_last() =~= tokens@.take(i as int));
        }
        let t = &tokens[i];
        let kind_ok = match &t.kind {
            TokenKind::Identifier(_) => true,
            _ => !identifiers_only,
        };
        if kind_ok && span_contains_position(t.span, pos) {
            proof {
                lemma_token_prefix(tokens@, i as int + 1, pos, identifiers_only);
            }
            return Some(i);
        }
        i += 1;
    }
    proof {
        assert(tokens@.take(i as int) =~= tokens@);
    }
    None
}

/// The name of the identifier token that contains `pos`, if any.
pub open spec fn identifier_name_at(tokens: Seq<Token>, pos: protocol::Position) -> Option<
    Seq<char>,
> {
    match identifier_index_at(tokens, pos) {
        Some(i) => Some(tokens[i].lexeme@),
        None => None,
    }
}

/// Finds the identifier token at `pos` and returns its text.
pub fn identifier_at(tokens: &[Token], pos: protocol::Position) -> (r: Option<String>)
    ensures
        match (r, identifier_name_at(tokens@, pos)) {
            (Some(s), Some(t)) => s@ == t,
            (None, None) => true,
            _ => false,
        },
{
    match find_token_index(tokens, pos, true) {
        Some(i) => Some(crate::text::owned(tokens[i].lexeme.as_str())),
        None => None,
    }
}

// ---------------------------------------------------------------------------
// Nesting: which statements a statement list holds, at any depth
// ---------------------------------------------------------------------------

/// Whether `t` is one of `stmts` or is nested, at any depth, in the bodies
/// of one of them (`If`/`#If` branches, `For`/`Do` bodies, `Select Case`
/// branches and `Else`, `Function`/`Sub` bodies).
pub open spec fn occurs_in(stmts: Seq<Statement>, t: Statement) -> bool
    decreases stmts,
{
    if stmts.len() == 0 {
        false
    } else {
        occurs_in(stmts.drop_last(), t) || stmts[stmts.len() - 1] == t || occurs_within(
            stmts[stmts.len() - 1],
            t,
        )
    }
}

/// Whether `t` is nested, at any depth, in the bodies of `s`.
pub open spec fn occurs_within(s: Statement, t: Statement) -> bool
    decreases s,
{
    match s {
        Statement::IfStatement { then_branch, else_branch, .. } => occurs_in(then_branch@, t)
            || occurs_in_else(else_branch, t),
        Statement::PreprocessorConditional { then_branch, else_branch, .. } => occurs_in(
            then_branch@,
            t,
        ) || occurs_in_else(else_branch, t),
        Statement::ForLoop { body, .. } => occurs_in(body@, t),
        Statement::DoLoop { body, .. } => occurs_in(body@, t),
        Statement::SelectCase { cases, else_branch, .. } => occurs_in_cases(cases@, t)
            || occurs_in_else(else_branch, t),
        Statement::FunctionDefinition { body, .. } => occurs_in(body@, t),
        Statement::SubroutineDefinition { body, .. } => occurs_in(body@, t),
        _ => false,
    }
}

/// Whether `t` occurs in an optional `Else` body.
pub open spec fn occurs_in_else(else_branch: Option<Vec<Statement>>, t: Statement) -> bool
    decreases else_branch,
{
    match else_branch {
        Some(e) => occurs_in(e@, t),
        None => false,
    }
}

/// Whether `t` occurs in the body of one of the `Case` branches.
pub open spec fn occurs_in_cases(cases: Seq<CaseClause>, t: Statement) -> bool
    decreases cases,
{
    if cases.len() == 0 {
        false
    } else {
        occurs_in_cases(cases.drop_last(), t) || occurs_in(cases[cases.len() - 1].body@, t)
    }
}

/// Whether `t` lies on the cursor's path through `stmts`: in each list
/// along the way, the path goes through the first statement whose span
/// contains `pos` (and, in a `Select Case`, through any branch whose span
/// contains it), and `t` is one of those statements.
pub open spec fn on_cursor_path(stmts: Seq<Statement>, t: Statement, pos: protocol::Position) -> bool
    decreases stmts,
{
    exists|i: int|
        0 <= i < stmts.len() && span_contains(statement_span(#[trigger] stmts[i]), pos) && (forall|
            j: int,
        | 0 <= j < i ==> !span_contains(statement_span(#[trigger] stmts[j]), pos)) && (stmts[i]
            == t || on_cursor_path_within(stmts[i], t, pos))
}

/// Whether `t` lies on the cursor's path inside the bodies of `s`.
pub open spec fn on_cursor_path_within(s: Statement, t: Statement, pos: protocol::Position) -> bool
    decreases s,
{
    match s {
        Statement::IfStatement { then_branch, else_branch, .. } => on_cursor_path(
            then_branch@,
            t,
            pos,
        ) || on_cursor_path_else(else_branch, t, pos),
        Statement::PreprocessorConditional { then_branch, else_branch, .. } => on_cursor_path(
            then_branch@,
            t,
            pos,
        ) || on_cursor_path_else(else_branch, t, pos),
        Statement::ForLoop { body, .. } => on_cursor_path(body@, t, pos),
        Statement::DoLoop { body, .. } => on_cursor_path(body@, t, pos),
        Statement::SelectCase { cases, else_branch, .. } => on_cursor_path_cases(cases@, t, pos)
            || on_cursor_path_else(else_branch, t, pos),
        Statement::FunctionDefinition { body, .. } => on_cursor_path(body@, t, pos),
        Statement::SubroutineDefinition { body, .. } => on_cursor_path(body@, t, pos),
        _ => false,
    }
}

/// Whether `t` lies on the cursor's path in an optional `Else` body.
pub open spec fn on_cursor_path_else(
    else_branch: Option<Vec<Statement>>,
    t: Statement,
    pos: protocol::Position,
) -> bool
    decreases else_branch,
{
    match else_branch {
        Some(e) => on_cursor_path(e@, t, pos),
        None => false,
    }
}

/// Whether `t` lies on the cursor's path in a `Case` branch that contains `pos`.
pub open spec fn on_cursor_path_cases(cases: Seq<CaseClause>, t: Statement, pos: protocol::Position) -> bool
    decreases cases,
{
    if cases.len() == 0 {
        false
    } else {
        on_cursor_path_cases(cases.drop_last(), t, pos) || (span_contains(
            cases[cases.len() - 1].span,
            pos,
        ) && on_cursor_path(cases[cases.len() - 1].body@, t, pos))
    }
}

/// The name a statement declares: a `Public`/`Dim`/`Const` variable, a
/// `Function` or a `Sub`.
pub open spec fn declared_name(s: Statement) -> Option<Seq<char>> {
    match s {
        Statement::VarDeclaration { name, .. } => Some(name@),
        Statement::FunctionDefinition { name, .. } => Some(name@),
        Statement::SubroutineDefinition { name, .. } => Some(name@),
        _ => None,
    }
}

/// Whether `t` is one of `stmts` or is nested in the bodies of one of them
/// without passing through a `Select Case` (`If`/`#If` branches and their
/// `Else`, `For`/`Do` bodies, `Function`/`Sub` bodies).
pub open spec fn occurs_outside_select(stmts: Seq<Statement>, t: Statement) -> bool
    decreases stmts,
{
    if stmts.len() == 0 {
        false
    } else {
        occurs_outside_select(stmts.drop_last(), t) || stmts[stmts.len() - 1] == t
            || occurs_within_outside_select(stmts[stmts.len() - 1], t)
    }
}

/// Whether `t` is nested in the bodies of `s` without passing through a
/// `Select Case`.
pub open spec fn occurs_within_outside_select(s: Statement, t: Statement) -> bool
    decreases s,
{
    match s {
        Statement::IfStatement { then_branch, else_branch, .. } => occurs_outside_select(
            then_branch@,
            t,
        ) || occurs_in_else_outside_select(else_branch, t),
        Statement::PreprocessorConditional { then_branch, else_branch, .. } => occurs_outside_select(
            then_branch@,
            t,
        ) || occurs_in_else_outside_select(else_branch, t),
        Statement::ForLoop { body, .. } => occurs_outside_select(body@, t),
        Statement::DoLoop { body, .. } => occurs_outside_select(body@, t),
        Statement::FunctionDefinition { body, .. } => occurs_outside_select(body@, t),
        Statement::SubroutineDefinition { body, .. } => occurs_outside_select(body@, t),
        _ => false,
    }
}

/// Whether `t` occurs in an optional `Else` body without passing through a
/// `Select Case`.
pub open spec fn occurs_in_else_outside_select(else_branch: Option<Vec<Statement>>, t: Statement) -> bool
    decreases else_branch,
{
    match else_branch {
        Some(e) => occurs_outside_select(e@, t),
        None => false,
    }
}

/// The expressions a statement holds directly (not those of the statements
/// in its bodies): array dimensions and initializer, assignment indices and
/// value, conditions, loop bounds and step, call and marker arguments, the
/// expression of an expression statement, the `Select Case` selector.
pub open spec fn statement_expressions(s: Statement) -> Seq<Expression> {
    match s {
        Statement::VarDeclaration { array_dimensions, initializer, .. } => (match array_dimensions {
            Some(d) => d@,
            None => Seq::empty(),
        }) + match initializer {
            Some(e) => seq![e],
            None => Seq::empty(),
        },
        Statement::Assignment { target, value, .. } => (match target {
            AssignmentTarget::ArrayElement { indices, .. } => indices@,
            _ => Seq::empty(),
        }).push(value),
        Statement::IfStatement { condition, .. } => seq![condition],
        Statement::PreprocessorConditional { condition, .. } => seq![condition],
        Statement::ForLoop { start, end, step, .. } => seq![start, end] + match step {
            Some(e) => seq![e],
            None => Seq::empty(),
        },
        Statement::DoLoop { condition, .. } => match condition {
            Some(e) => seq![e],
            None => Seq::empty(),
        },
        Statement::SelectCase { selector, .. } => seq![selector],
        Statement::FunctionCall { arguments, .. } => arguments@,
        Statement::Expression { expression, .. } => seq![expression],
        Statement::ProgramStructure { arguments, .. } => match arguments {
            Some(a) => a@,
            None => Seq::empty(),
        },
        _ => Seq::empty(),
    }
}

/// Whether `x` is, or holds at any depth (in operands, call arguments or
/// array parts), a call of `name` with `arguments` at `span`.
pub open spec fn call_within_expression(
    x: Expression,
    name: Seq<char>,
    arguments: Seq<Expression>,
    span: Span,
) -> bool
    decreases x,
{
    match x {
        Expression::FunctionCall { name: n, arguments: a, span: sp } => (n@ == name && a@
            == arguments && sp == span) || call_within_expressions(a@, name, arguments, span),
        Expression::BinaryOp { left, right, .. } => call_within_expression(
            *left,
            name,
            arguments,
            span,
        ) || call_within_expression(*right, name, arguments, span),
        Expression::UnaryOp { operand, .. } => call_within_expression(*operand, name, arguments, span),
        Expression::ArrayAccess { array, index, .. } => call_within_expression(
            *array,
            name,
            arguments,
            span,
        ) || call_within_expression(*index, name, arguments, span),
        _ => false,
    }
}

/// Whether one of `xs` is, or holds at any depth, a call of `name` with
/// `arguments` at `span`.
pub open spec fn call_within_expressions(
    xs: Seq<Expression>,
    name: Seq<char>,
    arguments: Seq<Expression>,
    span: Span,
) -> bool
    decreases xs,
{
    if xs.len() == 0 {
        false
    } else {
        call_within_expressions(xs.drop_last(), name, arguments, span) || call_within_expression(
            xs[xs.len() - 1],
            name,
            arguments,
            span,
        )
    }
}

} // verus!

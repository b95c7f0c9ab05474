use crbasic_lsp::semantic_tokens::{
    SemanticTokensProvider, MODIFIER_DECLARATION, MODIFIER_GLOBAL, MODIFIER_READONLY,
    TOKEN_TYPE_FUNCTION, TOKEN_TYPE_VARIABLE,
};
use crbasic_lsp::syntax::{
    AssignmentTarget, Expression, Position as ParserPosition, Program, Span, Statement, Token,
    TokenKind,
};

/// Splits CRBasic source into the tokens the language services read:
/// language keywords, identifiers (names, data types, function names), and
/// any other token; positions are 1-indexed, spans end one past the token.
fn tokenize(source: &str) -> Vec<Token> {
    const KEYWORDS: [&str; 16] = [
        "If", "Then", "Else", "EndIf", "As", "Dim", "Public", "Const", "Function",
        "EndFunction", "Sub", "EndSub", "#If", "For", "Next", "To",
    ];
    let mut tokens = Vec::new();
    for (line_index, line) in source.split('\n').enumerate() {
        let chars: Vec<char> = line.chars().collect();
        let mut i = 0;
        while i < chars.len() {
            let c = chars[i];
            if c.is_whitespace() {
                i += 1;
                continue;
            }
            let start = i;
            if c.is_alphabetic() || c == '_' || c == '#' {
                i += 1;
                while i < chars.len() && (chars[i].is_alphanumeric() || chars[i] == '_') {
                    i += 1;
                }
            } else if c.is_ascii_digit() {
                while i < chars.len() && (chars[i].is_ascii_digit() || chars[i] == '.') {
                    i += 1;
                }
            } else if c == '"' {
                i += 1;
                while i < chars.len() && chars[i] != '"' {
                    i += 1;
                }
                i += 1;
            } else {
                i += 1;
            }
            let text: String = chars[start..i.min(chars.len())].iter().collect();
            let kind = if KEYWORDS.contains(&text.as_str()) {
                TokenKind::Keyword(text.clone())
            } else if c.is_alphabetic() || c == '_' {
                TokenKind::Identifier(text.clone())
            } else {
                TokenKind::Other
            };
            tokens.push(Token {
                kind,
                lexeme: text,
                span: Span::new(
                    ParserPosition::new(line_index + 1, start + 1),
                    ParserPosition::new(line_index + 1, i.min(chars.len()) + 1),
                ),
            });
        }
    }
    tokens
}

fn span(line: usize, start: usize, end_line: usize, end: usize) -> Span {
    Span::new(ParserPosition::new(line, start), ParserPosition::new(end_line, end))
}

fn var(keyword: &str, name: &str, line: usize) -> Statement {
    Statement::VarDeclaration {
        keyword: keyword.to_string(),
        name: name.to_string(),
        array_dimensions: None,
        type_annotation: None,
        initializer: None,
        span: span(line, 1, line, keyword.len() + name.len() + 2),
    }
}

fn assign(name: &str, line: usize) -> Statement {
    Statement::Assignment {
        target: AssignmentTarget::Identifier {
            name: name.to_string(),
            span: span(line, 1, line, 1 + name.len()),
        },
        value: Expression::IntegerLiteral {
            value: 1,
            span: span(line, name.len() + 4, line, name.len() + 5),
        },
        span: span(line, 1, line, name.len() + 5),
    }
}

fn call(name: &str, line: usize) -> Statement {
    Statement::FunctionCall {
        name: name.to_string(),
        arguments: Vec::new(),
        span: span(line, 1, line, name.len() + 3),
    }
}

fn program(statements: Vec<Statement>) -> Program {
    Program::new(statements, span(1, 1, 1, 1))
}

#[test]
fn declares_function_and_variable_token_types_in_order() {
    let legend = SemanticTokensProvider::legend();

    assert_eq!(legend.token_types, vec!["function".to_string(), "variable".to_string()]);
}

#[test]
fn declares_declaration_readonly_and_global_modifiers_in_order() {
    let legend = SemanticTokensProvider::legend();

    assert_eq!(
        legend.token_modifiers,
        vec![
            "declaration".to_string(),
            "readonly".to_string(),
            "global".to_string(),
        ]
    );
}

#[test]
fn marks_declaration_modifier_only_on_the_declaring_occurrence() {
    let source = "Dim i\ni = 1";
    let ast = program(vec![var("Dim", "i", 1), assign("i", 2)]);
    let tokens = tokenize(source);

    let result = SemanticTokensProvider::get_semantic_tokens(&ast, &tokens);

    assert_eq!(result.len(), 2);
    assert_eq!(
        result[0].token_modifiers_bitset & MODIFIER_DECLARATION,
        MODIFIER_DECLARATION
    );
    assert_eq!(result[1].token_modifiers_bitset & MODIFIER_DECLARATION, 0);
}

#[test]
fn marks_public_variables_as_global_at_every_occurrence() {
    let source = "Public Temp_C\nTemp_C = 1";
    let ast = program(vec![var("Public", "Temp_C", 1), assign("Temp_C", 2)]);
    let tokens = tokenize(source);

    let result = SemanticTokensProvider::get_semantic_tokens(&ast, &tokens);

    assert_eq!(result.len(), 2);
    for token in &result {
        assert_eq!(
            token.token_type, TOKEN_TYPE_VARIABLE,
            "Public variable occurrences should be classified as variables"
        );
        assert_eq!(
            token.token_modifiers_bitset & MODIFIER_GLOBAL,
            MODIFIER_GLOBAL
        );
    }
}

#[test]
fn does_not_mark_dim_variables_as_global() {
    let source = "Dim i\ni = 1";
    let ast = program(vec![var("Dim", "i", 1), assign("i", 2)]);
    let tokens = tokenize(source);

    let result = SemanticTokensProvider::get_semantic_tokens(&ast, &tokens);

    for token in &result {
        assert_eq!(token.token_modifiers_bitset & MODIFIER_GLOBAL, 0);
    }
}

#[test]
fn marks_const_variables_as_readonly() {
    let source = "Const PI = 3.14";
    let ast = program(vec![Statement::VarDeclaration {
        keyword: "Const".to_string(),
        name: "PI".to_string(),
        array_dimensions: None,
        type_annotation: None,
        initializer: Some(Expression::FloatLiteral {
            text: "3.14".to_string(),
            span: span(1, 12, 1, 16),
        }),
        span: span(1, 1, 1, 16),
    }]);
    let tokens = tokenize(source);

    let result = SemanticTokensProvider::get_semantic_tokens(&ast, &tokens);

    assert_eq!(result.len(), 1);
    assert_eq!(
        result[0].token_modifiers_bitset & MODIFIER_READONLY,
        MODIFIER_READONLY
    );
}

#[test]
fn classifies_function_declaration_and_call_site_as_function_type() {
    // CRBasic functions return a value by assigning to their own
    // name (`Square = x * x`), so "Square" legitimately occurs three
    // times: the declaration header, the return assignment, and the
    // call site.
    let source = "Function Square(x)\nSquare = x * x\nEndFunction\nSquare(2)";
    let ast = program(vec![
        Statement::FunctionDefinition {
            name: "Square".to_string(),
            parameters: vec!["x".to_string()],
            body: vec![assign("Square", 2)],
            span: span(1, 1, 3, 12),
        },
        call("Square", 4),
    ]);
    let tokens = tokenize(source);

    let result = SemanticTokensProvider::get_semantic_tokens(&ast, &tokens);

    let square_occurrences: Vec<_> = result
        .iter()
        .filter(|t| t.token_type == TOKEN_TYPE_FUNCTION)
        .collect();

    assert_eq!(square_occurrences.len(), 3);
    assert_eq!(
        square_occurrences[0].token_modifiers_bitset & MODIFIER_DECLARATION,
        MODIFIER_DECLARATION
    );
    assert_eq!(
        square_occurrences[1].token_modifiers_bitset & MODIFIER_DECLARATION,
        0
    );
    assert_eq!(
        square_occurrences[2].token_modifiers_bitset & MODIFIER_DECLARATION,
        0
    );
}

#[test]
fn classifies_subroutine_the_same_way_as_function() {
    let source = "Sub Initialize()\nEndSub\nInitialize()";
    let ast = program(vec![
        Statement::SubroutineDefinition {
            name: "Initialize".to_string(),
            parameters: Vec::new(),
            body: Vec::new(),
            span: span(1, 1, 2, 7),
        },
        call("Initialize", 3),
    ]);
    let tokens = tokenize(source);

    let result = SemanticTokensProvider::get_semantic_tokens(&ast, &tokens);

    let occurrences: Vec<_> = result
        .iter()
        .filter(|t| t.token_type == TOKEN_TYPE_FUNCTION)
        .collect();
    assert_eq!(occurrences.len(), 2);
}

#[test]
fn ignores_identifiers_with_no_matching_declaration() {
    // TimeIntoInterval is a built-in function call with no VarDeclaration
    // or FunctionDefinition/SubroutineDefinition backing it.
    let source = "TimeIntoInterval(1, 1, 0)";
    let ast = program(vec![call("TimeIntoInterval", 1)]);
    let tokens = tokenize(source);

    let result = SemanticTokensProvider::get_semantic_tokens(&ast, &tokens);

    assert!(result.is_empty());
}

#[test]
fn encodes_first_token_with_absolute_line_and_column() {
    let source = "Dim i";
    let ast = program(vec![var("Dim", "i", 1)]);
    let tokens = tokenize(source);

    let result = SemanticTokensProvider::get_semantic_tokens(&ast, &tokens);

    assert_eq!(result.len(), 1);
    assert_eq!(result[0].delta_line, 0);
    assert_eq!(result[0].delta_start, 4);
    assert_eq!(result[0].length, 1);
}

#[test]
fn encodes_second_token_on_a_new_line_with_absolute_column() {
    let source = "Dim i\ni = 1";
    let ast = program(vec![var("Dim", "i", 1), assign("i", 2)]);
    let tokens = tokenize(source);

    let result = SemanticTokensProvider::get_semantic_tokens(&ast, &tokens);

    assert_eq!(result.len(), 2);
    assert_eq!(result[1].delta_line, 1);
    assert_eq!(result[1].delta_start, 0);
}

#[test]
fn encodes_same_line_tokens_with_relative_column_delta() {
    let source = "Public A\nA = A + 1";
    let ast = program(vec![var("Public", "A", 1), assign("A", 2)]);
    let tokens = tokenize(source);

    let result = SemanticTokensProvider::get_semantic_tokens(&ast, &tokens);

    assert_eq!(result.len(), 3);
    assert_eq!(result[1].delta_line, 1);
    assert_eq!(result[2].delta_line, 0);
    // The second "A" on line 2 starts further right than the
    // first; delta_start is relative to the previous token's start
    // column on the same line, not absolute.
    assert!(result[2].delta_start > 0);
}

#[test]
fn encodes_the_exact_token_stream() {
    let source = "Public A\nA = A + 1";
    let ast = program(vec![var("Public", "A", 1), assign("A", 2)]);
    let tokens = tokenize(source);

    let result = SemanticTokensProvider::get_semantic_tokens(&ast, &tokens);

    let encoded: Vec<[u32; 5]> = result
        .iter()
        .map(|t| {
            [
                t.delta_line,
                t.delta_start,
                t.length,
                t.token_type,
                t.token_modifiers_bitset,
            ]
        })
        .collect();
    assert_eq!(
        encoded,
        vec![
            [0, 7, 1, TOKEN_TYPE_VARIABLE, MODIFIER_GLOBAL | MODIFIER_DECLARATION],
            [1, 0, 1, TOKEN_TYPE_VARIABLE, MODIFIER_GLOBAL],
            [0, 4, 1, TOKEN_TYPE_VARIABLE, MODIFIER_GLOBAL],
        ]
    );
}

#[test]
fn a_later_declaration_of_a_name_shadows_an_earlier_one() {
    let source = "Public X\nConst X = 1";
    let ast = program(vec![var("Public", "X", 1), var("Const", "X", 2)]);
    let tokens = tokenize(source);

    let result = SemanticTokensProvider::get_semantic_tokens(&ast, &tokens);

    assert_eq!(result.len(), 2);
    // The table keeps the `Const` on line 2, so the first occurrence is not
    // its declaration and neither occurrence is global.
    assert_eq!(result[0].token_modifiers_bitset, MODIFIER_READONLY);
    assert_eq!(
        result[1].token_modifiers_bitset,
        MODIFIER_READONLY | MODIFIER_DECLARATION
    );
}

#[test]
fn out_of_order_tokens_are_refused_by_the_checked_entry_point() {
    let ast = program(vec![var("Dim", "i", 2)]);
    let mut tokens = tokenize("\nDim i\ni = 1");
    tokens.reverse();

    assert!(SemanticTokensProvider::try_semantic_tokens(&ast, &tokens).is_none());
    tokens.reverse();
    assert_eq!(
        SemanticTokensProvider::try_semantic_tokens(&ast, &tokens).map(|v| v.len()),
        Some(2)
    );
}

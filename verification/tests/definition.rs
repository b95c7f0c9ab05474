use crbasic_lsp::definition::{DefinitionMap, DefinitionProvider, SymbolDefinition, SymbolKind};
use crbasic_lsp::protocol::Position;
use crbasic_lsp::syntax::{
    span_to_range, Position as ParserPosition, Program, Span, Statement, Token, TokenKind,
};

fn create_span(start_line: usize, start_col: usize, end_line: usize, end_col: usize) -> Span {
    Span::new(
        ParserPosition::new(start_line, start_col),
        ParserPosition::new(end_line, end_col),
    )
}

fn create_identifier_token(name: &str, line: usize, start_col: usize) -> Token {
    let end_col = start_col + name.len();
    Token {
        kind: TokenKind::Identifier(name.to_string()),
        lexeme: name.to_string(),
        span: create_span(line, start_col, line, end_col),
    }
}

fn setup_test() -> (Vec<Token>, DefinitionMap, String) {
    let tokens = vec![Token {
        kind: TokenKind::Identifier("Temp_C".to_string()),
        lexeme: "Temp_C".to_string(),
        span: create_span(5, 10, 5, 16),
    }];

    let mut definitions = DefinitionMap::new();
    definitions.insert(
        "Temp_C".to_string(),
        SymbolDefinition {
            name: "Temp_C".to_string(),
            kind: SymbolKind::Variable,
            span: create_span(1, 8, 1, 14),
        },
    );

    let uri = "file:///test.cr1".to_string();

    (tokens, definitions, uri)
}

#[test]
fn definition_extracts_variable_declarations() {
    let ast = Program::new(
        vec![Statement::VarDeclaration {
            keyword: "Public".to_string(),
            name: "Temp_C".to_string(),
            array_dimensions: None,
            type_annotation: None,
            initializer: None,
            span: create_span(1, 1, 1, 14),
        }],
        create_span(1, 1, 1, 14),
    );

    let definitions = DefinitionProvider::extract_definitions(&ast);

    assert_eq!(definitions.len(), 1);
    let def = definitions.get("Temp_C").expect("Should find Temp_C");
    assert_eq!(def.kind, SymbolKind::Variable);
    assert_eq!(def.span.start.line, 1);
}

#[test]
fn extracts_function_definitions() {
    let ast = Program::new(
        vec![Statement::FunctionDefinition {
            name: "Calculate".to_string(),
            parameters: vec!["x".to_string()],
            body: vec![],
            span: create_span(1, 1, 3, 12),
        }],
        create_span(1, 1, 3, 12),
    );

    let definitions = DefinitionProvider::extract_definitions(&ast);

    assert_eq!(definitions.len(), 1);
    let def = definitions.get("Calculate").expect("Should find Calculate");
    assert_eq!(def.kind, SymbolKind::Function);
}

#[test]
fn extracts_subroutine_definitions() {
    let ast = Program::new(
        vec![Statement::SubroutineDefinition {
            name: "Initialize".to_string(),
            parameters: vec![],
            body: vec![],
            span: create_span(1, 1, 3, 7),
        }],
        create_span(1, 1, 3, 7),
    );

    let definitions = DefinitionProvider::extract_definitions(&ast);

    assert_eq!(definitions.len(), 1);
    let def = definitions
        .get("Initialize")
        .expect("Should find Initialize");
    assert_eq!(def.kind, SymbolKind::Subroutine);
}

#[test]
fn extracts_nested_definitions() {
    let ast = Program::new(
        vec![Statement::FunctionDefinition {
            name: "Outer".to_string(),
            parameters: vec![],
            body: vec![Statement::VarDeclaration {
                keyword: "Dim".to_string(),
                name: "local_var".to_string(),
                array_dimensions: None,
                type_annotation: None,
                initializer: None,
                span: create_span(2, 3, 2, 15),
            }],
            span: create_span(1, 1, 3, 12),
        }],
        create_span(1, 1, 3, 12),
    );

    let definitions = DefinitionProvider::extract_definitions(&ast);

    assert_eq!(definitions.len(), 2);
    assert!(definitions.contains_key("Outer"));
    assert!(definitions.contains_key("local_var"));
}

#[test]
fn finds_identifier_at_exact_start() {
    let tokens = vec![create_identifier_token("Temp_C", 1, 1)];
    let position = Position {
        line: 0,
        character: 0,
    };

    let result = DefinitionProvider::find_identifier_at_position(&tokens, position);

    assert_eq!(result, Some("Temp_C".to_string()));
}

#[test]
fn finds_identifier_at_middle() {
    let tokens = vec![create_identifier_token("Temp_C", 1, 1)];
    let position = Position {
        line: 0,
        character: 3,
    };

    let result = DefinitionProvider::find_identifier_at_position(&tokens, position);

    assert_eq!(result, Some("Temp_C".to_string()));
}

#[test]
fn returns_none_outside_identifier() {
    let tokens = vec![create_identifier_token("Temp_C", 1, 1)];
    let position = Position {
        line: 0,
        character: 10,
    };

    let result = DefinitionProvider::find_identifier_at_position(&tokens, position);

    assert_eq!(result, None);
}

#[test]
fn ignores_non_identifier_tokens() {
    let tokens = vec![Token {
        kind: TokenKind::Keyword("Public".to_string()),
        lexeme: "Public".to_string(),
        span: create_span(1, 1, 1, 7),
    }];
    let position = Position {
        line: 0,
        character: 0,
    };

    let result = DefinitionProvider::find_identifier_at_position(&tokens, position);

    assert_eq!(result, None);
}

#[test]
fn returns_definition_location_for_known_symbol() {
    let (tokens, definitions, uri) = setup_test();
    let position = Position {
        line: 4,
        character: 10,
    };

    let result =
        DefinitionProvider::get_definition(&tokens, position, &definitions, &uri);

    assert!(result.is_some());
    let location = result.expect("Should return location");
    assert_eq!(location.uri, uri);
    assert_eq!(location.range.start.line, 0);
    assert_eq!(location.range.start.character, 7);
}

#[test]
fn returns_none_for_unknown_symbol() {
    let tokens = vec![Token {
        kind: TokenKind::Identifier("Unknown".to_string()),
        lexeme: "Unknown".to_string(),
        span: create_span(5, 10, 5, 17),
    }];
    let definitions = DefinitionMap::new();
    let uri = "file:///test.cr1".to_string();
    let position = Position {
        line: 4,
        character: 10,
    };

    let result = DefinitionProvider::get_definition(&tokens, position, &definitions, &uri);

    assert!(result.is_none());
}

#[test]
fn definition_returns_none_when_not_on_identifier() {
    let (_, definitions, uri) = setup_test();
    let tokens: Vec<Token> = vec![];
    let position = Position {
        line: 4,
        character: 10,
    };

    let result = DefinitionProvider::get_definition(&tokens, position, &definitions, &uri);

    assert!(result.is_none());
}

#[test]
fn converts_parser_span_to_lsp_range() {
    let span = create_span(5, 10, 5, 20);

    let range = span_to_range(span);

    // Parser is 1-indexed, LSP is 0-indexed
    assert_eq!(range.start.line, 4);
    assert_eq!(range.start.character, 9);
    assert_eq!(range.end.line, 4);
    assert_eq!(range.end.character, 19);
}

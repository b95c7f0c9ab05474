use crbasic_lsp::protocol::Position;
use crbasic_lsp::references::ReferencesProvider;
use crbasic_lsp::syntax::{Position as ParserPosition, Span, Token, TokenKind};

fn create_span(start_line: usize, start_col: usize, end_line: usize, end_col: usize) -> Span {
    Span::new(
        ParserPosition::new(start_line, start_col),
        ParserPosition::new(end_line, end_col),
    )
}

fn create_identifier_token(name: &str, line: usize, start_col: usize) -> Token {
    let end_col = start_col + name.len();
    Token {
        kind: TokenKind::Identifier(name.to_string()),
        lexeme: name.to_string(),
        span: create_span(line, start_col, line, end_col),
    }
}

fn setup_test() -> (Vec<Token>, String) {
    let tokens = vec![
        create_identifier_token("Temp_C", 1, 8),
        create_identifier_token("Temp_C", 3, 1),
        create_identifier_token("Temp_C", 5, 10),
    ];
    let uri = "file:///test.cr1".to_string();
    (tokens, uri)
}

#[test]
fn finds_single_reference() {
    let tokens = vec![create_identifier_token("Temp_C", 1, 1)];

    let refs = ReferencesProvider::find_all_references(&tokens, "Temp_C");

    assert_eq!(refs.len(), 1);
    assert_eq!(refs[0].start.line, 1);
    assert_eq!(refs[0].start.column, 1);
}

#[test]
fn finds_multiple_references() {
    let tokens = vec![
        create_identifier_token("Temp_C", 1, 8),
        create_identifier_token("Temp_C", 3, 1),
        create_identifier_token("Temp_C", 5, 10),
    ];

    let refs = ReferencesProvider::find_all_references(&tokens, "Temp_C");

    assert_eq!(refs.len(), 3);
}

#[test]
fn ignores_different_identifiers() {
    let tokens = vec![
        create_identifier_token("Temp_C", 1, 1),
        create_identifier_token("Humidity", 2, 1),
        create_identifier_token("Temp_C", 3, 1),
    ];

    let refs = ReferencesProvider::find_all_references(&tokens, "Temp_C");

    assert_eq!(refs.len(), 2);
}

#[test]
fn returns_empty_for_unknown_symbol() {
    let tokens = vec![create_identifier_token("Temp_C", 1, 1)];

    let refs = ReferencesProvider::find_all_references(&tokens, "Unknown");

    assert!(refs.is_empty());
}

#[test]
fn returns_all_references_including_declaration() {
    let (tokens, uri) = setup_test();
    let position = Position {
        line: 0,
        character: 8,
    };

    let result = ReferencesProvider::get_references(&tokens, position, &uri, true);

    assert!(result.is_some());
    let locations = result.expect("Should return locations");
    assert_eq!(locations.len(), 3);
}

#[test]
fn references_returns_none_when_not_on_identifier() {
    let (_, uri) = setup_test();
    let tokens = vec![];
    let position = Position {
        line: 0,
        character: 0,
    };

    let result = ReferencesProvider::get_references(&tokens, position, &uri, true);

    assert!(result.is_none());
}

#[test]
fn locations_have_correct_uri() {
    let (tokens, uri) = setup_test();
    let position = Position {
        line: 0,
        character: 8,
    };

    let result = ReferencesProvider::get_references(&tokens, position, &uri, true);

    let locations = result.expect("Should return locations");
    for loc in locations {
        assert_eq!(loc.uri, uri);
    }
}

#[test]
fn locations_have_correct_ranges() {
    let (tokens, uri) = setup_test();
    let position = Position {
        line: 0,
        character: 8,
    };

    let result = ReferencesProvider::get_references(&tokens, position, &uri, true);

    let locations = result.expect("Should return locations");
    // First reference: line 1, col 8 (0-indexed: line 0, char 7)
    assert_eq!(locations[0].range.start.line, 0);
    assert_eq!(locations[0].range.start.character, 7);
    // Second reference: line 3, col 1 (0-indexed: line 2, char 0)
    assert_eq!(locations[1].range.start.line, 2);
    assert_eq!(locations[1].range.start.character, 0);
}

#[test]
fn leaves_out_the_declaration_when_it_is_not_wanted() {
    let (tokens, uri) = setup_test();
    let position = Position {
        line: 0,
        character: 8,
    };

    let locations = ReferencesProvider::get_references(&tokens, position, &uri, false)
        .expect("Should return locations");

    assert_eq!(locations.len(), 2);
    assert_eq!(locations[0].range.start.line, 2);
    assert_eq!(locations[0].range.start.character, 0);
    assert_eq!(locations[1].range.start.line, 4);
    assert_eq!(locations[1].range.start.character, 9);
}

#[test]
fn a_symbol_used_only_where_it_is_declared_has_no_other_references() {
    let tokens = vec![create_identifier_token("Lonely", 1, 8)];
    let uri = "file:///test.cr1".to_string();
    let position = Position {
        line: 0,
        character: 8,
    };

    let locations = ReferencesProvider::get_references(&tokens, position, &uri, false)
        .expect("the identifier has an occurrence");

    assert!(locations.is_empty());
}

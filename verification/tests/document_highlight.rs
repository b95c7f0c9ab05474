use crbasic_lsp::document_highlight::DocumentHighlightProvider;
use crbasic_lsp::protocol::{DocumentHighlightKind, Position};
use crbasic_lsp::syntax::{Position as ParserPosition, Span, Token, TokenKind};

fn create_span(start_line: usize, start_col: usize, end_line: usize, end_col: usize) -> Span {
    Span::new(
        ParserPosition::new(start_line, start_col),
        ParserPosition::new(end_line, end_col),
    )
}

fn create_identifier_token(name: &str, line: usize, start_col: usize) -> Token {
    let end_col = start_col + name.len();
    Token {
        kind: TokenKind::Identifier(name.to_string()),
        lexeme: name.to_string(),
        span: create_span(line, start_col, line, end_col),
    }
}

fn setup_test() -> Vec<Token> {
    vec![
        create_identifier_token("Temp_C", 1, 8),
        create_identifier_token("Temp_C", 3, 1),
        create_identifier_token("Temp_C", 5, 10),
    ]
}

#[test]
fn highlights_every_occurrence_of_the_symbol_under_the_cursor() {
    let tokens = setup_test();
    let position = Position {
        line: 0,
        character: 8,
    };

    let result = DocumentHighlightProvider::get_document_highlights(&tokens, position);

    let highlights = result.expect("Should return highlights");
    assert_eq!(highlights.len(), 3);
}

#[test]
fn document_highlight_returns_none_when_cursor_is_not_on_an_identifier() {
    let tokens: Vec<Token> = vec![];
    let position = Position {
        line: 0,
        character: 0,
    };

    let result = DocumentHighlightProvider::get_document_highlights(&tokens, position);

    assert!(result.is_none());
}

#[test]
fn each_highlight_uses_the_text_kind() {
    let tokens = setup_test();
    let position = Position {
        line: 0,
        character: 8,
    };

    let result = DocumentHighlightProvider::get_document_highlights(&tokens, position);

    let highlights = result.expect("Should return highlights");
    for highlight in highlights {
        assert_eq!(highlight.kind, Some(DocumentHighlightKind::Text));
    }
}

#[test]
fn highlight_ranges_match_the_symbol_spans() {
    let tokens = setup_test();
    let position = Position {
        line: 0,
        character: 8,
    };

    let result = DocumentHighlightProvider::get_document_highlights(&tokens, position);

    let highlights = result.expect("Should return highlights");
    // First occurrence: line 1, col 8 (0-indexed: line 0, char 7)
    assert_eq!(highlights[0].range.start.line, 0);
    assert_eq!(highlights[0].range.start.character, 7);
    // Second occurrence: line 3, col 1 (0-indexed: line 2, char 0)
    assert_eq!(highlights[1].range.start.line, 2);
    assert_eq!(highlights[1].range.start.character, 0);
}

#[test]
fn document_highlight_ignores_identifiers_with_a_different_name() {
    let tokens = vec![
        create_identifier_token("Temp_C", 1, 1),
        create_identifier_token("Humidity", 2, 1),
    ];
    let position = Position {
        line: 0,
        character: 1,
    };

    let result = DocumentHighlightProvider::get_document_highlights(&tokens, position);

    let highlights = result.expect("Should return highlights");
    assert_eq!(highlights.len(), 1);
}

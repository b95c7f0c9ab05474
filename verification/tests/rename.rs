use crbasic_lsp::protocol::{Position, TextEdit};
use crbasic_lsp::rename::RenameProvider;
use crbasic_lsp::syntax::{span_to_range, Position as ParserPosition, Span, Token, TokenKind};

fn create_span(start_line: usize, start_col: usize, end_line: usize, end_col: usize) -> Span {
    Span::new(
        ParserPosition::new(start_line, start_col),
        ParserPosition::new(end_line, end_col),
    )
}

fn create_identifier_token(name: &str, line: usize, start_col: usize) -> Token {
    let end_col = start_col + name.len();
    Token {
        kind: TokenKind::Identifier(name.to_string()),
        lexeme: name.to_string(),
        span: create_span(line, start_col, line, end_col),
    }
}

fn test_uri() -> String {
    "file:///test.cr1".to_string()
}

fn edits_for<'a>(changes: &'a [(String, Vec<TextEdit>)], uri: &str) -> Option<&'a Vec<TextEdit>> {
    changes.iter().find(|(u, _)| u == uri).map(|(_, edits)| edits)
}

#[test]
fn validates_identifier_syntax() {
    let cases = [
        ("Temp_C", true),
        ("_temp", true),
        ("temp123", true),
        ("", false),
        ("123abc", false),
        ("temp-c", false),
        ("temp c", false),
        ("temp.c", false),
    ];

    for (input, expected) in cases {
        assert_eq!(
            RenameProvider::is_valid_identifier(input),
            expected,
            "is_valid_identifier({input:?}) should be {expected}"
        );
    }
}

#[test]
fn returns_range_of_identifier_at_cursor() {
    let tokens = vec![create_identifier_token("Temp_C", 1, 8)];
    let position = Position {
        line: 0,
        character: 8,
    };

    let range = RenameProvider::prepare_rename(&tokens, position);

    assert_eq!(range, Some(span_to_range(tokens[0].span)));
}

#[test]
fn rename_returns_none_when_cursor_not_on_identifier() {
    let tokens = vec![create_identifier_token("Temp_C", 1, 8)];
    let position = Position {
        line: 5,
        character: 0,
    };

    let range = RenameProvider::prepare_rename(&tokens, position);

    assert_eq!(range, None);
}

#[test]
fn renames_all_occurrences_of_symbol() {
    let tokens = vec![
        create_identifier_token("Temp_C", 1, 8),    // Declaration
        create_identifier_token("Temp_C", 3, 1),    // Reference 1
        create_identifier_token("Humidity", 3, 10), // Unrelated identifier
        create_identifier_token("Temp_C", 5, 10),   // Reference 2
    ];
    let position = Position {
        line: 0,
        character: 8,
    };

    let result = RenameProvider::get_rename_edit(&tokens, position, "Temp_F", &test_uri())
        .expect("Valid new name should not error");

    let edit = result.expect("Should find the symbol to rename");
    let edits = edits_for(&edit.changes, &test_uri()).expect("Should have edits for URI");

    assert_eq!(edits.len(), 3);
    assert!(edits.iter().all(|e| e.new_text == "Temp_F"));
}

#[test]
fn rename_edit_returns_none_when_cursor_not_on_identifier() {
    let tokens = vec![create_identifier_token("Temp_C", 1, 8)];
    let position = Position {
        line: 5,
        character: 0,
    };

    let result = RenameProvider::get_rename_edit(&tokens, position, "Temp_F", &test_uri())
        .expect("Valid new name should not error");

    assert_eq!(result, None);
}

#[test]
fn rejects_invalid_new_name() {
    let tokens = vec![create_identifier_token("Temp_C", 1, 8)];
    let position = Position {
        line: 0,
        character: 8,
    };

    let result = RenameProvider::get_rename_edit(&tokens, position, "Temp F", &test_uri());

    assert!(result.is_err());
}

#[test]
fn invalid_new_name_error_names_the_rejected_name() {
    let tokens = vec![create_identifier_token("Temp_C", 1, 8)];
    let position = Position {
        line: 0,
        character: 8,
    };

    let result = RenameProvider::get_rename_edit(&tokens, position, "9lives", &test_uri());

    assert_eq!(
        result,
        Err("\"9lives\" is not a valid CRBasic identifier".to_string())
    );
}

#[test]
fn rename_edits_cover_exactly_the_occurrences() {
    let tokens = vec![
        create_identifier_token("Temp_C", 1, 8),
        create_identifier_token("Humidity", 2, 1),
        create_identifier_token("Temp_C", 4, 3),
    ];
    let position = Position {
        line: 3,
        character: 4,
    };

    let edit = RenameProvider::get_rename_edit(&tokens, position, "T", &test_uri())
        .expect("valid name")
        .expect("symbol found");
    let edits = edits_for(&edit.changes, &test_uri()).expect("edits for the document");

    assert_eq!(edits.len(), 2);
    assert_eq!(edits[0].range, span_to_range(tokens[0].span));
    assert_eq!(edits[1].range, span_to_range(tokens[2].span));
}

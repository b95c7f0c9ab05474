use crbasic_lsp::code_action::{CodeActionProvider, TruncateVariableNameData};
use crbasic_lsp::protocol::{CodeActionKind, Diagnostic, Position, Range, TextEdit};
use crbasic_lsp::syntax::{Position as ParserPosition, Span, Token, TokenKind};

fn create_span(start_line: usize, start_col: usize, end_line: usize, end_col: usize) -> Span {
    Span::new(
        ParserPosition::new(start_line, start_col),
        ParserPosition::new(end_line, end_col),
    )
}

fn create_identifier_token(name: &str, line: usize, start_col: usize) -> Token {
    let end_col = start_col + name.len();
    Token {
        kind: TokenKind::Identifier(name.to_string()),
        lexeme: name.to_string(),
        span: create_span(line, start_col, line, end_col),
    }
}

fn truncate_diagnostic(variable_name: &str, target_length: usize) -> Diagnostic {
    let data = TruncateVariableNameData {
        variable_name: variable_name.to_string(),
        target_length,
    };
    Diagnostic {
        data: Some(data),
        ..empty_diagnostic()
    }
}

fn test_uri() -> String {
    "file:///test.cr1".to_string()
}

fn empty_diagnostic() -> Diagnostic {
    Diagnostic {
        range: Range {
            start: Position {
                line: 0,
                character: 0,
            },
            end: Position {
                line: 0,
                character: 0,
            },
        },
        severity: None,
        code: None,
        source: None,
        message: String::new(),
        data: None,
    }
}

fn edits_for<'a>(changes: &'a [(String, Vec<TextEdit>)], uri: &str) -> Option<&'a Vec<TextEdit>> {
    changes.iter().find(|(u, _)| u == uri).map(|(_, edits)| edits)
}

#[test]
fn builds_a_quick_fix_for_a_truncatable_diagnostic() {
    let tokens = vec![
        create_identifier_token("Temperature_Sensor_1", 1, 8),
        create_identifier_token("Temperature_Sensor_1", 3, 1),
    ];
    let diagnostics = vec![truncate_diagnostic("Temperature_Sensor_1", 16)];

    let actions = CodeActionProvider::get_code_actions(&tokens, &diagnostics, &test_uri());

    assert_eq!(actions.len(), 1);
}

#[test]
fn renames_every_occurrence_to_the_truncated_name() {
    let tokens = vec![
        create_identifier_token("Temperature_Sensor_1", 1, 8),
        create_identifier_token("Temperature_Sensor_1", 3, 1),
    ];
    let diagnostics = vec![truncate_diagnostic("Temperature_Sensor_1", 16)];

    let actions = CodeActionProvider::get_code_actions(&tokens, &diagnostics, &test_uri());

    let action = &actions[0];
    let edit = action.edit.as_ref().expect("Should have an edit");
    let edits = edits_for(&edit.changes, &test_uri()).expect("Should target the URI");

    assert_eq!(edits.len(), 2);
    assert!(edits.iter().all(|e| e.new_text == "Temperature_Sens"));
}

#[test]
fn ignores_diagnostics_without_data() {
    let tokens = vec![create_identifier_token("Temperature_Sensor_1", 1, 8)];
    let diagnostics = vec![empty_diagnostic()];

    let actions = CodeActionProvider::get_code_actions(&tokens, &diagnostics, &test_uri());

    assert!(actions.is_empty());
}

#[test]
fn ignores_diagnostics_with_an_unrecognized_data_shape() {
    let tokens = vec![create_identifier_token("Temperature_Sensor_1", 1, 8)];
    // A payload of another shape does not decode into the truncation data.
    let diagnostics = vec![Diagnostic {
        data: None,
        ..empty_diagnostic()
    }];

    let actions = CodeActionProvider::get_code_actions(&tokens, &diagnostics, &test_uri());

    assert!(actions.is_empty());
}

#[test]
fn ignores_diagnostics_for_symbols_absent_from_the_document() {
    let tokens = vec![create_identifier_token("Other_Var", 1, 8)];
    let diagnostics = vec![truncate_diagnostic("Temperature_Sensor_1", 16)];

    let actions = CodeActionProvider::get_code_actions(&tokens, &diagnostics, &test_uri());

    assert!(actions.is_empty());
}

#[test]
fn skips_when_the_truncated_name_would_equal_the_original() {
    let tokens = vec![create_identifier_token("Short", 1, 8)];
    let diagnostics = vec![truncate_diagnostic("Short", 16)];

    let actions = CodeActionProvider::get_code_actions(&tokens, &diagnostics, &test_uri());

    assert!(actions.is_empty());
}

#[test]
fn quick_fix_title_mentions_both_names() {
    let tokens = vec![create_identifier_token("Temperature_Sensor_1", 1, 8)];
    let diagnostics = vec![truncate_diagnostic("Temperature_Sensor_1", 16)];

    let actions = CodeActionProvider::get_code_actions(&tokens, &diagnostics, &test_uri());

    let action = &actions[0];
    assert!(action.title.contains("Temperature_Sensor_1"));
    assert!(action.title.contains("Temperature_Sens"));
}

#[test]
fn quick_fix_is_marked_as_a_quickfix_kind() {
    let tokens = vec![create_identifier_token("Temperature_Sensor_1", 1, 8)];
    let diagnostics = vec![truncate_diagnostic("Temperature_Sensor_1", 16)];

    let actions = CodeActionProvider::get_code_actions(&tokens, &diagnostics, &test_uri());

    let action = &actions[0];
    assert_eq!(action.kind, Some(CodeActionKind::QuickFix));
}

#[test]
fn quick_fix_title_reads_exactly() {
    let tokens = vec![create_identifier_token("Temperature_Sensor_1", 1, 8)];
    let diagnostics = vec![truncate_diagnostic("Temperature_Sensor_1", 16)];

    let actions = CodeActionProvider::get_code_actions(&tokens, &diagnostics, &test_uri());

    assert_eq!(
        actions[0].title,
        "Truncate 'Temperature_Sensor_1' to 'Temperature_Sens' (16 characters)"
    );
    assert_eq!(actions[0].is_preferred, Some(true));
    let resolved = actions[0].diagnostics.as_ref().expect("resolves its diagnostic");
    assert_eq!(resolved, &diagnostics);
}

#[test]
fn skips_when_the_truncated_name_would_be_empty() {
    let tokens = vec![create_identifier_token("Temp", 1, 8)];
    let diagnostics = vec![truncate_diagnostic("Temp", 0)];

    let actions = CodeActionProvider::get_code_actions(&tokens, &diagnostics, &test_uri());

    assert!(actions.is_empty());
}

#[test]
fn truncates_by_characters_not_bytes() {
    let tokens = vec![create_identifier_token("Températures", 1, 8)];
    let diagnostics = vec![truncate_diagnostic("Températures", 5)];

    let actions = CodeActionProvider::get_code_actions(&tokens, &diagnostics, &test_uri());

    let edit = actions[0].edit.as_ref().expect("Should have an edit");
    let edits = edits_for(&edit.changes, &test_uri()).expect("Should target the URI");
    assert_eq!(edits[0].new_text, "Tempé");
}

#[test]
fn keeps_one_quick_fix_per_actionable_diagnostic_in_order() {
    let tokens = vec![
        create_identifier_token("Temperature_Sensor_1", 1, 8),
        create_identifier_token("Humidity_Sensor_22", 2, 8),
    ];
    let diagnostics = vec![
        truncate_diagnostic("Humidity_Sensor_22", 12),
        empty_diagnostic(),
        truncate_diagnostic("Temperature_Sensor_1", 16),
    ];

    let actions = CodeActionProvider::get_code_actions(&tokens, &diagnostics, &test_uri());

    assert_eq!(actions.len(), 2);
    assert!(actions[0].title.contains("Humidity_Sen'"));
    assert!(actions[1].title.contains("Temperature_Sens'"));
}

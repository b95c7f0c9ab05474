use crbasic_lsp::backend::{
    analysis_failure_diagnostic, code_action_data, cursor_offset, checked_signature_help_at,
    semantic_errors_to_diagnostics, signature_help_at,
};
use crbasic_lsp::protocol::{DiagnosticSeverity, Position as LspPosition};
use crbasic_lsp::syntax::{
    position_to_lsp, ErrorSeverity, Position, SemanticError, SemanticErrorKind, Span,
};

fn error(message: &str, severity: ErrorSeverity, kind: SemanticErrorKind) -> SemanticError {
    SemanticError {
        message: message.to_string(),
        span: Span::new(Position::new(1, 1), Position::new(1, 10)),
        severity,
        kind,
    }
}

#[test]
fn converts_error_severity_to_diagnostic_severity() {
    let error = error(
        "Test error",
        ErrorSeverity::Error,
        SemanticErrorKind::TruncationCollision {
            variable_name: "Test".to_string(),
        },
    );

    let diagnostics = semantic_errors_to_diagnostics(&[error]);

    assert_eq!(diagnostics.len(), 1);
    assert_eq!(diagnostics[0].severity, Some(DiagnosticSeverity::Error));
    assert_eq!(diagnostics[0].message, "Test error");
}

#[test]
fn converts_warning_severity_to_diagnostic_severity() {
    let error = error(
        "Test warning",
        ErrorSeverity::Warning,
        SemanticErrorKind::TruncationCollision {
            variable_name: "Test".to_string(),
        },
    );

    let diagnostics = semantic_errors_to_diagnostics(&[error]);

    assert_eq!(diagnostics.len(), 1);
    assert_eq!(diagnostics[0].severity, Some(DiagnosticSeverity::Warning));
}

#[test]
fn embeds_quick_fix_data_for_max_length_exceeded() {
    let error = error(
        "Test error",
        ErrorSeverity::Error,
        SemanticErrorKind::MaxLengthExceeded {
            variable_name: "Temperature_Sensor_1".to_string(),
            max_length: 16,
        },
    );

    let diagnostics = semantic_errors_to_diagnostics(&[error]);

    assert_eq!(diagnostics[0].code, Some("truncate-variable-name".to_string()));
    let data = diagnostics[0].data.clone().expect("Should have data");
    assert_eq!(data.variable_name, "Temperature_Sensor_1");
    assert_eq!(data.target_length, 16);
}

#[test]
fn embeds_quick_fix_data_for_recommended_length_exceeded() {
    let error = error(
        "Test warning",
        ErrorSeverity::Warning,
        SemanticErrorKind::RecommendedLengthExceeded {
            variable_name: "Temperature_1".to_string(),
            recommended_length: 12,
        },
    );

    let diagnostics = semantic_errors_to_diagnostics(&[error]);

    let data = diagnostics[0].data.clone().expect("Should have data");
    assert_eq!(data.variable_name, "Temperature_1");
    assert_eq!(data.target_length, 12);
}

#[test]
fn omits_quick_fix_data_for_truncation_collision() {
    let error = error(
        "Test error",
        ErrorSeverity::Error,
        SemanticErrorKind::TruncationCollision {
            variable_name: "Temperature_S1".to_string(),
        },
    );

    let diagnostics = semantic_errors_to_diagnostics(&[error]);

    assert_eq!(diagnostics[0].code, None);
    assert_eq!(diagnostics[0].data, None);
}

#[test]
fn converts_parser_position_to_lsp_position() {
    // Parser Position is 1-indexed
    let parser_pos = Position::new(5, 10);

    // LSP Position should be 0-indexed
    let lsp_pos = position_to_lsp(parser_pos);

    assert_eq!(lsp_pos.line, 4);
    assert_eq!(lsp_pos.character, 9);
}

#[test]
fn handles_zero_position_gracefully() {
    let parser_pos = Position::new(1, 1);
    let lsp_pos = position_to_lsp(parser_pos);

    assert_eq!(lsp_pos.line, 0);
    assert_eq!(lsp_pos.character, 0);
}

#[test]
fn diagnostics_carry_the_source_name_and_range() {
    let error = SemanticError {
        message: "m".to_string(),
        span: Span::new(Position::new(3, 5), Position::new(3, 9)),
        severity: ErrorSeverity::Error,
        kind: SemanticErrorKind::TruncationCollision {
            variable_name: "X".to_string(),
        },
    };

    let diagnostics = semantic_errors_to_diagnostics(&[error]);

    assert_eq!(diagnostics[0].source, Some("crbasic-lsp".to_string()));
    assert_eq!(diagnostics[0].range.start, LspPosition { line: 2, character: 4 });
    assert_eq!(diagnostics[0].range.end, LspPosition { line: 2, character: 8 });
}

#[test]
fn code_action_data_pairs_code_and_payload() {
    let (code, data) = code_action_data(&SemanticErrorKind::MaxLengthExceeded {
        variable_name: "Abc".to_string(),
        max_length: 2,
    });
    assert_eq!(code, Some("truncate-variable-name".to_string()));
    let data = data.expect("payload");
    assert_eq!(data.variable_name, "Abc");
    assert_eq!(data.target_length, 2);

    let (code, data) = code_action_data(&SemanticErrorKind::TruncationCollision {
        variable_name: "Abc".to_string(),
    });
    assert_eq!(code, None);
    assert_eq!(data, None);
}

#[test]
fn analysis_failure_is_reported_at_the_document_start() {
    let d = analysis_failure_diagnostic("parse failed".to_string());

    assert_eq!(d.range.start, LspPosition { line: 0, character: 0 });
    assert_eq!(d.range.end, LspPosition { line: 0, character: 0 });
    assert_eq!(d.severity, Some(DiagnosticSeverity::Error));
    assert_eq!(d.source, Some("crbasic-lsp".to_string()));
    assert_eq!(d.message, "parse failed");
    assert_eq!(d.code, None);
    assert_eq!(d.data, None);
}

#[test]
fn cursor_offset_counts_each_earlier_line_with_its_newline() {
    let text = "Dim x\nScan(1, Sec\n";
    assert_eq!(cursor_offset(text, LspPosition { line: 0, character: 3 }), 3);
    assert_eq!(cursor_offset(text, LspPosition { line: 1, character: 5 }), 11);
}

#[test]
fn cursor_offset_past_the_last_line_counts_every_line() {
    assert_eq!(cursor_offset("ab\ncd", LspPosition { line: 7, character: 4 }), 6);
    assert_eq!(cursor_offset("ab\n", LspPosition { line: 1, character: 4 }), 3);
    assert_eq!(cursor_offset("", LspPosition { line: 0, character: 4 }), 0);
}

#[test]
fn cursor_offset_drops_carriage_returns_from_line_lengths() {
    assert_eq!(cursor_offset("ab\r\ncd", LspPosition { line: 1, character: 1 }), 4);
}

#[test]
fn signature_help_at_finds_the_enclosing_call_and_argument() {
    let text = "BeginProg\n  Scan(1, Sec, ";
    let help = signature_help_at(text, LspPosition { line: 1, character: 15 })
        .expect("inside a Scan call");

    assert_eq!(help.signatures.len(), 1);
    assert!(help.signatures[0].label.starts_with("Scan("));
    assert_eq!(help.active_parameter, Some(2));
    assert_eq!(help.active_signature, Some(0));
}

#[test]
fn signature_help_at_is_none_outside_any_call() {
    assert!(signature_help_at("Public x", LspPosition { line: 0, character: 4 }).is_none());
    assert!(signature_help_at("Nope(", LspPosition { line: 0, character: 5 }).is_none());
}

#[test]
fn checked_signature_help_refuses_a_cursor_inside_a_character() {
    assert_eq!(checked_signature_help_at("é(", LspPosition { line: 0, character: 1 }), None);
    assert!(checked_signature_help_at("Scan(", LspPosition { line: 0, character: 5 })
        .expect("computable")
        .is_some());
}

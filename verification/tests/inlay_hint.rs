use crbasic_lsp::inlay_hint::InlayHintProvider;
use crbasic_lsp::protocol::{InlayHint, InlayHintKind, Position, Range};
use crbasic_lsp::syntax::{
    AssignmentTarget, CaseClause, Expression, Position as ParserPosition, Program, Span, Statement,
};

fn pos(line: usize, column: usize) -> ParserPosition {
    ParserPosition::new(line, column)
}

fn span(start_line: usize, start_col: usize, end_line: usize, end_col: usize) -> Span {
    Span::new(pos(start_line, start_col), pos(end_line, end_col))
}

fn program(statements: Vec<Statement>) -> Program {
    Program::new(statements, span(1, 1, 1, 1))
}

fn int_literal(value: i64, line: usize, col: usize) -> Expression {
    Expression::IntegerLiteral {
        value,
        span: span(line, col, line, col + value.to_string().len()),
    }
}

fn identifier(name: &str, line: usize, col: usize) -> Expression {
    Expression::Identifier {
        name: name.to_string(),
        span: span(line, col, line, col + name.len()),
    }
}

fn call_statement(name: &str, arguments: Vec<Expression>, line: usize) -> Statement {
    Statement::FunctionCall {
        name: name.to_string(),
        arguments,
        span: span(line, 1, line, 20),
    }
}

fn label_text(hint: &InlayHint) -> &str {
    hint.label.as_str()
}

fn whole_document_range() -> Range {
    Range {
        start: Position {
            line: 0,
            character: 0,
        },
        end: Position {
            line: 1000,
            character: 0,
        },
    }
}

#[test]
fn builds_a_hint_for_each_builtin_parameter() {
    let program = program(vec![call_statement(
        "Scan",
        vec![
            int_literal(1, 1, 6),
            identifier("Sec", 1, 9),
            int_literal(0, 1, 14),
        ],
        1,
    )]);

    let hints = InlayHintProvider::get_inlay_hints(&program, whole_document_range());

    assert_eq!(hints.len(), 3);
    assert_eq!(label_text(&hints[0]), "Interval:");
    assert_eq!(label_text(&hints[1]), "Units:");
    assert_eq!(label_text(&hints[2]), "BufferOption:");
}

#[test]
fn builds_a_hint_for_user_defined_function_parameters() {
    let program = program(vec![
        Statement::FunctionDefinition {
            name: "Calc".to_string(),
            parameters: vec!["X".to_string(), "Y".to_string()],
            body: Vec::new(),
            span: span(1, 1, 1, 1),
        },
        call_statement("Calc", vec![int_literal(1, 2, 6), int_literal(2, 2, 9)], 2),
    ]);

    let hints = InlayHintProvider::get_inlay_hints(&program, whole_document_range());

    assert_eq!(hints.len(), 2);
    assert_eq!(label_text(&hints[0]), "X:");
    assert_eq!(label_text(&hints[1]), "Y:");
}

#[test]
fn skips_calls_to_unrecognized_functions() {
    let program = program(vec![call_statement(
        "SomeUnknownFunction",
        vec![int_literal(1, 1, 21)],
        1,
    )]);

    let hints = InlayHintProvider::get_inlay_hints(&program, whole_document_range());

    assert!(hints.is_empty());
}

#[test]
fn ignores_array_dimension_and_initializer_expressions_without_calls() {
    let program = program(vec![Statement::VarDeclaration {
        keyword: "Public".to_string(),
        name: "Data".to_string(),
        array_dimensions: Some(vec![int_literal(10, 1, 13)]),
        type_annotation: None,
        initializer: None,
        span: span(1, 1, 1, 16),
    }]);

    let hints = InlayHintProvider::get_inlay_hints(&program, whole_document_range());

    assert!(hints.is_empty());
}

#[test]
fn positions_a_hint_at_the_start_of_its_argument_for_a_known_function() {
    let program = program(vec![call_statement("Sqr", vec![identifier("X", 1, 5)], 1)]);

    let hints = InlayHintProvider::get_inlay_hints(&program, whole_document_range());

    assert_eq!(hints.len(), 1);
    assert_eq!(hints[0].position.line, 0);
    assert_eq!(hints[0].position.character, 4);
    assert_eq!(hints[0].kind, Some(InlayHintKind::Parameter));
    assert_eq!(hints[0].padding_left, Some(false));
    assert_eq!(hints[0].padding_right, Some(true));
}

#[test]
fn finds_a_known_call_nested_inside_an_assignment_expression() {
    let program = program(vec![Statement::Assignment {
        target: AssignmentTarget::Identifier {
            name: "Result".to_string(),
            span: span(1, 1, 1, 7),
        },
        value: Expression::FunctionCall {
            name: "Sqr".to_string(),
            arguments: vec![identifier("X", 1, 14)],
            span: span(1, 10, 1, 16),
        },
        span: span(1, 1, 1, 16),
    }]);

    let hints = InlayHintProvider::get_inlay_hints(&program, whole_document_range());

    assert_eq!(hints.len(), 1);
    assert_eq!(label_text(&hints[0]), "Value:");
}

#[test]
fn drops_arguments_past_the_last_parameter() {
    let program = program(vec![call_statement(
        "Sqr",
        vec![identifier("A", 1, 5), identifier("Extra", 1, 8)],
        1,
    )]);

    let hints = InlayHintProvider::get_inlay_hints(&program, whole_document_range());

    assert_eq!(hints.len(), 1);
}

#[test]
fn keeps_only_hints_inside_the_requested_range() {
    let program = program(vec![
        call_statement("Sqr", vec![identifier("A", 1, 5)], 1),
        call_statement("Sqr", vec![identifier("B", 50, 5)], 50),
    ]);
    let narrow_range = Range {
        start: Position {
            line: 0,
            character: 0,
        },
        end: Position {
            line: 5,
            character: 0,
        },
    };

    let hints = InlayHintProvider::get_inlay_hints(&program, narrow_range);

    assert_eq!(hints.len(), 1);
    assert_eq!(hints[0].position.line, 0);
}

#[test]
fn range_ends_are_inclusive() {
    let program = program(vec![call_statement("Sqr", vec![identifier("A", 3, 5)], 3)]);
    let exact = Range {
        start: Position {
            line: 2,
            character: 4,
        },
        end: Position {
            line: 2,
            character: 4,
        },
    };

    let hints = InlayHintProvider::get_inlay_hints(&program, exact);

    assert_eq!(hints.len(), 1);
}

#[test]
fn user_definitions_take_precedence_over_builtin_signatures() {
    let user = vec![("Scan".to_string(), vec!["Only".to_string()])];

    let names = InlayHintProvider::resolve_parameter_names("Scan", &user).expect("resolved");

    assert_eq!(names, vec!["Only".to_string()]);
}

#[test]
fn the_last_user_definition_of_a_name_wins() {
    let user = vec![
        ("Calc".to_string(), vec!["A".to_string()]),
        ("Calc".to_string(), vec!["B".to_string(), "C".to_string()]),
    ];

    let names = InlayHintProvider::resolve_parameter_names("Calc", &user).expect("resolved");

    assert_eq!(names, vec!["B".to_string(), "C".to_string()]);
}

#[test]
fn builtin_parameter_names_are_looked_up_ignoring_case() {
    let names = InlayHintProvider::resolve_parameter_names("sCAN", &Vec::new()).expect("resolved");

    assert_eq!(
        names,
        vec![
            "Interval".to_string(),
            "Units".to_string(),
            "BufferOption".to_string(),
            "Count".to_string()
        ]
    );
}

#[test]
fn unknown_functions_have_no_parameter_names() {
    assert_eq!(
        InlayHintProvider::resolve_parameter_names("NoSuchThing", &Vec::new()),
        None
    );
}

#[test]
fn positions_a_hint_at_the_start_of_its_argument() {
    let program = program(vec![call_statement(
        "CallTable",
        vec![identifier("Test", 1, 11)],
        1,
    )]);

    let hints = InlayHintProvider::get_inlay_hints(&program, whole_document_range());

    assert_eq!(hints.len(), 1);
    assert_eq!(hints[0].position.line, 0);
    assert_eq!(hints[0].position.character, 10);
}

#[test]
fn hint_kind_is_parameter() {
    let program = program(vec![call_statement(
        "CallTable",
        vec![identifier("Test", 1, 11)],
        1,
    )]);

    let hints = InlayHintProvider::get_inlay_hints(&program, whole_document_range());

    assert_eq!(hints[0].kind, Some(InlayHintKind::Parameter));
}

#[test]
fn only_hints_arguments_that_have_a_corresponding_parameter() {
    let program = program(vec![call_statement(
        "CallTable",
        vec![identifier("Test", 1, 11), identifier("Extra", 1, 17)],
        1,
    )]);

    let hints = InlayHintProvider::get_inlay_hints(&program, whole_document_range());

    // CallTable only has one documented parameter (TableName)
    assert_eq!(hints.len(), 1);
}

#[test]
fn excludes_hints_outside_the_requested_range() {
    let program = program(vec![
        call_statement("CallTable", vec![identifier("A", 1, 11)], 1),
        call_statement("CallTable", vec![identifier("B", 50, 11)], 50),
    ]);
    let narrow_range = Range {
        start: Position {
            line: 0,
            character: 0,
        },
        end: Position {
            line: 5,
            character: 0,
        },
    };

    let hints = InlayHintProvider::get_inlay_hints(&program, narrow_range);

    assert_eq!(hints.len(), 1);
    assert_eq!(hints[0].position.line, 0);
}

#[test]
fn call_table_hint_is_labelled_with_its_table_name_parameter() {
    let program = program(vec![call_statement(
        "calltable",
        vec![identifier("Test", 1, 11)],
        1,
    )]);

    let hints = InlayHintProvider::get_inlay_hints(&program, whole_document_range());

    assert_eq!(hints.len(), 1);
    assert_eq!(label_text(&hints[0]), "TableName:");
}

#[test]
fn hints_a_call_inside_a_select_case_branch() {
    let program = program(vec![Statement::SelectCase {
        selector: identifier("Mode", 1, 13),
        cases: vec![CaseClause {
            body: vec![call_statement("Sqr", vec![identifier("X", 3, 5)], 3)],
            span: span(2, 1, 3, 20),
        }],
        else_branch: None,
        span: span(1, 1, 4, 10),
    }]);

    let hints = InlayHintProvider::get_inlay_hints(&program, whole_document_range());

    assert_eq!(hints.len(), 1);
    assert_eq!(hints[0].position.line, 2);
    assert_eq!(hints[0].position.character, 4);
}

#[test]
fn hints_a_call_inside_a_preprocessor_conditional() {
    let program = program(vec![Statement::PreprocessorConditional {
        condition: identifier("LoggerType", 1, 5),
        then_branch: vec![call_statement("Sqr", vec![identifier("X", 2, 5)], 2)],
        else_branch: Some(vec![call_statement("Sqr", vec![identifier("Y", 4, 5)], 4)]),
        span: span(1, 1, 5, 7),
    }]);

    let hints = InlayHintProvider::get_inlay_hints(&program, whole_document_range());

    assert_eq!(hints.len(), 2);
    assert_eq!(hints[0].position.line, 1);
    assert_eq!(hints[1].position.line, 3);
}

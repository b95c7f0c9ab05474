use crbasic_lsp::protocol::Position;
use crbasic_lsp::selection_range::SelectionRangeProvider;
use crbasic_lsp::syntax::{
    AssignmentTarget, Expression, Position as ParserPosition, Program, Span, Statement, Token,
    TokenKind,
};

fn pos(line: usize, column: usize) -> ParserPosition {
    ParserPosition::new(line, column)
}

fn span(start_line: usize, start_col: usize, end_line: usize, end_col: usize) -> Span {
    Span::new(pos(start_line, start_col), pos(end_line, end_col))
}

fn program(statements: Vec<Statement>, program_span: Span) -> Program {
    Program::new(statements, program_span)
}

fn dummy_condition() -> Expression {
    Expression::BooleanLiteral {
        value: true,
        span: span(1, 1, 1, 1),
    }
}

fn create_identifier_token(
    name: &'static str,
    line: usize,
    start_col: usize,
) -> Token {
    let end_col = start_col + name.len();
    Token {
        kind: TokenKind::Identifier(name.to_string()),
        lexeme: name.to_string(),
        span: span(line, start_col, line, end_col),
    }
}

#[test]
fn returns_one_chain_per_requested_position() {
    let stmts = vec![Statement::Expression {
        expression: dummy_condition(),
        span: span(1, 1, 1, 10),
    }];
    let program = program(stmts, span(1, 1, 1, 10));
    let positions = vec![
        Position {
            line: 0,
            character: 0,
        },
        Position {
            line: 0,
            character: 5,
        },
    ];

    let ranges = SelectionRangeProvider::get_selection_ranges(&program, &[], &positions);

    assert_eq!(ranges.len(), 2);
}

#[test]
fn innermost_range_is_the_enclosing_statement() {
    let stmts = vec![
        Statement::Expression {
            expression: dummy_condition(),
            span: span(1, 1, 1, 5),
        },
        Statement::Expression {
            expression: dummy_condition(),
            span: span(2, 1, 2, 8),
        },
    ];
    let program = program(stmts, span(1, 1, 2, 8));
    let positions = vec![Position {
        line: 1,
        character: 2,
    }];

    let ranges = SelectionRangeProvider::get_selection_ranges(&program, &[], &positions);

    assert_eq!(ranges[0].range.start.line, 1);
    assert_eq!(ranges[0].range.end.line, 1);
    assert_eq!(ranges[0].range.end.character, 7);
}

#[test]
fn outermost_ancestor_is_the_whole_program() {
    let stmts = vec![Statement::Expression {
        expression: dummy_condition(),
        span: span(3, 1, 3, 5),
    }];
    let program = program(stmts, span(1, 1, 10, 1));
    let positions = vec![Position {
        line: 2,
        character: 1,
    }];

    let ranges = SelectionRangeProvider::get_selection_ranges(&program, &[], &positions);

    let mut outermost = &ranges[0];
    while let Some(parent) = &outermost.parent {
        outermost = parent;
    }
    assert_eq!(outermost.range.start.line, 0);
    assert_eq!(outermost.range.end.line, 9);
}

#[test]
fn selection_range_recurses_into_nested_block_bodies() {
    let program = program(
        vec![Statement::IfStatement {
            condition: dummy_condition(),
            then_branch: vec![Statement::Expression {
                expression: dummy_condition(),
                span: span(2, 3, 2, 9),
            }],
            else_branch: None,
            span: span(1, 1, 3, 6),
        }],
        span(1, 1, 3, 6),
    );
    let positions = vec![Position {
        line: 1,
        character: 4,
    }];

    let ranges = SelectionRangeProvider::get_selection_ranges(&program, &[], &positions);

    assert_eq!(ranges[0].range.start.line, 1);
    assert_eq!(ranges[0].range.end.character, 8);
    let parent = ranges[0]
        .parent
        .as_ref()
        .expect("If statement is the parent");
    assert_eq!(parent.range.start.line, 0);
    assert_eq!(parent.range.end.line, 2);
}

#[test]
fn innermost_range_is_the_identifier_token_when_cursor_is_on_one() {
    let stmts = vec![Statement::Assignment {
        target: AssignmentTarget::Identifier {
            name: "Temp_C".to_string(),
            span: span(1, 1, 1, 7),
        },
        value: Expression::IntegerLiteral {
            value: 5,
            span: span(1, 10, 1, 11),
        },
        span: span(1, 1, 1, 11),
    }];
    let program = program(stmts, span(1, 1, 1, 11));
    let tokens = vec![create_identifier_token("Temp_C", 1, 1)];
    let positions = vec![Position {
        line: 0,
        character: 2,
    }];

    let ranges =
        SelectionRangeProvider::get_selection_ranges(&program, &tokens, &positions);

    assert_eq!(ranges[0].range.start.character, 0);
    assert_eq!(ranges[0].range.end.character, 6);
    let parent = ranges[0]
        .parent
        .as_ref()
        .expect("assignment statement is the parent");
    assert_eq!(parent.range.end.character, 10);
}

#[test]
fn falls_back_to_the_whole_program_outside_any_statement() {
    let stmts = vec![Statement::Expression {
        expression: dummy_condition(),
        span: span(2, 1, 2, 5),
    }];
    let program = program(stmts, span(1, 1, 5, 1));
    let positions = vec![Position {
        line: 4,
        character: 0,
    }];

    let ranges = SelectionRangeProvider::get_selection_ranges(&program, &[], &positions);

    assert!(ranges[0].parent.is_none());
    assert_eq!(ranges[0].range.start.line, 0);
    assert_eq!(ranges[0].range.end.line, 4);
}

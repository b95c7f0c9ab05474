use crbasic_lsp::call_sites::collect_call_sites;
use crbasic_lsp::syntax::{AssignmentTarget, CaseClause, Expression, Position, Span, Statement};

fn span(start_line: usize, start_col: usize, end_line: usize, end_col: usize) -> Span {
    Span::new(
        Position::new(start_line, start_col),
        Position::new(end_line, end_col),
    )
}

fn identifier(name: &str, line: usize, col: usize) -> Expression {
    Expression::Identifier {
        name: name.to_string(),
        span: span(line, col, line, col + name.len()),
    }
}

fn call_statement(name: &str, line: usize) -> Statement {
    Statement::FunctionCall {
        name: name.to_string(),
        arguments: Vec::new(),
        span: span(line, 1, line, 1 + name.len() + 2),
    }
}

#[test]
fn collects_a_top_level_call_with_no_enclosing_function() {
    let statements = vec![call_statement("Scan", 1)];

    let sites = collect_call_sites(&statements);

    assert_eq!(sites.len(), 1);
    assert_eq!(sites[0].name, "Scan");
    assert_eq!(sites[0].enclosing, None);
}

#[test]
fn attributes_a_call_inside_a_function_body_to_that_function() {
    let statements = vec![Statement::FunctionDefinition {
        name: "Calc".to_string(),
        parameters: Vec::new(),
        body: vec![call_statement("Sqrt", 2)],
        span: span(1, 1, 3, 11),
    }];

    let sites = collect_call_sites(&statements);

    assert_eq!(sites.len(), 1);
    assert_eq!(sites[0].name, "Sqrt");
    assert_eq!(sites[0].enclosing, Some("Calc"));
}

#[test]
fn attributes_a_call_inside_a_subroutine_body_to_that_subroutine() {
    let statements = vec![Statement::SubroutineDefinition {
        name: "Init".to_string(),
        parameters: Vec::new(),
        body: vec![call_statement("Scan", 2)],
        span: span(1, 1, 3, 7),
    }];

    let sites = collect_call_sites(&statements);

    assert_eq!(sites.len(), 1);
    assert_eq!(sites[0].enclosing, Some("Init"));
}

#[test]
fn collects_a_call_nested_inside_an_if_branch() {
    let statements = vec![Statement::IfStatement {
        condition: identifier("Flag", 1, 4),
        then_branch: vec![call_statement("Scan", 2)],
        else_branch: None,
        span: span(1, 1, 3, 6),
    }];

    let sites = collect_call_sites(&statements);

    assert_eq!(sites.len(), 1);
    assert_eq!(sites[0].name, "Scan");
}

#[test]
fn collects_a_call_nested_inside_an_expression() {
    let statements = vec![Statement::Assignment {
        target: AssignmentTarget::Identifier {
            name: "Result".to_string(),
            span: span(1, 1, 1, 7),
        },
        value: Expression::FunctionCall {
            name: "Sqrt".to_string(),
            arguments: vec![identifier("X", 1, 15)],
            span: span(1, 10, 1, 17),
        },
        span: span(1, 1, 1, 17),
    }];

    let sites = collect_call_sites(&statements);

    assert_eq!(sites.len(), 1);
    assert_eq!(sites[0].name, "Sqrt");
}

#[test]
fn collects_multiple_calls_in_order() {
    let statements = vec![call_statement("Scan", 1), call_statement("CallTable", 2)];

    let sites = collect_call_sites(&statements);

    assert_eq!(sites.len(), 2);
    assert_eq!(sites[0].name, "Scan");
    assert_eq!(sites[1].name, "CallTable");
}

#[test]
fn records_the_calls_own_span_not_an_arguments_span() {
    let statements = vec![Statement::FunctionCall {
        name: "CallTable".to_string(),
        arguments: vec![identifier("Test", 1, 11)],
        span: span(1, 1, 1, 20),
    }];

    let sites = collect_call_sites(&statements);

    assert_eq!(sites[0].span, span(1, 1, 1, 20));
}

#[test]
fn collects_the_selector_then_each_case_body_then_the_else_body() {
    let statements = vec![Statement::FunctionDefinition {
        name: "Calc".to_string(),
        parameters: Vec::new(),
        body: vec![Statement::SelectCase {
            selector: Expression::FunctionCall {
                name: "Abs".to_string(),
                arguments: vec![identifier("X", 2, 17)],
                span: span(2, 13, 2, 19),
            },
            cases: vec![
                CaseClause {
                    body: vec![call_statement("First", 4)],
                    span: span(3, 1, 4, 10),
                },
                CaseClause {
                    body: vec![call_statement("Second", 6)],
                    span: span(5, 1, 6, 10),
                },
            ],
            else_branch: Some(vec![call_statement("Third", 8)]),
            span: span(2, 1, 9, 10),
        }],
        span: span(1, 1, 10, 12),
    }];

    let sites = collect_call_sites(&statements);

    let names: Vec<&str> = sites.iter().map(|s| s.name).collect();
    assert_eq!(names, vec!["Abs", "First", "Second", "Third"]);
    assert!(sites.iter().all(|s| s.enclosing == Some("Calc")));
}

#[test]
fn collects_the_condition_and_both_branches_of_a_preprocessor_conditional() {
    let statements = vec![Statement::PreprocessorConditional {
        condition: Expression::FunctionCall {
            name: "Check".to_string(),
            arguments: Vec::new(),
            span: span(1, 5, 1, 12),
        },
        then_branch: vec![call_statement("Yes", 2)],
        else_branch: Some(vec![call_statement("No", 4)]),
        span: span(1, 1, 5, 7),
    }];

    let sites = collect_call_sites(&statements);

    let names: Vec<&str> = sites.iter().map(|s| s.name).collect();
    assert_eq!(names, vec!["Check", "Yes", "No"]);
}

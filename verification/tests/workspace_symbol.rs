use crbasic_lsp::syntax::{Position, Program, Span, Statement};
use crbasic_lsp::workspace_symbol::WorkspaceSymbolProvider;

fn span(start_line: usize, start_col: usize, end_line: usize, end_col: usize) -> Span {
    Span::new(
        Position::new(start_line, start_col),
        Position::new(end_line, end_col),
    )
}

fn program(statements: Vec<Statement>) -> Program {
    Program::new(statements, span(1, 1, 1, 1))
}

fn public_var(name: &str) -> Statement {
    Statement::VarDeclaration {
        keyword: "Public".to_string(),
        name: name.to_string(),
        array_dimensions: None,
        type_annotation: None,
        initializer: None,
        span: span(1, 1, 1, 10),
    }
}

fn uri(name: &str) -> String {
    format!("file:///{name}.cr6")
}

#[test]
fn finds_a_symbol_matching_the_query() {
    let doc_uri = uri("a");
    let program = program(vec![public_var("Temp_C")]);

    let results =
        WorkspaceSymbolProvider::search(&[(doc_uri.as_str(), &program)], "Temp");

    assert_eq!(results.len(), 1);
    assert_eq!(results[0].name, "Temp_C");
}

#[test]
fn matches_case_insensitively() {
    let doc_uri = uri("a");
    let program = program(vec![public_var("Temp_C")]);

    let results =
        WorkspaceSymbolProvider::search(&[(doc_uri.as_str(), &program)], "temp");

    assert_eq!(results.len(), 1);
}

#[test]
fn excludes_symbols_that_do_not_match() {
    let doc_uri = uri("a");
    let program = program(vec![public_var("Temp_C")]);

    let results =
        WorkspaceSymbolProvider::search(&[(doc_uri.as_str(), &program)], "Humidity");

    assert!(results.is_empty());
}

#[test]
fn empty_query_returns_every_symbol() {
    let doc_uri = uri("a");
    let program = program(vec![public_var("Temp_C"), public_var("Humidity")]);

    let results = WorkspaceSymbolProvider::search(&[(doc_uri.as_str(), &program)], "");

    assert_eq!(results.len(), 2);
}

#[test]
fn searches_across_multiple_documents() {
    let uri_a = uri("a");
    let uri_b = uri("b");
    let program_a = program(vec![public_var("Temp_C")]);
    let program_b = program(vec![public_var("Temp_F")]);

    let results = WorkspaceSymbolProvider::search(
        &[(uri_a.as_str(), &program_a), (uri_b.as_str(), &program_b)],
        "Temp",
    );

    assert_eq!(results.len(), 2);
}

#[test]
fn results_carry_the_owning_documents_uri() {
    let doc_uri = uri("a");
    let program = program(vec![public_var("Temp_C")]);

    let results =
        WorkspaceSymbolProvider::search(&[(doc_uri.as_str(), &program)], "Temp");

    assert_eq!(results[0].location.uri, doc_uri);
}

#[test]
fn finds_symbols_nested_inside_a_function_body() {
    let doc_uri = uri("a");
    let program = program(vec![Statement::FunctionDefinition {
        name: "Calc".to_string(),
        parameters: Vec::new(),
        body: vec![public_var("Result")],
        span: span(1, 1, 3, 1),
    }]);

    let results =
        WorkspaceSymbolProvider::search(&[(doc_uri.as_str(), &program)], "Result");

    assert_eq!(results.len(), 1);
    assert_eq!(results[0].name, "Result");
}

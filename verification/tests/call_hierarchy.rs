use crbasic_lsp::call_hierarchy::CallHierarchyProvider;
use crbasic_lsp::protocol::{CallHierarchyItem, Position, Range, SymbolKind};
use crbasic_lsp::syntax::{Position as ParserPosition, Program, Span, Statement, Token, TokenKind};

fn span(start_line: usize, start_col: usize, end_line: usize, end_col: usize) -> Span {
    Span::new(
        ParserPosition::new(start_line, start_col),
        ParserPosition::new(end_line, end_col),
    )
}

fn program(statements: Vec<Statement>) -> Program {
    Program::new(statements, span(1, 1, 1, 1))
}

fn identifier_token(name: &str, line: usize, start_col: usize) -> Token {
    let end_col = start_col + name.len();
    Token {
        kind: TokenKind::Identifier(name.to_string()),
        lexeme: name.to_string(),
        span: span(line, start_col, line, end_col),
    }
}

fn call_statement(name: &str, line: usize) -> Statement {
    Statement::FunctionCall {
        name: name.to_string(),
        arguments: Vec::new(),
        span: span(line, 1, line, 1 + name.len() + 2),
    }
}

fn function_def(
    name: &str,
    body: Vec<Statement>,
    start_line: usize,
    end_line: usize,
) -> Statement {
    Statement::FunctionDefinition {
        name: name.to_string(),
        parameters: Vec::new(),
        body,
        span: span(start_line, 1, end_line, 1 + "EndFunction".len()),
    }
}

fn subroutine_def(
    name: &str,
    body: Vec<Statement>,
    start_line: usize,
    end_line: usize,
) -> Statement {
    Statement::SubroutineDefinition {
        name: name.to_string(),
        parameters: Vec::new(),
        body,
        span: span(start_line, 1, end_line, 1 + "EndSub".len()),
    }
}

fn uri(name: &str) -> String {
    format!("file:///{name}.cr6")
}

fn zero_range() -> Range {
    Range {
        start: Position {
            line: 0,
            character: 0,
        },
        end: Position {
            line: 0,
            character: 0,
        },
    }
}

fn function_item(name: &str, doc_uri: String) -> CallHierarchyItem {
    CallHierarchyItem {
        name: name.to_string(),
        kind: SymbolKind::Function,
        uri: doc_uri,
        range: zero_range(),
        selection_range: zero_range(),
    }
}

#[test]
fn resolves_a_function_declaration_at_its_own_position() {
    let program = program(vec![function_def("Calc", Vec::new(), 1, 3)]);
    let tokens = vec![identifier_token("Calc", 1, 10)];
    let position = Position {
        line: 0,
        character: 10,
    };

    let item = CallHierarchyProvider::prepare(&tokens, &program, &uri("a"), position)
        .expect("Should resolve to a call hierarchy item");

    assert_eq!(item.name, "Calc");
    assert_eq!(item.kind, SymbolKind::Function);
}

#[test]
fn resolves_a_subroutine_declaration_to_the_method_kind() {
    let program = program(vec![subroutine_def("Init", Vec::new(), 1, 3)]);
    let tokens = vec![identifier_token("Init", 1, 5)];
    let position = Position {
        line: 0,
        character: 5,
    };

    let item = CallHierarchyProvider::prepare(&tokens, &program, &uri("a"), position)
        .expect("Should resolve to a call hierarchy item");

    assert_eq!(item.kind, SymbolKind::Method);
}

#[test]
fn resolves_a_reference_to_its_declaration() {
    let program = program(vec![
        function_def("Calc", Vec::new(), 1, 3),
        call_statement("Calc", 5),
    ]);
    let tokens = vec![identifier_token("Calc", 5, 1)];
    let position = Position {
        line: 4,
        character: 1,
    };

    let item = CallHierarchyProvider::prepare(&tokens, &program, &uri("a"), position)
        .expect("Should resolve to a call hierarchy item");

    assert_eq!(item.range.start.line, 0); // Points at the declaration, not the call site
}

#[test]
fn returns_none_for_a_variable() {
    let program = program(vec![Statement::VarDeclaration {
        keyword: "Public".to_string(),
        name: "Temp_C".to_string(),
        array_dimensions: None,
        type_annotation: None,
        initializer: None,
        span: span(1, 1, 1, 15),
    }]);
    let tokens = vec![identifier_token("Temp_C", 1, 8)];
    let position = Position {
        line: 0,
        character: 8,
    };

    let item = CallHierarchyProvider::prepare(&tokens, &program, &uri("a"), position);

    assert!(item.is_none());
}

#[test]
fn returns_none_when_not_on_an_identifier() {
    let program = program(vec![function_def("Calc", Vec::new(), 1, 3)]);
    let tokens: Vec<Token> = Vec::new();
    let position = Position {
        line: 0,
        character: 0,
    };

    let item = CallHierarchyProvider::prepare(&tokens, &program, &uri("a"), position);

    assert!(item.is_none());
}

#[test]
fn finds_a_caller_that_is_a_named_function() {
    let program = program(vec![
        function_def("Caller", vec![call_statement("Calc", 2)], 1, 3),
        function_def("Calc", Vec::new(), 5, 7),
    ]);
    let doc_uri = uri("a");

    let calls = CallHierarchyProvider::incoming_calls(
        &function_item("Calc", doc_uri.clone()),
        &[(doc_uri.as_str(), &program)],
    );

    assert_eq!(calls.len(), 1);
    assert_eq!(calls[0].from.name, "Caller");
}

#[test]
fn groups_multiple_calls_from_the_same_caller_into_one_entry() {
    let program = program(vec![function_def(
        "Caller",
        vec![call_statement("Calc", 2), call_statement("Calc", 3)],
        1,
        4,
    )]);
    let doc_uri = uri("a");

    let calls = CallHierarchyProvider::incoming_calls(
        &function_item("Calc", doc_uri.clone()),
        &[(doc_uri.as_str(), &program)],
    );

    assert_eq!(calls.len(), 1);
    assert_eq!(calls[0].from_ranges.len(), 2);
}

#[test]
fn excludes_calls_made_directly_from_the_top_level_program() {
    let program = program(vec![call_statement("Calc", 1)]);
    let doc_uri = uri("a");

    let calls = CallHierarchyProvider::incoming_calls(
        &function_item("Calc", doc_uri.clone()),
        &[(doc_uri.as_str(), &program)],
    );

    assert!(calls.is_empty());
}

#[test]
fn ignores_calls_to_a_different_function() {
    let program = program(vec![function_def(
        "Caller",
        vec![call_statement("SomethingElse", 2)],
        1,
        3,
    )]);
    let doc_uri = uri("a");

    let calls = CallHierarchyProvider::incoming_calls(
        &function_item("Calc", doc_uri.clone()),
        &[(doc_uri.as_str(), &program)],
    );

    assert!(calls.is_empty());
}

#[test]
fn finds_a_callee_that_is_a_user_defined_function() {
    let program = program(vec![
        function_def("Caller", vec![call_statement("Calc", 2)], 1, 3),
        function_def("Calc", Vec::new(), 5, 7),
    ]);
    let doc_uri = uri("a");

    let calls = CallHierarchyProvider::outgoing_calls(
        &function_item("Caller", doc_uri.clone()),
        &[(doc_uri.as_str(), &program)],
    );

    assert_eq!(calls.len(), 1);
    assert_eq!(calls[0].to.name, "Calc");
}

#[test]
fn skips_calls_to_unrecognized_built_in_functions() {
    let program = program(vec![function_def(
        "Caller",
        vec![call_statement("Scan", 2)],
        1,
        3,
    )]);
    let doc_uri = uri("a");

    let calls = CallHierarchyProvider::outgoing_calls(
        &function_item("Caller", doc_uri.clone()),
        &[(doc_uri.as_str(), &program)],
    );

    assert!(calls.is_empty());
}

#[test]
fn groups_multiple_calls_to_the_same_callee_into_one_entry() {
    let program = program(vec![
        function_def(
            "Caller",
            vec![call_statement("Calc", 2), call_statement("Calc", 3)],
            1,
            4,
        ),
        function_def("Calc", Vec::new(), 6, 8),
    ]);
    let doc_uri = uri("a");

    let calls = CallHierarchyProvider::outgoing_calls(
        &function_item("Caller", doc_uri.clone()),
        &[(doc_uri.as_str(), &program)],
    );

    assert_eq!(calls.len(), 1);
    assert_eq!(calls[0].from_ranges.len(), 2);
}

#[test]
fn finds_a_callee_declared_in_a_different_open_document() {
    let caller_program = program(vec![function_def(
        "Caller",
        vec![call_statement("Calc", 2)],
        1,
        3,
    )]);
    let callee_program = program(vec![function_def("Calc", Vec::new(), 1, 3)]);
    let caller_uri = uri("a");
    let callee_uri = uri("b");

    let calls = CallHierarchyProvider::outgoing_calls(
        &function_item("Caller", caller_uri.clone()),
        &[
            (caller_uri.as_str(), &caller_program),
            (callee_uri.as_str(), &callee_program),
        ],
    );

    assert_eq!(calls.len(), 1);
    assert_eq!(calls[0].to.uri, callee_uri);
}

#[test]
fn incoming_callers_come_in_order_of_their_first_call() {
    let program = program(vec![
        function_def("First", vec![call_statement("Calc", 2)], 1, 3),
        function_def("Second", vec![call_statement("Calc", 5), call_statement("Calc", 6)], 4, 7),
        function_def("Calc", Vec::new(), 8, 9),
    ]);
    let doc_uri = uri("a");

    let calls = CallHierarchyProvider::incoming_calls(
        &function_item("Calc", doc_uri.clone()),
        &[(doc_uri.as_str(), &program)],
    );

    assert_eq!(calls.len(), 2);
    assert_eq!(calls[0].from.name, "First");
    assert_eq!(calls[0].from_ranges.len(), 1);
    assert_eq!(calls[0].from_ranges[0].start.line, 1);
    assert_eq!(calls[1].from.name, "Second");
    assert_eq!(calls[1].from.kind, SymbolKind::Function);
    assert_eq!(calls[1].from.uri, doc_uri);
    assert_eq!(calls[1].from_ranges.len(), 2);
}

#[test]
fn incoming_calls_are_collected_document_by_document() {
    let program_a = program(vec![function_def("A", vec![call_statement("Calc", 2)], 1, 3)]);
    let program_b = program(vec![subroutine_def("B", vec![call_statement("Calc", 2)], 1, 3)]);
    let uri_a = uri("a");
    let uri_b = uri("b");

    let calls = CallHierarchyProvider::incoming_calls(
        &function_item("Calc", uri_a.clone()),
        &[(uri_a.as_str(), &program_a), (uri_b.as_str(), &program_b)],
    );

    assert_eq!(calls.len(), 2);
    assert_eq!(calls[0].from.uri, uri_a);
    assert_eq!(calls[1].from.uri, uri_b);
    assert_eq!(calls[1].from.kind, SymbolKind::Method);
}

#[test]
fn outgoing_calls_of_an_unknown_item_are_empty() {
    let program = program(vec![function_def("Calc", Vec::new(), 1, 3)]);
    let doc_uri = uri("a");

    let calls = CallHierarchyProvider::outgoing_calls(
        &function_item("Missing", doc_uri.clone()),
        &[(doc_uri.as_str(), &program)],
    );

    assert!(calls.is_empty());
}

#[test]
fn outgoing_callees_come_in_order_of_their_first_call() {
    let program = program(vec![
        function_def(
            "Caller",
            vec![call_statement("Second", 2), call_statement("First", 3), call_statement("Second", 4)],
            1,
            5,
        ),
        function_def("First", Vec::new(), 6, 7),
        subroutine_def("Second", Vec::new(), 8, 9),
    ]);
    let doc_uri = uri("a");

    let calls = CallHierarchyProvider::outgoing_calls(
        &function_item("Caller", doc_uri.clone()),
        &[(doc_uri.as_str(), &program)],
    );

    assert_eq!(calls.len(), 2);
    assert_eq!(calls[0].to.name, "Second");
    assert_eq!(calls[0].to.kind, SymbolKind::Method);
    assert_eq!(calls[0].from_ranges.len(), 2);
    assert_eq!(calls[1].to.name, "First");
    assert_eq!(calls[1].to.range.start.line, 5);
}

use crbasic_lsp::protocol::SymbolKind;
use crbasic_lsp::symbols::extract_document_symbols;
use crbasic_lsp::syntax::{
    position_to_lsp, Expression, Position, Program, Span, Statement,
};

fn span(line: usize, start: usize, end_line: usize, end: usize) -> Span {
    Span::new(Position::new(line, start), Position::new(end_line, end))
}

fn structure(keyword: &str, line: usize) -> Statement {
    Statement::ProgramStructure {
        keyword: keyword.to_string(),
        arguments: None,
        span: span(line, 1, line, keyword.len() + 1),
    }
}

fn var(keyword: &str, name: &str, type_annotation: Option<&str>, line: usize) -> Statement {
    Statement::VarDeclaration {
        keyword: keyword.to_string(),
        name: name.to_string(),
        array_dimensions: None,
        type_annotation: type_annotation.map(|t| t.to_string()),
        initializer: None,
        span: span(line, 1, line, 20),
    }
}

fn function(name: &str, parameters: &[&str], body: Vec<Statement>) -> Statement {
    Statement::FunctionDefinition {
        name: name.to_string(),
        parameters: parameters.iter().map(|p| p.to_string()).collect(),
        body,
        span: span(1, 1, 2, 12),
    }
}

fn program(statements: Vec<Statement>) -> Program {
    Program::new(statements, span(1, 1, 1, 1))
}

#[test]
fn extracts_begin_prog_symbol() {
    // BeginProg\nEndProg
    let program = program(vec![structure("BeginProg", 1), structure("EndProg", 2)]);
    let symbols = extract_document_symbols(&program);

    assert_eq!(symbols.len(), 2);
    assert_eq!(symbols[0].name, "BeginProg");
    assert_eq!(symbols[0].kind, SymbolKind::Namespace);
}

#[test]
fn extracts_data_table_symbol() {
    // DataTable\nEndTable
    let program = program(vec![structure("DataTable", 1), structure("EndTable", 2)]);
    let symbols = extract_document_symbols(&program);

    assert_eq!(symbols.len(), 2);
    assert_eq!(symbols[0].name, "DataTable");
    assert_eq!(symbols[0].kind, SymbolKind::Namespace);
    assert_eq!(symbols[1].name, "EndTable");
}

#[test]
fn extracts_function_definition() {
    // Function MyFunc()\nEndFunction
    let program = program(vec![function("MyFunc", &[], Vec::new())]);
    let symbols = extract_document_symbols(&program);

    assert_eq!(symbols.len(), 1);
    assert_eq!(symbols[0].name, "MyFunc()");
    assert_eq!(symbols[0].kind, SymbolKind::Function);
}

#[test]
fn extracts_function_with_parameters() {
    // Function Calculate(x, y)\nEndFunction
    let program = program(vec![function("Calculate", &["x", "y"], Vec::new())]);
    let symbols = extract_document_symbols(&program);

    assert_eq!(symbols.len(), 1);
    assert_eq!(symbols[0].name, "Calculate(x, y)");
    assert_eq!(symbols[0].kind, SymbolKind::Function);
}

#[test]
fn extracts_subroutine_definition() {
    // Sub MySub(param1)\nEndSub
    let program = program(vec![Statement::SubroutineDefinition {
        name: "MySub".to_string(),
        parameters: vec!["param1".to_string()],
        body: Vec::new(),
        span: span(1, 1, 2, 7),
    }]);
    let symbols = extract_document_symbols(&program);

    assert_eq!(symbols.len(), 1);
    assert_eq!(symbols[0].name, "MySub(param1)");
    assert_eq!(symbols[0].kind, SymbolKind::Method);
}

#[test]
fn symbols_extracts_variable_declarations() {
    // Public Temp_C\nDim i\nConst PI = 3.14
    let program = program(vec![
        var("Public", "Temp_C", None, 1),
        var("Dim", "i", None, 2),
        var("Const", "PI", None, 3),
    ]);
    let symbols = extract_document_symbols(&program);

    assert_eq!(symbols.len(), 3);

    // Public variable
    assert_eq!(symbols[0].name, "Temp_C");
    assert_eq!(symbols[0].kind, SymbolKind::Variable);

    // Dim variable
    assert_eq!(symbols[1].name, "i");
    assert_eq!(symbols[1].kind, SymbolKind::Variable);

    // Const
    assert_eq!(symbols[2].name, "PI");
    assert_eq!(symbols[2].kind, SymbolKind::Constant);
}

#[test]
fn extracts_variable_with_type_annotation() {
    // Public Temp_C As Float
    let program = program(vec![var("Public", "Temp_C", Some("Float"), 1)]);
    let symbols = extract_document_symbols(&program);

    assert_eq!(symbols.len(), 1);
    assert_eq!(symbols[0].name, "Temp_C As Float");
}

#[test]
fn extracts_nested_symbols_in_function() {
    // Function MyFunc()\nDim local_var\nEndFunction
    let program = program(vec![function(
        "MyFunc",
        &[],
        vec![var("Dim", "local_var", None, 2)],
    )]);
    let symbols = extract_document_symbols(&program);

    assert_eq!(symbols.len(), 1);
    assert_eq!(symbols[0].name, "MyFunc()");

    // Check for nested symbol
    assert!(symbols[0].children.is_some());
    let children = symbols[0].children.as_ref().expect("Should have children");
    assert_eq!(children.len(), 1);
    assert_eq!(children[0].name, "local_var");
}

#[test]
fn position_conversion_is_zero_indexed() {
    // Parser uses 1-indexed, LSP uses 0-indexed
    let parser_pos = Position::new(5, 10);
    let lsp_pos = position_to_lsp(parser_pos);

    assert_eq!(lsp_pos.line, 4);
    assert_eq!(lsp_pos.character, 9);
}

#[test]
fn names_a_data_table_by_its_arguments() {
    let program = program(vec![Statement::ProgramStructure {
        keyword: "DataTable".to_string(),
        arguments: Some(vec![
            Expression::Identifier {
                name: "Test".to_string(),
                span: span(1, 11, 1, 15),
            },
            Expression::IntegerLiteral {
                value: -1,
                span: span(1, 16, 1, 18),
            },
            Expression::IntegerLiteral {
                value: 1000,
                span: span(1, 19, 1, 23),
            },
            Expression::StringLiteral {
                value: "x".to_string(),
                span: span(1, 24, 1, 27),
            },
            Expression::FloatLiteral {
                text: "2.5".to_string(),
                span: span(1, 28, 1, 31),
            },
            Expression::BooleanLiteral {
                value: true,
                span: span(1, 32, 1, 36),
            },
        ]),
        span: span(1, 1, 1, 37),
    }]);

    let symbols = extract_document_symbols(&program);

    assert_eq!(symbols[0].name, "DataTable(Test, -1, 1000, \"x\", 2.5, ...)");
}

#[test]
fn keeps_the_keyword_for_a_data_table_without_arguments() {
    let program = program(vec![Statement::ProgramStructure {
        keyword: "DataTable".to_string(),
        arguments: Some(Vec::new()),
        span: span(1, 1, 1, 12),
    }]);

    let symbols = extract_document_symbols(&program);

    assert_eq!(symbols[0].name, "DataTable");
}

#[test]
fn renders_the_most_negative_integer_argument() {
    let program = program(vec![Statement::ProgramStructure {
        keyword: "DataTable".to_string(),
        arguments: Some(vec![Expression::IntegerLiteral {
            value: i64::MIN,
            span: span(1, 11, 1, 30),
        }]),
        span: span(1, 1, 1, 31),
    }]);

    let symbols = extract_document_symbols(&program);

    assert_eq!(symbols[0].name, "DataTable(-9223372036854775808)");
}

#[test]
fn symbols_cover_their_statement_span() {
    let program = program(vec![Statement::VarDeclaration {
        keyword: "Public".to_string(),
        name: "X".to_string(),
        array_dimensions: None,
        type_annotation: None,
        initializer: None,
        span: span(3, 5, 3, 14),
    }]);

    let symbols = extract_document_symbols(&program);

    assert_eq!(symbols[0].range.start.line, 2);
    assert_eq!(symbols[0].range.start.character, 4);
    assert_eq!(symbols[0].range.end.character, 13);
    assert_eq!(symbols[0].selection_range, symbols[0].range);
    assert!(symbols[0].children.is_none());
}

#[test]
fn statements_without_a_symbol_are_skipped() {
    let program = program(vec![
        Statement::FunctionCall {
            name: "Scan".to_string(),
            arguments: Vec::new(),
            span: span(1, 1, 1, 7),
        },
        var("Public", "X", None, 2),
    ]);

    let symbols = extract_document_symbols(&program);

    assert_eq!(symbols.len(), 1);
    assert_eq!(symbols[0].name, "X");
}

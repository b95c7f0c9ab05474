use crbasic_lsp::code_lens::CodeLensProvider;
use crbasic_lsp::protocol::{CodeLens, CommandArgument, Position};
use crbasic_lsp::syntax::{Position as ParserPosition, Program, Span, Statement, Token, TokenKind};

fn span(start_line: usize, start_col: usize, end_line: usize, end_col: usize) -> Span {
    Span::new(
        ParserPosition::new(start_line, start_col),
        ParserPosition::new(end_line, end_col),
    )
}

fn program(statements: Vec<Statement>) -> Program {
    Program::new(statements, span(1, 1, 1, 1))
}

fn public_var(name: &str, line: usize) -> Statement {
    Statement::VarDeclaration {
        keyword: "Public".to_string(),
        name: name.to_string(),
        array_dimensions: None,
        type_annotation: None,
        initializer: None,
        span: span(line, 1, line, 8 + name.len()),
    }
}

fn identifier_token(name: &str, line: usize, start_col: usize) -> Token {
    let end_col = start_col + name.len();
    Token {
        kind: TokenKind::Identifier(name.to_string()),
        lexeme: name.to_string(),
        span: span(line, start_col, line, end_col),
    }
}

fn uri() -> String {
    "file:///test.cr6".to_string()
}

fn command_title(lens: &CodeLens) -> &str {
    lens.command
        .as_ref()
        .expect("Should have a command")
        .title
        .as_str()
}

#[test]
fn builds_one_lens_per_declared_symbol() {
    let program = program(vec![public_var("Temp_C", 1)]);
    let tokens = vec![identifier_token("Temp_C", 1, 8)];

    let lenses = CodeLensProvider::get_code_lenses(&program, &tokens, &uri());

    assert_eq!(lenses.len(), 1);
}

#[test]
fn counts_references_excluding_the_declaration() {
    let program = program(vec![public_var("Temp_C", 1)]);
    let tokens = vec![
        identifier_token("Temp_C", 1, 8), // declaration
        identifier_token("Temp_C", 2, 1), // usage
        identifier_token("Temp_C", 3, 1), // usage
    ];

    let lenses = CodeLensProvider::get_code_lenses(&program, &tokens, &uri());

    assert_eq!(command_title(&lenses[0]), "2 references");
}

#[test]
fn uses_singular_wording_for_exactly_one_reference() {
    let program = program(vec![public_var("Temp_C", 1)]);
    let tokens = vec![
        identifier_token("Temp_C", 1, 8),
        identifier_token("Temp_C", 2, 1),
    ];

    let lenses = CodeLensProvider::get_code_lenses(&program, &tokens, &uri());

    assert_eq!(command_title(&lenses[0]), "1 reference");
}

#[test]
fn shows_zero_references_for_an_unused_symbol() {
    let program = program(vec![public_var("Temp_C", 1)]);
    let tokens = vec![identifier_token("Temp_C", 1, 8)];

    let lenses = CodeLensProvider::get_code_lenses(&program, &tokens, &uri());

    assert_eq!(command_title(&lenses[0]), "0 references");
}

#[test]
fn lens_range_matches_the_declaration_span() {
    let program = program(vec![public_var("Temp_C", 5)]);
    let tokens = vec![identifier_token("Temp_C", 5, 8)];

    let lenses = CodeLensProvider::get_code_lenses(&program, &tokens, &uri());

    assert_eq!(lenses[0].range.start.line, 4);
}

#[test]
fn includes_a_lens_for_function_definitions() {
    let program = program(vec![Statement::FunctionDefinition {
        name: "Calc".to_string(),
        parameters: Vec::new(),
        body: Vec::new(),
        span: span(1, 1, 3, 11),
    }]);
    let tokens = vec![identifier_token("Calc", 1, 10)];

    let lenses = CodeLensProvider::get_code_lenses(&program, &tokens, &uri());

    assert_eq!(lenses.len(), 1);
}

#[test]
fn includes_a_lens_for_subroutine_definitions() {
    let program = program(vec![Statement::SubroutineDefinition {
        name: "Init".to_string(),
        parameters: Vec::new(),
        body: Vec::new(),
        span: span(1, 1, 3, 7),
    }]);
    let tokens = vec![identifier_token("Init", 1, 5)];

    let lenses = CodeLensProvider::get_code_lenses(&program, &tokens, &uri());

    assert_eq!(lenses.len(), 1);
}

#[test]
fn command_arguments_carry_the_given_uri() {
    let program = program(vec![public_var("Temp_C", 1)]);
    let tokens = vec![
        identifier_token("Temp_C", 1, 8),
        identifier_token("Temp_C", 2, 1),
    ];
    let doc_uri = uri();

    let lenses = CodeLensProvider::get_code_lenses(&program, &tokens, &doc_uri);

    let command = lenses[0].command.as_ref().expect("Should have a command");
    let arguments = command.arguments.as_ref().expect("Should have arguments");
    assert_eq!(arguments[0], CommandArgument::Uri(doc_uri));
}

#[test]
fn command_locations_exclude_the_declaration_occurrence() {
    let program = program(vec![public_var("Temp_C", 1)]);
    let tokens = vec![
        identifier_token("Temp_C", 1, 8),
        identifier_token("Temp_C", 2, 1),
    ];

    let lenses = CodeLensProvider::get_code_lenses(&program, &tokens, &uri());

    let command = lenses[0].command.as_ref().expect("Should have a command");
    let arguments = command.arguments.as_ref().expect("Should have arguments");
    let CommandArgument::Locations(locations) = &arguments[2] else {
        panic!("Third argument should be a list of locations");
    };
    assert_eq!(locations.len(), 1);
}

#[test]
fn lenses_follow_declaration_order() {
    let program = program(vec![public_var("Late", 9), public_var("Early", 2)]);
    let tokens = vec![identifier_token("Early", 2, 8), identifier_token("Late", 9, 8)];

    let lenses = CodeLensProvider::get_code_lenses(&program, &tokens, &uri());

    assert_eq!(lenses.len(), 2);
    assert_eq!(lenses[0].range.start.line, 1);
    assert_eq!(lenses[1].range.start.line, 8);
}

#[test]
fn lens_command_shows_references_at_the_declaration() {
    let program = program(vec![public_var("Temp_C", 3)]);
    let tokens = vec![identifier_token("Temp_C", 3, 8), identifier_token("Temp_C", 7, 2)];

    let lenses = CodeLensProvider::get_code_lenses(&program, &tokens, &uri());

    let command = lenses[0].command.as_ref().expect("Should have a command");
    assert_eq!(command.command, "editor.action.showReferences");
    let arguments = command.arguments.as_ref().expect("Should have arguments");
    assert_eq!(arguments.len(), 3);
    assert_eq!(
        arguments[1],
        CommandArgument::Position(Position {
            line: 2,
            character: 0
        })
    );
    let CommandArgument::Locations(locations) = &arguments[2] else {
        panic!("Third argument should be a list of locations");
    };
    assert_eq!(locations[0].range.start.line, 6);
    assert_eq!(locations[0].uri, uri());
}

#[test]
fn only_the_first_occurrence_on_the_declaration_line_is_skipped() {
    let program = program(vec![public_var("X", 1)]);
    let tokens = vec![identifier_token("X", 1, 8), identifier_token("X", 1, 12)];

    let lenses = CodeLensProvider::get_code_lenses(&program, &tokens, &uri());

    assert_eq!(command_title(&lenses[0]), "1 reference");
}

#[test]
fn counts_beyond_nine_render_every_digit() {
    let program = program(vec![public_var("X", 1)]);
    let mut tokens = vec![identifier_token("X", 1, 8)];
    for line in 2..14 {
        tokens.push(identifier_token("X", line, 1));
    }

    let lenses = CodeLensProvider::get_code_lenses(&program, &tokens, &uri());

    assert_eq!(command_title(&lenses[0]), "12 references");
}

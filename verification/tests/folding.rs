use crbasic_lsp::folding::FoldingRangeProvider;
use crbasic_lsp::syntax::{Expression, Position, Program, Span, Statement};

fn pos(line: usize, column: usize) -> Position {
    Position::new(line, column)
}

fn span(start_line: usize, start_col: usize, end_line: usize, end_col: usize) -> Span {
    Span::new(pos(start_line, start_col), pos(end_line, end_col))
}

fn program(statements: Vec<Statement>) -> Program {
    Program::new(statements, span(1, 1, 1, 1))
}

fn dummy_condition() -> Expression {
    Expression::BooleanLiteral {
        value: true,
        span: span(1, 1, 1, 1),
    }
}

fn program_structure(keyword: &str, line: usize) -> Statement {
    Statement::ProgramStructure {
        keyword: keyword.to_string(),
        arguments: None,
        span: span(line, 1, line, keyword.len() + 1),
    }
}

fn function_call(name: &str, line: usize) -> Statement {
    Statement::FunctionCall {
        name: name.to_string(),
        arguments: Vec::new(),
        span: span(line, 1, line, name.len() + 1),
    }
}

#[test]
fn folds_an_if_statement_from_if_to_endif() {
    let program = program(vec![Statement::IfStatement {
        condition: dummy_condition(),
        then_branch: Vec::new(),
        else_branch: None,
        span: span(1, 1, 5, 5),
    }]);

    let ranges = FoldingRangeProvider::get_folding_ranges(&program);

    assert_eq!(ranges.len(), 1);
    assert_eq!(ranges[0].start_line, 0);
    assert_eq!(ranges[0].end_line, 4);
}

#[test]
fn folds_a_for_loop_from_for_to_next() {
    let program = program(vec![Statement::ForLoop {
        variable: "i".to_string(),
        start: dummy_condition(),
        end: dummy_condition(),
        step: None,
        body: Vec::new(),
        span: span(2, 1, 6, 4),
    }]);

    let ranges = FoldingRangeProvider::get_folding_ranges(&program);

    assert_eq!(ranges.len(), 1);
    assert_eq!(ranges[0].start_line, 1);
    assert_eq!(ranges[0].end_line, 5);
}

#[test]
fn folds_a_do_loop_from_do_to_loop() {
    let program = program(vec![Statement::DoLoop {
        condition: None,
        body: Vec::new(),
        span: span(3, 1, 9, 4),
    }]);

    let ranges = FoldingRangeProvider::get_folding_ranges(&program);

    assert_eq!(ranges.len(), 1);
    assert_eq!(ranges[0].start_line, 2);
    assert_eq!(ranges[0].end_line, 8);
}

#[test]
fn folds_a_function_definition() {
    let program = program(vec![Statement::FunctionDefinition {
        name: "DoWork".to_string(),
        parameters: Vec::new(),
        body: Vec::new(),
        span: span(1, 1, 10, 11),
    }]);

    let ranges = FoldingRangeProvider::get_folding_ranges(&program);

    assert_eq!(ranges.len(), 1);
    assert_eq!(ranges[0].start_line, 0);
    assert_eq!(ranges[0].end_line, 9);
}

#[test]
fn folds_a_subroutine_definition() {
    let program = program(vec![Statement::SubroutineDefinition {
        name: "Init".to_string(),
        parameters: Vec::new(),
        body: Vec::new(),
        span: span(1, 1, 4, 7),
    }]);

    let ranges = FoldingRangeProvider::get_folding_ranges(&program);

    assert_eq!(ranges.len(), 1);
    assert_eq!(ranges[0].start_line, 0);
    assert_eq!(ranges[0].end_line, 3);
}

#[test]
fn folds_a_structure_type_block() {
    let program = program(vec![Statement::StructureType {
        name: "TempRHSensor".to_string(),
        span: span(1, 1, 4, 16),
    }]);

    let ranges = FoldingRangeProvider::get_folding_ranges(&program);

    assert_eq!(ranges.len(), 1);
    assert_eq!(ranges[0].start_line, 0);
    assert_eq!(ranges[0].end_line, 3);
}

#[test]
fn pairs_begin_prog_with_the_matching_end_prog() {
    let program = program(vec![
        program_structure("BeginProg", 1),
        program_structure("EndProg", 20),
    ]);

    let ranges = FoldingRangeProvider::get_folding_ranges(&program);

    assert_eq!(ranges.len(), 1);
    assert_eq!(ranges[0].start_line, 0);
    assert_eq!(ranges[0].end_line, 19);
}

#[test]
fn pairs_data_table_with_the_matching_end_table() {
    let program = program(vec![
        program_structure("DataTable", 2),
        program_structure("EndTable", 8),
    ]);

    let ranges = FoldingRangeProvider::get_folding_ranges(&program);

    assert_eq!(ranges.len(), 1);
    assert_eq!(ranges[0].start_line, 1);
    assert_eq!(ranges[0].end_line, 7);
}

#[test]
fn pairs_const_table_with_the_matching_end_const_table() {
    let program = program(vec![
        program_structure("ConstTable", 2),
        program_structure("EndConstTable", 8),
    ]);

    let ranges = FoldingRangeProvider::get_folding_ranges(&program);

    assert_eq!(ranges.len(), 1);
    assert_eq!(ranges[0].start_line, 1);
    assert_eq!(ranges[0].end_line, 7);
}

#[test]
fn pairs_apply_and_restart_sequence_with_its_matching_end() {
    let program = program(vec![
        program_structure("ApplyAndRestartSequence", 1),
        program_structure("EndApplyAndRestartSequence", 5),
    ]);

    let ranges = FoldingRangeProvider::get_folding_ranges(&program);

    assert_eq!(ranges.len(), 1);
    assert_eq!(ranges[0].start_line, 0);
    assert_eq!(ranges[0].end_line, 4);
}

#[test]
fn pairs_shutdownbegin_with_its_matching_shutdownend() {
    let program = program(vec![
        program_structure("ShutDownBegin", 1),
        program_structure("ShutDownEnd", 5),
    ]);

    let ranges = FoldingRangeProvider::get_folding_ranges(&program);

    assert_eq!(ranges.len(), 1);
    assert_eq!(ranges[0].start_line, 0);
    assert_eq!(ranges[0].end_line, 4);
}

#[test]
fn pairs_two_sequential_data_tables_independently() {
    let program = program(vec![
        program_structure("DataTable", 1),
        program_structure("EndTable", 3),
        program_structure("DataTable", 5),
        program_structure("EndTable", 9),
    ]);

    let ranges = FoldingRangeProvider::get_folding_ranges(&program);

    assert_eq!(ranges.len(), 2);
    assert_eq!((ranges[0].start_line, ranges[0].end_line), (0, 2));
    assert_eq!((ranges[1].start_line, ranges[1].end_line), (4, 8));
}

#[test]
fn ignores_an_end_prog_without_a_matching_begin_prog() {
    let program = program(vec![program_structure("EndProg", 1)]);

    let ranges = FoldingRangeProvider::get_folding_ranges(&program);

    assert!(ranges.is_empty());
}

#[test]
fn ignores_a_begin_prog_without_a_matching_end_prog() {
    let program = program(vec![program_structure("BeginProg", 1)]);

    let ranges = FoldingRangeProvider::get_folding_ranges(&program);

    assert!(ranges.is_empty());
}

#[test]
fn folding_recurses_into_nested_block_bodies() {
    let program = program(vec![Statement::IfStatement {
        condition: dummy_condition(),
        then_branch: vec![Statement::ForLoop {
            variable: "i".to_string(),
            start: dummy_condition(),
            end: dummy_condition(),
            step: None,
            body: Vec::new(),
            span: span(2, 1, 4, 4),
        }],
        else_branch: None,
        span: span(1, 1, 5, 5),
    }]);

    let ranges = FoldingRangeProvider::get_folding_ranges(&program);

    assert_eq!(ranges.len(), 2);
}

#[test]
fn pairs_scan_with_the_matching_next_scan() {
    let program = program(vec![
        function_call("Scan", 1),
        program_structure("NextScan", 5),
    ]);

    let ranges = FoldingRangeProvider::get_folding_ranges(&program);

    assert_eq!(ranges.len(), 1);
    assert_eq!(ranges[0].start_line, 0);
    assert_eq!(ranges[0].end_line, 4);
}

#[test]
fn pairs_subscan_with_the_matching_next_subscan() {
    let program = program(vec![
        function_call("SubScan", 2),
        program_structure("NextSubScan", 4),
    ]);

    let ranges = FoldingRangeProvider::get_folding_ranges(&program);

    assert_eq!(ranges.len(), 1);
    assert_eq!(ranges[0].start_line, 1);
    assert_eq!(ranges[0].end_line, 3);
}

#[test]
fn pairs_slow_sequence_with_the_matching_end_sequence() {
    let program = program(vec![
        program_structure("SlowSequence", 1),
        function_call("Scan", 2),
        program_structure("NextScan", 8),
        program_structure("EndSequence", 9),
    ]);

    let ranges = FoldingRangeProvider::get_folding_ranges(&program);

    assert_eq!(ranges.len(), 2);
    assert_eq!((ranges[0].start_line, ranges[0].end_line), (1, 7));
    assert_eq!((ranges[1].start_line, ranges[1].end_line), (0, 8));
}

#[test]
fn pairs_display_menu_with_the_matching_end_menu() {
    let program = program(vec![
        function_call("DisplayMenu", 1),
        program_structure("EndMenu", 6),
    ]);

    let ranges = FoldingRangeProvider::get_folding_ranges(&program);

    assert_eq!(ranges.len(), 1);
    assert_eq!(ranges[0].start_line, 0);
    assert_eq!(ranges[0].end_line, 5);
}

#[test]
fn pairs_sub_menu_with_the_matching_end_sub_menu() {
    let program = program(vec![
        function_call("DisplayMenu", 1),
        function_call("SubMenu", 2),
        program_structure("EndSubMenu", 4),
        program_structure("EndMenu", 5),
    ]);

    let ranges = FoldingRangeProvider::get_folding_ranges(&program);

    assert_eq!(ranges.len(), 2);
    assert_eq!((ranges[0].start_line, ranges[0].end_line), (1, 3));
    assert_eq!((ranges[1].start_line, ranges[1].end_line), (0, 4));
}

#[test]
fn pairs_web_page_begin_with_the_matching_web_page_end() {
    let program = program(vec![
        function_call("WebPageBegin", 1),
        program_structure("WebPageEnd", 4),
    ]);

    let ranges = FoldingRangeProvider::get_folding_ranges(&program);

    assert_eq!(ranges.len(), 1);
    assert_eq!(ranges[0].start_line, 0);
    assert_eq!(ranges[0].end_line, 3);
}

#[test]
fn pairs_modem_hangup_with_the_matching_end_modem_hangup() {
    let program = program(vec![
        function_call("ModemHangup", 1),
        program_structure("EndModemHangup", 3),
    ]);

    let ranges = FoldingRangeProvider::get_folding_ranges(&program);

    assert_eq!(ranges.len(), 1);
    assert_eq!(ranges[0].start_line, 0);
    assert_eq!(ranges[0].end_line, 2);
}

#[test]
fn pairs_voice_beg_with_the_matching_end_voice() {
    let program = program(vec![
        program_structure("VoiceBeg", 1),
        program_structure("EndVoice", 3),
    ]);

    let ranges = FoldingRangeProvider::get_folding_ranges(&program);

    assert_eq!(ranges.len(), 1);
    assert_eq!(ranges[0].start_line, 0);
    assert_eq!(ranges[0].end_line, 2);
}

#[test]
fn does_not_confuse_a_bare_scan_reference_with_a_subscan_call() {
    let program = program(vec![
        function_call("SubScan", 1),
        program_structure("NextSubScan", 3),
        program_structure("NextScan", 4),
    ]);

    let ranges = FoldingRangeProvider::get_folding_ranges(&program);

    assert_eq!(ranges.len(), 1, "an unmatched NextScan must not be paired");
    assert_eq!((ranges[0].start_line, ranges[0].end_line), (0, 2));
}

#[test]
fn skips_ranges_that_do_not_span_multiple_lines() {
    let program = program(vec![Statement::IfStatement {
        condition: dummy_condition(),
        then_branch: Vec::new(),
        else_branch: None,
        span: span(1, 1, 1, 20),
    }]);

    let ranges = FoldingRangeProvider::get_folding_ranges(&program);

    assert!(ranges.is_empty());
}

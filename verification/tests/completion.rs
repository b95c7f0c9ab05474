use crbasic_lsp::completion::{
    CompletionItem, CompletionItemKind, CompletionProvider, InsertTextFormat,
};
use crbasic_lsp::syntax::{Position, Program, Span, Statement};

fn completion_for(label: &str) -> CompletionItem {
    CompletionProvider::get_keyword_completions()
        .into_iter()
        .find(|c| c.label == label)
        .unwrap_or_else(|| panic!("expected a completion item for: {}", label))
}

fn insert_text_for<'a>(completions: &'a [CompletionItem], label: &str) -> &'a str {
    completions
        .iter()
        .find(|c| c.label == label)
        .unwrap_or_else(|| panic!("no completion found for {label}"))
        .insert_text
        .as_deref()
        .unwrap_or_else(|| panic!("{label} completion has no insert_text"))
}

fn dummy_span() -> Span {
    Span::new(Position::new(1, 1), Position::new(1, 1))
}

fn create_test_ast() -> Program {
    Program {
        statements: vec![
            Statement::VarDeclaration {
                keyword: "Public".to_string(),
                name: "Temperature".to_string(),
                array_dimensions: None,
                type_annotation: Some("Float".to_string()),
                initializer: None,
                span: dummy_span(),
            },
            Statement::VarDeclaration {
                keyword: "Const".to_string(),
                name: "PI".to_string(),
                array_dimensions: None,
                type_annotation: None,
                initializer: None,
                span: dummy_span(),
            },
            Statement::FunctionDefinition {
                name: "CalcAverage".to_string(),
                parameters: vec!["a".to_string(), "b".to_string()],
                body: vec![],
                span: dummy_span(),
            },
            Statement::SubroutineDefinition {
                name: "InitSensors".to_string(),
                parameters: vec![],
                body: vec![],
                span: dummy_span(),
            },
        ],
        span: dummy_span(),
    }
}

#[test]
fn returns_keyword_completions() {
    let completions = CompletionProvider::get_keyword_completions();

    assert!(!completions.is_empty());
}

#[test]
fn includes_control_flow_keywords() {
    let completions = CompletionProvider::get_keyword_completions();
    let labels: Vec<&str> = completions.iter().map(|c| c.label.as_str()).collect();

    assert!(labels.contains(&"If"));
    assert!(labels.contains(&"For"));
    assert!(labels.contains(&"Do"));
    assert!(labels.contains(&"Select Case"));
}

#[test]
fn includes_declaration_keywords() {
    let completions = CompletionProvider::get_keyword_completions();
    let labels: Vec<&str> = completions.iter().map(|c| c.label.as_str()).collect();

    assert!(labels.contains(&"Public"));
    assert!(labels.contains(&"Dim"));
    assert!(labels.contains(&"Const"));
}

#[test]
fn includes_program_structure_keywords() {
    let completions = CompletionProvider::get_keyword_completions();
    let labels: Vec<&str> = completions.iter().map(|c| c.label.as_str()).collect();

    assert!(labels.contains(&"BeginProg"));
    assert!(labels.contains(&"EndProg"));
    assert!(labels.contains(&"DataTable"));
    assert!(labels.contains(&"EndTable"));
    assert!(labels.contains(&"CallTable"));
    assert!(labels.contains(&"ConstTable"));
    assert!(labels.contains(&"EndConstTable"));
    assert!(labels.contains(&"StructureType"));
    assert!(labels.contains(&"EndStructureType"));
}

#[test]
fn control_flow_keywords_have_snippets() {
    let completions = CompletionProvider::get_keyword_completions();
    let if_completion = completions.iter().find(|c| c.label == "If").unwrap();

    assert!(if_completion.insert_text.is_some());
    assert_eq!(
        if_completion.insert_text_format,
        Some(InsertTextFormat::Snippet)
    );
}

#[test]
fn keywords_have_correct_kind() {
    let completions = CompletionProvider::get_keyword_completions();

    for completion in &completions {
        assert_eq!(completion.kind, Some(CompletionItemKind::Keyword));
    }
}

#[test]
fn consttable_snippet_names_its_second_parameter_hidden_not_enabled() {
    let insert_text = completion_for("ConstTable").insert_text.unwrap();

    assert!(
        !insert_text.contains("Enabled") && insert_text.contains("Hidden"),
        "the official syntax \
         (help.campbellsci.com/crbasic/cr1000x/Content/Instructions/consttableendconsttable.htm) \
         names the second parameter Hidden (1 = visible only at highest security \
         level, 0/omitted = standard visible table), not Enabled: {}",
        insert_text
    );
}

#[test]
fn applyandrestartsequence_detail_does_not_claim_placement_before_consttable() {
    let detail = completion_for("ApplyAndRestartSequence").detail.unwrap();

    assert!(
        !detail.contains("before ConstTable"),
        "the official example \
         (help.campbellsci.com/crbasic/cr1000x/Content/Instructions/applyandrestartsequence.htm) \
         declares ApplyAndRestartSequence after the ConstTable it applies to, not \
         before: {}",
        detail
    );
}

#[test]
fn exitscan_detail_is_distinct_from_continuescan_iteration_skip() {
    let exit_scan_detail = completion_for("ExitScan").detail.unwrap();
    let continue_scan_detail = completion_for("ContinueScan").detail.unwrap();

    assert_ne!(
        exit_scan_detail, continue_scan_detail,
        "ExitScan breaks out of the entire Scan loop regardless of Count \
         (help.campbellsci.com/crbasic/cr1000x/Content/Instructions/scannextscan.htm), \
         a different, stronger effect than ContinueScan's skip-to-next-iteration -- \
         the two details must not read as describing the same behavior"
    );
    assert!(
        exit_scan_detail.to_lowercase().contains("loop"),
        "ExitScan's detail should describe leaving the Scan loop itself, not just \
         \"the current scan\": {}",
        exit_scan_detail
    );
}

#[test]
fn returns_data_type_completions() {
    let completions = CompletionProvider::data_type_completions();

    assert!(!completions.is_empty());
}

#[test]
fn includes_every_type_valid_after_as() {
    let completions = CompletionProvider::data_type_completions();
    let labels: Vec<&str> = completions.iter().map(|c| c.label.as_str()).collect();

    // Per Campbell Scientific's own "Data Types" documentation,
    // these six are valid after `As` in a Public/Dim declaration --
    // distinct from the larger output-processing type set (FP2,
    // IEEE4, IEEE8, UINT2, UINT4, Bool8, NSEC, ...) that's only
    // valid as a Sample()/Average()-style instruction argument.
    for expected in ["Float", "Double", "Long", "Boolean", "String", "UINT1"] {
        assert!(
            labels.contains(&expected),
            "Missing data type completion: {}",
            expected
        );
    }
}

#[test]
fn data_types_have_correct_kind() {
    let completions = CompletionProvider::data_type_completions();

    for completion in &completions {
        assert_eq!(completion.kind, Some(CompletionItemKind::Keyword));
    }
}

#[test]
fn includes_every_type_valid_only_in_output_processing_instructions() {
    let completions = CompletionProvider::output_processing_data_type_completions();
    let labels: Vec<&str> = completions.iter().map(|c| c.label.as_str()).collect();

    // Per Campbell Scientific's own "Data Types" documentation, these
    // are valid as a Sample()/Average()-style instruction argument
    // but not after `As` in a Public/Dim declaration -- the inverse
    // of `data_type_completions`'s six.
    for expected in ["FP2", "IEEE4", "IEEE8", "UINT2", "UINT4", "Bool8", "NSEC"] {
        assert!(
            labels.contains(&expected),
            "Missing output-processing data type completion: {}",
            expected
        );
    }
}

#[test]
fn does_not_duplicate_types_already_valid_after_as() {
    let completions = CompletionProvider::output_processing_data_type_completions();
    let labels: Vec<&str> = completions.iter().map(|c| c.label.as_str()).collect();

    for already_covered in ["Float", "Double", "Long", "Boolean", "String", "UINT1"] {
        assert!(
            !labels.contains(&already_covered),
            "{} is already offered by data_type_completions",
            already_covered
        );
    }
}

#[test]
fn types_have_correct_kind() {
    let completions = CompletionProvider::output_processing_data_type_completions();

    for completion in &completions {
        assert_eq!(completion.kind, Some(CompletionItemKind::Keyword));
    }
}

#[test]
fn is_included_in_all_completions() {
    let completions = CompletionProvider::get_all_completions(None);
    let labels: Vec<&str> = completions.iter().map(|c| c.label.as_str()).collect();

    assert!(labels.contains(&"FP2"));
}

#[test]
fn returns_builtin_function_completions() {
    let completions = CompletionProvider::get_builtin_function_completions();

    assert!(!completions.is_empty());
}

#[test]
fn includes_scan_functions() {
    let completions = CompletionProvider::get_builtin_function_completions();
    let labels: Vec<&str> = completions.iter().map(|c| c.label.as_str()).collect();

    assert!(labels.contains(&"Scan"));
}

#[test]
fn includes_data_table_functions() {
    let completions = CompletionProvider::get_builtin_function_completions();
    let labels: Vec<&str> = completions.iter().map(|c| c.label.as_str()).collect();

    assert!(labels.contains(&"Sample"));
    assert!(labels.contains(&"Average"));
}

#[test]
fn includes_measurement_functions() {
    let completions = CompletionProvider::get_builtin_function_completions();
    let labels: Vec<&str> = completions.iter().map(|c| c.label.as_str()).collect();

    assert!(labels.contains(&"PulseCount"));
    assert!(labels.contains(&"VoltSe"));
    assert!(labels.contains(&"VoltDiff"));
}

#[test]
fn includes_math_functions() {
    let completions = CompletionProvider::get_builtin_function_completions();
    let labels: Vec<&str> = completions.iter().map(|c| c.label.as_str()).collect();

    assert!(labels.contains(&"Abs"));
    assert!(labels.contains(&"Sqr"));
    assert!(labels.contains(&"Sin"));
    assert!(labels.contains(&"Cos"));
}

#[test]
fn includes_string_functions() {
    let completions = CompletionProvider::get_builtin_function_completions();
    let labels: Vec<&str> = completions.iter().map(|c| c.label.as_str()).collect();

    assert!(labels.contains(&"Len"));
    assert!(labels.contains(&"Mid"));
    assert!(labels.contains(&"SplitStr"));
}

#[test]
fn builtin_functions_have_correct_kind() {
    let completions = CompletionProvider::get_builtin_function_completions();

    for completion in &completions {
        assert_eq!(completion.kind, Some(CompletionItemKind::Function));
    }
}

#[test]
fn builtin_functions_have_snippet_format() {
    let completions = CompletionProvider::get_builtin_function_completions();
    let scan = completions.iter().find(|c| c.label == "Scan").unwrap();

    assert!(scan.insert_text.is_some());
    assert_eq!(scan.insert_text_format, Some(InsertTextFormat::Snippet));
    assert!(scan.insert_text.as_ref().unwrap().contains("${1:"));
}

#[test]
fn tcdiff_ninth_placeholder_is_the_notch_filter_frequency_not_integration() {
    // Campbell Scientific's own syntax diagram names this parameter
    // `fN1`, distinct from the `Integ` parameter used by
    // VoltSe/VoltDiff -- confirmed at
    // https://help.campbellsci.com/crbasic/cr1000x/Content/Instructions/tcdiff.htm
    let completions = CompletionProvider::get_builtin_function_completions();
    let tcdiff = completions.iter().find(|c| c.label == "TCDiff").unwrap();

    assert!(tcdiff.insert_text.as_ref().unwrap().contains("${9:fN1}"));
}

#[test]
fn voltdiff_seventh_placeholder_is_the_notch_filter_frequency_not_integration() {
    // Same bug class as TCDiff above, not previously checked for
    // VoltDiff -- confirmed at
    // https://help.campbellsci.com/crbasic/cr1000x/Content/Instructions/voltdiff.htm
    let completions = CompletionProvider::get_builtin_function_completions();
    let voltdiff = completions.iter().find(|c| c.label == "VoltDiff").unwrap();

    assert!(voltdiff.insert_text.as_ref().unwrap().contains("${7:fN1}"));
}

#[test]
fn voltse_fifth_and_seventh_placeholders_match_the_official_names() {
    // Confirmed at
    // https://help.campbellsci.com/crbasic/cr1000x/Content/Instructions/voltse.htm:
    // the 5th parameter is `MeasOff` (not `MeasOfs`), and the 7th is
    // `fN1` (same bug class as TCDiff/VoltDiff above, not `Integ`).
    let completions = CompletionProvider::get_builtin_function_completions();
    let voltse = completions.iter().find(|c| c.label == "VoltSe").unwrap();
    let snippet = voltse.insert_text.as_ref().unwrap();

    assert!(snippet.contains("${5:MeasOff}"));
    assert!(snippet.contains("${7:fN1}"));
}

#[test]
fn therm10x_functions_include_settling_time_and_integration_parameters() {
    // Therm107/108/109's official 8-parameter syntax
    // (Dest, Reps, SEChan, Excite, SettlingTime, Integ, Mult, Offset)
    // was missing SettlingTime/Integ entirely, truncated to 6
    // parameters -- confirmed via Campbell Scientific's Model
    // 107/108/109 manuals (s.campbellsci.com/documents/us/manuals/107.pdf)
    // and the CR6 Measurement and Control System manual.
    let completions = CompletionProvider::get_builtin_function_completions();

    for name in ["Therm107", "Therm108", "Therm109"] {
        let completion = completions.iter().find(|c| c.label == name).unwrap();
        let snippet = completion.insert_text.as_ref().unwrap();

        assert!(
            snippet.contains("${5:SettlingTime}"),
            "{name} snippet missing SettlingTime: {snippet}"
        );
        assert!(
            snippet.contains("${6:Integ}"),
            "{name} snippet missing Integ: {snippet}"
        );
        assert!(
            snippet.contains("${7:Mult}"),
            "{name} snippet's Mult should be the 7th parameter: {snippet}"
        );
        assert!(
            snippet.contains("${8:Offset}"),
            "{name} snippet's Offset should be the 8th parameter: {snippet}"
        );
    }
}

#[test]
fn instr_third_and_fourth_placeholders_match_the_official_names() {
    // Confirmed at
    // https://help.campbellsci.com/crbasic/cr1000x/Content/Instructions/instr.htm:
    // parameter order is (Start, SearchString, FilterString,
    // SearchOption) -- the codebase had `String`/`SearchString`
    // shifted one slot early and mislabeled the 4th as a boolean
    // `CaseSensitive`.
    let completions = CompletionProvider::get_builtin_function_completions();
    let instr = completions.iter().find(|c| c.label == "InStr").unwrap();
    let snippet = instr.insert_text.as_ref().unwrap();

    assert!(snippet.contains("${2:SearchString}"));
    assert!(snippet.contains("${3:FilterString}"));
    assert!(snippet.contains("${4:SearchOption}"));
}

#[test]
fn splitstr_third_placeholder_is_named_filterstring_not_delimiter() {
    // Confirmed at
    // https://help.campbellsci.com/crbasic/cr1000x/Content/Instructions/splitstr.htm
    let completions = CompletionProvider::get_builtin_function_completions();
    let splitstr = completions.iter().find(|c| c.label == "SplitStr").unwrap();

    assert!(
        splitstr
            .insert_text
            .as_ref()
            .unwrap()
            .contains("${3:FilterString}")
    );
}

#[test]
fn timeintointerval_snippet_includes_the_leading_tintoint_parameter() {
    // Confirmed at
    // https://help.campbellsci.com/crbasic/cr1000x/Content/Instructions/timeintointervaliftime.htm:
    // TimeIntoInterval and IfTime are the same instruction and take
    // the same 3 parameters, but this snippet was missing the
    // leading `TintoInt` parameter.
    let completions = CompletionProvider::get_builtin_function_completions();
    let tii = completions
        .iter()
        .find(|c| c.label == "TimeIntoInterval")
        .unwrap();

    assert_eq!(
        tii.insert_text.as_deref(),
        Some("TimeIntoInterval(${1:TintoInt}, ${2:Interval}, ${3:Units})")
    );
}

#[test]
fn delay_snippet_includes_the_leading_option_parameter() {
    // Confirmed at
    // https://help.campbellsci.com/crbasic/cr6/Content/Instructions/delay3.htm:
    // `Delay(Option, Delay, Units)` -- `Option` was entirely
    // missing from this snippet.
    let completions = CompletionProvider::get_builtin_function_completions();
    let delay = completions.iter().find(|c| c.label == "Delay").unwrap();

    assert_eq!(
        delay.insert_text.as_deref(),
        Some("Delay(${1:Option}, ${2:Duration}, ${3:Units})")
    );
}

#[test]
fn builtin_functions_have_documentation() {
    let completions = CompletionProvider::get_builtin_function_completions();
    let scan = completions.iter().find(|c| c.label == "Scan").unwrap();

    assert!(scan.documentation.is_some());
}

#[test]
fn battery_snippet_matches_official_signature() {
    let completions = CompletionProvider::get_builtin_function_completions();

    assert_eq!(
        insert_text_for(&completions, "Battery"),
        "Battery(${1:Dest})"
    );
}

#[test]
fn paneltemp_snippet_matches_official_signature() {
    let completions = CompletionProvider::get_builtin_function_completions();

    assert_eq!(
        insert_text_for(&completions, "PanelTemp"),
        "PanelTemp(${1:Dest}, ${2:fN1})"
    );
}

#[test]
fn brhalf_snippet_matches_official_signature() {
    let completions = CompletionProvider::get_builtin_function_completions();

    assert_eq!(
        insert_text_for(&completions, "BrHalf"),
        "BrHalf(${1:Dest}, ${2:Reps}, ${3:Range}, ${4:SEChan}, ${5:ExChan}, \
         ${6:MeasPEx}, ${7:ExmV}, ${8:RevEx}, ${9:SettlingTime}, ${10:fN1}, \
         ${11:Mult}, ${12:Offset})"
    );
}

#[test]
fn brfull_snippet_matches_official_signature() {
    let completions = CompletionProvider::get_builtin_function_completions();

    assert_eq!(
        insert_text_for(&completions, "BrFull"),
        "BrFull(${1:Dest}, ${2:Reps}, ${3:Range}, ${4:DiffChan}, ${5:ExChan}, \
         ${6:MeasPEx}, ${7:ExmV}, ${8:RevEx}, ${9:RevDiff}, ${10:SettlingTime}, \
         ${11:fN1}, ${12:Mult}, ${13:Offset})"
    );
}

#[test]
fn resistance_snippet_includes_the_optional_trailing_meascurrent_parameter() {
    // Confirmed at https://help.campbellsci.com/crbasic/cr6/Content/Instructions/resistance.htm:
    // `MeasCurrent` is documented as an optional trailing parameter,
    // not a separate overload.
    let completions = CompletionProvider::get_builtin_function_completions();

    assert_eq!(
        insert_text_for(&completions, "Resistance"),
        "Resistance(${1:Dest}, ${2:Reps}, ${3:Range}, ${4:DiffChan}, ${5:IexChan}, \
         ${6:MeasPEx}, ${7:EXuA}, ${8:RevEx}, ${9:RevDiff}, ${10:SettlingTime}, \
         ${11:fN1}, ${12:Mult}, ${13:Offset}, ${14:MeasCurrent})"
    );
}

#[test]
fn periodavg_snippet_matches_official_signature() {
    let completions = CompletionProvider::get_builtin_function_completions();

    assert_eq!(
        insert_text_for(&completions, "PeriodAvg"),
        "PeriodAvg(${1:Dest}, ${2:Reps}, ${3:Chan}, ${4:Option}, ${5:Cycles}, \
         ${6:Timeout}, ${7:Mult}, ${8:Offset})"
    );
}

#[test]
fn portset_snippet_matches_official_signature() {
    let completions = CompletionProvider::get_builtin_function_completions();

    assert_eq!(
        insert_text_for(&completions, "PortSet"),
        "PortSet(${1:Port}, ${2:State}, ${3:Option})"
    );
}

#[test]
fn pulseport_snippet_matches_official_signature() {
    let completions = CompletionProvider::get_builtin_function_completions();

    assert_eq!(
        insert_text_for(&completions, "PulsePort"),
        "PulsePort(${1:Port}, ${2:Delay})"
    );
}

#[test]
fn excitev_snippet_matches_official_signature() {
    let completions = CompletionProvider::get_builtin_function_completions();

    assert_eq!(
        insert_text_for(&completions, "ExciteV"),
        "ExciteV(${1:ExChan}, ${2:ExmV}, ${3:Delay})"
    );
}

#[test]
fn brhalf3w_snippet_matches_official_signature() {
    let completions = CompletionProvider::get_builtin_function_completions();

    assert_eq!(
        insert_text_for(&completions, "BrHalf3W"),
        "BrHalf3W(${1:Dest}, ${2:Reps}, ${3:Range}, ${4:SEChan}, ${5:ExChan}, \
         ${6:MeasPEx}, ${7:ExmV}, ${8:RevEx}, ${9:SettlingTime}, ${10:fN1}, \
         ${11:Mult}, ${12:Offset})"
    );
}

#[test]
fn brhalf4w_snippet_includes_the_optional_trailing_returnv1_parameter() {
    // Confirmed at https://help.campbellsci.com/crbasic/cr6/Content/Instructions/brhalf4w.htm:
    // `ReturnV1` is documented as an optional trailing parameter.
    let completions = CompletionProvider::get_builtin_function_completions();

    assert_eq!(
        insert_text_for(&completions, "BrHalf4W"),
        "BrHalf4W(${1:Dest}, ${2:Reps}, ${3:Range1}, ${4:Range2}, ${5:DiffChan}, \
         ${6:ExChan}, ${7:MeasPEx}, ${8:ExmV}, ${9:RevEx}, ${10:RevDiff}, \
         ${11:SettlingTime}, ${12:fN1}, ${13:Mult}, ${14:Offset}, ${15:ReturnV1})"
    );
}

#[test]
fn brfull6w_snippet_includes_the_optional_trailing_returnv1_parameter() {
    let completions = CompletionProvider::get_builtin_function_completions();

    assert_eq!(
        insert_text_for(&completions, "BrFull6W"),
        "BrFull6W(${1:Dest}, ${2:Reps}, ${3:Range1}, ${4:Range2}, ${5:DiffChan}, \
         ${6:ExChan}, ${7:MeasPEx}, ${8:ExmV}, ${9:RevEx}, ${10:RevDiff}, \
         ${11:SettlingTime}, ${12:fN1}, ${13:Mult}, ${14:Offset}, ${15:ReturnV1})"
    );
}

#[test]
fn tcse_snippet_matches_official_signature() {
    let completions = CompletionProvider::get_builtin_function_completions();

    assert_eq!(
        insert_text_for(&completions, "TCSE"),
        "TCSE(${1:Dest}, ${2:Reps}, ${3:Range}, ${4:SEChan}, ${5:TCType}, ${6:TRef}, \
         ${7:MeasOff}, ${8:SettlingTime}, ${9:fN1}, ${10:Mult}, ${11:Offset})"
    );
}

#[test]
fn serialinrecord_snippet_matches_official_signature() {
    let completions = CompletionProvider::get_builtin_function_completions();

    assert_eq!(
        insert_text_for(&completions, "SerialInRecord"),
        "SerialInRecord(${1:COMPort}, ${2:Dest}, ${3:BeginWord}, ${4:NBytes}, \
         ${5:EndWord}, ${6:NBytesReturned}, ${7:SerialInRecOption})"
    );
}

#[test]
fn serialoutblock_snippet_matches_official_signature() {
    let completions = CompletionProvider::get_builtin_function_completions();

    assert_eq!(
        insert_text_for(&completions, "SerialOutBlock"),
        "SerialOutBlock(${1:ComPort}, ${2:Expression}, ${3:NumberBytes})"
    );
}

#[test]
fn serialflush_snippet_matches_official_signature() {
    let completions = CompletionProvider::get_builtin_function_completions();

    assert_eq!(
        insert_text_for(&completions, "SerialFlush"),
        "SerialFlush(${1:ComPort})"
    );
}

#[test]
fn modbusmaster_snippet_matches_the_current_modbusclient_signature() {
    // Campbell Scientific renamed this instruction ModbusClient;
    // ModbusMaster still compiles for backward compatibility with the
    // same parameter list. Confirmed at
    // https://help.campbellsci.com/crbasic/cr6/Content/Instructions/modbusclient.htm
    let completions = CompletionProvider::get_builtin_function_completions();

    assert_eq!(
        insert_text_for(&completions, "ModbusMaster"),
        "ModbusMaster(${1:ResultCode}, ${2:ComPort}, ${3:BaudRate}, ${4:ModbusAddr}, \
         ${5:Function}, ${6:Variable}, ${7:Start}, ${8:Length}, ${9:Tries}, \
         ${10:TimeOut}, ${11:ModbusOption})"
    );
}

#[test]
fn sdi12recorder_snippet_matches_official_signature() {
    let completions = CompletionProvider::get_builtin_function_completions();

    assert_eq!(
        insert_text_for(&completions, "SDI12Recorder"),
        "SDI12Recorder(${1:Dest}, ${2:SDIPort}, ${3:SDIAddress}, ${4:SDICommand}, \
         ${5:Multiplier}, ${6:Offset}, ${7:FillNAN}, ${8:WaitonTimeout})"
    );
}

#[test]
fn tcpopen_snippet_matches_official_signature() {
    let completions = CompletionProvider::get_builtin_function_completions();

    assert_eq!(
        insert_text_for(&completions, "TCPOpen"),
        "TCPOpen(${1:IPAddr}, ${2:TCPPort}, ${3:IPBuffer}, ${4:IPTimeOut}, \
         ${5:ConnectHandle}, ${6:MaxConnect})"
    );
}

#[test]
fn tcpclose_snippet_matches_official_signature() {
    let completions = CompletionProvider::get_builtin_function_completions();

    assert_eq!(
        insert_text_for(&completions, "TCPClose"),
        "TCPClose(${1:TCPSocket})"
    );
}

#[test]
fn udpopen_snippet_matches_official_signature() {
    let completions = CompletionProvider::get_builtin_function_completions();

    assert_eq!(
        insert_text_for(&completions, "UDPOpen"),
        "UDPOpen(${1:IPAddr}, ${2:UDPPort}, ${3:IPBuffer}, ${4:IPVersion})"
    );
}

#[test]
fn udpsocketopen_snippet_matches_official_signature() {
    let completions = CompletionProvider::get_builtin_function_completions();

    assert_eq!(
        insert_text_for(&completions, "UDPSocketOpen"),
        "UDPSocketOpen(${1:SocketID}, ${2:Port}, ${3:RecvQueueSize}, ${4:Interface})"
    );
}

#[test]
fn udpsocketsend_snippet_matches_official_signature() {
    let completions = CompletionProvider::get_builtin_function_completions();

    assert_eq!(
        insert_text_for(&completions, "UDPSocketSend"),
        "UDPSocketSend(${1:BytesSent}, ${2:SocketID}, ${3:IPAddr}, ${4:Port}, \
         ${5:Payload}, ${6:PayLoadLen})"
    );
}

#[test]
fn udpsocketrecv_snippet_matches_official_signature() {
    let completions = CompletionProvider::get_builtin_function_completions();

    assert_eq!(
        insert_text_for(&completions, "UDPSocketRecv"),
        "UDPSocketRecv(${1:BytesReceived}, ${2:SocketID}, ${3:InDatagram}, \
         ${4:InDatagramLen}, ${5:RemoteIPAdd}, ${6:RemotePort}, ${7:Timeout})"
    );
}

#[test]
fn udpsocketclose_snippet_matches_official_signature() {
    let completions = CompletionProvider::get_builtin_function_completions();

    assert_eq!(
        insert_text_for(&completions, "UDPSocketClose"),
        "UDPSocketClose(${1:SocketID})"
    );
}

#[test]
fn emailrelay_snippet_matches_official_signature() {
    let completions = CompletionProvider::get_builtin_function_completions();

    assert_eq!(
        insert_text_for(&completions, "EmailRelay"),
        "EmailRelay(${1:ToAddr}, ${2:Subject}, ${3:Message}, ${4:ServerResponse}, \
         ${5:Attach}, ${6:NumRecsOrTimeIntoInterval}, ${7:Interval}, \
         ${8:IntervalUnits}, ${9:FileOption}, ${10:TimeOut})"
    );
}

#[test]
fn pppopen_snippet_matches_official_signature() {
    let completions = CompletionProvider::get_builtin_function_completions();

    assert_eq!(
        insert_text_for(&completions, "PPPOpen"),
        "PPPOpen(${1:Option})"
    );
}

#[test]
fn pppclose_snippet_has_no_parameters() {
    // Confirmed at https://help.campbellsci.com/crbasic/cr1000x/Content/Instructions/pppclose.htm:
    // the syntax diagram shows `variable = PPPClose` with no arguments.
    let completions = CompletionProvider::get_builtin_function_completions();

    assert_eq!(insert_text_for(&completions, "PPPClose"), "PPPClose()");
}

#[test]
fn ftpclient_snippet_matches_official_signature() {
    let completions = CompletionProvider::get_builtin_function_completions();

    assert_eq!(
        insert_text_for(&completions, "FTPClient"),
        "FTPClient(${1:IPAddress}, ${2:User}, ${3:Password}, ${4:LocalFileName}, \
         ${5:RemoteFileName}, ${6:PutGetOption}, ${7:NumRecsOrTimeIntoInterval}, \
         ${8:Interval}, ${9:IntervalUnits}, ${10:FileOption}, ${11:TimeOut})"
    );
}

#[test]
fn httpget_snippet_matches_official_signature() {
    let completions = CompletionProvider::get_builtin_function_completions();

    assert_eq!(
        insert_text_for(&completions, "HTTPGet"),
        "HTTPGet(${1:URI}, ${2:Response}, ${3:Header}, ${4:TimeOut})"
    );
}

#[test]
fn httppost_snippet_matches_official_signature() {
    let completions = CompletionProvider::get_builtin_function_completions();

    assert_eq!(
        insert_text_for(&completions, "HTTPPost"),
        "HTTPPost(${1:URI}, ${2:Contents}, ${3:Response}, ${4:Header}, \
         ${5:NumRecsOrTimeIntoInterval}, ${6:Interval}, ${7:IntervalUnits}, \
         ${8:FileOption}, ${9:TimeOut})"
    );
}

#[test]
fn httpput_snippet_matches_official_signature() {
    let completions = CompletionProvider::get_builtin_function_completions();

    assert_eq!(
        insert_text_for(&completions, "HTTPPut"),
        "HTTPPut(${1:URI}, ${2:Contents}, ${3:Response}, ${4:Header}, \
         ${5:NumRecsOrTimeIntoInterval}, ${6:Interval}, ${7:IntervalUnits}, \
         ${8:FileOption}, ${9:TimeOut})"
    );
}

#[test]
fn windvector_snippet_matches_official_signature() {
    let completions = CompletionProvider::get_builtin_function_completions();

    assert_eq!(
        insert_text_for(&completions, "WindVector"),
        "WindVector(${1:Reps}, ${2:SpeedOrEast}, ${3:DirectionOrNorth}, \
         ${4:DataType}, ${5:DisableVar}, ${6:Subinterval}, ${7:SensorType}, \
         ${8:OutputOpt})"
    );
}

#[test]
fn histogram_snippet_matches_official_signature() {
    let completions = CompletionProvider::get_builtin_function_completions();

    assert_eq!(
        insert_text_for(&completions, "Histogram"),
        "Histogram(${1:BinSelect}, ${2:DataType}, ${3:DisableVar}, ${4:Bins}, \
         ${5:Form}, ${6:WtVal}, ${7:LoLim}, ${8:UpLim})"
    );
}

#[test]
fn fieldnames_snippet_takes_a_single_comma_separated_string_parameter() {
    // Confirmed at https://help.campbellsci.com/crbasic/cr6/Content/Instructions/fieldnames.htm:
    // FieldNames takes exactly one quoted, comma-separated string
    // ("Fieldname1:Description1,Fieldname2:Description2..."), not a
    // multi-parameter list.
    let completions = CompletionProvider::get_builtin_function_completions();

    assert_eq!(
        insert_text_for(&completions, "FieldNames"),
        "FieldNames(${1:FieldNameDescriptionList})"
    );
}

#[test]
fn cardout_snippet_matches_official_signature() {
    let completions = CompletionProvider::get_builtin_function_completions();

    assert_eq!(
        insert_text_for(&completions, "CardOut"),
        "CardOut(${1:StopRing}, ${2:Size})"
    );
}

#[test]
fn newfile_snippet_matches_official_signature() {
    let completions = CompletionProvider::get_builtin_function_completions();

    assert_eq!(
        insert_text_for(&completions, "NewFile"),
        "NewFile(${1:NewFileVar}, ${2:FileName}, ${3:NewFileName})"
    );
}

#[test]
fn filemanage_snippet_matches_official_signature() {
    let completions = CompletionProvider::get_builtin_function_completions();

    assert_eq!(
        insert_text_for(&completions, "FileManage"),
        "FileManage(${1:DeviceFileName}, ${2:Attribute})"
    );
}

#[test]
fn fileopen_snippet_matches_official_signature() {
    let completions = CompletionProvider::get_builtin_function_completions();

    assert_eq!(
        insert_text_for(&completions, "FileOpen"),
        "FileOpen(${1:FileName}, ${2:Mode}, ${3:SeekPoint})"
    );
}

#[test]
fn fileclose_snippet_matches_official_signature() {
    let completions = CompletionProvider::get_builtin_function_completions();

    assert_eq!(
        insert_text_for(&completions, "FileClose"),
        "FileClose(${1:FileHandle})"
    );
}

#[test]
fn fileread_snippet_matches_official_signature() {
    let completions = CompletionProvider::get_builtin_function_completions();

    assert_eq!(
        insert_text_for(&completions, "FileRead"),
        "FileRead(${1:FileHandle}, ${2:Destination}, ${3:Length})"
    );
}

#[test]
fn filewrite_snippet_matches_official_signature() {
    let completions = CompletionProvider::get_builtin_function_completions();

    assert_eq!(
        insert_text_for(&completions, "FileWrite"),
        "FileWrite(${1:FileHandle}, ${2:Source}, ${3:Length})"
    );
}

#[test]
fn filecopy_snippet_matches_official_signature() {
    let completions = CompletionProvider::get_builtin_function_completions();

    assert_eq!(
        insert_text_for(&completions, "FileCopy"),
        "FileCopy(${1:FromFileName}, ${2:ToFileName})"
    );
}

#[test]
fn filerename_snippet_matches_official_signature() {
    let completions = CompletionProvider::get_builtin_function_completions();

    assert_eq!(
        insert_text_for(&completions, "FileRename"),
        "FileRename(${1:OldFileName}, ${2:NewFileName})"
    );
}

#[test]
fn filesize_snippet_matches_official_signature() {
    let completions = CompletionProvider::get_builtin_function_completions();

    assert_eq!(
        insert_text_for(&completions, "FileSize"),
        "FileSize(${1:FileHandle})"
    );
}

#[test]
fn filetime_snippet_matches_official_signature() {
    let completions = CompletionProvider::get_builtin_function_completions();

    assert_eq!(
        insert_text_for(&completions, "FileTime"),
        "FileTime(${1:FileHandle})"
    );
}

#[test]
fn filelist_snippet_matches_official_signature() {
    let completions = CompletionProvider::get_builtin_function_completions();

    assert_eq!(
        insert_text_for(&completions, "FileList"),
        "FileList(${1:Device}, ${2:Dest})"
    );
}

#[test]
fn datainterval_snippet_matches_official_signature() {
    let completions = CompletionProvider::get_builtin_function_completions();

    assert_eq!(
        insert_text_for(&completions, "DataInterval"),
        "DataInterval(${1:TintoInt}, ${2:Interval}, ${3:Units}, ${4:Lapses})"
    );
}

#[test]
fn formatlong_snippet_matches_official_signature() {
    let completions = CompletionProvider::get_builtin_function_completions();

    assert_eq!(
        insert_text_for(&completions, "FormatLong"),
        "FormatLong(${1:LongVar}, ${2:FormatString})"
    );
}

#[test]
fn chr_snippet_matches_official_signature() {
    let completions = CompletionProvider::get_builtin_function_completions();

    assert_eq!(insert_text_for(&completions, "Chr"), "Chr(${1:Code})");
}

#[test]
fn ascii_snippet_matches_official_signature() {
    let completions = CompletionProvider::get_builtin_function_completions();

    assert_eq!(
        insert_text_for(&completions, "ASCII"),
        "ASCII(${1:ASCIIString})"
    );
}

#[test]
fn strcomp_snippet_matches_official_signature() {
    let completions = CompletionProvider::get_builtin_function_completions();

    assert_eq!(
        insert_text_for(&completions, "StrComp"),
        "StrComp(${1:String1}, ${2:String2})"
    );
}

#[test]
fn checksum_snippet_matches_official_signature() {
    let completions = CompletionProvider::get_builtin_function_completions();

    assert_eq!(
        insert_text_for(&completions, "CheckSum"),
        "CheckSum(${1:ChkSumString}, ${2:ChkSumType}, ${3:CheckSumSize}, \
         ${4:ChkSumOption1}, ${5:ChkSumOption2}, ${6:ChkSumOption3})"
    );
}

#[test]
fn hextodec_snippet_matches_official_signature() {
    let completions = CompletionProvider::get_builtin_function_completions();

    assert_eq!(
        insert_text_for(&completions, "HexToDec"),
        "HexToDec(${1:Expression})"
    );
}

#[test]
fn hex_snippet_matches_official_signature() {
    let completions = CompletionProvider::get_builtin_function_completions();

    assert_eq!(insert_text_for(&completions, "Hex"), "Hex(${1:Expression})");
}

#[test]
fn sprintf_snippet_matches_official_signature() {
    // Confirmed at https://help.campbellsci.com/crbasic/cr6/Content/Instructions/sprintf.htm:
    // Sprintf takes 1-10 variadic value arguments after the format
    // string; only the first is placeholder'd here, matching how a
    // call site is typically extended by hand.
    let completions = CompletionProvider::get_builtin_function_completions();

    assert_eq!(
        insert_text_for(&completions, "Sprintf"),
        "Sprintf(${1:Dest}, ${2:Format}, ${3:Argument1})"
    );
}

#[test]
fn sgn_snippet_matches_official_signature() {
    let completions = CompletionProvider::get_builtin_function_completions();

    assert_eq!(insert_text_for(&completions, "Sgn"), "Sgn(${1:Value})");
}

#[test]
fn ln_snippet_matches_official_signature() {
    let completions = CompletionProvider::get_builtin_function_completions();

    assert_eq!(insert_text_for(&completions, "Ln"), "Ln(${1:Value})");
}

#[test]
fn sinh_snippet_matches_official_signature() {
    let completions = CompletionProvider::get_builtin_function_completions();

    assert_eq!(insert_text_for(&completions, "Sinh"), "Sinh(${1:Value})");
}

#[test]
fn cosh_snippet_matches_official_signature() {
    let completions = CompletionProvider::get_builtin_function_completions();

    assert_eq!(insert_text_for(&completions, "Cosh"), "Cosh(${1:Value})");
}

#[test]
fn tanh_snippet_matches_official_signature() {
    let completions = CompletionProvider::get_builtin_function_completions();

    assert_eq!(insert_text_for(&completions, "Tanh"), "Tanh(${1:Value})");
}

#[test]
fn frac_snippet_matches_official_signature() {
    let completions = CompletionProvider::get_builtin_function_completions();

    assert_eq!(insert_text_for(&completions, "Frac"), "Frac(${1:Value})");
}

#[test]
fn rnd_snippet_takes_no_parentheses() {
    // Confirmed at https://help.campbellsci.com/crbasic/cr6/Content/Instructions/rnd.htm:
    // the documented syntax is `variable = RND` with no arguments
    // and no parentheses at all -- seeding is a separate `Randomize`
    // instruction, not a parameter to `RND`.
    let completions = CompletionProvider::get_builtin_function_completions();

    assert_eq!(insert_text_for(&completions, "Rnd"), "Rnd");
}

#[test]
fn ceiling_snippet_matches_official_signature() {
    let completions = CompletionProvider::get_builtin_function_completions();

    assert_eq!(
        insert_text_for(&completions, "Ceiling"),
        "Ceiling(${1:Value})"
    );
}

#[test]
fn floor_snippet_matches_official_signature() {
    let completions = CompletionProvider::get_builtin_function_completions();

    assert_eq!(insert_text_for(&completions, "Floor"), "Floor(${1:Value})");
}

#[test]
fn extracts_public_variables() {
    let ast = create_test_ast();
    let completions = CompletionProvider::get_user_defined_completions(&ast);

    let temp = completions.iter().find(|c| c.label == "Temperature");
    assert!(temp.is_some());
    assert_eq!(temp.unwrap().kind, Some(CompletionItemKind::Variable));
}

#[test]
fn extracts_constants() {
    let ast = create_test_ast();
    let completions = CompletionProvider::get_user_defined_completions(&ast);

    let pi = completions.iter().find(|c| c.label == "PI");
    assert!(pi.is_some());
    assert_eq!(pi.unwrap().kind, Some(CompletionItemKind::Constant));
}

#[test]
fn extracts_functions() {
    let ast = create_test_ast();
    let completions = CompletionProvider::get_user_defined_completions(&ast);

    let func = completions.iter().find(|c| c.label == "CalcAverage");
    assert!(func.is_some());
    assert_eq!(func.unwrap().kind, Some(CompletionItemKind::Function));
}

#[test]
fn extracts_subroutines() {
    let ast = create_test_ast();
    let completions = CompletionProvider::get_user_defined_completions(&ast);

    let sub = completions.iter().find(|c| c.label == "InitSensors");
    assert!(sub.is_some());
    assert_eq!(sub.unwrap().kind, Some(CompletionItemKind::Method));
}

#[test]
fn function_completions_have_snippets() {
    let ast = create_test_ast();
    let completions = CompletionProvider::get_user_defined_completions(&ast);

    let func = completions
        .iter()
        .find(|c| c.label == "CalcAverage")
        .unwrap();
    assert!(func.insert_text.is_some());
    assert_eq!(func.insert_text_format, Some(InsertTextFormat::Snippet));
}

#[test]
fn variable_details_include_type() {
    let ast = create_test_ast();
    let completions = CompletionProvider::get_user_defined_completions(&ast);

    let temp = completions
        .iter()
        .find(|c| c.label == "Temperature")
        .unwrap();
    assert!(temp.detail.as_ref().unwrap().contains("Float"));
}

#[test]
fn returns_pattern_snippet_completions() {
    let completions = CompletionProvider::get_pattern_snippet_completions();

    assert!(!completions.is_empty());
}

#[test]
fn includes_expected_patterns_with_snippet_kind() {
    let completions = CompletionProvider::get_pattern_snippet_completions();

    let cases = [
        ("ScanLoop", "NextScan"),
        ("SlowSequenceLoop", "EndSequence"),
        ("DataTableSample", "EndTable"),
        ("NewProgram", "EndProg"),
    ];

    for (label, expected_fragment) in cases {
        let item = completions
            .iter()
            .find(|c| c.label == label)
            .unwrap_or_else(|| panic!("Missing pattern snippet: {label}"));

        assert_eq!(item.kind, Some(CompletionItemKind::Snippet));
        assert_eq!(item.insert_text_format, Some(InsertTextFormat::Snippet));
        let insert_text = item.insert_text.as_ref().expect("Should have insert text");
        assert!(
            insert_text.contains(expected_fragment),
            "{label} snippet should contain {expected_fragment}"
        );
    }
}

#[test]
fn new_program_links_table_name_placeholder_across_declaration_and_usage() {
    let completions = CompletionProvider::get_pattern_snippet_completions();
    let new_program = completions
        .iter()
        .find(|c| c.label == "NewProgram")
        .expect("Should include NewProgram snippet");
    let insert_text = new_program
        .insert_text
        .as_ref()
        .expect("Should have insert text");

    // The table name tabstop must be reused between DataTable and CallTable
    // so the client fills both in sync as the user edits the placeholder.
    assert_eq!(insert_text.matches("TableName}").count(), 2);
}

#[test]
fn combines_all_completion_sources() {
    let completions = CompletionProvider::get_all_completions(None);

    let labels: Vec<&str> = completions.iter().map(|c| c.label.as_str()).collect();
    assert!(labels.contains(&"If"));
    assert!(labels.contains(&"Public"));

    assert!(labels.contains(&"Scan"));
    assert!(labels.contains(&"Abs"));
    assert!(labels.contains(&"Float"));
}

#[test]
fn includes_user_defined_when_ast_provided() {
    let ast = Program {
        statements: vec![Statement::VarDeclaration {
            keyword: "Public".to_string(),
            name: "MyVar".to_string(),
            array_dimensions: None,
            type_annotation: None,
            initializer: None,
            span: dummy_span(),
        }],
        span: dummy_span(),
    };

    let completions = CompletionProvider::get_all_completions(Some(&ast));
    let labels: Vec<&str> = completions.iter().map(|c| c.label.as_str()).collect();

    assert!(labels.contains(&"MyVar"));
}

use crbasic_lsp::signature::SignatureProvider;

#[test]
fn returns_signature_for_known_function() {
    let help = SignatureProvider::get_signature_help("Scan", 0);

    assert!(help.is_some());
    let help = help.expect("help should be Some");
    assert_eq!(help.signatures.len(), 1);
    assert!(help.signatures[0].label.contains("Scan"));
}

#[test]
fn returns_none_for_unknown_function() {
    let help = SignatureProvider::get_signature_help("UnknownFunc", 0);

    assert!(help.is_none());
}

#[test]
fn returns_none_for_calltable_since_it_takes_no_parentheses() {
    // CallTable is a bare keyword (`CallTable TableName`), not a
    // parenthesized call -- see the parser's `parse_calltable_statement`.
    assert!(SignatureProvider::get_function_signature("CallTable").is_none());
}

#[test]
fn signature_is_case_insensitive() {
    let help_lower = SignatureProvider::get_signature_help("scan", 0);
    let help_upper = SignatureProvider::get_signature_help("SCAN", 0);
    let help_mixed = SignatureProvider::get_signature_help("ScAn", 0);

    assert!(help_lower.is_some());
    assert!(help_upper.is_some());
    assert!(help_mixed.is_some());
}

#[test]
fn sets_active_parameter() {
    let help = SignatureProvider::get_signature_help("Scan", 2);

    assert!(help.is_some());
    let help = help.expect("help should be Some");
    assert_eq!(help.active_parameter, Some(2));
}

#[test]
fn scan_has_four_parameters() {
    let sig = SignatureProvider::get_function_signature("Scan");

    assert!(sig.is_some());
    let sig = sig.expect("sig should be Some");
    assert_eq!(sig.parameters.len(), 4);
}

#[test]
fn signature_includes_parameter_names() {
    let sig = SignatureProvider::get_function_signature("Scan");

    assert!(sig.is_some());
    let sig = sig.expect("sig should be Some");
    let param_names: Vec<&str> = sig.parameters.iter().map(|p| p.name.as_str()).collect();

    assert!(param_names.contains(&"Interval"));
    assert!(param_names.contains(&"Units"));
    assert!(param_names.contains(&"BufferOption"));
    assert!(param_names.contains(&"Count"));
}

#[test]
fn signature_includes_documentation() {
    let sig = SignatureProvider::get_function_signature("Scan");

    assert!(sig.is_some());
    let sig = sig.expect("sig should be Some");
    assert!(!sig.documentation.is_empty());
}

#[test]
fn parameters_have_documentation() {
    let sig = SignatureProvider::get_function_signature("Scan");

    assert!(sig.is_some());
    let sig = sig.expect("sig should be Some");

    for param in &sig.parameters {
        assert!(!param.documentation.is_empty());
    }
}

#[test]
fn has_data_table_functions() {
    assert!(SignatureProvider::get_function_signature("Sample").is_some());
    assert!(SignatureProvider::get_function_signature("Average").is_some());
}

#[test]
fn has_subscan_and_iif() {
    assert!(SignatureProvider::get_function_signature("SubScan").is_some());
    assert!(SignatureProvider::get_function_signature("IIf").is_some());
}

#[test]
fn has_measurement_functions() {
    assert!(SignatureProvider::get_function_signature("PulseCount").is_some());
    assert!(SignatureProvider::get_function_signature("VoltSe").is_some());
    assert!(SignatureProvider::get_function_signature("VoltDiff").is_some());
    assert!(SignatureProvider::get_function_signature("TCDiff").is_some());
    assert!(SignatureProvider::get_function_signature("Resistance").is_some());
    assert!(SignatureProvider::get_function_signature("SDI12Recorder").is_some());
    assert!(SignatureProvider::get_function_signature("WindVector").is_some());
}

#[test]
fn tcdiff_ninth_parameter_is_the_notch_filter_frequency_not_integration() {
    // Campbell Scientific's own syntax diagram names this parameter
    // `fN1` (the sinc filter's first notch frequency), distinct from
    // the `Integ` parameter used by VoltSe/VoltDiff -- confirmed at
    // https://help.campbellsci.com/crbasic/cr1000x/Content/Instructions/tcdiff.htm
    let sig = SignatureProvider::get_function_signature("TCDiff")
        .expect("TCDiff should have a signature");

    assert_eq!(sig.parameters.len(), 11);
    assert_eq!(sig.parameters[8].name, "fN1");
}

#[test]
fn voltdiff_seventh_parameter_is_the_notch_filter_frequency_not_integration() {
    // Same bug class as TCDiff above, not previously checked for
    // VoltDiff -- confirmed at
    // https://help.campbellsci.com/crbasic/cr1000x/Content/Instructions/voltdiff.htm
    let sig = SignatureProvider::get_function_signature("VoltDiff")
        .expect("VoltDiff should have a signature");

    assert_eq!(sig.parameters.len(), 9);
    assert_eq!(sig.parameters[6].name, "fN1");
}

#[test]
fn voltse_fifth_and_seventh_parameters_match_the_official_names() {
    // Confirmed at
    // https://help.campbellsci.com/crbasic/cr1000x/Content/Instructions/voltse.htm:
    // the 5th parameter is `MeasOff` (not `MeasOfs`), and the 7th is
    // `fN1` (the sinc filter's first notch frequency, same bug class
    // as TCDiff/VoltDiff above, not `Integ`).
    let sig = SignatureProvider::get_function_signature("VoltSe")
        .expect("VoltSe should have a signature");

    assert_eq!(sig.parameters.len(), 9);
    assert_eq!(sig.parameters[4].name, "MeasOff");
    assert_eq!(sig.parameters[6].name, "fN1");
}

#[test]
fn resistance_has_fourteen_parameters_in_documented_order() {
    let sig = SignatureProvider::get_function_signature("Resistance")
        .expect("Resistance should have a signature");
    let names: Vec<&str> = sig.parameters.iter().map(|p| p.name.as_str()).collect();

    assert_eq!(
        names,
        vec![
            "Dest",
            "Reps",
            "Range",
            "DiffChan",
            "IexChan",
            "MeasPEx",
            "EXuA",
            "RevEx",
            "RevDiff",
            "SettlingTime",
            "fN1",
            "Mult",
            "Offset",
            "MeasCurrent",
        ]
    );
}

#[test]
fn sdi12recorder_has_eight_parameters_in_documented_order() {
    let sig = SignatureProvider::get_function_signature("SDI12Recorder")
        .expect("SDI12Recorder should have a signature");
    let names: Vec<&str> = sig.parameters.iter().map(|p| p.name.as_str()).collect();

    assert_eq!(
        names,
        vec![
            "Dest",
            "SDIPort",
            "SDIAddress",
            "SDICommand",
            "Multiplier",
            "Offset",
            "FillNAN",
            "WaitonTimeout",
        ]
    );
}

#[test]
fn windvector_has_eight_parameters_in_documented_order() {
    let sig = SignatureProvider::get_function_signature("WindVector")
        .expect("WindVector should have a signature");
    let names: Vec<&str> = sig.parameters.iter().map(|p| p.name.as_str()).collect();

    assert_eq!(
        names,
        vec![
            "Reps",
            "Speed/East",
            "Direction/North",
            "DataType",
            "DisableVar",
            "Subinterval",
            "SensorType",
            "OutputOpt",
        ]
    );
}

#[test]
fn has_communication_functions() {
    assert!(SignatureProvider::get_function_signature("SerialOpen").is_some());
    assert!(SignatureProvider::get_function_signature("SerialOut").is_some());
    assert!(SignatureProvider::get_function_signature("SerialIn").is_some());
}

#[test]
fn has_math_functions() {
    assert!(SignatureProvider::get_function_signature("Abs").is_some());
    assert!(SignatureProvider::get_function_signature("Sqr").is_some());
    assert!(SignatureProvider::get_function_signature("Sin").is_some());
    assert!(SignatureProvider::get_function_signature("Round").is_some());
}

#[test]
fn all_remaining_math_functions_have_a_signature() {
    for name in [
        "Sgn", "Exp", "Ln", "Log", "Log10", "Sinh", "Cosh", "Tanh", "Asin", "Acos", "Atn",
        "Int", "Fix", "Frac", "Rnd", "Ceiling", "Floor",
    ] {
        assert!(
            SignatureProvider::get_function_signature(name).is_some(),
            "Expected a signature for math function: {}",
            name
        );
    }
}

#[test]
fn rnd_takes_no_parameters() {
    let sig = SignatureProvider::get_function_signature("Rnd")
        .expect("Rnd should have a signature");

    assert!(sig.parameters.is_empty());
}

#[test]
fn has_string_functions() {
    assert!(SignatureProvider::get_function_signature("Len").is_some());
    assert!(SignatureProvider::get_function_signature("Mid").is_some());
    assert!(SignatureProvider::get_function_signature("InStr").is_some());
    assert!(SignatureProvider::get_function_signature("SplitStr").is_some());
}

#[test]
fn instr_third_and_fourth_parameters_match_the_official_names() {
    // Confirmed at
    // https://help.campbellsci.com/crbasic/cr1000x/Content/Instructions/instr.htm:
    // the 3rd parameter is `FilterString` (the string being
    // searched for), not `SearchString` (which is the official
    // name of the 2nd parameter -- the string being searched in);
    // the 4th parameter is `SearchOption`, a multi-value method
    // code (0-10, +100 for quote-stripping), not a boolean
    // case-sensitivity flag.
    let sig = SignatureProvider::get_function_signature("InStr")
        .expect("InStr should have a signature");
    let names: Vec<&str> = sig.parameters.iter().map(|p| p.name.as_str()).collect();

    assert_eq!(
        names,
        vec!["Start", "SearchString", "FilterString", "SearchOption"]
    );
}

#[test]
fn splitstr_third_parameter_is_named_filterstring_not_delimiter() {
    // Confirmed at
    // https://help.campbellsci.com/crbasic/cr1000x/Content/Instructions/splitstr.htm:
    // depending on SplitOption, this parameter can be a delimiter
    // set, an exact-match search string, or a header/footer filter,
    // so `Delimiter` undersells its documented role.
    let sig = SignatureProvider::get_function_signature("SplitStr")
        .expect("SplitStr should have a signature");

    assert_eq!(sig.parameters[2].name, "FilterString");
}

#[test]
fn has_time_functions() {
    assert!(SignatureProvider::get_function_signature("Timer").is_some());
    assert!(SignatureProvider::get_function_signature("TimeIntoInterval").is_some());
    assert!(SignatureProvider::get_function_signature("Delay").is_some());
}

#[test]
fn timeintointerval_has_the_same_leading_tintoint_parameter_as_iftime() {
    // Confirmed at
    // https://help.campbellsci.com/crbasic/cr1000x/Content/Instructions/timeintointervaliftime.htm:
    // TimeIntoInterval and IfTime are documented as the same
    // instruction ("Either keyword can be used within the
    // program"), so both take the same 3 parameters -- but the
    // `timeintointerval` arm was missing the leading `TintoInt`
    // parameter that the `iftime` arm already had correctly.
    let sig = SignatureProvider::get_function_signature("TimeIntoInterval")
        .expect("TimeIntoInterval should have a signature");
    let names: Vec<&str> = sig.parameters.iter().map(|p| p.name.as_str()).collect();

    assert_eq!(names, vec!["TintoInt", "Interval", "Units"]);
}

#[test]
fn all_remaining_time_functions_have_a_signature() {
    for name in [
        "RealTime",
        "SetStatus",
        "SetSetting",
        "MoveBytes",
        "ArrayLength",
        "NaN",
    ] {
        assert!(
            SignatureProvider::get_function_signature(name).is_some(),
            "Expected a signature for time function: {}",
            name
        );
    }
}

#[test]
fn nan_takes_no_parameters() {
    let sig = SignatureProvider::get_function_signature("NaN")
        .expect("NaN should have a signature");

    assert!(sig.parameters.is_empty());
}

#[test]
fn delay_has_the_leading_option_parameter() {
    // Confirmed at
    // https://help.campbellsci.com/crbasic/cr6/Content/Instructions/delay3.htm:
    // `Delay(Option, Delay, Units)` -- `Option` (0/1/2, selecting
    // whether the pause affects the measurement task sequence,
    // processing, or digital/SDM measurements) is a required
    // leading parameter that was entirely missing.
    let sig = SignatureProvider::get_function_signature("Delay")
        .expect("Delay should have a signature");
    let names: Vec<&str> = sig.parameters.iter().map(|p| p.name.as_str()).collect();

    assert_eq!(names, vec!["Option", "Duration", "Units"]);
}

#[test]
fn counts_zero_for_first_parameter() {
    let text = "Scan(";
    let count = SignatureProvider::count_parameters_before_cursor(text, text.len());
    assert_eq!(count, 0);
}

#[test]
fn counts_one_after_first_comma() {
    let text = "Scan(1, ";
    let count = SignatureProvider::count_parameters_before_cursor(text, text.len());
    assert_eq!(count, 1);
}

#[test]
fn counts_two_after_second_comma() {
    let text = "Scan(1, Sec, ";
    let count = SignatureProvider::count_parameters_before_cursor(text, text.len());
    assert_eq!(count, 2);
}

#[test]
fn ignores_commas_in_strings() {
    let text = r#"SerialOut(ComPort, "a,b,c", "#;
    let count = SignatureProvider::count_parameters_before_cursor(text, text.len());
    assert_eq!(count, 2);
}

#[test]
fn handles_nested_parentheses() {
    let text = "Scan(Mid(str, 1, 2), ";
    let count = SignatureProvider::count_parameters_before_cursor(text, text.len());
    assert_eq!(count, 1);
}

#[test]
fn extracts_simple_function_name() {
    let text = "Scan(1";
    let name = SignatureProvider::extract_function_name(text, text.len());
    assert_eq!(name, Some("Scan".to_string()));
}

#[test]
fn extracts_function_name_with_spaces() {
    let text = "  Scan(1";
    let name = SignatureProvider::extract_function_name(text, text.len());
    assert_eq!(name, Some("Scan".to_string()));
}

#[test]
fn extracts_nested_function_name() {
    let text = "Scan(Mid(str";
    let name = SignatureProvider::extract_function_name(text, text.len());
    assert_eq!(name, Some("Mid".to_string()));
}

#[test]
fn returns_none_without_parenthesis() {
    let text = "Scan";
    let name = SignatureProvider::extract_function_name(text, text.len());
    assert!(name.is_none());
}

#[test]
fn handles_function_after_operator() {
    let text = "x = Scan(1";
    let name = SignatureProvider::extract_function_name(text, text.len());
    assert_eq!(name, Some("Scan".to_string()));
}

#[test]
fn counts_zero_without_an_open_parenthesis() {
    assert_eq!(SignatureProvider::count_parameters_before_cursor("x = 1, 2", 8), 0);
    assert_eq!(SignatureProvider::extract_function_name("x = 1, 2", 8), None);
}

#[test]
fn extracts_a_function_name_made_of_non_ascii_letters() {
    // "x = Größe(" is 12 bytes long.
    assert_eq!(
        SignatureProvider::extract_function_name("x = Größe(", 12),
        Some("Größe".to_string())
    );
}

#[test]
fn clamps_a_cursor_past_the_end_of_the_text() {
    assert_eq!(SignatureProvider::count_parameters_before_cursor("Scan(1, ", 100), 1);
    assert_eq!(
        SignatureProvider::extract_function_name("Scan(1, ", 100),
        Some("Scan".to_string())
    );
}

#[test]
fn function_name_at_cursor_refuses_offsets_inside_a_character() {
    assert_eq!(crbasic_lsp::signature::function_name_at_cursor("é(", 1), None);
    assert_eq!(
        crbasic_lsp::signature::function_name_at_cursor("Scan(", 5),
        Some(Some("Scan".to_string()))
    );
}

#[test]
fn signature_help_labels_the_call_with_its_parameters() {
    let help = SignatureProvider::get_signature_help("scan", 3).expect("known function");

    assert_eq!(help.signatures[0].label, "Scan(Interval, Units, BufferOption, Count)");
    assert_eq!(help.active_signature, Some(0));
    assert_eq!(help.active_parameter, Some(3));
    let parameters = help.signatures[0].parameters.as_ref().expect("parameters");
    assert_eq!(parameters.len(), 4);
    assert_eq!(parameters[1].label, "Units");
}

#[test]
fn finds_the_function_name_after_a_multi_byte_argument() {
    let text = "Scan(é";
    assert_eq!(text.len(), 7);
    assert_eq!(
        SignatureProvider::extract_function_name(text, text.len()),
        Some("Scan".to_string())
    );
    assert_eq!(SignatureProvider::count_parameters_before_cursor("Scan(é, ü, ", 15), 2);
}

#[test]
fn finds_the_function_name_after_a_multi_byte_separator() {
    let text = "x→Scan(1";
    assert_eq!(
        SignatureProvider::extract_function_name(text, text.len()),
        Some("Scan".to_string())
    );
}

#[test]
fn checked_count_refuses_offsets_inside_a_character() {
    assert_eq!(
        crbasic_lsp::signature::checked_count_parameters_before_cursor("é(", 1),
        None
    );
    assert_eq!(
        crbasic_lsp::signature::checked_count_parameters_before_cursor("Scan(a, b", 9),
        Some(1)
    );
}

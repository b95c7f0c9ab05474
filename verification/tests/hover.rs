use crbasic_lsp::hover::HoverProvider;
use crbasic_lsp::protocol::{MarkupKind, Position};
use crbasic_lsp::syntax::{Position as ParserPosition, Span, Token, TokenKind};

fn hover_text(keyword: &str) -> String {
    let hover = HoverProvider::get_keyword_hover(keyword)
        .unwrap_or_else(|| panic!("expected hover info for keyword: {}", keyword));
    hover.contents.value
}

#[test]
fn returns_hover_for_recognized_keyword() {
    let hover = HoverProvider::get_keyword_hover("If");

    assert!(hover.is_some());
    let hover = hover.expect("hover should be Some");
    let markup = hover.contents;
    assert_eq!(markup.kind, MarkupKind::Markdown);
    assert!(markup.value.contains("**If**"));
    assert!(markup.value.contains("Conditional statement"));
}

#[test]
fn returns_none_for_unrecognized_identifier() {
    let hover = HoverProvider::get_keyword_hover("my_variable");

    assert!(hover.is_none());
}

#[test]
fn hover_is_case_insensitive() {
    let hover_lower = HoverProvider::get_keyword_hover("if");
    let hover_upper = HoverProvider::get_keyword_hover("IF");
    let hover_mixed = HoverProvider::get_keyword_hover("iF");

    assert!(hover_lower.is_some());
    assert!(hover_upper.is_some());
    assert!(hover_mixed.is_some());
}

#[test]
fn all_control_flow_keywords_have_hover_info() {
    let keywords = [
        "If",
        "Then",
        "Else",
        "ElseIf",
        "EndIf",
        "For",
        "To",
        "Step",
        "Next",
        "Do",
        "Loop",
        "While",
        "ExitFor",
        "ExitDo",
        "Select",
        "Case",
        "Is",
        "EndSelect",
        "Restart",
    ];

    for keyword in keywords {
        let hover = HoverProvider::get_keyword_hover(keyword);
        assert!(
            hover.is_some(),
            "Expected hover info for keyword: {}",
            keyword
        );
    }
}

#[test]
fn all_declaration_keywords_have_hover_info() {
    let keywords = [
        "Public", "Dim", "Const", "Alias", "As", "Units", "ReadOnly", "Optional",
        "Include",
    ];

    for keyword in keywords {
        let hover = HoverProvider::get_keyword_hover(keyword);
        assert!(
            hover.is_some(),
            "Expected hover info for keyword: {}",
            keyword
        );
    }
}

#[test]
fn all_program_structure_keywords_have_hover_info() {
    let keywords = [
        "BeginProg",
        "EndProg",
        "DataTable",
        "EndTable",
        "TableHide",
        "OpenInterval",
        "FillStop",
        "ConstTable",
        "EndConstTable",
        "StructureType",
        "EndStructureType",
        "PreserveVariables",
        "AngleDegrees",
        "ApplyAndRestartSequence",
        "EndApplyAndRestartSequence",
        "ShutDownBegin",
        "ShutDownEnd",
    ];

    for keyword in keywords {
        let hover = HoverProvider::get_keyword_hover(keyword);
        assert!(
            hover.is_some(),
            "Expected hover info for keyword: {}",
            keyword
        );
    }
}

#[test]
fn all_function_keywords_have_hover_info() {
    let keywords = ["Function", "EndFunction", "Sub", "EndSub"];

    for keyword in keywords {
        let hover = HoverProvider::get_keyword_hover(keyword);
        assert!(
            hover.is_some(),
            "Expected hover info for keyword: {}",
            keyword
        );
    }
}

#[test]
fn all_logical_operators_have_hover_info() {
    let keywords = ["AND", "OR", "NOT", "XOR", "MOD"];

    for keyword in keywords {
        let hover = HoverProvider::get_keyword_hover(keyword);
        assert!(
            hover.is_some(),
            "Expected hover info for keyword: {}",
            keyword
        );
    }
}

#[test]
fn all_boolean_literals_have_hover_info() {
    let keywords = ["True", "False"];

    for keyword in keywords {
        let hover = HoverProvider::get_keyword_hover(keyword);
        assert!(
            hover.is_some(),
            "Expected hover info for keyword: {}",
            keyword
        );
    }
}

#[test]
fn mod_hover_does_not_claim_operands_must_be_integers() {
    let text = hover_text("MOD");

    assert!(
        !text.to_lowercase().contains("integer division"),
        "MOD accepts non-integer operands (e.g. 19 MOD 6.7 = 5.6 per \
         help.campbellsci.com/crbasic/cr6/Content/Instructions/mod.htm), so its \
         hover text must not describe it as integer division: {}",
        text
    );
}

#[test]
fn applyandrestartsequence_hover_is_declared_after_consttable() {
    let text = hover_text("ApplyAndRestartSequence");

    let consttable_pos = text.find("ConstTable(TableName");
    let sequence_pos = text.find("ApplyAndRestartSequence\n");
    assert!(
        consttable_pos.is_some() && sequence_pos.is_some(),
        "expected the example to contain both ConstTable and \
         ApplyAndRestartSequence blocks: {}",
        text
    );
    assert!(
        consttable_pos.unwrap() < sequence_pos.unwrap(),
        "the official example \
         (help.campbellsci.com/crbasic/cr1000x/Content/Instructions/applyandrestartsequence.htm) \
         declares ConstTable before ApplyAndRestartSequence, not after: {}",
        text
    );
}

#[test]
fn consttable_hover_names_its_second_parameter_hidden_not_enabled() {
    let text = hover_text("ConstTable");

    assert!(
        !text.contains("Enabled") && text.contains("Hidden"),
        "the official syntax \
         (help.campbellsci.com/crbasic/cr1000x/Content/Instructions/consttableendconsttable.htm) \
         names the second parameter Hidden (1 = visible only at highest security \
         level, 0/omitted = standard visible table), not Enabled: {}",
        text
    );
}

#[test]
fn fillstop_hover_does_not_claim_it_must_immediately_follow_datatable() {
    let text = hover_text("FillStop");

    assert!(
        !text.contains("immediately after the DataTable statement"),
        "the official example \
         (help.campbellsci.com/crbasic/cr1000x/Content/Instructions/fillstop.htm) \
         places FillStop after DataInterval(...), not immediately after DataTable: {}",
        text
    );
}

#[test]
fn all_scan_functions_have_hover_info() {
    for name in ["Scan", "SubScan"] {
        let description = HoverProvider::get_builtin_function_description(name);
        assert!(
            description.is_some_and(|d| d.contains(&format!("**{}**", name))),
            "Expected hover info for builtin function: {}",
            name
        );
    }
}

#[test]
fn all_measurement_functions_have_hover_info() {
    for name in [
        "Battery",
        "PanelTemp",
        "VoltSe",
        "VoltDiff",
        "BrHalf",
        "BrFull",
        "Therm107",
        "Therm108",
        "Therm109",
        "TCDiff",
        "Resistance",
        "PeriodAvg",
        "PulseCount",
        "PortSet",
        "PulsePort",
        "ExciteV",
        "BrHalf3W",
        "BrHalf4W",
        "BrFull6W",
        "TCSE",
        "WatchdogTimer",
        "PWM",
        "DewPoint",
        "CSAT3",
        "CSAT3B",
        "CSAT3BMonitor",
        "EC100",
        "EC100Configure",
        "LI7200",
        "LI7700",
        "CDM_ACPower",
        "CDM_Battery",
        "CDM_BrFull",
        "CDM_BrFull6W",
        "CDM_BrHalf",
        "CDM_BrHalf3W",
        "CDM_BrHalf4W",
        "CDM_CurrentDiff",
        "CDM_Delay",
        "CDM_ExciteI",
        "CDM_ExciteV",
        "CDM_MuxSelect",
        "CDM_PanelTemp",
        "CDM_PeriodAvg",
        "CDM_PulsePort",
        "CDM_Resistance",
        "CDM_Resistance3W",
        "CDM_SW12",
        "CDM_SW5",
        "CDM_SWPower",
        "CDM_TCComp",
        "CDM_TCDiff",
        "CDM_TCSE",
        "CDM_Therm107",
        "CDM_Therm108",
        "CDM_Therm109",
        "CDM_VoltDiff",
        "CDM_VoltSE",
        "CDM_VW300Config",
        "CDM_VW300Dynamic",
        "CDM_VW300RainFlow",
        "CDM_VW300Static",
        "Calibrate",
        "FieldCal",
        "FieldCalStrain",
        "LoadFieldCal",
        "SampleFieldCal",
        "ACPower",
        "AM25T",
        "AVW200",
        "CS616",
        "CS7500",
        "CurrentSE",
        "HydraProbe",
        "TDR100",
        "TDR200",
        "TGA",
        "Quadrature",
        "SW12",
        "ETsz",
        "SolarPosition",
        "WetDryBulb",
        "MuxSelect",
        "PulseCountReset",
        "PRT",
        "PRTCalc",
    ] {
        let description = HoverProvider::get_builtin_function_description(name);
        assert!(
            description.is_some_and(|d| d.contains(&format!("**{}**", name))),
            "Expected hover info for builtin function: {}",
            name
        );
    }
}

#[test]
fn all_communication_functions_have_hover_info() {
    for name in [
        "SerialOpen",
        "SerialClose",
        "SerialIn",
        "SerialOut",
        "SerialInRecord",
        "SerialInChk",
        "SerialOutBlock",
        "SerialFlush",
        "ModbusMaster",
        "SDI12Recorder",
        "TCPOpen",
        "TCPClose",
        "UDPOpen",
        "UDPSocketOpen",
        "UDPSocketSend",
        "UDPSocketRecv",
        "UDPSocketClose",
        "EmailRelay",
        "EmailSend",
        "DialModem",
        "DialSequence",
        "EndDialSequence",
        "ModemHangup",
        "SMSRecv",
        "SMSSend",
        "PPPOpen",
        "PPPClose",
        "FTPClient",
        "HTTPGet",
        "HTTPPost",
        "HTTPPut",
        "GPS",
        "EthernetPower",
        "I2COpen",
        "I2CRead",
        "I2CWrite",
        "SPIOpen",
        "SPIRead",
        "SPIWrite",
        "AcceptDataRecords",
        "Broadcast",
        "ClockReport",
        "DataGram",
        "EncryptExempt",
        "GetDataRecord",
        "GetFile",
        "GetVariables",
        "PakBusClock",
        "Route",
        "Routes",
        "SendData",
        "SendFile",
        "SendGetVariables",
        "SendTableDef",
        "SendVariables",
        "StaticRoute",
        "TimeUntilTransmit",
        "DNP",
        "DNPUpdate",
        "DNPVariable",
        "ArgosData",
        "ArgosDataRepeat",
        "ArgosError",
        "ArgosSetup",
        "ArgosTransmit",
        "GOESData",
        "GOESField",
        "GOESGPS",
        "GOESSetup",
        "GOESStatus",
        "GOESTable",
        "SDMAO4",
        "SDMAO4A",
        "SDMBeginPort",
        "SDMCAN",
        "SDMCD16AC",
        "SDMCD16Mask",
        "SDMCVO4",
        "SDMGeneric",
        "SDMINT8",
        "SDMIO16",
        "SDMSIO4",
        "SDMSpeed",
        "SDMSW8A",
        "SDMTrigger",
        "SDMX50",
        "CPIAddModule",
        "CPIFileSend",
        "CPISpeed",
        "MQTTPublishTable",
        "MQTTPublishConstTable",
        "CheckPort",
        "ComPortIsActive",
        "DHCPRenew",
        "Encryption",
        "HTTPOut",
        "IPInfo",
        "IPNetPower",
        "IPRoute",
        "MonitorComms",
        "PingIP",
        "PortBridge",
        "PortGet",
        "PortPairConfig",
        "PortsConfig",
        "SNMPVariable",
        "TCPActiveConnections",
        "UDPDataGram",
        "WebPageBegin",
        "XMLParse",
    ] {
        let description = HoverProvider::get_builtin_function_description(name);
        assert!(
            description.is_some_and(|d| d.contains(&format!("**{}**", name))),
            "Expected hover info for builtin function: {}",
            name
        );
    }
}

#[test]
fn all_data_functions_have_hover_info() {
    for name in [
        "Sample",
        "Average",
        "StdDev",
        "Minimum",
        "Maximum",
        "Totalize",
        "WindVector",
        "Histogram",
        "Median",
        "Moment",
        "SampleMaxMin",
        "PeakValley",
        "FFT",
        "Covariance",
        "LevelCrossing",
        "WorstCase",
        "FieldNames",
        "CardOut",
        "NewFile",
        "FileManage",
        "FileOpen",
        "FileClose",
        "FileRead",
        "FileWrite",
        "FileCopy",
        "FileRename",
        "FileSize",
        "FileTime",
        "FileList",
        "DataInterval",
        "CardFlush",
        "DataEvent",
        "Data",
        "DataLong",
        "DataTime",
        "ResetTable",
        "TableFile",
        "FileMark",
        "FileReadLine",
        "Erase",
    ] {
        let description = HoverProvider::get_builtin_function_description(name);
        assert!(
            description.is_some_and(|d| d.contains(&format!("**{}**", name))),
            "Expected hover info for builtin function: {}",
            name
        );
    }
}

#[test]
fn all_string_functions_have_hover_info() {
    for name in [
        "SplitStr",
        "FormatFloat",
        "FormatLong",
        "Mid",
        "Left",
        "Right",
        "Len",
        "InStr",
        "LowerCase",
        "UpperCase",
        "Trim",
        "RTrim",
        "LTrim",
        "Replace",
        "Chr",
        "ASCII",
        "StrComp",
        "CheckSum",
        "HexToDec",
        "Hex",
        "Sprintf",
    ] {
        let description = HoverProvider::get_builtin_function_description(name);
        assert!(
            description.is_some_and(|d| d.contains(&format!("**{}**", name))),
            "Expected hover info for builtin function: {}",
            name
        );
    }
}

#[test]
fn all_math_functions_have_hover_info() {
    for name in [
        "Abs",
        "Sgn",
        "Sqr",
        "Exp",
        "Ln",
        "Log",
        "Log10",
        "Sin",
        "Cos",
        "Tan",
        "Sinh",
        "Cosh",
        "Tanh",
        "Asin",
        "Acos",
        "Atn",
        "Atn2",
        "Int",
        "Fix",
        "Frac",
        "Round",
        "Rnd",
        "Randomize",
        "Ceiling",
        "Floor",
        "MovePrecise",
        "PWR",
        "CType",
        "AvgRun",
        "MaxRun",
        "MinRun",
        "TotalRun",
        "AvgSpa",
        "CovSpa",
        "MaxSpa",
        "RMSSpa",
        "StdDevSpa",
        "FFTSpa",
    ] {
        let description = HoverProvider::get_builtin_function_description(name);
        assert!(
            description.is_some_and(|d| d.contains(&format!("**{}**", name))),
            "Expected hover info for builtin function: {}",
            name
        );
    }
}

#[test]
fn all_time_functions_have_hover_info() {
    for name in [
        "RealTime",
        "TimeIntoInterval",
        "IfTime",
        "Timer",
        "Delay",
        "SetStatus",
        "SetSetting",
        "MoveBytes",
        "ArrayLength",
        "NaN",
        "SecsSince1990",
        "TimeIsBetween",
        "SetSecurity",
        "DaylightSaving",
        "DaylightSavingUS",
        "InstructionTimes",
        "LineNum",
        "Signature",
    ] {
        let description = HoverProvider::get_builtin_function_description(name);
        assert!(
            description.is_some_and(|d| d.contains(&format!("**{}**", name))),
            "Expected hover info for builtin function: {}",
            name
        );
    }
}

#[test]
fn all_logical_and_menu_functions_have_hover_info() {
    for name in [
        "IIf",
        "DisplayMenu",
        "SubMenu",
        "MenuItem",
        "MenuPick",
        "MenuRecompile",
        "DisplayValue",
        "DisplayLine",
    ] {
        let description = HoverProvider::get_builtin_function_description(name);
        assert!(
            description.is_some_and(|d| d.contains(&format!("**{}**", name))),
            "Expected hover info for builtin function: {}",
            name
        );
    }
}

/// Splits CRBasic source into the tokens the language services read:
/// language keywords, identifiers (names, data types, function names), and
/// any other token; positions are 1-indexed, spans end one past the token.
fn tokenize(source: &str) -> Vec<Token> {
    const KEYWORDS: [&str; 16] = [
        "If", "Then", "Else", "EndIf", "As", "Dim", "Public", "Const", "Function",
        "EndFunction", "Sub", "EndSub", "#If", "For", "Next", "To",
    ];
    let mut tokens = Vec::new();
    for (line_index, line) in source.split('\n').enumerate() {
        let chars: Vec<char> = line.chars().collect();
        let mut i = 0;
        while i < chars.len() {
            let c = chars[i];
            if c.is_whitespace() {
                i += 1;
                continue;
            }
            let start = i;
            if c.is_alphabetic() || c == '_' || c == '#' {
                i += 1;
                while i < chars.len() && (chars[i].is_alphanumeric() || chars[i] == '_') {
                    i += 1;
                }
            } else if c.is_ascii_digit() {
                while i < chars.len() && (chars[i].is_ascii_digit() || chars[i] == '.') {
                    i += 1;
                }
            } else if c == '"' {
                i += 1;
                while i < chars.len() && chars[i] != '"' {
                    i += 1;
                }
                i += 1;
            } else {
                i += 1;
            }
            let text: String = chars[start..i.min(chars.len())].iter().collect();
            let kind = if KEYWORDS.contains(&text.as_str()) {
                TokenKind::Keyword(text.clone())
            } else if c.is_alphabetic() || c == '_' {
                TokenKind::Identifier(text.clone())
            } else {
                TokenKind::Other
            };
            tokens.push(Token {
                kind,
                lexeme: text,
                span: Span::new(
                    ParserPosition::new(line_index + 1, start + 1),
                    ParserPosition::new(line_index + 1, i.min(chars.len()) + 1),
                ),
            });
        }
    }
    tokens
}

#[test]
fn returns_hover_for_keyword_at_position() {
    let tokens = tokenize("If x Then");
    let position = Position {
        line: 0,
        character: 0,
    };

    let hover = HoverProvider::get_hover_at_position(&tokens, position);

    assert!(hover.is_some());
    let hover = hover.expect("hover should be Some");
    let markup = &hover.contents;
    assert!(markup.value.contains("**If**"));
    assert!(hover.range.is_some());
}

#[test]
fn returns_hover_within_keyword() {
    // Token span is [0,0) to [0,2) in LSP (0-indexed), so character 1 is inside
    let tokens = tokenize("If x Then");
    let position = Position {
        line: 0,
        character: 1,
    };

    let hover = HoverProvider::get_hover_at_position(&tokens, position);

    assert!(hover.is_some());
}

#[test]
fn returns_none_for_identifier() {
    let tokens = tokenize("If x Then");
    let position = Position {
        line: 0,
        character: 3,
    };

    let hover = HoverProvider::get_hover_at_position(&tokens, position);

    // Identifiers don't have hover info yet
    assert!(hover.is_none());
}

#[test]
fn returns_hover_for_data_type_after_as() {
    // "As Float": A(0)s(1) (2)F(3) -- character 3 is the start of "Float"
    let tokens = tokenize("As Float");
    let position = Position {
        line: 0,
        character: 3,
    };

    let hover = HoverProvider::get_hover_at_position(&tokens, position);

    assert!(hover.is_some());
    let hover = hover.expect("hover should be Some");
    let markup = &hover.contents;
    assert!(markup.value.contains("**Float**"));
}

#[test]
fn returns_hover_for_output_processing_data_type_in_sample_call() {
    // "Sample(1,Var,FP2)": character 13 is the start of "FP2"
    let tokens = tokenize("Sample(1,Var,FP2)");
    let position = Position {
        line: 0,
        character: 13,
    };

    let hover = HoverProvider::get_hover_at_position(&tokens, position);

    assert!(hover.is_some());
    let hover = hover.expect("hover should be Some");
    let markup = &hover.contents;
    assert!(markup.value.contains("**FP2**"));
}

#[test]
fn returns_hover_for_loggertype_in_preprocessor_condition() {
    // "#If LoggerType = CR1000X": character 4 is the start of "LoggerType"
    let tokens = tokenize("#If LoggerType = CR1000X");
    let position = Position {
        line: 0,
        character: 4,
    };

    let hover = HoverProvider::get_hover_at_position(&tokens, position);

    assert!(hover.is_some());
    let hover = hover.expect("hover should be Some");
    let markup = &hover.contents;
    assert!(markup.value.contains("**LoggerType**"));
}

#[test]
fn returns_hover_for_windvector_function_name() {
    let tokens = tokenize("WindVector(1,WS_ms,WindDir,IEEE4,0,0,0,0)");
    let position = Position {
        line: 0,
        character: 0,
    };

    let hover = HoverProvider::get_hover_at_position(&tokens, position);

    assert!(hover.is_some());
    let hover = hover.expect("hover should be Some");
    let markup = &hover.contents;
    assert!(markup.value.contains("**WindVector**"));
}

#[test]
fn returns_hover_for_tcdiff_function_name() {
    let tokens = tokenize("TCDiff(Dest,1,mV200C,1,TypeT,PTemp,True,0,15000,1.0,0)");
    let position = Position {
        line: 0,
        character: 0,
    };

    let hover = HoverProvider::get_hover_at_position(&tokens, position);

    assert!(hover.is_some());
    let hover = hover.expect("hover should be Some");
    let markup = &hover.contents;
    assert!(markup.value.contains("**TCDiff**"));
}

#[test]
fn returns_hover_for_resistance_function_name() {
    let tokens = tokenize("Resistance(Dest,1,mV5000,U1,U7,3,2500,True,True,0,60,1.0,0)");
    let position = Position {
        line: 0,
        character: 0,
    };

    let hover = HoverProvider::get_hover_at_position(&tokens, position);

    assert!(hover.is_some());
    let hover = hover.expect("hover should be Some");
    let markup = &hover.contents;
    assert!(markup.value.contains("**Resistance**"));
}

#[test]
fn returns_hover_for_sdi12recorder_function_name() {
    let tokens = tokenize("SDI12Recorder(SR50A(),C1,\"0\",\"C1!\",1,0)");
    let position = Position {
        line: 0,
        character: 0,
    };

    let hover = HoverProvider::get_hover_at_position(&tokens, position);

    assert!(hover.is_some());
    let hover = hover.expect("hover should be Some");
    let markup = &hover.contents;
    assert!(markup.value.contains("**SDI12Recorder**"));
}

#[test]
fn returns_none_for_whitespace() {
    let tokens = tokenize("If x Then");
    let position = Position {
        line: 0,
        character: 2,
    };

    let hover = HoverProvider::get_hover_at_position(&tokens, position);

    assert!(hover.is_none());
}

#[test]
fn returns_hover_for_keyword_on_second_line() {
    // Position of "If" on line 2 (line 1 in 0-indexed)
    let tokens = tokenize("Public x\nIf y Then");
    let position = Position {
        line: 1,
        character: 0,
    };

    let hover = HoverProvider::get_hover_at_position(&tokens, position);

    assert!(hover.is_some());
    let hover = hover.expect("hover should be Some");
    let markup = &hover.contents;
    assert!(markup.value.contains("**If**"));
}

#[test]
fn hover_range_matches_token_position() {
    let tokens = tokenize("  If x Then");
    let position = Position {
        line: 0,
        character: 2,
    };

    let hover = HoverProvider::get_hover_at_position(&tokens, position);

    assert!(hover.is_some());
    let hover = hover.expect("hover should be Some");
    let range = hover.range.expect("range should be set");

    assert_eq!(range.start.line, 0);
    assert_eq!(range.start.character, 2);
    assert_eq!(range.end.line, 0);
    assert_eq!(range.end.character, 4);
}

#[test]
fn descriptions_open_with_the_name_in_its_documented_casing() {
    let text = HoverProvider::get_communication_function_description("serialopen").expect("known");
    assert!(text.starts_with("**SerialOpen**\n\n"));
    let text = HoverProvider::get_keyword_description("BEGINPROG").expect("known");
    assert!(text.starts_with("**BeginProg**\n\n"));
}

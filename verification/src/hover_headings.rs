//! Every hover description opens with the described name in bold on a line
//! of its own: `**Name**` and a blank line, where `Name` is the queried name
//! in its documented casing.
use crate::hover::{
    data_type_descriptions, output_processing_data_type_descriptions, preprocessor_constant_descriptions, logical_function_descriptions, menu_function_descriptions, time_function_descriptions, math_function_descriptions, string_function_descriptions, data_function_descriptions, communication_function_descriptions, scan_function_descriptions, measurement_function_descriptions, keyword_descriptions,
};
use crate::text::{ascii_lowercase, is_ascii_text, lowercase};
use vstd::prelude::*;

verus! {

/// The heading line of a description: `**h**` followed by a blank line.
pub open spec fn heading(h: Seq<char>) -> Seq<char> {
    seq!['*', '*'] + h + seq!['*', '*', '\n', '\n']
}

/// Whether `d` opens with the heading of a name that lowercases to `key`.
pub open spec fn opens_with_heading(d: Seq<char>, key: Seq<char>) -> bool {
    exists|h: Seq<char>| #[trigger] lowercase(h) == key && d.take(h.len() + 6int) == heading(h)
}

proof fn lemma_heading(d: Seq<char>, h: Seq<char>, key: Seq<char>)
    requires
        is_ascii_text(h),
        ascii_lowercase(h) =~= key,
        d.len() >= h.len() + 6,
        d[0] == '*',
        d[1] == '*',
        forall|i: int| 0 <= i < h.len() ==> d[i + 2] == #[trigger] h[i],
        d[h.len() + 2int] == '*',
        d[h.len() + 3int] == '*',
        d[h.len() + 4int] == '\n',
        d[h.len() + 5int] == '\n',
    ensures
        opens_with_heading(d, key),
{
    assert(d.take(h.len() + 6int) =~= heading(h));
    assert(lowercase(h) == key);
}

/// Every hover description opens with the described name in bold on a line
/// of its own (`**Name**` and a blank line), where `Name` is the queried
/// name in its documented casing: it lowercases to the lookup key.
pub proof fn descriptions_open_with_their_name(key: Seq<char>)
    ensures
        data_type_descriptions(key) matches Some(d) ==> opens_with_heading(d, key),
        output_processing_data_type_descriptions(key) matches Some(d) ==> opens_with_heading(d, key),
        preprocessor_constant_descriptions(key) matches Some(d) ==> opens_with_heading(d, key),
        logical_function_descriptions(key) matches Some(d) ==> opens_with_heading(d, key),
        menu_function_descriptions(key) matches Some(d) ==> opens_with_heading(d, key),
        time_function_descriptions(key) matches Some(d) ==> opens_with_heading(d, key),
        math_function_descriptions(key) matches Some(d) ==> opens_with_heading(d, key),
        string_function_descriptions(key) matches Some(d) ==> opens_with_heading(d, key),
        data_function_descriptions(key) matches Some(d) ==> opens_with_heading(d, key),
        communication_function_descriptions(key) matches Some(d) ==> opens_with_heading(d, key),
        scan_function_descriptions(key) matches Some(d) ==> opens_with_heading(d, key),
        measurement_function_descriptions(key) matches Some(d) ==> opens_with_heading(d, key),
        keyword_descriptions(key) matches Some(d) ==> opens_with_heading(d, key),
{
    lemma_data_type_descriptions(key);
    lemma_output_processing_data_type_descriptions(key);
    lemma_preprocessor_constant_descriptions(key);
    lemma_logical_function_descriptions(key);
    lemma_menu_function_descriptions(key);
    lemma_time_function_descriptions(key);
    lemma_math_function_descriptions(key);
    lemma_string_function_descriptions(key);
    lemma_data_function_descriptions(key);
    lemma_communication_function_descriptions(key);
    lemma_scan_function_descriptions(key);
    lemma_measurement_function_descriptions(key);
    lemma_keyword_descriptions(key);
}

#[verifier::spinoff_prover]
proof fn lemma_data_type_descriptions(key: Seq<char>)
    ensures
        data_type_descriptions(key) matches Some(d) ==> opens_with_heading(d, key),
{
    let d = data_type_descriptions(key)->0;
    if key == "float"@ {
        reveal_strlit("float");
        reveal_strlit("Float");
        reveal_strlit("**Float**\n\nSingle-precision floating point number. The default type if `As` is omitted.");
        lemma_heading(d, "Float"@, key);
    } else if key == "double"@ {
        reveal_strlit("double");
        reveal_strlit("Double");
        reveal_strlit("**Double**\n\nDouble-precision floating point number. Reduces error accumulation in calculations.");
        lemma_heading(d, "Double"@, key);
    } else if key == "long"@ {
        reveal_strlit("long");
        reveal_strlit("Long");
        reveal_strlit("**Long**\n\n32-bit signed integer.");
        lemma_heading(d, "Long"@, key);
    } else if key == "boolean"@ {
        reveal_strlit("boolean");
        reveal_strlit("Boolean");
        reveal_strlit("**Boolean**\n\nStores `True` (-1) or `False` (0).");
        lemma_heading(d, "Boolean"@, key);
    } else if key == "string"@ {
        reveal_strlit("string");
        reveal_strlit("String");
        reveal_strlit("**String**\n\nNull-terminated array of characters.");
        lemma_heading(d, "String"@, key);
    } else if key == "uint1"@ {
        reveal_strlit("uint1");
        reveal_strlit("UINT1");
        reveal_strlit("**UINT1**\n\n8-bit unsigned integer.");
        lemma_heading(d, "UINT1"@, key);
    }
}

#[verifier::spinoff_prover]
proof fn lemma_output_processing_data_type_descriptions(key: Seq<char>)
    ensures
        output_processing_data_type_descriptions(key) matches Some(d) ==> opens_with_heading(d, key),
{
    let d = output_processing_data_type_descriptions(key)->0;
    if key == "fp2"@ {
        reveal_strlit("fp2");
        reveal_strlit("FP2");
        reveal_strlit("**FP2**\n\nCampbell Scientific proprietary format; 3 or 4 significant digits (2 bytes).");
        lemma_heading(d, "FP2"@, key);
    } else if key == "ieee4"@ {
        reveal_strlit("ieee4");
        reveal_strlit("IEEE4");
        reveal_strlit("**IEEE4**\n\nSingle-precision floating point number (4 bytes); same precision as `Float`.");
        lemma_heading(d, "IEEE4"@, key);
    } else if key == "ieee8"@ {
        reveal_strlit("ieee8");
        reveal_strlit("IEEE8");
        reveal_strlit("**IEEE8**\n\nDouble-precision floating point number (8 bytes); same precision as `Double`.");
        lemma_heading(d, "IEEE8"@, key);
    } else if key == "uint2"@ {
        reveal_strlit("uint2");
        reveal_strlit("UINT2");
        reveal_strlit("**UINT2**\n\n16-bit unsigned integer.");
        lemma_heading(d, "UINT2"@, key);
    } else if key == "uint4"@ {
        reveal_strlit("uint4");
        reveal_strlit("UINT4");
        reveal_strlit("**UINT4**\n\n32-bit unsigned integer.");
        lemma_heading(d, "UINT4"@, key);
    } else if key == "bool8"@ {
        reveal_strlit("bool8");
        reveal_strlit("Bool8");
        reveal_strlit("**Bool8**\n\nArray of eight 1-bit Boolean values packed into 1 byte.");
        lemma_heading(d, "Bool8"@, key);
    } else if key == "nsec"@ {
        reveal_strlit("nsec");
        reveal_strlit("NSEC");
        reveal_strlit("**NSEC**\n\nNanosecond-resolution time stamp (8 bytes).");
        lemma_heading(d, "NSEC"@, key);
    }
}

#[verifier::spinoff_prover]
proof fn lemma_preprocessor_constant_descriptions(key: Seq<char>)
    ensures
        preprocessor_constant_descriptions(key) matches Some(d) ==> opens_with_heading(d, key),
{
    let d = preprocessor_constant_descriptions(key)->0;
    if key == "loggertype"@ {
        reveal_strlit("loggertype");
        reveal_strlit("LoggerType");
        reveal_strlit("**LoggerType**\n\nPredefined constant for `#If`/`#ElseIf` model comparisons (e.g. `#If LoggerType = CR1000X`), letting one program compile differently per datalogger model.");
        lemma_heading(d, "LoggerType"@, key);
    }
}

#[verifier::spinoff_prover]
proof fn lemma_logical_function_descriptions(key: Seq<char>)
    ensures
        logical_function_descriptions(key) matches Some(d) ==> opens_with_heading(d, key),
{
    let d = logical_function_descriptions(key)->0;
    if key == "iif"@ {
        reveal_strlit("iif");
        reveal_strlit("IIf");
        reveal_strlit("**IIf**\n\nEvaluates a Boolean expression and returns TrueValue if true, otherwise FalseValue.");
        lemma_heading(d, "IIf"@, key);
    }
}

#[verifier::spinoff_prover]
proof fn lemma_menu_function_descriptions(key: Seq<char>)
    ensures
        menu_function_descriptions(key) matches Some(d) ==> opens_with_heading(d, key),
{
    let d = menu_function_descriptions(key)->0;
    if key == "displaymenu"@ {
        reveal_strlit("displaymenu");
        reveal_strlit("DisplayMenu");
        reveal_strlit("**DisplayMenu**\n\nMarks the beginning of a custom on-screen menu definition.");
        lemma_heading(d, "DisplayMenu"@, key);
    } else if key == "submenu"@ {
        reveal_strlit("submenu");
        reveal_strlit("SubMenu");
        reveal_strlit("**SubMenu**\n\nMarks the beginning of a nested custom menu within a DisplayMenu block.");
        lemma_heading(d, "SubMenu"@, key);
    } else if key == "menuitem"@ {
        reveal_strlit("menuitem");
        reveal_strlit("MenuItem");
        reveal_strlit("**MenuItem**\n\nDefines an editable custom-menu entry showing the name and value of a variable.");
        lemma_heading(d, "MenuItem"@, key);
    } else if key == "menupick"@ {
        reveal_strlit("menupick");
        reveal_strlit("MenuPick");
        reveal_strlit("**MenuPick**\n\nCreates a fixed pick-list of selectable values for the preceding MenuItem.");
        lemma_heading(d, "MenuPick"@, key);
    } else if key == "menurecompile"@ {
        reveal_strlit("menurecompile");
        reveal_strlit("MenuRecompile");
        reveal_strlit("**MenuRecompile**\n\nCreates a custom menu item that triggers a program recompile after Constant Table edits.");
        lemma_heading(d, "MenuRecompile"@, key);
    } else if key == "displayvalue"@ {
        reveal_strlit("displayvalue");
        reveal_strlit("DisplayValue");
        reveal_strlit("**DisplayValue**\n\nDefines a read-only custom-menu entry showing a data-table field, variable, or expression.");
        lemma_heading(d, "DisplayValue"@, key);
    } else if key == "displayline"@ {
        reveal_strlit("displayline");
        reveal_strlit("DisplayLine");
        reveal_strlit("**DisplayLine**\n\nDisplays a single line of read-only text in a custom menu.");
        lemma_heading(d, "DisplayLine"@, key);
    }
}

#[verifier::spinoff_prover]
proof fn lemma_time_function_descriptions(key: Seq<char>)
    ensures
        time_function_descriptions(key) matches Some(d) ==> opens_with_heading(d, key),
{
    let d = time_function_descriptions(key)->0;
    if key == "realtime"@ {
        reveal_strlit("realtime");
        reveal_strlit("RealTime");
        reveal_strlit("**RealTime**\n\nReturns the current real-time clock values.");
        lemma_heading(d, "RealTime"@, key);
    } else if key == "clockchange"@ {
        reveal_strlit("clockchange");
        reveal_strlit("ClockChange");
        reveal_strlit("**ClockChange**\n\nReturns the number of milliseconds the datalogger's clock has changed since the last time this instruction was executed.");
        lemma_heading(d, "ClockChange"@, key);
    } else if key == "clockset"@ {
        reveal_strlit("clockset");
        reveal_strlit("ClockSet");
        reveal_strlit("**ClockSet**\n\nSets the datalogger clock from the values in a 7-element array.");
        lemma_heading(d, "ClockSet"@, key);
    } else if key == "timeintointerval"@ {
        reveal_strlit("timeintointerval");
        reveal_strlit("TimeIntoInterval");
        reveal_strlit("**TimeIntoInterval**\n\nReturns true when the interval boundary is crossed.");
        lemma_heading(d, "TimeIntoInterval"@, key);
    } else if key == "iftime"@ {
        reveal_strlit("iftime");
        reveal_strlit("IfTime");
        reveal_strlit("**IfTime**\n\nReturns true at specified time intervals.");
        lemma_heading(d, "IfTime"@, key);
    } else if key == "timer"@ {
        reveal_strlit("timer");
        reveal_strlit("Timer");
        reveal_strlit("**Timer**\n\nReturns elapsed time from a timer.");
        lemma_heading(d, "Timer"@, key);
    } else if key == "delay"@ {
        reveal_strlit("delay");
        reveal_strlit("Delay");
        reveal_strlit("**Delay**\n\nPauses execution for a specified time.");
        lemma_heading(d, "Delay"@, key);
    } else if key == "setstatus"@ {
        reveal_strlit("setstatus");
        reveal_strlit("SetStatus");
        reveal_strlit("**SetStatus**\n\nChanges the value of a field in the datalogger's Status table.");
        lemma_heading(d, "SetStatus"@, key);
    } else if key == "setsetting"@ {
        reveal_strlit("setsetting");
        reveal_strlit("SetSetting");
        reveal_strlit("**SetSetting**\n\nChanges the value of a field in the datalogger's Settings table.");
        lemma_heading(d, "SetSetting"@, key);
    } else if key == "movebytes"@ {
        reveal_strlit("movebytes");
        reveal_strlit("MoveBytes");
        reveal_strlit("**MoveBytes**\n\nMoves binary bytes of data from one memory location to another.");
        lemma_heading(d, "MoveBytes"@, key);
    } else if key == "arraylength"@ {
        reveal_strlit("arraylength");
        reveal_strlit("ArrayLength");
        reveal_strlit("**ArrayLength**\n\nReturns the total number of elements across all dimensions of an array.");
        lemma_heading(d, "ArrayLength"@, key);
    } else if key == "nan"@ {
        reveal_strlit("nan");
        reveal_strlit("NaN");
        reveal_strlit("**NaN**\n\nRepresents the IEEE-754 Not-a-Number value used to flag an invalid measurement. Takes no parentheses.");
        lemma_heading(d, "NaN"@, key);
    } else if key == "secssince1990"@ {
        reveal_strlit("secssince1990");
        reveal_strlit("SecsSince1990");
        reveal_strlit("**SecsSince1990**\n\nConverts between a date/time string and the number of seconds since January 1, 1990.");
        lemma_heading(d, "SecsSince1990"@, key);
    } else if key == "timeisbetween"@ {
        reveal_strlit("timeisbetween");
        reveal_strlit("TimeIsBetween");
        reveal_strlit("**TimeIsBetween**\n\nReturns true when the datalogger's real-time clock falls within a specified time range.");
        lemma_heading(d, "TimeIsBetween"@, key);
    } else if key == "daylightsaving"@ {
        reveal_strlit("daylightsaving");
        reveal_strlit("DaylightSaving");
        reveal_strlit("**DaylightSaving**\n\nDetects a custom-rule daylight saving transition and returns the clock adjustment.");
        lemma_heading(d, "DaylightSaving"@, key);
    } else if key == "daylightsavingus"@ {
        reveal_strlit("daylightsavingus");
        reveal_strlit("DaylightSavingUS");
        reveal_strlit("**DaylightSavingUS**\n\nDetects a US-rule daylight saving transition and returns the clock adjustment.");
        lemma_heading(d, "DaylightSavingUS"@, key);
    } else if key == "instructiontimes"@ {
        reveal_strlit("instructiontimes");
        reveal_strlit("InstructionTimes");
        reveal_strlit("**InstructionTimes**\n\nPopulates an array with the processing time, in microseconds, of every program line; must precede BeginProg.");
        lemma_heading(d, "InstructionTimes"@, key);
    } else if key == "linenum"@ {
        reveal_strlit("linenum");
        reveal_strlit("LineNum");
        reveal_strlit("**LineNum**\n\nReturns the current program line number, for debugging.");
        lemma_heading(d, "LineNum"@, key);
    } else if key == "signature"@ {
        reveal_strlit("signature");
        reveal_strlit("Signature");
        reveal_strlit("**Signature**\n\nReturns a pseudo-random signature of the program code between two Signature markers.");
        lemma_heading(d, "Signature"@, key);
    } else if key == "arrayindex"@ {
        reveal_strlit("arrayindex");
        reveal_strlit("ArrayIndex");
        reveal_strlit("**ArrayIndex**\n\nReturns the numeric index of a named array element whose position isn't known in advance.");
        lemma_heading(d, "ArrayIndex"@, key);
    } else if key == "debug"@ {
        reveal_strlit("debug");
        reveal_strlit("Debug");
        reveal_strlit("**Debug**\n\nConfigures breakpoint and trace-history behavior for the CRBasic debugger; used together with DebugBreak.");
        lemma_heading(d, "Debug"@, key);
    } else if key == "move"@ {
        reveal_strlit("move");
        reveal_strlit("Move");
        reveal_strlit("**Move**\n\nCopies a run of values from a source array/variable into a destination range.");
        lemma_heading(d, "Move"@, key);
    } else if key == "semaphoreget"@ {
        reveal_strlit("semaphoreget");
        reveal_strlit("SemaphoreGet");
        reveal_strlit("**SemaphoreGet**\n\nWaits for and claims a semaphore, blocking until it is free.");
        lemma_heading(d, "SemaphoreGet"@, key);
    } else if key == "semaphorerelease"@ {
        reveal_strlit("semaphorerelease");
        reveal_strlit("SemaphoreRelease");
        reveal_strlit("**SemaphoreRelease**\n\nReleases a semaphore previously claimed with SemaphoreGet.");
        lemma_heading(d, "SemaphoreRelease"@, key);
    }
}

#[verifier::spinoff_prover]
proof fn lemma_math_function_descriptions(key: Seq<char>)
    ensures
        math_function_descriptions(key) matches Some(d) ==> opens_with_heading(d, key),
{
    let d = math_function_descriptions(key)->0;
    if key == "abs"@ {
        reveal_strlit("abs");
        reveal_strlit("Abs");
        reveal_strlit("**Abs**\n\nReturns the absolute value.");
        lemma_heading(d, "Abs"@, key);
    } else if key == "sgn"@ {
        reveal_strlit("sgn");
        reveal_strlit("Sgn");
        reveal_strlit("**Sgn**\n\nReturns the sign of a number as -1, 0, or 1.");
        lemma_heading(d, "Sgn"@, key);
    } else if key == "sqr"@ {
        reveal_strlit("sqr");
        reveal_strlit("Sqr");
        reveal_strlit("**Sqr**\n\nReturns the square root.");
        lemma_heading(d, "Sqr"@, key);
    } else if key == "exp"@ {
        reveal_strlit("exp");
        reveal_strlit("Exp");
        reveal_strlit("**Exp**\n\nReturns e raised to a power.");
        lemma_heading(d, "Exp"@, key);
    } else if key == "ln"@ {
        reveal_strlit("ln");
        reveal_strlit("Ln");
        reveal_strlit("**Ln**\n\nReturns the natural logarithm.");
        lemma_heading(d, "Ln"@, key);
    } else if key == "log"@ {
        reveal_strlit("log");
        reveal_strlit("Log");
        reveal_strlit("**Log**\n\nReturns the natural logarithm.");
        lemma_heading(d, "Log"@, key);
    } else if key == "log10"@ {
        reveal_strlit("log10");
        reveal_strlit("Log10");
        reveal_strlit("**Log10**\n\nReturns the base-10 logarithm.");
        lemma_heading(d, "Log10"@, key);
    } else if key == "sin"@ {
        reveal_strlit("sin");
        reveal_strlit("Sin");
        reveal_strlit("**Sin**\n\nReturns the sine.");
        lemma_heading(d, "Sin"@, key);
    } else if key == "cos"@ {
        reveal_strlit("cos");
        reveal_strlit("Cos");
        reveal_strlit("**Cos**\n\nReturns the cosine.");
        lemma_heading(d, "Cos"@, key);
    } else if key == "tan"@ {
        reveal_strlit("tan");
        reveal_strlit("Tan");
        reveal_strlit("**Tan**\n\nReturns the tangent.");
        lemma_heading(d, "Tan"@, key);
    } else if key == "sinh"@ {
        reveal_strlit("sinh");
        reveal_strlit("Sinh");
        reveal_strlit("**Sinh**\n\nReturns the hyperbolic sine.");
        lemma_heading(d, "Sinh"@, key);
    } else if key == "cosh"@ {
        reveal_strlit("cosh");
        reveal_strlit("Cosh");
        reveal_strlit("**Cosh**\n\nReturns the hyperbolic cosine.");
        lemma_heading(d, "Cosh"@, key);
    } else if key == "tanh"@ {
        reveal_strlit("tanh");
        reveal_strlit("Tanh");
        reveal_strlit("**Tanh**\n\nReturns the hyperbolic tangent.");
        lemma_heading(d, "Tanh"@, key);
    } else if key == "asin"@ {
        reveal_strlit("asin");
        reveal_strlit("Asin");
        reveal_strlit("**Asin**\n\nReturns the arc sine.");
        lemma_heading(d, "Asin"@, key);
    } else if key == "acos"@ {
        reveal_strlit("acos");
        reveal_strlit("Acos");
        reveal_strlit("**Acos**\n\nReturns the arc cosine.");
        lemma_heading(d, "Acos"@, key);
    } else if key == "atn"@ {
        reveal_strlit("atn");
        reveal_strlit("Atn");
        reveal_strlit("**Atn**\n\nReturns the arc tangent.");
        lemma_heading(d, "Atn"@, key);
    } else if key == "atn2"@ {
        reveal_strlit("atn2");
        reveal_strlit("Atn2");
        reveal_strlit("**Atn2**\n\nReturns the arc tangent of Y/X.");
        lemma_heading(d, "Atn2"@, key);
    } else if key == "int"@ {
        reveal_strlit("int");
        reveal_strlit("Int");
        reveal_strlit("**Int**\n\nReturns the integer part (truncates toward negative infinity).");
        lemma_heading(d, "Int"@, key);
    } else if key == "fix"@ {
        reveal_strlit("fix");
        reveal_strlit("Fix");
        reveal_strlit("**Fix**\n\nReturns the integer part (truncates toward zero).");
        lemma_heading(d, "Fix"@, key);
    } else if key == "frac"@ {
        reveal_strlit("frac");
        reveal_strlit("Frac");
        reveal_strlit("**Frac**\n\nReturns the fractional portion of a number.");
        lemma_heading(d, "Frac"@, key);
    } else if key == "round"@ {
        reveal_strlit("round");
        reveal_strlit("Round");
        reveal_strlit("**Round**\n\nRounds to specified decimal places.");
        lemma_heading(d, "Round"@, key);
    } else if key == "rnd"@ {
        reveal_strlit("rnd");
        reveal_strlit("Rnd");
        reveal_strlit("**Rnd**\n\nReturns a random value between 0 (inclusive) and 1 (exclusive). Takes no parentheses.");
        lemma_heading(d, "Rnd"@, key);
    } else if key == "randomize"@ {
        reveal_strlit("randomize");
        reveal_strlit("Randomize");
        reveal_strlit("**Randomize**\n\nInitializes the random-number generator used by Rnd with a new seed value.");
        lemma_heading(d, "Randomize"@, key);
    } else if key == "ceiling"@ {
        reveal_strlit("ceiling");
        reveal_strlit("Ceiling");
        reveal_strlit("**Ceiling**\n\nRounds a number up to the nearest integer.");
        lemma_heading(d, "Ceiling"@, key);
    } else if key == "floor"@ {
        reveal_strlit("floor");
        reveal_strlit("Floor");
        reveal_strlit("**Floor**\n\nRounds a number down to the nearest integer.");
        lemma_heading(d, "Floor"@, key);
    } else if key == "matrix"@ {
        reveal_strlit("matrix");
        reveal_strlit("Matrix");
        reveal_strlit("**Matrix**\n\nPerforms matrix math (add, subtract, multiply, transpose, invert) on 2-D arrays.");
        lemma_heading(d, "Matrix"@, key);
    } else if key == "minspa"@ {
        reveal_strlit("minspa");
        reveal_strlit("MinSpa");
        reveal_strlit("**MinSpa**\n\nFinds the minimum value across a spatial array and its index, writing both into a 2-element Dest array.");
        lemma_heading(d, "MinSpa"@, key);
    } else if key == "sortspa"@ {
        reveal_strlit("sortspa");
        reveal_strlit("SortSpa");
        reveal_strlit("**SortSpa**\n\nSorts array elements in ascending order, with NaN and infinite values sorted to the beginning.");
        lemma_heading(d, "SortSpa"@, key);
    } else if key == "findspa"@ {
        reveal_strlit("findspa");
        reveal_strlit("FindSpa");
        reveal_strlit("**FindSpa**\n\nSearches an array for a value within a specified range, returning its position, or 0 if not found.");
        lemma_heading(d, "FindSpa"@, key);
    } else if key == "rectpolar"@ {
        reveal_strlit("rectpolar");
        reveal_strlit("RectPolar");
        reveal_strlit("**RectPolar**\n\nConverts rectangular coordinates (X, Y) into polar coordinates (vector length and angle in radians).");
        lemma_heading(d, "RectPolar"@, key);
    } else if key == "satvp"@ {
        reveal_strlit("satvp");
        reveal_strlit("SatVP");
        reveal_strlit("**SatVP**\n\nCalculates saturation vapor pressure, in kilopascals, from a temperature measurement.");
        lemma_heading(d, "SatVP"@, key);
    } else if key == "straincalc"@ {
        reveal_strlit("straincalc");
        reveal_strlit("StrainCalc");
        reveal_strlit("**StrainCalc**\n\nConverts the mV/V output from a bridge measurement into microstrain (µε), using the specified bridge configuration.");
        lemma_heading(d, "StrainCalc"@, key);
    } else if key == "vaporpressure"@ {
        reveal_strlit("vaporpressure");
        reveal_strlit("VaporPressure");
        reveal_strlit("**VaporPressure**\n\nCalculates vapor pressure, in kilopascals, from temperature and relative humidity.");
        lemma_heading(d, "VaporPressure"@, key);
    }
}

#[verifier::spinoff_prover]
proof fn lemma_string_function_descriptions(key: Seq<char>)
    ensures
        string_function_descriptions(key) matches Some(d) ==> opens_with_heading(d, key),
{
    let d = string_function_descriptions(key)->0;
    if key == "splitstr"@ {
        reveal_strlit("splitstr");
        reveal_strlit("SplitStr");
        reveal_strlit("**SplitStr**\n\nSplits a string by delimiter.");
        lemma_heading(d, "SplitStr"@, key);
    } else if key == "formatfloat"@ {
        reveal_strlit("formatfloat");
        reveal_strlit("FormatFloat");
        reveal_strlit("**FormatFloat**\n\nFormats a float as a string.");
        lemma_heading(d, "FormatFloat"@, key);
    } else if key == "formatlong"@ {
        reveal_strlit("formatlong");
        reveal_strlit("FormatLong");
        reveal_strlit("**FormatLong**\n\nConverts a Long value to a decimal, hexadecimal, or octal string.");
        lemma_heading(d, "FormatLong"@, key);
    } else if key == "formatlonglong"@ {
        reveal_strlit("formatlonglong");
        reveal_strlit("FormatLongLong");
        reveal_strlit("**FormatLongLong**\n\nConverts a 64-bit value, stored across two adjacent Long variables, into its decimal string representation.");
        lemma_heading(d, "FormatLongLong"@, key);
    } else if key == "mid"@ {
        reveal_strlit("mid");
        reveal_strlit("Mid");
        reveal_strlit("**Mid**\n\nExtracts a substring.");
        lemma_heading(d, "Mid"@, key);
    } else if key == "left"@ {
        reveal_strlit("left");
        reveal_strlit("Left");
        reveal_strlit("**Left**\n\nReturns leftmost characters.");
        lemma_heading(d, "Left"@, key);
    } else if key == "right"@ {
        reveal_strlit("right");
        reveal_strlit("Right");
        reveal_strlit("**Right**\n\nReturns rightmost characters.");
        lemma_heading(d, "Right"@, key);
    } else if key == "len"@ {
        reveal_strlit("len");
        reveal_strlit("Len");
        reveal_strlit("**Len**\n\nReturns the length of a string.");
        lemma_heading(d, "Len"@, key);
    } else if key == "instr"@ {
        reveal_strlit("instr");
        reveal_strlit("InStr");
        reveal_strlit("**InStr**\n\nFinds a substring within a string.");
        lemma_heading(d, "InStr"@, key);
    } else if key == "lowercase"@ {
        reveal_strlit("lowercase");
        reveal_strlit("LowerCase");
        reveal_strlit("**LowerCase**\n\nConverts to lowercase.");
        lemma_heading(d, "LowerCase"@, key);
    } else if key == "uppercase"@ {
        reveal_strlit("uppercase");
        reveal_strlit("UpperCase");
        reveal_strlit("**UpperCase**\n\nConverts to uppercase.");
        lemma_heading(d, "UpperCase"@, key);
    } else if key == "trim"@ {
        reveal_strlit("trim");
        reveal_strlit("Trim");
        reveal_strlit("**Trim**\n\nRemoves leading and trailing spaces.");
        lemma_heading(d, "Trim"@, key);
    } else if key == "rtrim"@ {
        reveal_strlit("rtrim");
        reveal_strlit("RTrim");
        reveal_strlit("**RTrim**\n\nRemoves trailing spaces.");
        lemma_heading(d, "RTrim"@, key);
    } else if key == "ltrim"@ {
        reveal_strlit("ltrim");
        reveal_strlit("LTrim");
        reveal_strlit("**LTrim**\n\nRemoves leading spaces.");
        lemma_heading(d, "LTrim"@, key);
    } else if key == "replace"@ {
        reveal_strlit("replace");
        reveal_strlit("Replace");
        reveal_strlit("**Replace**\n\nReplaces occurrences in a string.");
        lemma_heading(d, "Replace"@, key);
    } else if key == "chr"@ {
        reveal_strlit("chr");
        reveal_strlit("Chr");
        reveal_strlit("**Chr**\n\nReturns a character in the extended ASCII character set.");
        lemma_heading(d, "Chr"@, key);
    } else if key == "ascii"@ {
        reveal_strlit("ascii");
        reveal_strlit("ASCII");
        reveal_strlit("**ASCII**\n\nReturns the ASCII value of a character in a string.");
        lemma_heading(d, "ASCII"@, key);
    } else if key == "strcomp"@ {
        reveal_strlit("strcomp");
        reveal_strlit("StrComp");
        reveal_strlit("**StrComp**\n\nCompares two strings to determine if they are identical or their sort order.");
        lemma_heading(d, "StrComp"@, key);
    } else if key == "checksum"@ {
        reveal_strlit("checksum");
        reveal_strlit("CheckSum");
        reveal_strlit("**CheckSum**\n\nReturns a checksum signature for the characters in a string.");
        lemma_heading(d, "CheckSum"@, key);
    } else if key == "hextodec"@ {
        reveal_strlit("hextodec");
        reveal_strlit("HexToDec");
        reveal_strlit("**HexToDec**\n\nConverts a hexadecimal string to a float or integer.");
        lemma_heading(d, "HexToDec"@, key);
    } else if key == "hex"@ {
        reveal_strlit("hex");
        reveal_strlit("Hex");
        reveal_strlit("**Hex**\n\nReturns a hexadecimal string representation of a Long value.");
        lemma_heading(d, "Hex"@, key);
    } else if key == "sprintf"@ {
        reveal_strlit("sprintf");
        reveal_strlit("Sprintf");
        reveal_strlit("**Sprintf**\n\nWrites a formatted output string to a destination variable.");
        lemma_heading(d, "Sprintf"@, key);
    } else if key == "typeof"@ {
        reveal_strlit("typeof");
        reveal_strlit("TypeOf");
        reveal_strlit("**TypeOf**\n\nReturns an integer data-type code for a variable.");
        lemma_heading(d, "TypeOf"@, key);
    }
}

#[verifier::spinoff_prover]
proof fn lemma_data_function_descriptions(key: Seq<char>)
    ensures
        data_function_descriptions(key) matches Some(d) ==> opens_with_heading(d, key),
{
    let d = data_function_descriptions(key)->0;
    if key == "sample"@ {
        reveal_strlit("sample");
        reveal_strlit("Sample");
        reveal_strlit("**Sample**\n\nSamples and stores a value in the data table.");
        lemma_heading(d, "Sample"@, key);
    } else if key == "average"@ {
        reveal_strlit("average");
        reveal_strlit("Average");
        reveal_strlit("**Average**\n\nCalculates and stores the average of values.");
        lemma_heading(d, "Average"@, key);
    } else if key == "stddev"@ {
        reveal_strlit("stddev");
        reveal_strlit("StdDev");
        reveal_strlit("**StdDev**\n\nCalculates and stores the standard deviation.");
        lemma_heading(d, "StdDev"@, key);
    } else if key == "minimum"@ {
        reveal_strlit("minimum");
        reveal_strlit("Minimum");
        reveal_strlit("**Minimum**\n\nStores the minimum value over the output interval.");
        lemma_heading(d, "Minimum"@, key);
    } else if key == "maximum"@ {
        reveal_strlit("maximum");
        reveal_strlit("Maximum");
        reveal_strlit("**Maximum**\n\nStores the maximum value over the output interval.");
        lemma_heading(d, "Maximum"@, key);
    } else if key == "totalize"@ {
        reveal_strlit("totalize");
        reveal_strlit("Totalize");
        reveal_strlit("**Totalize**\n\nStores the sum of values over the output interval.");
        lemma_heading(d, "Totalize"@, key);
    } else if key == "histogram"@ {
        reveal_strlit("histogram");
        reveal_strlit("Histogram");
        reveal_strlit("**Histogram**\n\nStores a frequency distribution of input data across a set of bins.");
        lemma_heading(d, "Histogram"@, key);
    } else if key == "histogram4d"@ {
        reveal_strlit("histogram4d");
        reveal_strlit("Histogram4D");
        reveal_strlit("**Histogram4D**\n\nProcesses input data as a standard or weighted-value histogram of up to four dimensions.");
        lemma_heading(d, "Histogram4D"@, key);
    } else if key == "median"@ {
        reveal_strlit("median");
        reveal_strlit("Median");
        reveal_strlit("**Median**\n\nStores the median of a variable, over time, in an output table.");
        lemma_heading(d, "Median"@, key);
    } else if key == "moment"@ {
        reveal_strlit("moment");
        reveal_strlit("Moment");
        reveal_strlit("**Moment**\n\nOutputs a central moment (variance, skewness, kurtosis, etc.) of a value over the measurement interval.");
        lemma_heading(d, "Moment"@, key);
    } else if key == "samplemaxmin"@ {
        reveal_strlit("samplemaxmin");
        reveal_strlit("SampleMaxMin");
        reveal_strlit("**SampleMaxMin**\n\nRecords the value of a companion variable at the moment a preceding Maximum or Minimum reaches its extremum.");
        lemma_heading(d, "SampleMaxMin"@, key);
    } else if key == "peakvalley"@ {
        reveal_strlit("peakvalley");
        reveal_strlit("PeakValley");
        reveal_strlit("**PeakValley**\n\nDetects local maxima and minima in signal data with a hysteresis threshold.");
        lemma_heading(d, "PeakValley"@, key);
    } else if key == "fft"@ {
        reveal_strlit("fft");
        reveal_strlit("FFT");
        reveal_strlit("**FFT**\n\nPerforms a Fast Fourier Transform on time-series measurement data.");
        lemma_heading(d, "FFT"@, key);
    } else if key == "covariance"@ {
        reveal_strlit("covariance");
        reveal_strlit("Covariance");
        reveal_strlit("**Covariance**\n\nComputes time-series covariance among array elements, for eddy-flux systems.");
        lemma_heading(d, "Covariance"@, key);
    } else if key == "levelcrossing"@ {
        reveal_strlit("levelcrossing");
        reveal_strlit("LevelCrossing");
        reveal_strlit("**LevelCrossing**\n\nBuilds a 1D or 2D level-crossing histogram for fatigue counting.");
        lemma_heading(d, "LevelCrossing"@, key);
    } else if key == "worstcase"@ {
        reveal_strlit("worstcase");
        reveal_strlit("WorstCase");
        reveal_strlit("**WorstCase**\n\nSaves ranked worst-case data events into separate clone tables.");
        lemma_heading(d, "WorstCase"@, key);
    } else if key == "fieldnames"@ {
        reveal_strlit("fieldnames");
        reveal_strlit("FieldNames");
        reveal_strlit("**FieldNames**\n\nOverrides the default field names for the preceding output-processing instruction.");
        lemma_heading(d, "FieldNames"@, key);
    } else if key == "cardout"@ {
        reveal_strlit("cardout");
        reveal_strlit("CardOut");
        reveal_strlit("**CardOut**\n\nCreates a new data table that is stored on a memory card.");
        lemma_heading(d, "CardOut"@, key);
    } else if key == "newfile"@ {
        reveal_strlit("newfile");
        reveal_strlit("NewFile");
        reveal_strlit("**NewFile**\n\nDetermines whether a monitored file has been newly written since this instruction last ran.");
        lemma_heading(d, "NewFile"@, key);
    } else if key == "filemanage"@ {
        reveal_strlit("filemanage");
        reveal_strlit("FileManage");
        reveal_strlit("**FileManage**\n\nPerforms a management operation, such as delete, hide, run, or format, on a file or device.");
        lemma_heading(d, "FileManage"@, key);
    } else if key == "fileopen"@ {
        reveal_strlit("fileopen");
        reveal_strlit("FileOpen");
        reveal_strlit("**FileOpen**\n\nOpens a file for reading or writing and returns a file handle.");
        lemma_heading(d, "FileOpen"@, key);
    } else if key == "fileclose"@ {
        reveal_strlit("fileclose");
        reveal_strlit("FileClose");
        reveal_strlit("**FileClose**\n\nCloses a file previously opened with FileOpen.");
        lemma_heading(d, "FileClose"@, key);
    } else if key == "fileread"@ {
        reveal_strlit("fileread");
        reveal_strlit("FileRead");
        reveal_strlit("**FileRead**\n\nReads data from an open file into a variable or array.");
        lemma_heading(d, "FileRead"@, key);
    } else if key == "filewrite"@ {
        reveal_strlit("filewrite");
        reveal_strlit("FileWrite");
        reveal_strlit("**FileWrite**\n\nWrites data from a variable or array to an open file.");
        lemma_heading(d, "FileWrite"@, key);
    } else if key == "fileencrypt"@ {
        reveal_strlit("fileencrypt");
        reveal_strlit("FileEncrypt");
        reveal_strlit("**FileEncrypt**\n\nEncrypts a file in place; the datalogger automatically decrypts it at compile time when referenced.");
        lemma_heading(d, "FileEncrypt"@, key);
    } else if key == "filecopy"@ {
        reveal_strlit("filecopy");
        reveal_strlit("FileCopy");
        reveal_strlit("**FileCopy**\n\nCopies a file from one drive on the datalogger to another.");
        lemma_heading(d, "FileCopy"@, key);
    } else if key == "filerename"@ {
        reveal_strlit("filerename");
        reveal_strlit("FileRename");
        reveal_strlit("**FileRename**\n\nRenames a file stored on the datalogger.");
        lemma_heading(d, "FileRename"@, key);
    } else if key == "filesize"@ {
        reveal_strlit("filesize");
        reveal_strlit("FileSize");
        reveal_strlit("**FileSize**\n\nReturns the size, in bytes, of a specified file.");
        lemma_heading(d, "FileSize"@, key);
    } else if key == "filetime"@ {
        reveal_strlit("filetime");
        reveal_strlit("FileTime");
        reveal_strlit("**FileTime**\n\nReturns the last-modified timestamp of a specified file.");
        lemma_heading(d, "FileTime"@, key);
    } else if key == "filelist"@ {
        reveal_strlit("filelist");
        reveal_strlit("FileList");
        reveal_strlit("**FileList**\n\nWrites the list of file names on a device into a destination array.");
        lemma_heading(d, "FileList"@, key);
    } else if key == "datainterval"@ {
        reveal_strlit("datainterval");
        reveal_strlit("DataInterval");
        reveal_strlit("**DataInterval**\n\nSets the real-time-clock-based interval on which a data table's records are generated.");
        lemma_heading(d, "DataInterval"@, key);
    } else if key == "cardflush"@ {
        reveal_strlit("cardflush");
        reveal_strlit("CardFlush");
        reveal_strlit("**CardFlush**\n\nImmediately writes buffered data to an external storage device.");
        lemma_heading(d, "CardFlush"@, key);
    } else if key == "dataevent"@ {
        reveal_strlit("dataevent");
        reveal_strlit("DataEvent");
        reveal_strlit("**DataEvent**\n\nConditionally starts and stops data storage to a table based on trigger conditions.");
        lemma_heading(d, "DataEvent"@, key);
    } else if key == "data"@ {
        reveal_strlit("data");
        reveal_strlit("Data");
        reveal_strlit("**Data**\n\nDefines a list of Float constants for later retrieval with Read.");
        lemma_heading(d, "Data"@, key);
    } else if key == "datalong"@ {
        reveal_strlit("datalong");
        reveal_strlit("DataLong");
        reveal_strlit("**DataLong**\n\nDefines a list of Long constants for later retrieval with Read.");
        lemma_heading(d, "DataLong"@, key);
    } else if key == "datatime"@ {
        reveal_strlit("datatime");
        reveal_strlit("DataTime");
        reveal_strlit("**DataTime**\n\nSelects whether a data table's records are timestamped at scan time or at storage time.");
        lemma_heading(d, "DataTime"@, key);
    } else if key == "resettable"@ {
        reveal_strlit("resettable");
        reveal_strlit("ResetTable");
        reveal_strlit("**ResetTable**\n\nErases all records from a specified data table during program execution.");
        lemma_heading(d, "ResetTable"@, key);
    } else if key == "tablefile"@ {
        reveal_strlit("tablefile");
        reveal_strlit("TableFile");
        reveal_strlit("**TableFile**\n\nWrites a data table's contents to external storage media; placed inside a DataTable/EndTable declaration.");
        lemma_heading(d, "TableFile"@, key);
    } else if key == "filemark"@ {
        reveal_strlit("filemark");
        reveal_strlit("FileMark");
        reveal_strlit("**FileMark**\n\nInserts a filemark into a data table, signaling file-splitting software to start a new file.");
        lemma_heading(d, "FileMark"@, key);
    } else if key == "filereadline"@ {
        reveal_strlit("filereadline");
        reveal_strlit("FileReadLine");
        reveal_strlit("**FileReadLine**\n\nReads one line from an open file into a destination variable.");
        lemma_heading(d, "FileReadLine"@, key);
    } else if key == "erase"@ {
        reveal_strlit("erase");
        reveal_strlit("Erase");
        reveal_strlit("**Erase**\n\nSets all bytes of a variable or array to zero.");
        lemma_heading(d, "Erase"@, key);
    } else if key == "getrecord"@ {
        reveal_strlit("getrecord");
        reveal_strlit("GetRecord");
        reveal_strlit("**GetRecord**\n\nRetrieves one complete record from a data table into an array.");
        lemma_heading(d, "GetRecord"@, key);
    } else if key == "gzip"@ {
        reveal_strlit("gzip");
        reveal_strlit("Gzip");
        reveal_strlit("**Gzip**\n\nCompresses one or more files on datalogger storage into a .gz or .tar.gz archive.");
        lemma_heading(d, "Gzip"@, key);
    } else if key == "newfieldnames"@ {
        reveal_strlit("newfieldnames");
        reveal_strlit("NewFieldNames");
        reveal_strlit("**NewFieldNames**\n\nRenames the auto-generated field name(s) of a variable or array for table output.");
        lemma_heading(d, "NewFieldNames"@, key);
    } else if key == "rainflow"@ {
        reveal_strlit("rainflow");
        reveal_strlit("RainFlow");
        reveal_strlit("**RainFlow**\n\nPerforms rainflow cycle-counting on a signal, building an amplitude/mean histogram for fatigue analysis.");
        lemma_heading(d, "RainFlow"@, key);
    } else if key == "read"@ {
        reveal_strlit("read");
        reveal_strlit("Read");
        reveal_strlit("**Read**\n\nReads the next value(s) sequentially from a Data/DataLong constant list into a variable, advancing the read pointer.");
        lemma_heading(d, "Read"@, key);
    } else if key == "restore"@ {
        reveal_strlit("restore");
        reveal_strlit("Restore");
        reveal_strlit("**Restore**\n\nResets the read pointer to the start of a Data/DataLong constant list, so a following Read restarts from the beginning.");
        lemma_heading(d, "Restore"@, key);
    } else if key == "runprogram"@ {
        reveal_strlit("runprogram");
        reveal_strlit("RunProgram");
        reveal_strlit("**RunProgram**\n\nRuns a specified datalogger program file, replacing the currently active program.");
        lemma_heading(d, "RunProgram"@, key);
    } else if key == "stationname"@ {
        reveal_strlit("stationname");
        reveal_strlit("StationName");
        reveal_strlit("**StationName**\n\nAssigns a name to the station, stored in the Status table; declared once near the top of the program.");
        lemma_heading(d, "StationName"@, key);
    }
}

#[verifier::spinoff_prover]
proof fn lemma_communication_function_descriptions(key: Seq<char>)
    ensures
        communication_function_descriptions(key) matches Some(d) ==> opens_with_heading(d, key),
{
    let d = communication_function_descriptions(key)->0;
    if key == "serialopen"@ {
        reveal_strlit("serialopen");
        reveal_strlit("SerialOpen");
        reveal_strlit("**SerialOpen**\n\nOpens a serial communication port.");
        lemma_heading(d, "SerialOpen"@, key);
    } else if key == "serialclose"@ {
        reveal_strlit("serialclose");
        reveal_strlit("SerialClose");
        reveal_strlit("**SerialClose**\n\nCloses a serial communication port.");
        lemma_heading(d, "SerialClose"@, key);
    } else if key == "serialin"@ {
        reveal_strlit("serialin");
        reveal_strlit("SerialIn");
        reveal_strlit("**SerialIn**\n\nReads data from a serial port.");
        lemma_heading(d, "SerialIn"@, key);
    } else if key == "serialout"@ {
        reveal_strlit("serialout");
        reveal_strlit("SerialOut");
        reveal_strlit("**SerialOut**\n\nSends data to a serial port.");
        lemma_heading(d, "SerialOut"@, key);
    } else if key == "serialinrecord"@ {
        reveal_strlit("serialinrecord");
        reveal_strlit("SerialInRecord");
        reveal_strlit("**SerialInRecord**\n\nReads and parses incoming serial data using begin/end markers.");
        lemma_heading(d, "SerialInRecord"@, key);
    } else if key == "serialoutblock"@ {
        reveal_strlit("serialoutblock");
        reveal_strlit("SerialOutBlock");
        reveal_strlit("**SerialOutBlock**\n\nSends binary data out a serial port.");
        lemma_heading(d, "SerialOutBlock"@, key);
    } else if key == "serialflush"@ {
        reveal_strlit("serialflush");
        reveal_strlit("SerialFlush");
        reveal_strlit("**SerialFlush**\n\nClears any characters in the serial input buffer.");
        lemma_heading(d, "SerialFlush"@, key);
    } else if key == "serialbrk"@ {
        reveal_strlit("serialbrk");
        reveal_strlit("SerialBrk");
        reveal_strlit("**SerialBrk**\n\nSends a break signal of a specified duration to a serial communication port.");
        lemma_heading(d, "SerialBrk"@, key);
    } else if key == "modbusmaster"@ {
        reveal_strlit("modbusmaster");
        reveal_strlit("ModbusMaster");
        reveal_strlit("**ModbusMaster**\n\nSets up the datalogger as a Modbus client to send or retrieve data from a Modbus server.");
        lemma_heading(d, "ModbusMaster"@, key);
    } else if key == "sdi12recorder"@ {
        reveal_strlit("sdi12recorder");
        reveal_strlit("SDI12Recorder");
        reveal_strlit("**SDI12Recorder**\n\nRetrieves measurement results from an SDI-12 sensor.");
        lemma_heading(d, "SDI12Recorder"@, key);
    } else if key == "tcpopen"@ {
        reveal_strlit("tcpopen");
        reveal_strlit("TCPOpen");
        reveal_strlit("**TCPOpen**\n\nSets up a TCP/IP socket for communication.");
        lemma_heading(d, "TCPOpen"@, key);
    } else if key == "tcpclose"@ {
        reveal_strlit("tcpclose");
        reveal_strlit("TCPClose");
        reveal_strlit("**TCPClose**\n\nCloses a TCP/IP socket that was set up for communication.");
        lemma_heading(d, "TCPClose"@, key);
    } else if key == "udpopen"@ {
        reveal_strlit("udpopen");
        reveal_strlit("UDPOpen");
        reveal_strlit("**UDPOpen**\n\nOpens a port for transferring UDP packets.");
        lemma_heading(d, "UDPOpen"@, key);
    } else if key == "udpsocketopen"@ {
        reveal_strlit("udpsocketopen");
        reveal_strlit("UDPSocketOpen");
        reveal_strlit("**UDPSocketOpen**\n\nOpens a UDP socket, relating a UDP source port to an ID.");
        lemma_heading(d, "UDPSocketOpen"@, key);
    } else if key == "udpsocketsend"@ {
        reveal_strlit("udpsocketsend");
        reveal_strlit("UDPSocketSend");
        reveal_strlit("**UDPSocketSend**\n\nSends a UDP datagram to a remote device via an opened UDP socket.");
        lemma_heading(d, "UDPSocketSend"@, key);
    } else if key == "udpsocketrecv"@ {
        reveal_strlit("udpsocketrecv");
        reveal_strlit("UDPSocketRecv");
        reveal_strlit("**UDPSocketRecv**\n\nRetrieves incoming UDP packets sent to a socket's listening port.");
        lemma_heading(d, "UDPSocketRecv"@, key);
    } else if key == "udpsocketclose"@ {
        reveal_strlit("udpsocketclose");
        reveal_strlit("UDPSocketClose");
        reveal_strlit("**UDPSocketClose**\n\nCloses an opened UDP socket and frees its associated memory.");
        lemma_heading(d, "UDPSocketClose"@, key);
    } else if key == "emailrelay"@ {
        reveal_strlit("emailrelay");
        reveal_strlit("EmailRelay");
        reveal_strlit("**EmailRelay**\n\nSends an email message to one or more addresses via a Campbell Scientific relay service.");
        lemma_heading(d, "EmailRelay"@, key);
    } else if key == "emailsend"@ {
        reveal_strlit("emailsend");
        reveal_strlit("EmailSend");
        reveal_strlit("**EmailSend**\n\nSends an email message directly via an SMTP server.");
        lemma_heading(d, "EmailSend"@, key);
    } else if key == "dialmodem"@ {
        reveal_strlit("dialmodem");
        reveal_strlit("DialModem");
        reveal_strlit("**DialModem**\n\nDials a modem device over a communications port and checks for an expected response.");
        lemma_heading(d, "DialModem"@, key);
    } else if key == "dialsequence"@ {
        reveal_strlit("dialsequence");
        reveal_strlit("DialSequence");
        reveal_strlit("**DialSequence**\n\nDeclares a PakBus dial-out route/sequence, closed by EndDialSequence.");
        lemma_heading(d, "DialSequence"@, key);
    } else if key == "enddialsequence"@ {
        reveal_strlit("enddialsequence");
        reveal_strlit("EndDialSequence");
        reveal_strlit("**EndDialSequence**\n\nCloses a DialSequence block, reporting whether the dial sequence succeeded.");
        lemma_heading(d, "EndDialSequence"@, key);
    } else if key == "modemhangup"@ {
        reveal_strlit("modemhangup");
        reveal_strlit("ModemHangup");
        reveal_strlit("**ModemHangup**\n\nDeclares code to run when a communications port hangs up, closed by EndModemHangup.");
        lemma_heading(d, "ModemHangup"@, key);
    } else if key == "dialvoice"@ {
        reveal_strlit("dialvoice");
        reveal_strlit("DialVoice");
        reveal_strlit("**DialVoice**\n\nDials out over a voice modem, or waits for an incoming call if no dial string is given. Returns -1 (success), 0 (failure), or -3 (no voice modem present).");
        lemma_heading(d, "DialVoice"@, key);
    } else if key == "voicehangup"@ {
        reveal_strlit("voicehangup");
        reveal_strlit("VoiceHangup");
        reveal_strlit("**VoiceHangup**\n\nHangs up the voice modem after a DialVoice connection; not needed inside a VoiceBeg/EndVoice block, which hangs up automatically via EndVoice.");
        lemma_heading(d, "VoiceHangup"@, key);
    } else if key == "voicekey"@ {
        reveal_strlit("voicekey");
        reveal_strlit("VoiceKey");
        reveal_strlit("**VoiceKey**\n\nWaits for and returns a single DTMF key (0-9, *, #) pressed by the caller, or a timeout/carrier-loss/no-modem/disconnect code.");
        lemma_heading(d, "VoiceKey"@, key);
    } else if key == "voicenumber"@ {
        reveal_strlit("voicenumber");
        reveal_strlit("VoiceNumber");
        reveal_strlit("**VoiceNumber**\n\nWaits for and returns a multi-digit DTMF number entered by the caller (terminated by # or timeout), or a timeout/carrier-loss/no-modem/disconnect code.");
        lemma_heading(d, "VoiceNumber"@, key);
    } else if key == "voicephrases"@ {
        reveal_strlit("voicephrases");
        reveal_strlit("VoicePhrases");
        reveal_strlit("**VoicePhrases**\n\nSpeaks a comma-separated list of vocabulary words/phrases over the voice modem.");
        lemma_heading(d, "VoicePhrases"@, key);
    } else if key == "voicesetup"@ {
        reveal_strlit("voicesetup");
        reveal_strlit("VoiceSetup");
        reveal_strlit("**VoiceSetup**\n\nConfigures the DTMF keys and timing behavior used by the voice-modem instructions.");
        lemma_heading(d, "VoiceSetup"@, key);
    } else if key == "voicespeak"@ {
        reveal_strlit("voicespeak");
        reveal_strlit("VoiceSpeak");
        reveal_strlit("**VoiceSpeak**\n\nSpeaks a string built by concatenating literal text and variable values over the voice modem.");
        lemma_heading(d, "VoiceSpeak"@, key);
    } else if key == "smsrecv"@ {
        reveal_strlit("smsrecv");
        reveal_strlit("SMSRecv");
        reveal_strlit("**SMSRecv**\n\nPolls a CELL2XX cellular modem for a pending SMS message.");
        lemma_heading(d, "SMSRecv"@, key);
    } else if key == "smssend"@ {
        reveal_strlit("smssend");
        reveal_strlit("SMSSend");
        reveal_strlit("**SMSSend**\n\nSends an SMS message via a CELL2XX cellular modem.");
        lemma_heading(d, "SMSSend"@, key);
    } else if key == "pppopen"@ {
        reveal_strlit("pppopen");
        reveal_strlit("PPPOpen");
        reveal_strlit("**PPPOpen**\n\nEnables a PPP network connection through an external modem and returns its IP address.");
        lemma_heading(d, "PPPOpen"@, key);
    } else if key == "pppclose"@ {
        reveal_strlit("pppclose");
        reveal_strlit("PPPClose");
        reveal_strlit("**PPPClose**\n\nCloses an open PPP connection with a server.");
        lemma_heading(d, "PPPClose"@, key);
    } else if key == "ftpclient"@ {
        reveal_strlit("ftpclient");
        reveal_strlit("FTPClient");
        reveal_strlit("**FTPClient**\n\nManages files on a server using FTP, FTPS, or SFTP.");
        lemma_heading(d, "FTPClient"@, key);
    } else if key == "httpget"@ {
        reveal_strlit("httpget");
        reveal_strlit("HTTPGet");
        reveal_strlit("**HTTPGet**\n\nSends a GET request to an HTTP server.");
        lemma_heading(d, "HTTPGet"@, key);
    } else if key == "httppost"@ {
        reveal_strlit("httppost");
        reveal_strlit("HTTPPost");
        reveal_strlit("**HTTPPost**\n\nSends files or text to a URL via an HTTP POST request.");
        lemma_heading(d, "HTTPPost"@, key);
    } else if key == "httpput"@ {
        reveal_strlit("httpput");
        reveal_strlit("HTTPPut");
        reveal_strlit("**HTTPPut**\n\nSends files or text to a URL via an HTTP PUT request.");
        lemma_heading(d, "HTTPPut"@, key);
    } else if key == "gps"@ {
        reveal_strlit("gps");
        reveal_strlit("GPS");
        reveal_strlit("**GPS**\n\nSynchronizes the datalogger clock with a GPS receiver and stores its position/timing data.");
        lemma_heading(d, "GPS"@, key);
    } else if key == "ethernetpower"@ {
        reveal_strlit("ethernetpower");
        reveal_strlit("EthernetPower");
        reveal_strlit("**EthernetPower**\n\nTurns power to all Ethernet devices on or off.");
        lemma_heading(d, "EthernetPower"@, key);
    } else if key == "i2copen"@ {
        reveal_strlit("i2copen");
        reveal_strlit("I2COpen");
        reveal_strlit("**I2COpen**\n\nConfigures a port pair for I2C communication at a specified clock rate.");
        lemma_heading(d, "I2COpen"@, key);
    } else if key == "i2cread"@ {
        reveal_strlit("i2cread");
        reveal_strlit("I2CRead");
        reveal_strlit("**I2CRead**\n\nReads bytes from an I2C peripheral device.");
        lemma_heading(d, "I2CRead"@, key);
    } else if key == "i2cwrite"@ {
        reveal_strlit("i2cwrite");
        reveal_strlit("I2CWrite");
        reveal_strlit("**I2CWrite**\n\nWrites bytes to an I2C peripheral device.");
        lemma_heading(d, "I2CWrite"@, key);
    } else if key == "spiopen"@ {
        reveal_strlit("spiopen");
        reveal_strlit("SPIOpen");
        reveal_strlit("**SPIOpen**\n\nConfigures the datalogger as an SPI controller for communication with peripheral devices.");
        lemma_heading(d, "SPIOpen"@, key);
    } else if key == "spiread"@ {
        reveal_strlit("spiread");
        reveal_strlit("SPIRead");
        reveal_strlit("**SPIRead**\n\nSynchronously reads a specified number of bytes from an SPI peripheral device.");
        lemma_heading(d, "SPIRead"@, key);
    } else if key == "spiwrite"@ {
        reveal_strlit("spiwrite");
        reveal_strlit("SPIWrite");
        reveal_strlit("**SPIWrite**\n\nSynchronously transmits a specified number of bytes to an SPI peripheral device.");
        lemma_heading(d, "SPIWrite"@, key);
    } else if key == "acceptdatarecords"@ {
        reveal_strlit("acceptdatarecords");
        reveal_strlit("AcceptDataRecords");
        reveal_strlit("**AcceptDataRecords**\n\nConfigures the datalogger to receive and store data records pushed from a remote PakBus datalogger.");
        lemma_heading(d, "AcceptDataRecords"@, key);
    } else if key == "broadcast"@ {
        reveal_strlit("broadcast");
        reveal_strlit("Broadcast");
        reveal_strlit("**Broadcast**\n\nSends a broadcast message to all devices on a PakBus network.");
        lemma_heading(d, "Broadcast"@, key);
    } else if key == "clockreport"@ {
        reveal_strlit("clockreport");
        reveal_strlit("ClockReport");
        reveal_strlit("**ClockReport**\n\nSends this datalogger's clock value to a specified PakBus device.");
        lemma_heading(d, "ClockReport"@, key);
    } else if key == "datagram"@ {
        reveal_strlit("datagram");
        reveal_strlit("DataGram");
        reveal_strlit("**DataGram**\n\nInitializes a SerialServer/DataGram application that tunnels serial traffic through a PakBus network.");
        lemma_heading(d, "DataGram"@, key);
    } else if key == "encryptexempt"@ {
        reveal_strlit("encryptexempt");
        reveal_strlit("EncryptExempt");
        reveal_strlit("**EncryptExempt**\n\nDeclares a PakBus address range exempt from PakBus encryption.");
        lemma_heading(d, "EncryptExempt"@, key);
    } else if key == "getdatarecord"@ {
        reveal_strlit("getdatarecord");
        reveal_strlit("GetDataRecord");
        reveal_strlit("**GetDataRecord**\n\nRetrieves the most recent record(s) from a table on a remote PakBus datalogger into a local table.");
        lemma_heading(d, "GetDataRecord"@, key);
    } else if key == "getfile"@ {
        reveal_strlit("getfile");
        reveal_strlit("GetFile");
        reveal_strlit("**GetFile**\n\nRetrieves a file from a remote PakBus datalogger and stores it locally.");
        lemma_heading(d, "GetFile"@, key);
    } else if key == "getvariables"@ {
        reveal_strlit("getvariables");
        reveal_strlit("GetVariables");
        reveal_strlit("**GetVariables**\n\nRetrieves one or more variable values from a data table on a remote PakBus device.");
        lemma_heading(d, "GetVariables"@, key);
    } else if key == "pakbusclock"@ {
        reveal_strlit("pakbusclock");
        reveal_strlit("PakBusClock");
        reveal_strlit("**PakBusClock**\n\nConfigures the datalogger to accept and synchronize its clock from time broadcasts sent by a specified PakBus device.");
        lemma_heading(d, "PakBusClock"@, key);
    } else if key == "route"@ {
        reveal_strlit("route");
        reveal_strlit("Route");
        reveal_strlit("**Route**\n\nReturns the neighbor address of, or the route to, a PakBus datalogger.");
        lemma_heading(d, "Route"@, key);
    } else if key == "routes"@ {
        reveal_strlit("routes");
        reveal_strlit("Routes");
        reveal_strlit("**Routes**\n\nRetrieves the datalogger's list of known dynamic PakBus routes into an array.");
        lemma_heading(d, "Routes"@, key);
    } else if key == "routersneighbors"@ {
        reveal_strlit("routersneighbors");
        reveal_strlit("RoutersNeighbors");
        reveal_strlit("**RoutersNeighbors**\n\nReturns a list of all PakBus routers and their neighbors known to the datalogger.");
        lemma_heading(d, "RoutersNeighbors"@, key);
    } else if key == "senddata"@ {
        reveal_strlit("senddata");
        reveal_strlit("SendData");
        reveal_strlit("**SendData**\n\nSends the most recent record from a data table to a destination PakBus device.");
        lemma_heading(d, "SendData"@, key);
    } else if key == "sendfile"@ {
        reveal_strlit("sendfile");
        reveal_strlit("SendFile");
        reveal_strlit("**SendFile**\n\nSends a file from the datalogger to another PakBus datalogger.");
        lemma_heading(d, "SendFile"@, key);
    } else if key == "sendgetvariables"@ {
        reveal_strlit("sendgetvariables");
        reveal_strlit("SendGetVariables");
        reveal_strlit("**SendGetVariables**\n\nSends and/or retrieves an array of values to/from the host datalogger during its assigned time slot.");
        lemma_heading(d, "SendGetVariables"@, key);
    } else if key == "sendtabledef"@ {
        reveal_strlit("sendtabledef");
        reveal_strlit("SendTableDef");
        reveal_strlit("**SendTableDef**\n\nSends a data table's definition to a destination device on the PakBus network.");
        lemma_heading(d, "SendTableDef"@, key);
    } else if key == "sendvariables"@ {
        reveal_strlit("sendvariables");
        reveal_strlit("SendVariables");
        reveal_strlit("**SendVariables**\n\nSends one or more variable values to a table in a destination PakBus device.");
        lemma_heading(d, "SendVariables"@, key);
    } else if key == "staticroute"@ {
        reveal_strlit("staticroute");
        reveal_strlit("StaticRoute");
        reveal_strlit("**StaticRoute**\n\nDefines a fixed route to a PakBus datalogger, for use when dynamic routing is unavailable.");
        lemma_heading(d, "StaticRoute"@, key);
    } else if key == "timeuntiltransmit"@ {
        reveal_strlit("timeuntiltransmit");
        reveal_strlit("TimeUntilTransmit");
        reveal_strlit("**TimeUntilTransmit**\n\nReturns the seconds remaining until the datalogger's assigned communication time slot with its host.");
        lemma_heading(d, "TimeUntilTransmit"@, key);
    } else if key == "dnp"@ {
        reveal_strlit("dnp");
        reveal_strlit("DNP");
        reveal_strlit("**DNP**\n\nConfigures a communications port to set up the datalogger as a DNP3 outstation device.");
        lemma_heading(d, "DNP"@, key);
    } else if key == "dnpupdate"@ {
        reveal_strlit("dnpupdate");
        reveal_strlit("DNPUpdate");
        reveal_strlit("**DNPUpdate**\n\nSets up the datalogger as a DNP3 outstation and determines when it updates its arrays of DNP elements.");
        lemma_heading(d, "DNPUpdate"@, key);
    } else if key == "dnpvariable"@ {
        reveal_strlit("dnpvariable");
        reveal_strlit("DNPVariable");
        reveal_strlit("**DNPVariable**\n\nMaps a variable or array to a DNP3 object, variation, and class within the datalogger's outstation configuration.");
        lemma_heading(d, "DNPVariable"@, key);
    } else if key == "argosdata"@ {
        reveal_strlit("argosdata");
        reveal_strlit("ArgosData");
        reveal_strlit("**ArgosData**\n\nSpecifies the data to be transmitted to the Argos satellite.");
        lemma_heading(d, "ArgosData"@, key);
    } else if key == "argosdatarepeat"@ {
        reveal_strlit("argosdatarepeat");
        reveal_strlit("ArgosDataRepeat");
        reveal_strlit("**ArgosDataRepeat**\n\nSets the repeat rate for the ArgosData instruction.");
        lemma_heading(d, "ArgosDataRepeat"@, key);
    } else if key == "argoserror"@ {
        reveal_strlit("argoserror");
        reveal_strlit("ArgosError");
        reveal_strlit("**ArgosError**\n\nRequests and clears the current error message from the Argos transmitter.");
        lemma_heading(d, "ArgosError"@, key);
    } else if key == "argossetup"@ {
        reveal_strlit("argossetup");
        reveal_strlit("ArgosSetup");
        reveal_strlit("**ArgosSetup**\n\nSets up the datalogger for transmitting data via an Argos satellite.");
        lemma_heading(d, "ArgosSetup"@, key);
    } else if key == "argostransmit"@ {
        reveal_strlit("argostransmit");
        reveal_strlit("ArgosTransmit");
        reveal_strlit("**ArgosTransmit**\n\nInitiates a single transmission to an Argos satellite when the instruction is executed.");
        lemma_heading(d, "ArgosTransmit"@, key);
    } else if key == "goesdata"@ {
        reveal_strlit("goesdata");
        reveal_strlit("GOESData");
        reveal_strlit("**GOESData**\n\nTransmits data from a data table to a GOES satellite transmitter.");
        lemma_heading(d, "GOESData"@, key);
    } else if key == "goesfield"@ {
        reveal_strlit("goesfield");
        reveal_strlit("GOESField");
        reveal_strlit("**GOESField**\n\nDeclares an output field to include in a GOES transmission; precedes the data-table field instruction it applies to.");
        lemma_heading(d, "GOESField"@, key);
    } else if key == "goesgps"@ {
        reveal_strlit("goesgps");
        reveal_strlit("GOESGPS");
        reveal_strlit("**GOESGPS**\n\nRetrieves GPS data from a compatible GOES satellite transmitter and stores it in two variable arrays.");
        lemma_heading(d, "GOESGPS"@, key);
    } else if key == "goessetup"@ {
        reveal_strlit("goessetup");
        reveal_strlit("GOESSetup");
        reveal_strlit("**GOESSetup**\n\nConfigures a GOES satellite transmitter for communication with the satellite.");
        lemma_heading(d, "GOESSetup"@, key);
    } else if key == "goesstatus"@ {
        reveal_strlit("goesstatus");
        reveal_strlit("GOESStatus");
        reveal_strlit("**GOESStatus**\n\nRequests status and diagnostic information from a GOES satellite transmitter.");
        lemma_heading(d, "GOESStatus"@, key);
    } else if key == "goestable"@ {
        reveal_strlit("goestable");
        reveal_strlit("GOESTable");
        reveal_strlit("**GOESTable**\n\nFormats and outputs a data table's records to a TX325/TX326 GOES satellite transmitter.");
        lemma_heading(d, "GOESTable"@, key);
    } else if key == "sdmao4"@ {
        reveal_strlit("sdmao4");
        reveal_strlit("SDMAO4");
        reveal_strlit("**SDMAO4**\n\nSets the output voltage on an SDM-AO4 four-channel analog output device.");
        lemma_heading(d, "SDMAO4"@, key);
    } else if key == "sdmao4a"@ {
        reveal_strlit("sdmao4a");
        reveal_strlit("SDMAO4A");
        reveal_strlit("**SDMAO4A**\n\nSets the output voltage on an SDM-AO4A four-channel analog output device.");
        lemma_heading(d, "SDMAO4A"@, key);
    } else if key == "sdmbeginport"@ {
        reveal_strlit("sdmbeginport");
        reveal_strlit("SDMBeginPort");
        reveal_strlit("**SDMBeginPort**\n\nDesignates an alternate set of datalogger terminals to use as an SDM port.");
        lemma_heading(d, "SDMBeginPort"@, key);
    } else if key == "sdmcan"@ {
        reveal_strlit("sdmcan");
        reveal_strlit("SDMCAN");
        reveal_strlit("**SDMCAN**\n\nConfigures and operates the SDM-CAN interface between a CAN-bus network and the datalogger.");
        lemma_heading(d, "SDMCAN"@, key);
    } else if key == "sdmcd16ac"@ {
        reveal_strlit("sdmcd16ac");
        reveal_strlit("SDMCD16AC");
        reveal_strlit("**SDMCD16AC**\n\nEnables or disables the relay ports of an SDM-CD16AC relay control device.");
        lemma_heading(d, "SDMCD16AC"@, key);
    } else if key == "sdmcd16mask"@ {
        reveal_strlit("sdmcd16mask");
        reveal_strlit("SDMCD16Mask");
        reveal_strlit("**SDMCD16Mask**\n\nEnables or disables specific relay ports of an SDM-CD16AC device via a bit-mask filter.");
        lemma_heading(d, "SDMCD16Mask"@, key);
    } else if key == "timedcontrol"@ {
        reveal_strlit("timedcontrol");
        reveal_strlit("TimedControl");
        reveal_strlit("**TimedControl**\n\nRuns a timed sequence of binary output values through an SDMCD16 peripheral, synchronized to a specified interval.");
        lemma_heading(d, "TimedControl"@, key);
    } else if key == "sdmcvo4"@ {
        reveal_strlit("sdmcvo4");
        reveal_strlit("SDMCVO4");
        reveal_strlit("**SDMCVO4**\n\nControls the SDM-CVO4 four-channel current/voltage output device.");
        lemma_heading(d, "SDMCVO4"@, key);
    } else if key == "sdmgeneric"@ {
        reveal_strlit("sdmgeneric");
        reveal_strlit("SDMGeneric");
        reveal_strlit("**SDMGeneric**\n\nSends raw commands to an SDM device with no dedicated CRBasic instruction support.");
        lemma_heading(d, "SDMGeneric"@, key);
    } else if key == "sdmint8"@ {
        reveal_strlit("sdmint8");
        reveal_strlit("SDMINT8");
        reveal_strlit("**SDMINT8**\n\nPrograms and controls the SDM-INT8 eight-channel interval timer.");
        lemma_heading(d, "SDMINT8"@, key);
    } else if key == "sdmio16"@ {
        reveal_strlit("sdmio16");
        reveal_strlit("SDMIO16");
        reveal_strlit("**SDMIO16**\n\nSets up and operates an SDM-IO16 16-port digital I/O expansion device.");
        lemma_heading(d, "SDMIO16"@, key);
    } else if key == "sdmsio4"@ {
        reveal_strlit("sdmsio4");
        reveal_strlit("SDMSIO4");
        reveal_strlit("**SDMSIO4**\n\nControls and transfers data with a legacy SDM-SIO4 four-port serial I/O device.");
        lemma_heading(d, "SDMSIO4"@, key);
    } else if key == "sdmspeed"@ {
        reveal_strlit("sdmspeed");
        reveal_strlit("SDMSpeed");
        reveal_strlit("**SDMSpeed**\n\nChanges the bit period the datalogger uses to clock SDM bus communication.");
        lemma_heading(d, "SDMSpeed"@, key);
    } else if key == "sdmsw8a"@ {
        reveal_strlit("sdmsw8a");
        reveal_strlit("SDMSW8A");
        reveal_strlit("**SDMSW8A**\n\nReads channels from an SDM-SW8A eight-channel switch closure module.");
        lemma_heading(d, "SDMSW8A"@, key);
    } else if key == "sdmtrigger"@ {
        reveal_strlit("sdmtrigger");
        reveal_strlit("SDMTrigger");
        reveal_strlit("**SDMTrigger**\n\nBroadcasts a simultaneous \"measure now\" group trigger to all SDM devices that support it.");
        lemma_heading(d, "SDMTrigger"@, key);
    } else if key == "sdmx50"@ {
        reveal_strlit("sdmx50");
        reveal_strlit("SDMX50");
        reveal_strlit("**SDMX50**\n\nSwitches an SDMX50 coaxial multiplexer to a specified channel.");
        lemma_heading(d, "SDMX50"@, key);
    } else if key == "cpiaddmodule"@ {
        reveal_strlit("cpiaddmodule");
        reveal_strlit("CPIAddModule");
        reveal_strlit("**CPIAddModule**\n\nStatically assigns a CPI-bus address to a GRANITE/CDM/VWIRE module.");
        lemma_heading(d, "CPIAddModule"@, key);
    } else if key == "cpifilesend"@ {
        reveal_strlit("cpifilesend");
        reveal_strlit("CPIFileSend");
        reveal_strlit("**CPIFileSend**\n\nSends an OS file to a GRANITE/CDM module over the CPI bus via memory card, USR drive, or USB.");
        lemma_heading(d, "CPIFileSend"@, key);
    } else if key == "cpispeed"@ {
        reveal_strlit("cpispeed");
        reveal_strlit("CPISpeed");
        reveal_strlit("**CPISpeed**\n\nAdjusts the CPI bus bit rate, needed when the bus load or cable length requires a slower speed.");
        lemma_heading(d, "CPISpeed"@, key);
    } else if key == "mqttpublishtable"@ {
        reveal_strlit("mqttpublishtable");
        reveal_strlit("MQTTPublishTable");
        reveal_strlit("**MQTTPublishTable**\n\nPublishes a data table's contents to an MQTT broker; placed inside a DataTable/EndTable declaration.");
        lemma_heading(d, "MQTTPublishTable"@, key);
    } else if key == "mqttpublishconsttable"@ {
        reveal_strlit("mqttpublishconsttable");
        reveal_strlit("MQTTPublishConstTable");
        reveal_strlit("**MQTTPublishConstTable**\n\nEnables remote editing of ConstTable values via MQTT; placed inside a ConstTable/EndConstTable declaration.");
        lemma_heading(d, "MQTTPublishConstTable"@, key);
    } else if key == "mqttconnect"@ {
        reveal_strlit("mqttconnect");
        reveal_strlit("MQTTConnect");
        reveal_strlit("**MQTTConnect**\n\nOverrides the default MQTT-publish retry schedule, forcing a connect or disconnect attempt over an available IP connection.");
        lemma_heading(d, "MQTTConnect"@, key);
    } else if key == "cwbdiagnostics"@ {
        reveal_strlit("cwbdiagnostics");
        reveal_strlit("CWBDiagnostics");
        reveal_strlit("**CWBDiagnostics**\n\nReturns diagnostic information about a CWB100 wireless sensor base's network performance.");
        lemma_heading(d, "CWBDiagnostics"@, key);
    } else if key == "checkport"@ {
        reveal_strlit("checkport");
        reveal_strlit("CheckPort");
        reveal_strlit("**CheckPort**\n\nRetrieves the current status (high/low) of a specified digital port or terminal.");
        lemma_heading(d, "CheckPort"@, key);
    } else if key == "comportisactive"@ {
        reveal_strlit("comportisactive");
        reveal_strlit("ComPortIsActive");
        reveal_strlit("**ComPortIsActive**\n\nReturns a Boolean indicating whether activity is currently detected on a communications port.");
        lemma_heading(d, "ComPortIsActive"@, key);
    } else if key == "dhcprenew"@ {
        reveal_strlit("dhcprenew");
        reveal_strlit("DHCPRenew");
        reveal_strlit("**DHCPRenew**\n\nRestarts DHCP on the Ethernet interface to request a new IP address lease.");
        lemma_heading(d, "DHCPRenew"@, key);
    } else if key == "encryption"@ {
        reveal_strlit("encryption");
        reveal_strlit("Encryption");
        reveal_strlit("**Encryption**\n\nPerforms AES-128 encryption or decryption on the contents of a variable.");
        lemma_heading(d, "Encryption"@, key);
    } else if key == "httpout"@ {
        reveal_strlit("httpout");
        reveal_strlit("HTTPOut");
        reveal_strlit("**HTTPOut**\n\nEmits a line of HTML for a datalogger-generated web page; used inside WebPageBegin/WebPageEnd.");
        lemma_heading(d, "HTTPOut"@, key);
    } else if key == "ipinfo"@ {
        reveal_strlit("ipinfo");
        reveal_strlit("IPInfo");
        reveal_strlit("**IPInfo**\n\nRetrieves the IP address of a datalogger interface, or the remote IP of a socket handle.");
        lemma_heading(d, "IPInfo"@, key);
    } else if key == "ipnetpower"@ {
        reveal_strlit("ipnetpower");
        reveal_strlit("IPNetPower");
        reveal_strlit("**IPNetPower**\n\nPowers on or off a specific IP-capable network interface.");
        lemma_heading(d, "IPNetPower"@, key);
    } else if key == "iproute"@ {
        reveal_strlit("iproute");
        reveal_strlit("IPRoute");
        reveal_strlit("**IPRoute**\n\nDirects outgoing IP traffic through a specified network interface when multiple interfaces are active.");
        lemma_heading(d, "IPRoute"@, key);
    } else if key == "iptrace"@ {
        reveal_strlit("iptrace");
        reveal_strlit("IPTrace");
        reveal_strlit("**IPTrace**\n\nWrites IP debug/troubleshooting messages to a string variable; can be used as a DataTable output trigger.");
        lemma_heading(d, "IPTrace"@, key);
    } else if key == "monitorcomms"@ {
        reveal_strlit("monitorcomms");
        reveal_strlit("MonitorComms");
        reveal_strlit("**MonitorComms**\n\nCaptures communication traffic from a specified port into a string variable, for debugging.");
        lemma_heading(d, "MonitorComms"@, key);
    } else if key == "pingip"@ {
        reveal_strlit("pingip");
        reveal_strlit("PingIP");
        reveal_strlit("**PingIP**\n\nPings an IP address and returns the response time in milliseconds.");
        lemma_heading(d, "PingIP"@, key);
    } else if key == "portbridge"@ {
        reveal_strlit("portbridge");
        reveal_strlit("PortBridge");
        reveal_strlit("**PortBridge**\n\nEstablishes a bidirectional data channel between two communications ports.");
        lemma_heading(d, "PortBridge"@, key);
    } else if key == "portget"@ {
        reveal_strlit("portget");
        reveal_strlit("PortGet");
        reveal_strlit("**PortGet**\n\nReads the status of a control or universal port into a destination variable.");
        lemma_heading(d, "PortGet"@, key);
    } else if key == "portpairconfig"@ {
        reveal_strlit("portpairconfig");
        reveal_strlit("PortPairConfig");
        reveal_strlit("**PortPairConfig**\n\nConfigures the voltage level and pull-resistor mode for a terminal pair.");
        lemma_heading(d, "PortPairConfig"@, key);
    } else if key == "portsconfig"@ {
        reveal_strlit("portsconfig");
        reveal_strlit("PortsConfig");
        reveal_strlit("**PortsConfig**\n\nConfigures digital ports as input or output using a bitmask.");
        lemma_heading(d, "PortsConfig"@, key);
    } else if key == "snmpvariable"@ {
        reveal_strlit("snmpvariable");
        reveal_strlit("SNMPVariable");
        reveal_strlit("**SNMPVariable**\n\nDefines a custom MIB entry exposing a datalogger variable through SNMP.");
        lemma_heading(d, "SNMPVariable"@, key);
    } else if key == "tcpactiveconnections"@ {
        reveal_strlit("tcpactiveconnections");
        reveal_strlit("TCPActiveConnections");
        reveal_strlit("**TCPActiveConnections**\n\nMonitors active TCP connections and polling activity on a listening port.");
        lemma_heading(d, "TCPActiveConnections"@, key);
    } else if key == "udpdatagram"@ {
        reveal_strlit("udpdatagram");
        reveal_strlit("UDPDataGram");
        reveal_strlit("**UDPDataGram**\n\nSends and receives UDP packets.");
        lemma_heading(d, "UDPDataGram"@, key);
    } else if key == "webpagebegin"@ {
        reveal_strlit("webpagebegin");
        reveal_strlit("WebPageBegin");
        reveal_strlit("**WebPageBegin**\n\nDeclares a datalogger-served HTML page, closed by WebPageEnd.");
        lemma_heading(d, "WebPageBegin"@, key);
    } else if key == "xmlparse"@ {
        reveal_strlit("xmlparse");
        reveal_strlit("XMLParse");
        reveal_strlit("**XMLParse**\n\nParses an XML file or string on the datalogger.");
        lemma_heading(d, "XMLParse"@, key);
    } else if key == "emailrecv"@ {
        reveal_strlit("emailrecv");
        reveal_strlit("EMailRecv");
        reveal_strlit("**EMailRecv**\n\nPolls a POP3 mail server for a message matching the given criteria and stores its body in a string variable.");
        lemma_heading(d, "EMailRecv"@, key);
    } else if key == "modbusserver"@ {
        reveal_strlit("modbusserver");
        reveal_strlit("ModbusServer");
        reveal_strlit("**ModbusServer**\n\nConfigures the datalogger as a Modbus server, exposing variables/coils to a Modbus client (formerly ModbusSlave).");
        lemma_heading(d, "ModbusServer"@, key);
    } else if key == "modemcallback"@ {
        reveal_strlit("modemcallback");
        reveal_strlit("ModemCallBack");
        reveal_strlit("**ModemCallBack**\n\nDials out via a phone modem so the datalogger initiates a callback connection to a computer.");
        lemma_heading(d, "ModemCallBack"@, key);
    } else if key == "networktimeprotocol"@ {
        reveal_strlit("networktimeprotocol");
        reveal_strlit("NetworkTimeProtocol");
        reveal_strlit("**NetworkTimeProtocol**\n\nSynchronizes the datalogger clock with an NTP server, returning the pre-adjustment clock error in milliseconds.");
        lemma_heading(d, "NetworkTimeProtocol"@, key);
    } else if key == "serialinblock"@ {
        reveal_strlit("serialinblock");
        reveal_strlit("SerialInBlock");
        reveal_strlit("**SerialInBlock**\n\nReads a block of raw serial bytes into Dest without waiting for a delimiter, returning the byte count received.");
        lemma_heading(d, "SerialInBlock"@, key);
    }
}

#[verifier::spinoff_prover]
proof fn lemma_scan_function_descriptions(key: Seq<char>)
    ensures
        scan_function_descriptions(key) matches Some(d) ==> opens_with_heading(d, key),
{
    let d = scan_function_descriptions(key)->0;
    if key == "scan"@ {
        reveal_strlit("scan");
        reveal_strlit("Scan");
        reveal_strlit("**Scan**\n\nInitiates a measurement scan at specified intervals.");
        lemma_heading(d, "Scan"@, key);
    } else if key == "subscan"@ {
        reveal_strlit("subscan");
        reveal_strlit("SubScan");
        reveal_strlit("**SubScan**\n\nBegins a nested sub-scan for faster measurement or multiplexer control.");
        lemma_heading(d, "SubScan"@, key);
    } else if key == "triggersequence"@ {
        reveal_strlit("triggersequence");
        reveal_strlit("TriggerSequence");
        reveal_strlit("**TriggerSequence**\n\nTriggers execution of a SlowSequence at its WaitTriggerSequence point, after an optional delay.");
        lemma_heading(d, "TriggerSequence"@, key);
    } else if key == "waitdigtrig"@ {
        reveal_strlit("waitdigtrig");
        reveal_strlit("WaitDigTrig");
        reveal_strlit("**WaitDigTrig**\n\nTriggers a measurement scan using an external digital signal instead of the datalogger's internal clock.");
        lemma_heading(d, "WaitDigTrig"@, key);
    }
}

#[verifier::spinoff_prover]
proof fn lemma_measurement_function_descriptions(key: Seq<char>)
    ensures
        measurement_function_descriptions(key) matches Some(d) ==> opens_with_heading(d, key),
{
    let d = measurement_function_descriptions(key)->0;
    if key == "windvector"@ {
        reveal_strlit("windvector");
        reveal_strlit("WindVector");
        reveal_strlit("**WindVector**\n\nProcesses raw wind speed/direction samples into mean wind speed, mean wind vector magnitude and direction, and standard deviation of wind direction.");
        lemma_heading(d, "WindVector"@, key);
    } else if key == "battery"@ {
        reveal_strlit("battery");
        reveal_strlit("Battery");
        reveal_strlit("**Battery**\n\nMeasures the voltage of the battery powering the datalogger.");
        lemma_heading(d, "Battery"@, key);
    } else if key == "paneltemp"@ {
        reveal_strlit("paneltemp");
        reveal_strlit("PanelTemp");
        reveal_strlit("**PanelTemp**\n\nMeasures the temperature of the datalogger wiring panel in degrees Celsius.");
        lemma_heading(d, "PanelTemp"@, key);
    } else if key == "voltse"@ {
        reveal_strlit("voltse");
        reveal_strlit("VoltSe");
        reveal_strlit("**VoltSe**\n\nMeasures single-ended voltage.");
        lemma_heading(d, "VoltSe"@, key);
    } else if key == "voltdiff"@ {
        reveal_strlit("voltdiff");
        reveal_strlit("VoltDiff");
        reveal_strlit("**VoltDiff**\n\nMeasures differential voltage.");
        lemma_heading(d, "VoltDiff"@, key);
    } else if key == "brhalf"@ {
        reveal_strlit("brhalf");
        reveal_strlit("BrHalf");
        reveal_strlit("**BrHalf**\n\nApplies an excitation voltage to a half bridge and measures the single-ended voltage output.");
        lemma_heading(d, "BrHalf"@, key);
    } else if key == "brfull"@ {
        reveal_strlit("brfull");
        reveal_strlit("BrFull");
        reveal_strlit("**BrFull**\n\nApplies an excitation voltage to a full bridge and measures the differential voltage output.");
        lemma_heading(d, "BrFull"@, key);
    } else if key == "therm107"@ {
        reveal_strlit("therm107");
        reveal_strlit("Therm107");
        reveal_strlit("**Therm107**\n\nMeasures temperature using a 107 thermistor.");
        lemma_heading(d, "Therm107"@, key);
    } else if key == "therm108"@ {
        reveal_strlit("therm108");
        reveal_strlit("Therm108");
        reveal_strlit("**Therm108**\n\nMeasures temperature using a 108 thermistor.");
        lemma_heading(d, "Therm108"@, key);
    } else if key == "therm109"@ {
        reveal_strlit("therm109");
        reveal_strlit("Therm109");
        reveal_strlit("**Therm109**\n\nMeasures temperature using a 109 thermistor.");
        lemma_heading(d, "Therm109"@, key);
    } else if key == "thermistor"@ {
        reveal_strlit("thermistor");
        reveal_strlit("Thermistor");
        reveal_strlit("**Thermistor**\n\nPerforms a bridge measurement of a thermistor, returning resistance in Ohms, or temperature in Celsius if Steinhart-Hart coefficients are given.");
        lemma_heading(d, "Thermistor"@, key);
    } else if key == "tcpsyc"@ {
        reveal_strlit("tcpsyc");
        reveal_strlit("TCPsyc");
        reveal_strlit("**TCPsyc**\n\nMeasures one or more Peltier-style thermocouple psychrometers, directly or via an AM16/32B multiplexer.");
        lemma_heading(d, "TCPsyc"@, key);
    } else if key == "periodavg"@ {
        reveal_strlit("periodavg");
        reveal_strlit("PeriodAvg");
        reveal_strlit("**PeriodAvg**\n\nMeasures the period or frequency of a signal on a single-ended channel.");
        lemma_heading(d, "PeriodAvg"@, key);
    } else if key == "pulsecount"@ {
        reveal_strlit("pulsecount");
        reveal_strlit("PulseCount");
        reveal_strlit("**PulseCount**\n\nMeasures pulse count from a sensor.");
        lemma_heading(d, "PulseCount"@, key);
    } else if key == "timerinput"@ {
        reveal_strlit("timerinput");
        reveal_strlit("TimerInput");
        reveal_strlit("**TimerInput**\n\nMeasures time intervals between edges, or frequency, on digital ports; can span across scan intervals.");
        lemma_heading(d, "TimerInput"@, key);
    } else if key == "portset"@ {
        reveal_strlit("portset");
        reveal_strlit("PortSet");
        reveal_strlit("**PortSet**\n\nSets a control port to a high or low state.");
        lemma_heading(d, "PortSet"@, key);
    } else if key == "pulseport"@ {
        reveal_strlit("pulseport");
        reveal_strlit("PulsePort");
        reveal_strlit("**PulsePort**\n\nToggles a port, delays, toggles it back, and delays again to generate a clocking pulse.");
        lemma_heading(d, "PulsePort"@, key);
    } else if key == "readio"@ {
        reveal_strlit("readio");
        reveal_strlit("ReadIO");
        reveal_strlit("**ReadIO**\n\nReads the status of one or more digital ports or terminals, storing the result in Dest.");
        lemma_heading(d, "ReadIO"@, key);
    } else if key == "writeio"@ {
        reveal_strlit("writeio");
        reveal_strlit("WriteIO");
        reveal_strlit("**WriteIO**\n\nSets the status of one or more digital control ports or universal terminals from Source.");
        lemma_heading(d, "WriteIO"@, key);
    } else if key == "excitev"@ {
        reveal_strlit("excitev");
        reveal_strlit("ExciteV");
        reveal_strlit("**ExciteV**\n\nSets an excitation channel output to a specified voltage for a specified duration.");
        lemma_heading(d, "ExciteV"@, key);
    } else if key == "excitei"@ {
        reveal_strlit("excitei");
        reveal_strlit("ExciteI");
        reveal_strlit("**ExciteI**\n\nApplies a current excitation to an excitation channel.");
        lemma_heading(d, "ExciteI"@, key);
    } else if key == "swvx"@ {
        reveal_strlit("swvx");
        reveal_strlit("SWVX");
        reveal_strlit("**SWVX**\n\nSets a switched, regulated VX excitation channel high or low to power external peripherals or toggle control lines.");
        lemma_heading(d, "SWVX"@, key);
    } else if key == "brhalf3w"@ {
        reveal_strlit("brhalf3w");
        reveal_strlit("BrHalf3W");
        reveal_strlit("**BrHalf3W**\n\nApplies an excitation voltage and measures a 3-wire half bridge to calculate the resistance ratio.");
        lemma_heading(d, "BrHalf3W"@, key);
    } else if key == "brhalf4w"@ {
        reveal_strlit("brhalf4w");
        reveal_strlit("BrHalf4W");
        reveal_strlit("**BrHalf4W**\n\nApplies an excitation voltage and makes two differential voltage measurements to measure a 4-wire half bridge.");
        lemma_heading(d, "BrHalf4W"@, key);
    } else if key == "brfull6w"@ {
        reveal_strlit("brfull6w");
        reveal_strlit("BrFull6W");
        reveal_strlit("**BrFull6W**\n\nApplies an excitation voltage and makes two differential voltage measurements to measure a 6-wire full bridge.");
        lemma_heading(d, "BrFull6W"@, key);
    } else if key == "tcse"@ {
        reveal_strlit("tcse");
        reveal_strlit("TCSE");
        reveal_strlit("**TCSE**\n\nMeasures a thermocouple on a single-ended channel and converts the reading to degrees Celsius.");
        lemma_heading(d, "TCSE"@, key);
    } else if key == "tcdiff"@ {
        reveal_strlit("tcdiff");
        reveal_strlit("TCDiff");
        reveal_strlit("**TCDiff**\n\nMeasures a thermocouple on a differential channel and converts the result to degrees Celsius.");
        lemma_heading(d, "TCDiff"@, key);
    } else if key == "resistance"@ {
        reveal_strlit("resistance");
        reveal_strlit("Resistance");
        reveal_strlit("**Resistance**\n\nMeasures the resistance of a basic or full-bridge circuit using current excitation.");
        lemma_heading(d, "Resistance"@, key);
    } else if key == "resistance3w"@ {
        reveal_strlit("resistance3w");
        reveal_strlit("Resistance3W");
        reveal_strlit("**Resistance3W**\n\nPerforms a 3-wire resistance measurement, using differential and reverse excitation to cancel voltage offset errors.");
        lemma_heading(d, "Resistance3W"@, key);
    } else if key == "watchdogtimer"@ {
        reveal_strlit("watchdogtimer");
        reveal_strlit("WatchdogTimer");
        reveal_strlit("**WatchdogTimer**\n\nEnables a user-programmed watchdog timer that guards the program against lockup.");
        lemma_heading(d, "WatchdogTimer"@, key);
    } else if key == "pwm"@ {
        reveal_strlit("pwm");
        reveal_strlit("PWM");
        reveal_strlit("**PWM**\n\nGenerates a pulse-width-modulated signal on a digital port at a specified duty cycle.");
        lemma_heading(d, "PWM"@, key);
    } else if key == "dewpoint"@ {
        reveal_strlit("dewpoint");
        reveal_strlit("DewPoint");
        reveal_strlit("**DewPoint**\n\nCalculates dew point temperature from air temperature and relative humidity.");
        lemma_heading(d, "DewPoint"@, key);
    } else if key == "csat3"@ {
        reveal_strlit("csat3");
        reveal_strlit("CSAT3");
        reveal_strlit("**CSAT3**\n\nControls and retrieves wind and sonic temperature data from a CSAT3 3D sonic anemometer via SDM.");
        lemma_heading(d, "CSAT3"@, key);
    } else if key == "csat3b"@ {
        reveal_strlit("csat3b");
        reveal_strlit("CSAT3B");
        reveal_strlit("**CSAT3B**\n\nControls and retrieves wind and sonic temperature data from a CSAT3B 3D sonic anemometer via SDM or CPI.");
        lemma_heading(d, "CSAT3B"@, key);
    } else if key == "csat3bmonitor"@ {
        reveal_strlit("csat3bmonitor");
        reveal_strlit("CSAT3BMonitor");
        reveal_strlit("**CSAT3BMonitor**\n\nRetrieves enclosure temperature, relative humidity, and inclination diagnostics from a CSAT3B.");
        lemma_heading(d, "CSAT3BMonitor"@, key);
    } else if key == "ec100"@ {
        reveal_strlit("ec100");
        reveal_strlit("EC100");
        reveal_strlit("**EC100**\n\nRetrieves measurement data from an EC100-based gas analyzer (EC150, EC155, IRGASON) via SDM.");
        lemma_heading(d, "EC100"@, key);
    } else if key == "ec100configure"@ {
        reveal_strlit("ec100configure");
        reveal_strlit("EC100Configure");
        reveal_strlit("**EC100Configure**\n\nReads or writes configuration settings on an EC100-based gas analyzer via SDM.");
        lemma_heading(d, "EC100Configure"@, key);
    } else if key == "li7200"@ {
        reveal_strlit("li7200");
        reveal_strlit("LI7200");
        reveal_strlit("**LI7200**\n\nMeasures CO2 and H2O concentration from an LI-7200 closed-path gas analyzer via SDM.");
        lemma_heading(d, "LI7200"@, key);
    } else if key == "li7700"@ {
        reveal_strlit("li7700");
        reveal_strlit("LI7700");
        reveal_strlit("**LI7700**\n\nMeasures methane concentration from an LI-7700 open-path gas analyzer via SDM.");
        lemma_heading(d, "LI7700"@, key);
    } else if key == "cdm_acpower"@ {
        reveal_strlit("cdm_acpower");
        reveal_strlit("CDM_ACPower");
        reveal_strlit("**CDM_ACPower**\n\nMeasures real AC power and power-quality parameters via a CDM module in single-phase, split-phase, or three-phase configurations.");
        lemma_heading(d, "CDM_ACPower"@, key);
    } else if key == "cdm_battery"@ {
        reveal_strlit("cdm_battery");
        reveal_strlit("CDM_Battery");
        reveal_strlit("**CDM_Battery**\n\nReads and returns a CDM module's own power-supply voltage.");
        lemma_heading(d, "CDM_Battery"@, key);
    } else if key == "cdm_brfull"@ {
        reveal_strlit("cdm_brfull");
        reveal_strlit("CDM_BrFull");
        reveal_strlit("**CDM_BrFull**\n\nMakes a 4-wire full-bridge measurement via a CDM module.");
        lemma_heading(d, "CDM_BrFull"@, key);
    } else if key == "cdm_brfull6w"@ {
        reveal_strlit("cdm_brfull6w");
        reveal_strlit("CDM_BrFull6W");
        reveal_strlit("**CDM_BrFull6W**\n\nMakes a 6-wire full-bridge measurement via a CDM module.");
        lemma_heading(d, "CDM_BrFull6W"@, key);
    } else if key == "cdm_brhalf"@ {
        reveal_strlit("cdm_brhalf");
        reveal_strlit("CDM_BrHalf");
        reveal_strlit("**CDM_BrHalf**\n\nMakes a single-ended half-bridge measurement via a CDM module.");
        lemma_heading(d, "CDM_BrHalf"@, key);
    } else if key == "cdm_brhalf3w"@ {
        reveal_strlit("cdm_brhalf3w");
        reveal_strlit("CDM_BrHalf3W");
        reveal_strlit("**CDM_BrHalf3W**\n\nMakes a 3-wire half-bridge measurement via a CDM module.");
        lemma_heading(d, "CDM_BrHalf3W"@, key);
    } else if key == "cdm_brhalf4w"@ {
        reveal_strlit("cdm_brhalf4w");
        reveal_strlit("CDM_BrHalf4W");
        reveal_strlit("**CDM_BrHalf4W**\n\nMakes a 4-wire half-bridge measurement via a CDM module, commonly used with PRTCalc for RTDs.");
        lemma_heading(d, "CDM_BrHalf4W"@, key);
    } else if key == "cdm_currentdiff"@ {
        reveal_strlit("cdm_currentdiff");
        reveal_strlit("CDM_CurrentDiff");
        reveal_strlit("**CDM_CurrentDiff**\n\nMakes a differential current-loop measurement via a CDM module.");
        lemma_heading(d, "CDM_CurrentDiff"@, key);
    } else if key == "cdm_delay"@ {
        reveal_strlit("cdm_delay");
        reveal_strlit("CDM_Delay");
        reveal_strlit("**CDM_Delay**\n\nDelays a CDM module's measurement or processing task sequence for a specified time.");
        lemma_heading(d, "CDM_Delay"@, key);
    } else if key == "cdm_excitei"@ {
        reveal_strlit("cdm_excitei");
        reveal_strlit("CDM_ExciteI");
        reveal_strlit("**CDM_ExciteI**\n\nApplies a current excitation to an excitation channel on a CDM module.");
        lemma_heading(d, "CDM_ExciteI"@, key);
    } else if key == "cdm_excitev"@ {
        reveal_strlit("cdm_excitev");
        reveal_strlit("CDM_ExciteV");
        reveal_strlit("**CDM_ExciteV**\n\nApplies a voltage excitation to an excitation channel on a CDM module.");
        lemma_heading(d, "CDM_ExciteV"@, key);
    } else if key == "cdm_muxselect"@ {
        reveal_strlit("cdm_muxselect");
        reveal_strlit("CDM_MuxSelect");
        reveal_strlit("**CDM_MuxSelect**\n\nWakes and clocks an AM16/32A or AM16/32B multiplexer to a starting channel via a CDM module.");
        lemma_heading(d, "CDM_MuxSelect"@, key);
    } else if key == "cdm_paneltemp"@ {
        reveal_strlit("cdm_paneltemp");
        reveal_strlit("CDM_PanelTemp");
        reveal_strlit("**CDM_PanelTemp**\n\nReads a CDM wiring-panel thermistor, for use as a thermocouple reference temperature.");
        lemma_heading(d, "CDM_PanelTemp"@, key);
    } else if key == "cdm_periodavg"@ {
        reveal_strlit("cdm_periodavg");
        reveal_strlit("CDM_PeriodAvg");
        reveal_strlit("**CDM_PeriodAvg**\n\nMeasures the period or frequency of a signal on a CDM single-ended channel.");
        lemma_heading(d, "CDM_PeriodAvg"@, key);
    } else if key == "cdm_pulseport"@ {
        reveal_strlit("cdm_pulseport");
        reveal_strlit("CDM_PulsePort");
        reveal_strlit("**CDM_PulsePort**\n\nToggles a CDM switched-5V digital port, delays, and toggles it again to generate a clock signal.");
        lemma_heading(d, "CDM_PulsePort"@, key);
    } else if key == "cdm_resistance"@ {
        reveal_strlit("cdm_resistance");
        reveal_strlit("CDM_Resistance");
        reveal_strlit("**CDM_Resistance**\n\nMeasures resistance via current excitation on a CDM module.");
        lemma_heading(d, "CDM_Resistance"@, key);
    } else if key == "cdm_resistance3w"@ {
        reveal_strlit("cdm_resistance3w");
        reveal_strlit("CDM_Resistance3W");
        reveal_strlit("**CDM_Resistance3W**\n\nMeasures resistance via current excitation using a 3-wire connection on a CDM module.");
        lemma_heading(d, "CDM_Resistance3W"@, key);
    } else if key == "cdm_sw12"@ {
        reveal_strlit("cdm_sw12");
        reveal_strlit("CDM_SW12");
        reveal_strlit("**CDM_SW12**\n\nSets a CDM switched-12V output port high or low to power external peripherals.");
        lemma_heading(d, "CDM_SW12"@, key);
    } else if key == "cdm_sw5"@ {
        reveal_strlit("cdm_sw5");
        reveal_strlit("CDM_SW5");
        reveal_strlit("**CDM_SW5**\n\nSets a CDM switched-5V output port high or low to power external peripherals.");
        lemma_heading(d, "CDM_SW5"@, key);
    } else if key == "cdm_swpower"@ {
        reveal_strlit("cdm_swpower");
        reveal_strlit("CDM_SWPower");
        reveal_strlit("**CDM_SWPower**\n\nSets the ganged switched-12V and switched-5V power output on a VOLT408 isolation module.");
        lemma_heading(d, "CDM_SWPower"@, key);
    } else if key == "cdm_tccomp"@ {
        reveal_strlit("cdm_tccomp");
        reveal_strlit("CDM_TCComp");
        reveal_strlit("**CDM_TCComp**\n\nMakes a differential thermocouple measurement with automatic cold-junction compensation via a CDM module.");
        lemma_heading(d, "CDM_TCComp"@, key);
    } else if key == "cdm_tcdiff"@ {
        reveal_strlit("cdm_tcdiff");
        reveal_strlit("CDM_TCDiff");
        reveal_strlit("**CDM_TCDiff**\n\nMakes a differential thermocouple measurement via a CDM module.");
        lemma_heading(d, "CDM_TCDiff"@, key);
    } else if key == "cdm_tcse"@ {
        reveal_strlit("cdm_tcse");
        reveal_strlit("CDM_TCSE");
        reveal_strlit("**CDM_TCSE**\n\nMakes a single-ended thermocouple measurement via a CDM module.");
        lemma_heading(d, "CDM_TCSE"@, key);
    } else if key == "cdm_therm107"@ {
        reveal_strlit("cdm_therm107");
        reveal_strlit("CDM_Therm107");
        reveal_strlit("**CDM_Therm107**\n\nMeasures a 107 thermistor probe via a CDM module.");
        lemma_heading(d, "CDM_Therm107"@, key);
    } else if key == "cdm_therm108"@ {
        reveal_strlit("cdm_therm108");
        reveal_strlit("CDM_Therm108");
        reveal_strlit("**CDM_Therm108**\n\nMeasures a 108 thermistor probe via a CDM module.");
        lemma_heading(d, "CDM_Therm108"@, key);
    } else if key == "cdm_therm109"@ {
        reveal_strlit("cdm_therm109");
        reveal_strlit("CDM_Therm109");
        reveal_strlit("**CDM_Therm109**\n\nMeasures a 109 thermistor probe via a CDM module.");
        lemma_heading(d, "CDM_Therm109"@, key);
    } else if key == "cdm_voltdiff"@ {
        reveal_strlit("cdm_voltdiff");
        reveal_strlit("CDM_VoltDiff");
        reveal_strlit("**CDM_VoltDiff**\n\nMakes a differential voltage measurement via a CDM module.");
        lemma_heading(d, "CDM_VoltDiff"@, key);
    } else if key == "cdm_voltse"@ {
        reveal_strlit("cdm_voltse");
        reveal_strlit("CDM_VoltSE");
        reveal_strlit("**CDM_VoltSE**\n\nMakes a single-ended voltage measurement via a CDM module.");
        lemma_heading(d, "CDM_VoltSE"@, key);
    } else if key == "cdm_vw300config"@ {
        reveal_strlit("cdm_vw300config");
        reveal_strlit("CDM_VW300Config");
        reveal_strlit("**CDM_VW300Config**\n\nSends configuration settings to a CDM-VW300 vibrating-wire spectrum analyzer; must precede BeginProg.");
        lemma_heading(d, "CDM_VW300Config"@, key);
    } else if key == "cdm_vw300dynamic"@ {
        reveal_strlit("cdm_vw300dynamic");
        reveal_strlit("CDM_VW300Dynamic");
        reveal_strlit("**CDM_VW300Dynamic**\n\nCaptures the dynamic resonant frequency output of a CDM-VW300 vibrating-wire spectrum analyzer.");
        lemma_heading(d, "CDM_VW300Dynamic"@, key);
    } else if key == "cdm_vw300rainflow"@ {
        reveal_strlit("cdm_vw300rainflow");
        reveal_strlit("CDM_VW300RainFlow");
        reveal_strlit("**CDM_VW300RainFlow**\n\nCaptures rainflow-histogram data from a CDM-VW300 vibrating-wire spectrum analyzer.");
        lemma_heading(d, "CDM_VW300RainFlow"@, key);
    } else if key == "cdm_vw300static"@ {
        reveal_strlit("cdm_vw300static");
        reveal_strlit("CDM_VW300Static");
        reveal_strlit("**CDM_VW300Static**\n\nCaptures the static resonant frequency, thermistor temperature, and frequency standard deviation from a CDM-VW300 vibrating-wire spectrum analyzer.");
        lemma_heading(d, "CDM_VW300Static"@, key);
    } else if key == "calibrate"@ {
        reveal_strlit("calibrate");
        reveal_strlit("Calibrate");
        reveal_strlit("**Calibrate**\n\nForces calibration of all analog channels under program control to compensate for temperature-related measurement errors.");
        lemma_heading(d, "Calibrate"@, key);
    } else if key == "fieldcal"@ {
        reveal_strlit("fieldcal");
        reveal_strlit("FieldCal");
        reveal_strlit("**FieldCal**\n\nSets up the datalogger to perform calibration of one or more variables in an array.");
        lemma_heading(d, "FieldCal"@, key);
    } else if key == "fieldcalstrain"@ {
        reveal_strlit("fieldcalstrain");
        reveal_strlit("FieldCalStrain");
        reveal_strlit("**FieldCalStrain**\n\nSets up the datalogger to perform a zero or shunt calibration for a strain measurement.");
        lemma_heading(d, "FieldCalStrain"@, key);
    } else if key == "loadfieldcal"@ {
        reveal_strlit("loadfieldcal");
        reveal_strlit("LoadFieldCal");
        reveal_strlit("**LoadFieldCal**\n\nLoads values from the FieldCal file into datalogger variables, returning True if successful.");
        lemma_heading(d, "LoadFieldCal"@, key);
    } else if key == "samplefieldcal"@ {
        reveal_strlit("samplefieldcal");
        reveal_strlit("SampleFieldCal");
        reveal_strlit("**SampleFieldCal**\n\nStores the values in the FieldCal file to a data table; used inside a DataTable/EndTable declaration.");
        lemma_heading(d, "SampleFieldCal"@, key);
    } else if key == "calfile"@ {
        reveal_strlit("calfile");
        reveal_strlit("CalFile");
        reveal_strlit("**CalFile**\n\nWrites an array to a calibration file, or reads a calibration file back into an array if its signature matches.");
        lemma_heading(d, "CalFile"@, key);
    } else if key == "newfieldcal"@ {
        reveal_strlit("newfieldcal");
        reveal_strlit("NewFieldCal");
        reveal_strlit("**NewFieldCal**\n\nA Boolean DataTable trigger that is true for one scan cycle after a new field calibration has been performed.");
        lemma_heading(d, "NewFieldCal"@, key);
    } else if key == "acpower"@ {
        reveal_strlit("acpower");
        reveal_strlit("ACPower");
        reveal_strlit("**ACPower**\n\nMeasures real AC power and power-quality parameters for single-phase, split-phase, or three-phase Y systems.");
        lemma_heading(d, "ACPower"@, key);
    } else if key == "am25t"@ {
        reveal_strlit("am25t");
        reveal_strlit("AM25T");
        reveal_strlit("**AM25T**\n\nControls and measures the AM25T thermocouple multiplexer.");
        lemma_heading(d, "AM25T"@, key);
    } else if key == "avw200"@ {
        reveal_strlit("avw200");
        reveal_strlit("AVW200");
        reveal_strlit("**AVW200**\n\nReads vibrating-wire sensors via an AVW200 spectrum analyzer.");
        lemma_heading(d, "AVW200"@, key);
    } else if key == "vibratingwire"@ {
        reveal_strlit("vibratingwire");
        reveal_strlit("VibratingWire");
        reveal_strlit("**VibratingWire**\n\nMeasures one or more vibrating-wire sensors by sweeping an excitation frequency and detecting the sensor's resonant frequency.");
        lemma_heading(d, "VibratingWire"@, key);
    } else if key == "cs616"@ {
        reveal_strlit("cs616");
        reveal_strlit("CS616");
        reveal_strlit("**CS616**\n\nEnables and measures a CS616/CS625 water content reflectometer.");
        lemma_heading(d, "CS616"@, key);
    } else if key == "cs7500"@ {
        reveal_strlit("cs7500");
        reveal_strlit("CS7500");
        reveal_strlit("**CS7500**\n\nCommunicates with a LI-7500(A) gas analyzer via SDM.");
        lemma_heading(d, "CS7500"@, key);
    } else if key == "currentse"@ {
        reveal_strlit("currentse");
        reveal_strlit("CurrentSE");
        reveal_strlit("**CurrentSE**\n\nMeasures single-ended current via the datalogger's internal shunt resistor.");
        lemma_heading(d, "CurrentSE"@, key);
    } else if key == "hydraprobe"@ {
        reveal_strlit("hydraprobe");
        reveal_strlit("HydraProbe");
        reveal_strlit("**HydraProbe**\n\nConverts raw voltages from a Stevens Hydra Probe sensor into soil measurements.");
        lemma_heading(d, "HydraProbe"@, key);
    } else if key == "tdr100"@ {
        reveal_strlit("tdr100");
        reveal_strlit("TDR100");
        reveal_strlit("**TDR100**\n\nMeasures time-domain-reflectometry probes via a TDR100 device.");
        lemma_heading(d, "TDR100"@, key);
    } else if key == "tdr200"@ {
        reveal_strlit("tdr200");
        reveal_strlit("TDR200");
        reveal_strlit("**TDR200**\n\nMeasures time-domain-reflectometry probes via a TDR200 device.");
        lemma_heading(d, "TDR200"@, key);
    } else if key == "tga"@ {
        reveal_strlit("tga");
        reveal_strlit("TGA");
        reveal_strlit("**TGA**\n\nMeasures a TGA100A/TGA200/TGA200A trace gas analyzer via SDM.");
        lemma_heading(d, "TGA"@, key);
    } else if key == "quadrature"@ {
        reveal_strlit("quadrature");
        reveal_strlit("Quadrature");
        reveal_strlit("**Quadrature**\n\nMeasures a shaft quadrature encoder to determine displacement and rotational direction.");
        lemma_heading(d, "Quadrature"@, key);
    } else if key == "sw12"@ {
        reveal_strlit("sw12");
        reveal_strlit("SW12");
        reveal_strlit("**SW12**\n\nEnables or disables a switched-12V output channel to power external peripherals.");
        lemma_heading(d, "SW12"@, key);
    } else if key == "etsz"@ {
        reveal_strlit("etsz");
        reveal_strlit("ETsz");
        reveal_strlit("**ETsz**\n\nCalculates the ASCE standardized reference evapotranspiration.");
        lemma_heading(d, "ETsz"@, key);
    } else if key == "solarposition"@ {
        reveal_strlit("solarposition");
        reveal_strlit("SolarPosition");
        reveal_strlit("**SolarPosition**\n\nCalculates solar azimuth, elevation, hour angle, declination, and air mass.");
        lemma_heading(d, "SolarPosition"@, key);
    } else if key == "wetdrybulb"@ {
        reveal_strlit("wetdrybulb");
        reveal_strlit("WetDryBulb");
        reveal_strlit("**WetDryBulb**\n\nComputes vapor pressure from wet-bulb and dry-bulb temperatures and barometric pressure.");
        lemma_heading(d, "WetDryBulb"@, key);
    } else if key == "muxselect"@ {
        reveal_strlit("muxselect");
        reveal_strlit("MuxSelect");
        reveal_strlit("**MuxSelect**\n\nSelects a channel on an AM16/32A or AM16/32B multiplexer and readies it for measurement.");
        lemma_heading(d, "MuxSelect"@, key);
    } else if key == "pulsecountreset"@ {
        reveal_strlit("pulsecountreset");
        reveal_strlit("PulseCountReset");
        reveal_strlit("**PulseCountReset**\n\nResets the pulse counter and running-average values associated with pulse count measurements.");
        lemma_heading(d, "PulseCountReset"@, key);
    } else if key == "prt"@ {
        reveal_strlit("prt");
        reveal_strlit("PRT");
        reveal_strlit("**PRT**\n\nConverts RTD resistance measurements to temperature using the DIN 43760 standard.");
        lemma_heading(d, "PRT"@, key);
    } else if key == "prtcalc"@ {
        reveal_strlit("prtcalc");
        reveal_strlit("PRTCalc");
        reveal_strlit("**PRTCalc**\n\nConverts RTD resistance measurements to temperature using the Callendar-Van Dusen equation.");
        lemma_heading(d, "PRTCalc"@, key);
    } else if key == "moveprecise"@ {
        reveal_strlit("moveprecise");
        reveal_strlit("MovePrecise");
        reveal_strlit("**MovePrecise**\n\nTransfers a value into a variable as a high-precision (56-bit mantissa) number.");
        lemma_heading(d, "MovePrecise"@, key);
    } else if key == "addprecise"@ {
        reveal_strlit("addprecise");
        reveal_strlit("AddPrecise");
        reveal_strlit("**AddPrecise**\n\nPerforms high-precision addition, reducing floating-point rounding error in running totals.");
        lemma_heading(d, "AddPrecise"@, key);
    } else if key == "pwr"@ {
        reveal_strlit("pwr");
        reveal_strlit("PWR");
        reveal_strlit("**PWR**\n\nRaises X to the power of Y and returns a floating-point result.");
        lemma_heading(d, "PWR"@, key);
    } else if key == "ctype"@ {
        reveal_strlit("ctype");
        reveal_strlit("CType");
        reveal_strlit("**CType**\n\nConverts an expression to a specified data type (Float, IEEE4, Long, String, or Double).");
        lemma_heading(d, "CType"@, key);
    } else if key == "avgrun"@ {
        reveal_strlit("avgrun");
        reveal_strlit("AvgRun");
        reveal_strlit("**AvgRun**\n\nComputes a running average over the last Number values of a measurement.");
        lemma_heading(d, "AvgRun"@, key);
    } else if key == "maxrun"@ {
        reveal_strlit("maxrun");
        reveal_strlit("MaxRun");
        reveal_strlit("**MaxRun**\n\nComputes a running maximum over the last Number values of a measurement.");
        lemma_heading(d, "MaxRun"@, key);
    } else if key == "minrun"@ {
        reveal_strlit("minrun");
        reveal_strlit("MinRun");
        reveal_strlit("**MinRun**\n\nComputes a running minimum over the last Number values of a measurement.");
        lemma_heading(d, "MinRun"@, key);
    } else if key == "totalrun"@ {
        reveal_strlit("totalrun");
        reveal_strlit("TotalRun");
        reveal_strlit("**TotalRun**\n\nComputes a running total over the last Number values of a measurement.");
        lemma_heading(d, "TotalRun"@, key);
    } else if key == "avgspa"@ {
        reveal_strlit("avgspa");
        reveal_strlit("AvgSpa");
        reveal_strlit("**AvgSpa**\n\nComputes the spatial average of a measurement across array elements.");
        lemma_heading(d, "AvgSpa"@, key);
    } else if key == "covspa"@ {
        reveal_strlit("covspa");
        reveal_strlit("CovSpa");
        reveal_strlit("**CovSpa**\n\nComputes spatial covariance between a reference data set and one or more comparison data sets.");
        lemma_heading(d, "CovSpa"@, key);
    } else if key == "maxspa"@ {
        reveal_strlit("maxspa");
        reveal_strlit("MaxSpa");
        reveal_strlit("**MaxSpa**\n\nLocates the maximum value and its position within an array.");
        lemma_heading(d, "MaxSpa"@, key);
    } else if key == "rmsspa"@ {
        reveal_strlit("rmsspa");
        reveal_strlit("RMSSpa");
        reveal_strlit("**RMSSpa**\n\nComputes the spatial root-mean-square value across array elements.");
        lemma_heading(d, "RMSSpa"@, key);
    } else if key == "stddevspa"@ {
        reveal_strlit("stddevspa");
        reveal_strlit("StdDevSpa");
        reveal_strlit("**StdDevSpa**\n\nComputes the spatial standard deviation across array elements.");
        lemma_heading(d, "StdDevSpa"@, key);
    } else if key == "fftspa"@ {
        reveal_strlit("fftspa");
        reveal_strlit("FFTSpa");
        reveal_strlit("**FFTSpa**\n\nPerforms a Fast Fourier Transform on time-series data, for use mid-program rather than as a table entry.");
        lemma_heading(d, "FFTSpa"@, key);
    } else if key == "serialinchk"@ {
        reveal_strlit("serialinchk");
        reveal_strlit("SerialInChk");
        reveal_strlit("**SerialInChk**\n\nReturns the number of characters currently available in the serial input buffer.");
        lemma_heading(d, "SerialInChk"@, key);
    } else if key == "setsecurity"@ {
        reveal_strlit("setsecurity");
        reveal_strlit("SetSecurity");
        reveal_strlit("**SetSecurity**\n\nEstablishes up to three hierarchical security levels restricting access to datalogger functions.");
        lemma_heading(d, "SetSecurity"@, key);
    }
}

#[verifier::spinoff_prover]
proof fn lemma_keyword_descriptions(key: Seq<char>)
    ensures
        keyword_descriptions(key) matches Some(d) ==> opens_with_heading(d, key),
{
    let d = keyword_descriptions(key)->0;
    if key == "if"@ {
        reveal_strlit("if");
        reveal_strlit("If");
        reveal_strlit("**If**\n\nConditional statement. Executes code block if condition is true.\n\n```crbasic\nIf condition Then\n  ' statements\nEndIf\n```");
        lemma_heading(d, "If"@, key);
    } else if key == "then"@ {
        reveal_strlit("then");
        reveal_strlit("Then");
        reveal_strlit("**Then**\n\nPart of If statement. Follows the condition.");
        lemma_heading(d, "Then"@, key);
    } else if key == "else"@ {
        reveal_strlit("else");
        reveal_strlit("Else");
        reveal_strlit("**Else**\n\nAlternative branch in If statement. Executes when condition is false.");
        lemma_heading(d, "Else"@, key);
    } else if key == "elseif"@ {
        reveal_strlit("elseif");
        reveal_strlit("ElseIf");
        reveal_strlit("**ElseIf**\n\nAdditional conditional branch in If statement.");
        lemma_heading(d, "ElseIf"@, key);
    } else if key == "endif"@ {
        reveal_strlit("endif");
        reveal_strlit("EndIf");
        reveal_strlit("**EndIf**\n\nTerminates an If block.");
        lemma_heading(d, "EndIf"@, key);
    } else if key == "#if"@ {
        reveal_strlit("#if");
        reveal_strlit("#If");
        reveal_strlit("**#If**\n\nCompile-time conditional. Includes the following code only when the condition holds -- compared against `LoggerType` or a `Const`.\n\n```crbasic\n#If LoggerType = GRANITE6\n  ' statements\n#EndIf\n```");
        lemma_heading(d, "#If"@, key);
    } else if key == "#elseif"@ {
        reveal_strlit("#elseif");
        reveal_strlit("#ElseIf");
        reveal_strlit("**#ElseIf**\n\nAdditional compile-time conditional branch, following `#If`.");
        lemma_heading(d, "#ElseIf"@, key);
    } else if key == "#else"@ {
        reveal_strlit("#else");
        reveal_strlit("#Else");
        reveal_strlit("**#Else**\n\nAlternative compile-time branch, following `#If`/`#IfDef`.");
        lemma_heading(d, "#Else"@, key);
    } else if key == "#endif"@ {
        reveal_strlit("#endif");
        reveal_strlit("#EndIf");
        reveal_strlit("**#EndIf**\n\nTerminates a `#If`/`#IfDef` block.");
        lemma_heading(d, "#EndIf"@, key);
    } else if key == "#ifdef"@ {
        reveal_strlit("#ifdef");
        reveal_strlit("#IfDef");
        reveal_strlit("**#IfDef**\n\nCompile-time check for whether a `Const` has already been declared.\n\n```crbasic\nConst FINAL = 1\n#IfDef FINAL Then\n  Public Testing\n#EndIf\n```");
        lemma_heading(d, "#IfDef"@, key);
    } else if key == "#undef"@ {
        reveal_strlit("#undef");
        reveal_strlit("#UnDef");
        reveal_strlit("**#UnDef**\n\nUn-declares a `Const` so it can be redeclared -- typically used with `Include` to stitch together library files that each define their own same-named constants.");
        lemma_heading(d, "#UnDef"@, key);
    } else if key == "for"@ {
        reveal_strlit("for");
        reveal_strlit("For");
        reveal_strlit("**For**\n\nLoop statement with counter.\n\n```crbasic\nFor i = 1 To 10 Step 1\n  ' statements\nNext i\n```");
        lemma_heading(d, "For"@, key);
    } else if key == "to"@ {
        reveal_strlit("to");
        reveal_strlit("To");
        reveal_strlit("**To**\n\nSpecifies the end value in a For loop.");
        lemma_heading(d, "To"@, key);
    } else if key == "step"@ {
        reveal_strlit("step");
        reveal_strlit("Step");
        reveal_strlit("**Step**\n\nSpecifies the increment value in a For loop. Default is 1.");
        lemma_heading(d, "Step"@, key);
    } else if key == "next"@ {
        reveal_strlit("next");
        reveal_strlit("Next");
        reveal_strlit("**Next**\n\nTerminates a For loop and increments the counter.");
        lemma_heading(d, "Next"@, key);
    } else if key == "do"@ {
        reveal_strlit("do");
        reveal_strlit("Do");
        reveal_strlit("**Do**\n\nLoop statement.\n\n```crbasic\nDo While condition\n  ' statements\nLoop\n```");
        lemma_heading(d, "Do"@, key);
    } else if key == "loop"@ {
        reveal_strlit("loop");
        reveal_strlit("Loop");
        reveal_strlit("**Loop**\n\nTerminates a Do block.");
        lemma_heading(d, "Loop"@, key);
    } else if key == "while"@ {
        reveal_strlit("while");
        reveal_strlit("While");
        reveal_strlit("**While**\n\nLoop condition. Used with `Do`/`Loop`, or as the start of a standalone `While`/`Wend` loop.\n\n```crbasic\nWhile condition\n  ' statements\nWend\n```");
        lemma_heading(d, "While"@, key);
    } else if key == "wend"@ {
        reveal_strlit("wend");
        reveal_strlit("Wend");
        reveal_strlit("**Wend**\n\nTerminates a While loop.");
        lemma_heading(d, "Wend"@, key);
    } else if key == "until"@ {
        reveal_strlit("until");
        reveal_strlit("Until");
        reveal_strlit("**Until**\n\nLoop condition, the inverse of `While`. Used with `Do`/`Loop` at either the start or end of the block.\n\n```crbasic\nDo Until condition\n  ' statements\nLoop\n```");
        lemma_heading(d, "Until"@, key);
    } else if key == "exitfor"@ {
        reveal_strlit("exitfor");
        reveal_strlit("ExitFor");
        reveal_strlit("**ExitFor**\n\nImmediately exits a For loop.");
        lemma_heading(d, "ExitFor"@, key);
    } else if key == "exitdo"@ {
        reveal_strlit("exitdo");
        reveal_strlit("ExitDo");
        reveal_strlit("**ExitDo**\n\nImmediately exits a Do loop.");
        lemma_heading(d, "ExitDo"@, key);
    } else if key == "debugbreak"@ {
        reveal_strlit("debugbreak");
        reveal_strlit("DebugBreak");
        reveal_strlit("**DebugBreak**\n\nSuspends program execution at this line when running under the CRBasic debugger.");
        lemma_heading(d, "DebugBreak"@, key);
    } else if key == "restart"@ {
        reveal_strlit("restart");
        reveal_strlit("Restart");
        reveal_strlit("**Restart**\n\nStops and restarts the running program.");
        lemma_heading(d, "Restart"@, key);
    } else if key == "select"@ {
        reveal_strlit("select");
        reveal_strlit("Select");
        reveal_strlit("**Select**\n\nMulti-way branch statement.\n\n```crbasic\nSelect Case expression\n  Case value1\n    ' statements\n  Case Else\n    ' default\nEndSelect\n```");
        lemma_heading(d, "Select"@, key);
    } else if key == "case"@ {
        reveal_strlit("case");
        reveal_strlit("Case");
        reveal_strlit("**Case**\n\nSpecifies a branch in a Select statement.");
        lemma_heading(d, "Case"@, key);
    } else if key == "is"@ {
        reveal_strlit("is");
        reveal_strlit("Is");
        reveal_strlit("**Is**\n\nUsed with a comparison operator in a Case clause (e.g. `Case Is > 10`).");
        lemma_heading(d, "Is"@, key);
    } else if key == "endselect"@ {
        reveal_strlit("endselect");
        reveal_strlit("EndSelect");
        reveal_strlit("**EndSelect**\n\nTerminates a Select block.");
        lemma_heading(d, "EndSelect"@, key);
    } else if key == "endmenu"@ {
        reveal_strlit("endmenu");
        reveal_strlit("EndMenu");
        reveal_strlit("**EndMenu**\n\nTerminates a `DisplayMenu` block.\n\n```crbasic\nDisplayMenu(\"MenuName\", 1, 1)\n  ' menu items\nEndMenu\n```");
        lemma_heading(d, "EndMenu"@, key);
    } else if key == "endsubmenu"@ {
        reveal_strlit("endsubmenu");
        reveal_strlit("EndSubMenu");
        reveal_strlit("**EndSubMenu**\n\nTerminates a `SubMenu` block nested inside a `DisplayMenu`.");
        lemma_heading(d, "EndSubMenu"@, key);
    } else if key == "nextscan"@ {
        reveal_strlit("nextscan");
        reveal_strlit("NextScan");
        reveal_strlit("**NextScan**\n\nMarks the end of a Scan loop.");
        lemma_heading(d, "NextScan"@, key);
    } else if key == "continuescan"@ {
        reveal_strlit("continuescan");
        reveal_strlit("ContinueScan");
        reveal_strlit("**ContinueScan**\n\nJumps to `NextScan`, skipping the remaining instructions in the current scan.");
        lemma_heading(d, "ContinueScan"@, key);
    } else if key == "nextsubscan"@ {
        reveal_strlit("nextsubscan");
        reveal_strlit("NextSubScan");
        reveal_strlit("**NextSubScan**\n\nMarks the end of a SubScan block.");
        lemma_heading(d, "NextSubScan"@, key);
    } else if key == "slowsequence"@ {
        reveal_strlit("slowsequence");
        reveal_strlit("SlowSequence");
        reveal_strlit("**SlowSequence**\n\nBegins a slow sequence scan block, for measurements at a slower rate than the main scan.\n\n```crbasic\nSlowSequence\n  Scan(...)\n    ' statements\n  NextScan\nEndSequence\n```");
        lemma_heading(d, "SlowSequence"@, key);
    } else if key == "endsequence"@ {
        reveal_strlit("endsequence");
        reveal_strlit("EndSequence");
        reveal_strlit("**EndSequence**\n\nTerminates a SlowSequence block.");
        lemma_heading(d, "EndSequence"@, key);
    } else if key == "waittriggersequence"@ {
        reveal_strlit("waittriggersequence");
        reveal_strlit("WaitTriggerSequence");
        reveal_strlit("**WaitTriggerSequence**\n\nMarks a resume-point inside a `SlowSequence`, suspending execution there until the trigger condition is met again.");
        lemma_heading(d, "WaitTriggerSequence"@, key);
    } else if key == "exitscan"@ {
        reveal_strlit("exitscan");
        reveal_strlit("ExitScan");
        reveal_strlit("**ExitScan**\n\nExits the current Scan loop immediately, regardless of the scan Count.");
        lemma_heading(d, "ExitScan"@, key);
    } else if key == "public"@ {
        reveal_strlit("public");
        reveal_strlit("Public");
        reveal_strlit("**Public**\n\nDeclares a public (global) variable that can be monitored and logged.\n\n```crbasic\nPublic Temp_C As Float\n```");
        lemma_heading(d, "Public"@, key);
    } else if key == "dim"@ {
        reveal_strlit("dim");
        reveal_strlit("Dim");
        reveal_strlit("**Dim**\n\nDeclares a local (scratch) variable. Not accessible for monitoring.\n\n```crbasic\nDim i As Long\n```");
        lemma_heading(d, "Dim"@, key);
    } else if key == "const"@ {
        reveal_strlit("const");
        reveal_strlit("Const");
        reveal_strlit("**Const**\n\nDeclares a constant value that cannot be changed.\n\n```crbasic\nConst PI = 3.14159\n```");
        lemma_heading(d, "Const"@, key);
    } else if key == "alias"@ {
        reveal_strlit("alias");
        reveal_strlit("Alias");
        reveal_strlit("**Alias**\n\nDefines an alternative name for a variable.");
        lemma_heading(d, "Alias"@, key);
    } else if key == "as"@ {
        reveal_strlit("as");
        reveal_strlit("As");
        reveal_strlit("**As**\n\nSpecifies the data type in a variable declaration.\n\nTypes: Float, Long, String, Boolean");
        lemma_heading(d, "As"@, key);
    } else if key == "units"@ {
        reveal_strlit("units");
        reveal_strlit("Units");
        reveal_strlit("**Units**\n\nSpecifies the engineering units for a variable.");
        lemma_heading(d, "Units"@, key);
    } else if key == "readonly"@ {
        reveal_strlit("readonly");
        reveal_strlit("ReadOnly");
        reveal_strlit("**ReadOnly**\n\nMarks one or more previously declared `Public` variables as visible for monitoring but not externally editable.\n\n```crbasic\nPublic Mult, Offset\nReadOnly Mult, Offset\n```");
        lemma_heading(d, "ReadOnly"@, key);
    } else if key == "optional"@ {
        reveal_strlit("optional");
        reveal_strlit("Optional");
        reveal_strlit("**Optional**\n\nMarks a `Function`/`Sub` parameter as optional.\n\n```crbasic\nFunction Scale(a, Optional b)\n  ...\nEndFunction\n```");
        lemma_heading(d, "Optional"@, key);
    } else if key == "include"@ {
        reveal_strlit("include");
        reveal_strlit("Include");
        reveal_strlit("**Include**\n\nPulls in an external CRBasic source file.\n\n```crbasic\nInclude \"cpu:Sensor_PT500_Lib.crb\"\n```");
        lemma_heading(d, "Include"@, key);
    } else if key == "beginprog"@ {
        reveal_strlit("beginprog");
        reveal_strlit("BeginProg");
        reveal_strlit("**BeginProg**\n\nMarks the start of the main program execution block.");
        lemma_heading(d, "BeginProg"@, key);
    } else if key == "endprog"@ {
        reveal_strlit("endprog");
        reveal_strlit("EndProg");
        reveal_strlit("**EndProg**\n\nMarks the end of the main program execution block.");
        lemma_heading(d, "EndProg"@, key);
    } else if key == "sequentialmode"@ {
        reveal_strlit("sequentialmode");
        reveal_strlit("SequentialMode");
        reveal_strlit("**SequentialMode**\n\nForces the datalogger to run in sequential execution mode. Placed before `BeginProg`.");
        lemma_heading(d, "SequentialMode"@, key);
    } else if key == "pipelinemode"@ {
        reveal_strlit("pipelinemode");
        reveal_strlit("PipeLineMode");
        reveal_strlit("**PipeLineMode**\n\nForces the datalogger to run in pipeline execution mode. Placed before `BeginProg`.");
        lemma_heading(d, "PipeLineMode"@, key);
    } else if key == "preservevariables"@ {
        reveal_strlit("preservevariables");
        reveal_strlit("PreserveVariables");
        reveal_strlit("**PreserveVariables**\n\nRetains the values of all `Dim`/`Public` variables in memory across a power loss. Placed before `BeginProg`.");
        lemma_heading(d, "PreserveVariables"@, key);
    } else if key == "angledegrees"@ {
        reveal_strlit("angledegrees");
        reveal_strlit("AngleDegrees");
        reveal_strlit("**AngleDegrees**\n\nSwitches `ATN`/`ATN2`/`ACOS`/`ASIN`/`RectPolar` to return degrees (instead of radians) and `COS`/`TAN`/`SIN` to interpret their arguments as degrees. Placed before `BeginProg`.");
        lemma_heading(d, "AngleDegrees"@, key);
    } else if key == "applyandrestartsequence"@ {
        reveal_strlit("applyandrestartsequence");
        reveal_strlit("ApplyAndRestartSequence");
        reveal_strlit("**ApplyAndRestartSequence**\n\nRuns arbitrary code when the `ConstTable` it follows has its `ApplyAndRestart` setting externally set (e.g. via `SetSetting`), typically to validate the table's new constant values before triggering the restart itself. Declared after the `ConstTable` it applies to, both before `BeginProg`.\n\n```crbasic\nConstTable(TableName, Hidden)\n  Const A = 1\nEndConstTable\nApplyAndRestartSequence\n  ' validation code\n  SetSetting(\"TableName.ApplyAndRestart\", 1)\nEndApplyAndRestartSequence\n```");
        lemma_heading(d, "ApplyAndRestartSequence"@, key);
    } else if key == "endapplyandrestartsequence"@ {
        reveal_strlit("endapplyandrestartsequence");
        reveal_strlit("EndApplyAndRestartSequence");
        reveal_strlit("**EndApplyAndRestartSequence**\n\nTerminates an ApplyAndRestartSequence block.");
        lemma_heading(d, "EndApplyAndRestartSequence"@, key);
    } else if key == "shutdownbegin"@ {
        reveal_strlit("shutdownbegin");
        reveal_strlit("ShutDownBegin");
        reveal_strlit("**ShutDownBegin**\n\nRuns cleanup code (e.g. closing a serial port) when the program stops normally. Placed before `BeginProg`.\n\n```crbasic\nShutDownBegin\n  SerialClose(ComC1)\nShutDownEnd\n```");
        lemma_heading(d, "ShutDownBegin"@, key);
    } else if key == "shutdownend"@ {
        reveal_strlit("shutdownend");
        reveal_strlit("ShutDownEnd");
        reveal_strlit("**ShutDownEnd**\n\nTerminates a ShutDownBegin block.");
        lemma_heading(d, "ShutDownEnd"@, key);
    } else if key == "essinitialize"@ {
        reveal_strlit("essinitialize");
        reveal_strlit("ESSInitialize");
        reveal_strlit("**ESSInitialize**\n\nInitializes the NTCIP Environmental Sensor Station SNMP agent for roadway-weather/DOT telemetry programs. Takes an optional SNMP read/write community string. Placed directly after `BeginProg`.\n\n```crbasic\nBeginProg\n  ESSInitialize(\"private, public\")\nEndProg\n```");
        lemma_heading(d, "ESSInitialize"@, key);
    } else if key == "essvariables"@ {
        reveal_strlit("essvariables");
        reveal_strlit("ESSVariables");
        reveal_strlit("**ESSVariables**\n\nAuto-declares the standard set of NTCIP Environmental Sensor Station variables (used with `ESSInitialize` for roadway-weather/DOT telemetry programs). Takes an optional `Public` or `Dim` modifier (defaults to `Public`).\n\n```crbasic\nESSVariables Dim\n```");
        lemma_heading(d, "ESSVariables"@, key);
    } else if key == "webpageend"@ {
        reveal_strlit("webpageend");
        reveal_strlit("WebPageEnd");
        reveal_strlit("**WebPageEnd**\n\nTerminates a `WebPageBegin` block.\n\n```crbasic\nWebPageBegin(\"Page1\", 1)\n  HTTPOut(\"Hello\", \"text/html\")\nWebPageEnd\n```");
        lemma_heading(d, "WebPageEnd"@, key);
    } else if key == "endmodemhangup"@ {
        reveal_strlit("endmodemhangup");
        reveal_strlit("EndModemHangup");
        reveal_strlit("**EndModemHangup**\n\nTerminates a `ModemHangup` block.\n\n```crbasic\nModemHangup(ComC1)\n  ' cleanup instructions\nEndModemHangup\n```");
        lemma_heading(d, "EndModemHangup"@, key);
    } else if key == "voicebeg"@ {
        reveal_strlit("voicebeg");
        reveal_strlit("VoiceBeg");
        reveal_strlit("**VoiceBeg**\n\nBegins a block of voice-modem response code.\n\n```crbasic\nVoiceBeg\n  ' voice response instructions\nEndVoice\n```");
        lemma_heading(d, "VoiceBeg"@, key);
    } else if key == "endvoice"@ {
        reveal_strlit("endvoice");
        reveal_strlit("EndVoice");
        reveal_strlit("**EndVoice**\n\nTerminates a VoiceBeg block.");
        lemma_heading(d, "EndVoice"@, key);
    } else if key == "datatable"@ {
        reveal_strlit("datatable");
        reveal_strlit("DataTable");
        reveal_strlit("**DataTable**\n\nDefines a data table for storing measurements.\n\n```crbasic\nDataTable(TableName, TriggerCondition, Size)\n  ' output instructions\nEndTable\n```");
        lemma_heading(d, "DataTable"@, key);
    } else if key == "endtable"@ {
        reveal_strlit("endtable");
        reveal_strlit("EndTable");
        reveal_strlit("**EndTable**\n\nTerminates a DataTable block.");
        lemma_heading(d, "EndTable"@, key);
    } else if key == "tablehide"@ {
        reveal_strlit("tablehide");
        reveal_strlit("TableHide");
        reveal_strlit("**TableHide**\n\nSuppresses the display and data collection of this DataTable in datalogger memory. Placed immediately after the DataTable statement.");
        lemma_heading(d, "TableHide"@, key);
    } else if key == "openinterval"@ {
        reveal_strlit("openinterval");
        reveal_strlit("OpenInterval");
        reveal_strlit("**OpenInterval**\n\nMakes time series processing include all measurements since the last data storage, spanning any missed output intervals, instead of only the current interval.");
        lemma_heading(d, "OpenInterval"@, key);
    } else if key == "fillstop"@ {
        reveal_strlit("fillstop");
        reveal_strlit("FillStop");
        reveal_strlit("**FillStop**\n\nStops data storage once this DataTable reaches its configured size, instead of the default ring-memory behavior of overwriting the oldest records. Used within the DataTable declaration.");
        lemma_heading(d, "FillStop"@, key);
    } else if key == "calltable"@ {
        reveal_strlit("calltable");
        reveal_strlit("CallTable");
        reveal_strlit("**CallTable**\n\nInvokes a previously declared DataTable: checks its trigger condition and stores a record if it fires. A bare keyword, not a parenthesized call.\n\n```crbasic\nCallTable TableName\n```");
        lemma_heading(d, "CallTable"@, key);
    } else if key == "consttable"@ {
        reveal_strlit("consttable");
        reveal_strlit("ConstTable");
        reveal_strlit("**ConstTable**\n\nDefines a block of constants that field technicians can edit and recompile without touching the constants' use sites. The second parameter, `Hidden`, is 1 to create a table visible only at the highest security level, or 0 (or omitted) for a standard visible table.\n\n```crbasic\nConstTable(TableName, Hidden)\n  Const A = 1\nEndConstTable\n```");
        lemma_heading(d, "ConstTable"@, key);
    } else if key == "structuretype"@ {
        reveal_strlit("structuretype");
        reveal_strlit("StructureType");
        reveal_strlit("**StructureType**\n\nDefines a reusable data structure. Instances are declared with `Public`/`Dim ... As TypeName` and members are accessed with dot notation.\n\n```crbasic\nStructureType TempRHSensor\n  Temp As Float\n  RH As Float\nEndStructureType\n\nPublic CS215(3) As TempRHSensor\n' CS215(1).Temp\n```");
        lemma_heading(d, "StructureType"@, key);
    } else if key == "endstructuretype"@ {
        reveal_strlit("endstructuretype");
        reveal_strlit("EndStructureType");
        reveal_strlit("**EndStructureType**\n\nTerminates a StructureType block.");
        lemma_heading(d, "EndStructureType"@, key);
    } else if key == "endconsttable"@ {
        reveal_strlit("endconsttable");
        reveal_strlit("EndConstTable");
        reveal_strlit("**EndConstTable**\n\nTerminates a ConstTable block.");
        lemma_heading(d, "EndConstTable"@, key);
    } else if key == "function"@ {
        reveal_strlit("function");
        reveal_strlit("Function");
        reveal_strlit("**Function**\n\nDefines a user-defined function that returns a value.\n\n```crbasic\nFunction MyFunc(param As Float) As Float\n  MyFunc = param * 2\nEndFunction\n```");
        lemma_heading(d, "Function"@, key);
    } else if key == "endfunction"@ {
        reveal_strlit("endfunction");
        reveal_strlit("EndFunction");
        reveal_strlit("**EndFunction**\n\nTerminates a Function block.");
        lemma_heading(d, "EndFunction"@, key);
    } else if key == "return"@ {
        reveal_strlit("return");
        reveal_strlit("Return");
        reveal_strlit("**Return**\n\nReturns a value from a Function and exits it immediately.\n\n```crbasic\nReturn(expression)\n```");
        lemma_heading(d, "Return"@, key);
    } else if key == "exitfunction"@ {
        reveal_strlit("exitfunction");
        reveal_strlit("ExitFunction");
        reveal_strlit("**ExitFunction**\n\nExits a Function immediately.");
        lemma_heading(d, "ExitFunction"@, key);
    } else if key == "sub"@ {
        reveal_strlit("sub");
        reveal_strlit("Sub");
        reveal_strlit("**Sub**\n\nDefines a subroutine (procedure without return value).\n\n```crbasic\nSub MySub(ByRef param As Float)\n  param = param * 2\nEndSub\n```");
        lemma_heading(d, "Sub"@, key);
    } else if key == "endsub"@ {
        reveal_strlit("endsub");
        reveal_strlit("EndSub");
        reveal_strlit("**EndSub**\n\nTerminates a Sub block.");
        lemma_heading(d, "EndSub"@, key);
    } else if key == "exit"@ {
        reveal_strlit("exit");
        reveal_strlit("Exit");
        reveal_strlit("**Exit**\n\nUsed with `Sub` to exit a Subroutine immediately: `Exit Sub`.");
        lemma_heading(d, "Exit"@, key);
    } else if key == "call"@ {
        reveal_strlit("call");
        reveal_strlit("Call");
        reveal_strlit("**Call**\n\nInvokes a subroutine. Optional -- `Call MySub(x, y)` behaves the same as `MySub(x, y)`.\n\n```crbasic\nCall MySub(x, y)\n```");
        lemma_heading(d, "Call"@, key);
    } else if key == "and"@ {
        reveal_strlit("and");
        reveal_strlit("AND");
        reveal_strlit("**AND**\n\nLogical AND operator. Returns true if both operands are true.");
        lemma_heading(d, "AND"@, key);
    } else if key == "or"@ {
        reveal_strlit("or");
        reveal_strlit("OR");
        reveal_strlit("**OR**\n\nLogical OR operator. Returns true if either operand is true.");
        lemma_heading(d, "OR"@, key);
    } else if key == "not"@ {
        reveal_strlit("not");
        reveal_strlit("NOT");
        reveal_strlit("**NOT**\n\nLogical NOT operator. Negates a boolean value.");
        lemma_heading(d, "NOT"@, key);
    } else if key == "xor"@ {
        reveal_strlit("xor");
        reveal_strlit("XOR");
        reveal_strlit("**XOR**\n\nLogical XOR operator. Returns true if exactly one operand is true.");
        lemma_heading(d, "XOR"@, key);
    } else if key == "mod"@ {
        reveal_strlit("mod");
        reveal_strlit("MOD");
        reveal_strlit("**MOD**\n\nModulo operator. Returns the remainder of `A / B`. Operands can be any number, not just integers (e.g. `19 MOD 6.7` = `5.6`).");
        lemma_heading(d, "MOD"@, key);
    } else if key == "imp"@ {
        reveal_strlit("imp");
        reveal_strlit("IMP");
        reveal_strlit("**IMP**\n\nLogical implication operator. `A IMP B` is equivalent to `(NOT A) OR B`.");
        lemma_heading(d, "IMP"@, key);
    } else if key == "eqv"@ {
        reveal_strlit("eqv");
        reveal_strlit("EQV");
        reveal_strlit("**EQV**\n\nLogical equivalence operator. `A EQV B` is true when A and B have the same truth value (equivalent to `NOT (A XOR B)`).");
        lemma_heading(d, "EQV"@, key);
    } else if key == "intdv"@ {
        reveal_strlit("intdv");
        reveal_strlit("INTDV");
        reveal_strlit("**INTDV**\n\nInteger division operator. Keyword-form synonym for `\\`: `A INTDV B` divides A by B and truncates to an integer.");
        lemma_heading(d, "INTDV"@, key);
    } else if key == "true"@ {
        reveal_strlit("true");
        reveal_strlit("True");
        reveal_strlit("**True**\n\nBoolean literal representing true (-1 in CRBasic).");
        lemma_heading(d, "True"@, key);
    } else if key == "false"@ {
        reveal_strlit("false");
        reveal_strlit("False");
        reveal_strlit("**False**\n\nBoolean literal representing false (0 in CRBasic).");
        lemma_heading(d, "False"@, key);
    }
}

} // verus!

//! Signature help for CRBasic functions: the parameter names and
//! documentation of the built-in instructions, and the function call that
//! encloses a cursor position.
use crate::protocol::{
    is_markdown, markdown, MarkupContent, MarkupKind, ParameterInformation, SignatureHelp,
    SignatureInformation,
};
use crate::text::{
    chars_of, is_alphanumeric, is_ascii_alnum, is_unicode_white_space, joined, leading_white_space,
    ascii_lowercase, owned, str_eq, to_lowercase, trailing_white_space, trim_bounds, trimmed, unicode_alphanumeric,
    lowercase,
};
use vstd::prelude::*;
use vstd::string::{StrSliceExecFns, StringSliceAdditionalSpecFns};
use vstd::utf8::{
    decode_utf8, encode_utf8, encode_utf8_decode_utf8, is_ascii_chars, is_ascii_chars_encode_utf8,
    is_ascii_chars_nat_bound, is_char_boundary,
};

verus! {

/// Provides signature help for CRBasic functions.
pub struct SignatureProvider;

/// A function signature with its parameters.
#[derive(Debug, Clone, PartialEq, Eq)]
pub struct FunctionSignature {
    /// Function name
    pub name: String,
    /// Function description
    pub documentation: String,
    /// Parameter information
    pub parameters: Vec<ParameterInfo>,
}

/// A parameter in a function signature.
#[derive(Debug, Clone, PartialEq, Eq)]
pub struct ParameterInfo {
    /// Parameter name
    pub name: String,
    /// Parameter description
    pub documentation: String,
}

/// The value of a `ParameterInfo`.
#[verifier::ext_equal]
pub struct ParameterView {
    pub name: Seq<char>,
    pub documentation: Seq<char>,
}

/// The value of a `FunctionSignature`.
#[verifier::ext_equal]
pub struct SignatureView {
    pub name: Seq<char>,
    pub documentation: Seq<char>,
    pub parameters: Seq<ParameterView>,
}

impl View for ParameterInfo {
    type V = ParameterView;

    open spec fn view(&self) -> ParameterView {
        ParameterView { name: self.name@, documentation: self.documentation@ }
    }
}

impl View for FunctionSignature {
    type V = SignatureView;

    open spec fn view(&self) -> SignatureView {
        SignatureView {
            name: self.name@,
            documentation: self.documentation@,
            parameters: self.parameters@.map_values(|p: ParameterInfo| p@),
        }
    }
}

/// The value of an optional signature.
pub open spec fn signature_option_view(r: Option<FunctionSignature>) -> Option<SignatureView> {
    match r {
        Some(s) => Some(s@),
        None => None,
    }
}

fn parameter(name: &str, documentation: &str) -> (p: ParameterInfo)
    ensures
        p@ == (ParameterView { name: name@, documentation: documentation@ }),
{
    ParameterInfo { name: owned(name), documentation: owned(documentation) }
}

fn signature(name: &str, documentation: &str, parameters: Vec<ParameterInfo>) -> (s:
    FunctionSignature)
    ensures
        s.name@ == name@,
        s.documentation@ == documentation@,
        s.parameters == parameters,
{
    FunctionSignature { name: owned(name), documentation: owned(documentation), parameters }
}

/// Signatures of the scan, data-table output and conditional instructions, by lowercase name.
pub open spec fn scan_and_output_signatures(key: Seq<char>) -> Option<SignatureView> {
    if key == "scan"@ {
        Some(SignatureView {
            name: "Scan"@,
            documentation: "Initiates a measurement scan at specified intervals."@,
            parameters: seq![
                ParameterView { name: "Interval"@, documentation: "The time interval between scans."@ },
                ParameterView { name: "Units"@, documentation: "Time units: uSec, mSec, Sec, Min, Hr."@ },
                ParameterView { name: "BufferOption"@, documentation: "Buffer size option (0-3)."@ },
                ParameterView { name: "Count"@, documentation: "Number of scans (0 = continuous)."@ },
            ],
        })
    } else if key == "subscan"@ {
        Some(SignatureView {
            name: "SubScan"@,
            documentation: "Begins a nested sub-scan for faster measurement or multiplexer control."@,
            parameters: seq![
                ParameterView { name: "SubInterval"@, documentation: "The time interval between sub-scans."@ },
                ParameterView { name: "Units"@, documentation: "Time units: uSec, mSec, Sec, Min, Hr."@ },
                ParameterView { name: "Count"@, documentation: "Number of sub-scans (0 = continuous)."@ },
            ],
        })
    } else if key == "iif"@ {
        Some(SignatureView {
            name: "IIf"@,
            documentation: "Evaluates a Boolean expression and returns TrueValue if true, otherwise FalseValue."@,
            parameters: seq![
                ParameterView { name: "Expression"@, documentation: "The Boolean expression to evaluate."@ },
                ParameterView { name: "TrueValue"@, documentation: "Value returned when Expression is true."@ },
                ParameterView { name: "FalseValue"@, documentation: "Value returned when Expression is false."@ },
            ],
        })
    } else if key == "sample"@ {
        Some(SignatureView {
            name: "Sample"@,
            documentation: "Samples and stores a value in the data table."@,
            parameters: seq![
                ParameterView { name: "Reps"@, documentation: "Number of values to sample."@ },
                ParameterView { name: "Source"@, documentation: "Variable or array to sample from."@ },
                ParameterView { name: "DataType"@, documentation: "Output data type (IEEE4, FP2, etc.)."@ },
            ],
        })
    } else if key == "average"@ {
        Some(SignatureView {
            name: "Average"@,
            documentation: "Calculates and stores the average of values."@,
            parameters: seq![
                ParameterView { name: "Reps"@, documentation: "Number of values to average."@ },
                ParameterView { name: "Source"@, documentation: "Variable or array to average."@ },
                ParameterView { name: "DataType"@, documentation: "Output data type (IEEE4, FP2, etc.)."@ },
                ParameterView { name: "DisableVar"@, documentation: "Variable to disable output (0 = enabled)."@ },
            ],
        })
    } else if key == "minimum"@ {
        Some(SignatureView {
            name: "Minimum"@,
            documentation: "Stores the minimum value over the output interval."@,
            parameters: seq![
                ParameterView { name: "Reps"@, documentation: "Number of values to check."@ },
                ParameterView { name: "Source"@, documentation: "Variable or array to check."@ },
                ParameterView { name: "DataType"@, documentation: "Output data type."@ },
                ParameterView { name: "DisableVar"@, documentation: "Variable to disable output."@ },
                ParameterView { name: "Time"@, documentation: "Store time of minimum (True/False)."@ },
            ],
        })
    } else if key == "maximum"@ {
        Some(SignatureView {
            name: "Maximum"@,
            documentation: "Stores the maximum value over the output interval."@,
            parameters: seq![
                ParameterView { name: "Reps"@, documentation: "Number of values to check."@ },
                ParameterView { name: "Source"@, documentation: "Variable or array to check."@ },
                ParameterView { name: "DataType"@, documentation: "Output data type."@ },
                ParameterView { name: "DisableVar"@, documentation: "Variable to disable output."@ },
                ParameterView { name: "Time"@, documentation: "Store time of maximum (True/False)."@ },
            ],
        })
    } else {
        None
    }
}

fn scan_and_output_signature(key: &str) -> (r: Option<FunctionSignature>)
    ensures
        signature_option_view(r) =~~= scan_and_output_signatures(key@),
{
    if str_eq(key, "scan") {
        Some(signature(
            "Scan",
            "Initiates a measurement scan at specified intervals.",
            vec![
                parameter("Interval", "The time interval between scans."),
                parameter("Units", "Time units: uSec, mSec, Sec, Min, Hr."),
                parameter("BufferOption", "Buffer size option (0-3)."),
                parameter("Count", "Number of scans (0 = continuous).")
            ],
        ))
    } else if str_eq(key, "subscan") {
        Some(signature(
            "SubScan",
            "Begins a nested sub-scan for faster measurement or multiplexer control.",
            vec![
                parameter("SubInterval", "The time interval between sub-scans."),
                parameter("Units", "Time units: uSec, mSec, Sec, Min, Hr."),
                parameter("Count", "Number of sub-scans (0 = continuous).")
            ],
        ))
    } else if str_eq(key, "iif") {
        Some(signature(
            "IIf",
            "Evaluates a Boolean expression and returns TrueValue if true, otherwise FalseValue.",
            vec![
                parameter("Expression", "The Boolean expression to evaluate."),
                parameter("TrueValue", "Value returned when Expression is true."),
                parameter("FalseValue", "Value returned when Expression is false.")
            ],
        ))
    } else if str_eq(key, "sample") {
        Some(signature(
            "Sample",
            "Samples and stores a value in the data table.",
            vec![
                parameter("Reps", "Number of values to sample."),
                parameter("Source", "Variable or array to sample from."),
                parameter("DataType", "Output data type (IEEE4, FP2, etc.).")
            ],
        ))
    } else if str_eq(key, "average") {
        Some(signature(
            "Average",
            "Calculates and stores the average of values.",
            vec![
                parameter("Reps", "Number of values to average."),
                parameter("Source", "Variable or array to average."),
                parameter("DataType", "Output data type (IEEE4, FP2, etc.)."),
                parameter("DisableVar", "Variable to disable output (0 = enabled).")
            ],
        ))
    } else if str_eq(key, "minimum") {
        Some(signature(
            "Minimum",
            "Stores the minimum value over the output interval.",
            vec![
                parameter("Reps", "Number of values to check."),
                parameter("Source", "Variable or array to check."),
                parameter("DataType", "Output data type."),
                parameter("DisableVar", "Variable to disable output."),
                parameter("Time", "Store time of minimum (True/False).")
            ],
        ))
    } else if str_eq(key, "maximum") {
        Some(signature(
            "Maximum",
            "Stores the maximum value over the output interval.",
            vec![
                parameter("Reps", "Number of values to check."),
                parameter("Source", "Variable or array to check."),
                parameter("DataType", "Output data type."),
                parameter("DisableVar", "Variable to disable output."),
                parameter("Time", "Store time of maximum (True/False).")
            ],
        ))
    } else {
        None
    }
}

/// Signatures of the measurement instructions, by lowercase name.
pub open spec fn measurement_signatures(key: Seq<char>) -> Option<SignatureView> {
    if key == "pulsecount"@ {
        Some(SignatureView {
            name: "PulseCount"@,
            documentation: "Measures pulse count from a sensor."@,
            parameters: seq![
                ParameterView { name: "Dest"@, documentation: "Destination variable for the result."@ },
                ParameterView { name: "Reps"@, documentation: "Number of repetitions."@ },
                ParameterView { name: "PChan"@, documentation: "Pulse input channel."@ },
                ParameterView { name: "PConfig"@, documentation: "Pulse configuration code."@ },
                ParameterView { name: "POption"@, documentation: "Pulse option (0-2)."@ },
                ParameterView { name: "Mult"@, documentation: "Multiplier for scaling."@ },
                ParameterView { name: "Offset"@, documentation: "Offset for scaling."@ },
            ],
        })
    } else if key == "voltse"@ {
        Some(SignatureView {
            name: "VoltSe"@,
            documentation: "Measures single-ended voltage."@,
            parameters: seq![
                ParameterView { name: "Dest"@, documentation: "Destination variable for the result."@ },
                ParameterView { name: "Reps"@, documentation: "Number of repetitions."@ },
                ParameterView { name: "Range"@, documentation: "Voltage range (mV5000, mV2500, etc.)."@ },
                ParameterView { name: "SEChan"@, documentation: "Single-ended channel number."@ },
                ParameterView { name: "MeasOff"@, documentation: "Measure offset (True/False)."@ },
                ParameterView { name: "SettlingTime"@, documentation: "Settling time in microseconds."@ },
                ParameterView { name: "fN1"@, documentation: "Lowest frequency notched out by the sinc filter."@ },
                ParameterView { name: "Mult"@, documentation: "Multiplier for scaling."@ },
                ParameterView { name: "Offset"@, documentation: "Offset for scaling."@ },
            ],
        })
    } else if key == "voltdiff"@ {
        Some(SignatureView {
            name: "VoltDiff"@,
            documentation: "Measures differential voltage."@,
            parameters: seq![
                ParameterView { name: "Dest"@, documentation: "Destination variable for the result."@ },
                ParameterView { name: "Reps"@, documentation: "Number of repetitions."@ },
                ParameterView { name: "Range"@, documentation: "Voltage range."@ },
                ParameterView { name: "DiffChan"@, documentation: "Differential channel number."@ },
                ParameterView { name: "RevDiff"@, documentation: "Reverse differential (True/False)."@ },
                ParameterView { name: "SettlingTime"@, documentation: "Settling time in microseconds."@ },
                ParameterView { name: "fN1"@, documentation: "Lowest frequency notched out by the sinc filter."@ },
                ParameterView { name: "Mult"@, documentation: "Multiplier for scaling."@ },
                ParameterView { name: "Offset"@, documentation: "Offset for scaling."@ },
            ],
        })
    } else if key == "tcdiff"@ {
        Some(SignatureView {
            name: "TCDiff"@,
            documentation: "Measures a thermocouple on a differential channel and converts the result to degrees Celsius."@,
            parameters: seq![
                ParameterView { name: "Dest"@, documentation: "Destination variable (or array, if Reps > 1) for the result."@ },
                ParameterView { name: "Reps"@, documentation: "Number of repetitions."@ },
                ParameterView { name: "Range"@, documentation: "Voltage range for the measurement."@ },
                ParameterView { name: "DiffChan"@, documentation: "Differential channel number for the first measurement."@ },
                ParameterView { name: "TCType"@, documentation: "Thermocouple type (TypeT, TypeE, TypeK, TypeJ, TypeB, TypeR, TypeS, or TypeN)."@ },
                ParameterView { name: "TRef"@, documentation: "Reference temperature variable, in degrees C."@ },
                ParameterView { name: "RevDiff"@, documentation: "Reverse differential (True/False)."@ },
                ParameterView { name: "SettlingTime"@, documentation: "Settling time in microseconds."@ },
                ParameterView { name: "fN1"@, documentation: "Lowest frequency notched out by the sinc filter."@ },
                ParameterView { name: "Mult"@, documentation: "Multiplier for scaling."@ },
                ParameterView { name: "Offset"@, documentation: "Offset for scaling."@ },
            ],
        })
    } else if key == "resistance"@ {
        Some(SignatureView {
            name: "Resistance"@,
            documentation: "Measures the resistance of a basic or full-bridge circuit using current excitation."@,
            parameters: seq![
                ParameterView { name: "Dest"@, documentation: "Destination variable (or array, if Reps > 1) for the result."@ },
                ParameterView { name: "Reps"@, documentation: "Number of repetitions."@ },
                ParameterView { name: "Range"@, documentation: "Voltage range (mV5000, mV1000, or mV200)."@ },
                ParameterView { name: "DiffChan"@, documentation: "Differential channel number for the first measurement."@ },
                ParameterView { name: "IexChan"@, documentation: "Current excitation channel number for the first measurement."@ },
                ParameterView { name: "MeasPEx"@, documentation: "Number of sensors to excite per excitation channel before advancing."@ },
                ParameterView { name: "EXuA"@, documentation: "Excitation current, in microamps."@ },
                ParameterView { name: "RevEx"@, documentation: "Reverse excitation (True/False)."@ },
                ParameterView { name: "RevDiff"@, documentation: "Reverse differential (True/False)."@ },
                ParameterView { name: "SettlingTime"@, documentation: "Settling time in microseconds."@ },
                ParameterView { name: "fN1"@, documentation: "Lowest frequency notched out by the sinc filter."@ },
                ParameterView { name: "Mult"@, documentation: "Multiplier for scaling."@ },
                ParameterView { name: "Offset"@, documentation: "Offset for scaling."@ },
                ParameterView { name: "MeasCurrent"@, documentation: "Optional: include the excitation current as the last value in Dest."@ },
            ],
        })
    } else if key == "sdi12recorder"@ {
        Some(SignatureView {
            name: "SDI12Recorder"@,
            documentation: "Retrieves measurement results from an SDI-12 sensor."@,
            parameters: seq![
                ParameterView { name: "Dest"@, documentation: "Destination array for the sensor's returned values."@ },
                ParameterView { name: "SDIPort"@, documentation: "SDI-12 port the sensor is connected to."@ },
                ParameterView { name: "SDIAddress"@, documentation: "SDI-12 address of the sensor (0-9, a-z, A-Z)."@ },
                ParameterView { name: "SDICommand"@, documentation: "SDI-12 command string to send, in quotes (e.g., \"M!\")."@ },
                ParameterView { name: "Multiplier"@, documentation: "Multiplier for scaling."@ },
                ParameterView { name: "Offset"@, documentation: "Offset for scaling."@ },
                ParameterView { name: "FillNAN"@, documentation: "Optional: how to record NAN values from a bad sensor reading."@ },
                ParameterView { name: "WaitonTimeout"@, documentation: "Optional: wait inside the instruction for a C! command to finish."@ },
            ],
        })
    } else if key == "windvector"@ {
        Some(SignatureView {
            name: "WindVector"@,
            documentation: "Processes raw wind speed/direction samples into mean wind speed, mean wind vector magnitude and direction, and standard deviation of wind direction."@,
            parameters: seq![
                ParameterView { name: "Reps"@, documentation: "Number of wind vector averages to calculate."@ },
                ParameterView { name: "Speed/East"@, documentation: "Wind speed (polar sensor) or East component (orthogonal sensor); an array if Reps > 1."@ },
                ParameterView { name: "Direction/North"@, documentation: "Wind direction (polar sensor) or North component (orthogonal sensor); an array if Reps > 1."@ },
                ParameterView { name: "DataType"@, documentation: "Output storage format (IEEE4, FP2, IEEE8, etc.)."@ },
                ParameterView { name: "DisableVar"@, documentation: "Excludes the current measurement from output when nonzero."@ },
                ParameterView { name: "Subinterval"@, documentation: "Scan interval for subinterval standard-deviation processing (0 to use every sample)."@ },
                ParameterView { name: "SensorType"@, documentation: "Sensor configuration: 0 for polar, 1 for orthogonal."@ },
                ParameterView { name: "OutputOpt"@, documentation: "Selects which of the wind vector outputs to store."@ },
            ],
        })
    } else {
        None
    }
}

fn measurement_signature(key: &str) -> (r: Option<FunctionSignature>)
    ensures
        signature_option_view(r) =~~= measurement_signatures(key@),
{
    if str_eq(key, "pulsecount") {
        Some(signature(
            "PulseCount",
            "Measures pulse count from a sensor.",
            vec![
                parameter("Dest", "Destination variable for the result."),
                parameter("Reps", "Number of repetitions."),
                parameter("PChan", "Pulse input channel."),
                parameter("PConfig", "Pulse configuration code."),
                parameter("POption", "Pulse option (0-2)."),
                parameter("Mult", "Multiplier for scaling."),
                parameter("Offset", "Offset for scaling.")
            ],
        ))
    } else if str_eq(key, "voltse") {
        Some(signature(
            "VoltSe",
            "Measures single-ended voltage.",
            vec![
                parameter("Dest", "Destination variable for the result."),
                parameter("Reps", "Number of repetitions."),
                parameter("Range", "Voltage range (mV5000, mV2500, etc.)."),
                parameter("SEChan", "Single-ended channel number."),
                parameter("MeasOff", "Measure offset (True/False)."),
                parameter("SettlingTime", "Settling time in microseconds."),
                parameter("fN1", "Lowest frequency notched out by the sinc filter."),
                parameter("Mult", "Multiplier for scaling."),
                parameter("Offset", "Offset for scaling.")
            ],
        ))
    } else if str_eq(key, "voltdiff") {
        Some(signature(
            "VoltDiff",
            "Measures differential voltage.",
            vec![
                parameter("Dest", "Destination variable for the result."),
                parameter("Reps", "Number of repetitions."),
                parameter("Range", "Voltage range."),
                parameter("DiffChan", "Differential channel number."),
                parameter("RevDiff", "Reverse differential (True/False)."),
                parameter("SettlingTime", "Settling time in microseconds."),
                parameter("fN1", "Lowest frequency notched out by the sinc filter."),
                parameter("Mult", "Multiplier for scaling."),
                parameter("Offset", "Offset for scaling.")
            ],
        ))
    } else if str_eq(key, "tcdiff") {
        Some(signature(
            "TCDiff",
            "Measures a thermocouple on a differential channel and converts the result to degrees Celsius.",
            vec![
                parameter("Dest", "Destination variable (or array, if Reps > 1) for the result."),
                parameter("Reps", "Number of repetitions."),
                parameter("Range", "Voltage range for the measurement."),
                parameter("DiffChan", "Differential channel number for the first measurement."),
                parameter("TCType", "Thermocouple type (TypeT, TypeE, TypeK, TypeJ, TypeB, TypeR, TypeS, or TypeN)."),
                parameter("TRef", "Reference temperature variable, in degrees C."),
                parameter("RevDiff", "Reverse differential (True/False)."),
                parameter("SettlingTime", "Settling time in microseconds."),
                parameter("fN1", "Lowest frequency notched out by the sinc filter."),
                parameter("Mult", "Multiplier for scaling."),
                parameter("Offset", "Offset for scaling.")
            ],
        ))
    } else if str_eq(key, "resistance") {
        Some(signature(
            "Resistance",
            "Measures the resistance of a basic or full-bridge circuit using current excitation.",
            vec![
                parameter("Dest", "Destination variable (or array, if Reps > 1) for the result."),
                parameter("Reps", "Number of repetitions."),
                parameter("Range", "Voltage range (mV5000, mV1000, or mV200)."),
                parameter("DiffChan", "Differential channel number for the first measurement."),
                parameter("IexChan", "Current excitation channel number for the first measurement."),
                parameter("MeasPEx", "Number of sensors to excite per excitation channel before advancing."),
                parameter("EXuA", "Excitation current, in microamps."),
                parameter("RevEx", "Reverse excitation (True/False)."),
                parameter("RevDiff", "Reverse differential (True/False)."),
                parameter("SettlingTime", "Settling time in microseconds."),
                parameter("fN1", "Lowest frequency notched out by the sinc filter."),
                parameter("Mult", "Multiplier for scaling."),
                parameter("Offset", "Offset for scaling."),
                parameter("MeasCurrent", "Optional: include the excitation current as the last value in Dest.")
            ],
        ))
    } else if str_eq(key, "sdi12recorder") {
        Some(signature(
            "SDI12Recorder",
            "Retrieves measurement results from an SDI-12 sensor.",
            vec![
                parameter("Dest", "Destination array for the sensor's returned values."),
                parameter("SDIPort", "SDI-12 port the sensor is connected to."),
                parameter("SDIAddress", "SDI-12 address of the sensor (0-9, a-z, A-Z)."),
                parameter("SDICommand", "SDI-12 command string to send, in quotes (e.g., \"M!\")."),
                parameter("Multiplier", "Multiplier for scaling."),
                parameter("Offset", "Offset for scaling."),
                parameter("FillNAN", "Optional: how to record NAN values from a bad sensor reading."),
                parameter("WaitonTimeout", "Optional: wait inside the instruction for a C! command to finish.")
            ],
        ))
    } else if str_eq(key, "windvector") {
        Some(signature(
            "WindVector",
            "Processes raw wind speed/direction samples into mean wind speed, mean wind vector magnitude and direction, and standard deviation of wind direction.",
            vec![
                parameter("Reps", "Number of wind vector averages to calculate."),
                parameter("Speed/East", "Wind speed (polar sensor) or East component (orthogonal sensor); an array if Reps > 1."),
                parameter("Direction/North", "Wind direction (polar sensor) or North component (orthogonal sensor); an array if Reps > 1."),
                parameter("DataType", "Output storage format (IEEE4, FP2, IEEE8, etc.)."),
                parameter("DisableVar", "Excludes the current measurement from output when nonzero."),
                parameter("Subinterval", "Scan interval for subinterval standard-deviation processing (0 to use every sample)."),
                parameter("SensorType", "Sensor configuration: 0 for polar, 1 for orthogonal."),
                parameter("OutputOpt", "Selects which of the wind vector outputs to store.")
            ],
        ))
    } else {
        None
    }
}

/// Signatures of the serial communication instructions, by lowercase name.
pub open spec fn serial_signatures(key: Seq<char>) -> Option<SignatureView> {
    if key == "serialopen"@ {
        Some(SignatureView {
            name: "SerialOpen"@,
            documentation: "Opens a serial communication port."@,
            parameters: seq![
                ParameterView { name: "ComPort"@, documentation: "COM port number or constant."@ },
                ParameterView { name: "BaudRate"@, documentation: "Baud rate (e.g., 9600, 115200)."@ },
                ParameterView { name: "Format"@, documentation: "Data format (0=8N1, etc.)."@ },
                ParameterView { name: "TXDelay"@, documentation: "Transmit delay in microseconds."@ },
                ParameterView { name: "BufferSize"@, documentation: "Input buffer size in bytes."@ },
            ],
        })
    } else if key == "serialout"@ {
        Some(SignatureView {
            name: "SerialOut"@,
            documentation: "Sends data to a serial port."@,
            parameters: seq![
                ParameterView { name: "ComPort"@, documentation: "COM port number."@ },
                ParameterView { name: "OutString"@, documentation: "String to send."@ },
                ParameterView { name: "WaitString"@, documentation: "Expected response string."@ },
                ParameterView { name: "NumberTries"@, documentation: "Number of retry attempts."@ },
                ParameterView { name: "TimeOut"@, documentation: "Timeout in milliseconds."@ },
            ],
        })
    } else if key == "serialin"@ {
        Some(SignatureView {
            name: "SerialIn"@,
            documentation: "Reads data from a serial port."@,
            parameters: seq![
                ParameterView { name: "Dest"@, documentation: "Destination string variable."@ },
                ParameterView { name: "ComPort"@, documentation: "COM port number."@ },
                ParameterView { name: "TimeOut"@, documentation: "Timeout in milliseconds."@ },
                ParameterView { name: "TerminationChar"@, documentation: "Character that ends the read."@ },
                ParameterView { name: "MaxNumChars"@, documentation: "Maximum characters to read."@ },
            ],
        })
    } else {
        None
    }
}

fn serial_signature(key: &str) -> (r: Option<FunctionSignature>)
    ensures
        signature_option_view(r) =~~= serial_signatures(key@),
{
    if str_eq(key, "serialopen") {
        Some(signature(
            "SerialOpen",
            "Opens a serial communication port.",
            vec![
                parameter("ComPort", "COM port number or constant."),
                parameter("BaudRate", "Baud rate (e.g., 9600, 115200)."),
                parameter("Format", "Data format (0=8N1, etc.)."),
                parameter("TXDelay", "Transmit delay in microseconds."),
                parameter("BufferSize", "Input buffer size in bytes.")
            ],
        ))
    } else if str_eq(key, "serialout") {
        Some(signature(
            "SerialOut",
            "Sends data to a serial port.",
            vec![
                parameter("ComPort", "COM port number."),
                parameter("OutString", "String to send."),
                parameter("WaitString", "Expected response string."),
                parameter("NumberTries", "Number of retry attempts."),
                parameter("TimeOut", "Timeout in milliseconds.")
            ],
        ))
    } else if str_eq(key, "serialin") {
        Some(signature(
            "SerialIn",
            "Reads data from a serial port.",
            vec![
                parameter("Dest", "Destination string variable."),
                parameter("ComPort", "COM port number."),
                parameter("TimeOut", "Timeout in milliseconds."),
                parameter("TerminationChar", "Character that ends the read."),
                parameter("MaxNumChars", "Maximum characters to read.")
            ],
        ))
    } else {
        None
    }
}

/// Signatures of the math functions, by lowercase name.
pub open spec fn math_signatures(key: Seq<char>) -> Option<SignatureView> {
    if key == "abs"@ {
        Some(SignatureView {
            name: "Abs"@,
            documentation: "Returns the absolute value of a number."@,
            parameters: seq![
                ParameterView { name: "Value"@, documentation: "The number to get the absolute value of."@ },
            ],
        })
    } else if key == "sqr"@ {
        Some(SignatureView {
            name: "Sqr"@,
            documentation: "Returns the square root of a number."@,
            parameters: seq![
                ParameterView { name: "Value"@, documentation: "The number to get the square root of."@ },
            ],
        })
    } else if key == "sin"@ {
        Some(SignatureView {
            name: "Sin"@,
            documentation: "Returns the sine of an angle in radians."@,
            parameters: seq![
                ParameterView { name: "Radians"@, documentation: "Angle in radians."@ },
            ],
        })
    } else if key == "cos"@ {
        Some(SignatureView {
            name: "Cos"@,
            documentation: "Returns the cosine of an angle in radians."@,
            parameters: seq![
                ParameterView { name: "Radians"@, documentation: "Angle in radians."@ },
            ],
        })
    } else if key == "tan"@ {
        Some(SignatureView {
            name: "Tan"@,
            documentation: "Returns the tangent of an angle in radians."@,
            parameters: seq![
                ParameterView { name: "Radians"@, documentation: "Angle in radians."@ },
            ],
        })
    } else if key == "atn2"@ {
        Some(SignatureView {
            name: "Atn2"@,
            documentation: "Returns the arc tangent of Y/X in radians."@,
            parameters: seq![
                ParameterView { name: "Y"@, documentation: "Y coordinate."@ },
                ParameterView { name: "X"@, documentation: "X coordinate."@ },
            ],
        })
    } else if key == "round"@ {
        Some(SignatureView {
            name: "Round"@,
            documentation: "Rounds a number to specified decimal places."@,
            parameters: seq![
                ParameterView { name: "Value"@, documentation: "The number to round."@ },
                ParameterView { name: "NumDigits"@, documentation: "Number of decimal places."@ },
            ],
        })
    } else if key == "sgn"@ {
        Some(SignatureView {
            name: "Sgn"@,
            documentation: "Returns the sign of a number as -1, 0, or 1."@,
            parameters: seq![
                ParameterView { name: "Value"@, documentation: "The number to get the sign of."@ },
            ],
        })
    } else if key == "exp"@ {
        Some(SignatureView {
            name: "Exp"@,
            documentation: "Returns e raised to a power."@,
            parameters: seq![
                ParameterView { name: "Value"@, documentation: "The exponent to raise e to."@ },
            ],
        })
    } else if key == "ln"@ {
        Some(SignatureView {
            name: "Ln"@,
            documentation: "Returns the natural logarithm of a number."@,
            parameters: seq![
                ParameterView { name: "Value"@, documentation: "The number to take the natural logarithm of."@ },
            ],
        })
    } else if key == "log"@ {
        Some(SignatureView {
            name: "Log"@,
            documentation: "Returns the natural logarithm of a number."@,
            parameters: seq![
                ParameterView { name: "Value"@, documentation: "The number to take the natural logarithm of."@ },
            ],
        })
    } else if key == "log10"@ {
        Some(SignatureView {
            name: "Log10"@,
            documentation: "Returns the base-10 logarithm of a number."@,
            parameters: seq![
                ParameterView { name: "Value"@, documentation: "The number to take the base-10 logarithm of."@ },
            ],
        })
    } else if key == "sinh"@ {
        Some(SignatureView {
            name: "Sinh"@,
            documentation: "Returns the hyperbolic sine of a number."@,
            parameters: seq![
                ParameterView { name: "Value"@, documentation: "The number to get the hyperbolic sine of."@ },
            ],
        })
    } else if key == "cosh"@ {
        Some(SignatureView {
            name: "Cosh"@,
            documentation: "Returns the hyperbolic cosine of a number."@,
            parameters: seq![
                ParameterView { name: "Value"@, documentation: "The number to get the hyperbolic cosine of."@ },
            ],
        })
    } else if key == "tanh"@ {
        Some(SignatureView {
            name: "Tanh"@,
            documentation: "Returns the hyperbolic tangent of a number."@,
            parameters: seq![
                ParameterView { name: "Value"@, documentation: "The number to get the hyperbolic tangent of."@ },
            ],
        })
    } else if key == "asin"@ {
        Some(SignatureView {
            name: "Asin"@,
            documentation: "Returns the arc sine of a number, in radians."@,
            parameters: seq![
                ParameterView { name: "Value"@, documentation: "The number to get the arc sine of."@ },
            ],
        })
    } else if key == "acos"@ {
        Some(SignatureView {
            name: "Acos"@,
            documentation: "Returns the arc cosine of a number, in radians."@,
            parameters: seq![
                ParameterView { name: "Value"@, documentation: "The number to get the arc cosine of."@ },
            ],
        })
    } else if key == "atn"@ {
        Some(SignatureView {
            name: "Atn"@,
            documentation: "Returns the arc tangent of a number, in radians."@,
            parameters: seq![
                ParameterView { name: "Value"@, documentation: "The number to get the arc tangent of."@ },
            ],
        })
    } else if key == "int"@ {
        Some(SignatureView {
            name: "Int"@,
            documentation: "Returns the integer part of a number, truncating toward negative infinity."@,
            parameters: seq![
                ParameterView { name: "Value"@, documentation: "The number to truncate."@ },
            ],
        })
    } else if key == "fix"@ {
        Some(SignatureView {
            name: "Fix"@,
            documentation: "Returns the integer part of a number, truncating toward zero."@,
            parameters: seq![
                ParameterView { name: "Value"@, documentation: "The number to truncate."@ },
            ],
        })
    } else if key == "frac"@ {
        Some(SignatureView {
            name: "Frac"@,
            documentation: "Returns the fractional portion of a number."@,
            parameters: seq![
                ParameterView { name: "Value"@, documentation: "The number to get the fractional portion of."@ },
            ],
        })
    } else if key == "rnd"@ {
        Some(SignatureView {
            name: "Rnd"@,
            documentation: "Returns a random value between 0 (inclusive) and 1 (exclusive). Takes no parentheses."@,
            parameters: seq![],
        })
    } else if key == "ceiling"@ {
        Some(SignatureView {
            name: "Ceiling"@,
            documentation: "Rounds a number up to the nearest integer."@,
            parameters: seq![
                ParameterView { name: "Value"@, documentation: "The number to round up."@ },
            ],
        })
    } else if key == "floor"@ {
        Some(SignatureView {
            name: "Floor"@,
            documentation: "Rounds a number down to the nearest integer."@,
            parameters: seq![
                ParameterView { name: "Value"@, documentation: "The number to round down."@ },
            ],
        })
    } else {
        None
    }
}

fn math_signature(key: &str) -> (r: Option<FunctionSignature>)
    ensures
        signature_option_view(r) =~~= math_signatures(key@),
{
    if str_eq(key, "abs") {
        Some(signature(
            "Abs",
            "Returns the absolute value of a number.",
            vec![
                parameter("Value", "The number to get the absolute value of.")
            ],
        ))
    } else if str_eq(key, "sqr") {
        Some(signature(
            "Sqr",
            "Returns the square root of a number.",
            vec![
                parameter("Value", "The number to get the square root of.")
            ],
        ))
    } else if str_eq(key, "sin") {
        Some(signature(
            "Sin",
            "Returns the sine of an angle in radians.",
            vec![
                parameter("Radians", "Angle in radians.")
            ],
        ))
    } else if str_eq(key, "cos") {
        Some(signature(
            "Cos",
            "Returns the cosine of an angle in radians.",
            vec![
                parameter("Radians", "Angle in radians.")
            ],
        ))
    } else if str_eq(key, "tan") {
        Some(signature(
            "Tan",
            "Returns the tangent of an angle in radians.",
            vec![
                parameter("Radians", "Angle in radians.")
            ],
        ))
    } else if str_eq(key, "atn2") {
        Some(signature(
            "Atn2",
            "Returns the arc tangent of Y/X in radians.",
            vec![
                parameter("Y", "Y coordinate."),
                parameter("X", "X coordinate.")
            ],
        ))
    } else if str_eq(key, "round") {
        Some(signature(
            "Round",
            "Rounds a number to specified decimal places.",
            vec![
                parameter("Value", "The number to round."),
                parameter("NumDigits", "Number of decimal places.")
            ],
        ))
    } else if str_eq(key, "sgn") {
        Some(signature(
            "Sgn",
            "Returns the sign of a number as -1, 0, or 1.",
            vec![
                parameter("Value", "The number to get the sign of.")
            ],
        ))
    } else if str_eq(key, "exp") {
        Some(signature(
            "Exp",
            "Returns e raised to a power.",
            vec![
                parameter("Value", "The exponent to raise e to.")
            ],
        ))
    } else if str_eq(key, "ln") {
        Some(signature(
            "Ln",
            "Returns the natural logarithm of a number.",
            vec![
                parameter("Value", "The number to take the natural logarithm of.")
            ],
        ))
    } else if str_eq(key, "log") {
        Some(signature(
            "Log",
            "Returns the natural logarithm of a number.",
            vec![
                parameter("Value", "The number to take the natural logarithm of.")
            ],
        ))
    } else if str_eq(key, "log10") {
        Some(signature(
            "Log10",
            "Returns the base-10 logarithm of a number.",
            vec![
                parameter("Value", "The number to take the base-10 logarithm of.")
            ],
        ))
    } else if str_eq(key, "sinh") {
        Some(signature(
            "Sinh",
            "Returns the hyperbolic sine of a number.",
            vec![
                parameter("Value", "The number to get the hyperbolic sine of.")
            ],
        ))
    } else if str_eq(key, "cosh") {
        Some(signature(
            "Cosh",
            "Returns the hyperbolic cosine of a number.",
            vec![
                parameter("Value", "The number to get the hyperbolic cosine of.")
            ],
        ))
    } else if str_eq(key, "tanh") {
        Some(signature(
            "Tanh",
            "Returns the hyperbolic tangent of a number.",
            vec![
                parameter("Value", "The number to get the hyperbolic tangent of.")
            ],
        ))
    } else if str_eq(key, "asin") {
        Some(signature(
            "Asin",
            "Returns the arc sine of a number, in radians.",
            vec![
                parameter("Value", "The number to get the arc sine of.")
            ],
        ))
    } else if str_eq(key, "acos") {
        Some(signature(
            "Acos",
            "Returns the arc cosine of a number, in radians.",
            vec![
                parameter("Value", "The number to get the arc cosine of.")
            ],
        ))
    } else if str_eq(key, "atn") {
        Some(signature(
            "Atn",
            "Returns the arc tangent of a number, in radians.",
            vec![
                parameter("Value", "The number to get the arc tangent of.")
            ],
        ))
    } else if str_eq(key, "int") {
        Some(signature(
            "Int",
            "Returns the integer part of a number, truncating toward negative infinity.",
            vec![
                parameter("Value", "The number to truncate.")
            ],
        ))
    } else if str_eq(key, "fix") {
        Some(signature(
            "Fix",
            "Returns the integer part of a number, truncating toward zero.",
            vec![
                parameter("Value", "The number to truncate.")
            ],
        ))
    } else if str_eq(key, "frac") {
        Some(signature(
            "Frac",
            "Returns the fractional portion of a number.",
            vec![
                parameter("Value", "The number to get the fractional portion of.")
            ],
        ))
    } else if str_eq(key, "rnd") {
        Some(signature("Rnd", "Returns a random value between 0 (inclusive) and 1 (exclusive). Takes no parentheses.", Vec::new()))
    } else if str_eq(key, "ceiling") {
        Some(signature(
            "Ceiling",
            "Rounds a number up to the nearest integer.",
            vec![
                parameter("Value", "The number to round up.")
            ],
        ))
    } else if str_eq(key, "floor") {
        Some(signature(
            "Floor",
            "Rounds a number down to the nearest integer.",
            vec![
                parameter("Value", "The number to round down.")
            ],
        ))
    } else {
        None
    }
}

/// Signatures of the string functions, by lowercase name.
pub open spec fn string_signatures(key: Seq<char>) -> Option<SignatureView> {
    if key == "len"@ {
        Some(SignatureView {
            name: "Len"@,
            documentation: "Returns the length of a string."@,
            parameters: seq![
                ParameterView { name: "String"@, documentation: "The string to measure."@ },
            ],
        })
    } else if key == "mid"@ {
        Some(SignatureView {
            name: "Mid"@,
            documentation: "Extracts a substring from a string."@,
            parameters: seq![
                ParameterView { name: "String"@, documentation: "Source string."@ },
                ParameterView { name: "Start"@, documentation: "Starting position (1-based)."@ },
                ParameterView { name: "Length"@, documentation: "Number of characters to extract."@ },
            ],
        })
    } else if key == "left"@ {
        Some(SignatureView {
            name: "Left"@,
            documentation: "Returns leftmost characters of a string."@,
            parameters: seq![
                ParameterView { name: "String"@, documentation: "Source string."@ },
                ParameterView { name: "Length"@, documentation: "Number of characters to return."@ },
            ],
        })
    } else if key == "right"@ {
        Some(SignatureView {
            name: "Right"@,
            documentation: "Returns rightmost characters of a string."@,
            parameters: seq![
                ParameterView { name: "String"@, documentation: "Source string."@ },
                ParameterView { name: "Length"@, documentation: "Number of characters to return."@ },
            ],
        })
    } else if key == "instr"@ {
        Some(SignatureView {
            name: "InStr"@,
            documentation: "Finds a substring within a string."@,
            parameters: seq![
                ParameterView { name: "Start"@, documentation: "Starting position for search."@ },
                ParameterView { name: "SearchString"@, documentation: "String to search in."@ },
                ParameterView { name: "FilterString"@, documentation: "String to search for."@ },
                ParameterView { name: "SearchOption"@, documentation: "Method-of-search code (0-10; add 100 to strip quotes), not a boolean case-sensitivity flag."@ },
            ],
        })
    } else if key == "splitstr"@ {
        Some(SignatureView {
            name: "SplitStr"@,
            documentation: "Splits a string by delimiter into an array."@,
            parameters: seq![
                ParameterView { name: "Result"@, documentation: "Array to store results."@ },
                ParameterView { name: "SearchString"@, documentation: "String to split."@ },
                ParameterView { name: "FilterString"@, documentation: "Filter for the string(s) to return; its role (delimiter set, exact-match string, or header/footer filter) depends on SplitOption."@ },
                ParameterView { name: "NumSplits"@, documentation: "Maximum number of splits."@ },
                ParameterView { name: "SplitOption"@, documentation: "Split option flags."@ },
            ],
        })
    } else {
        None
    }
}

fn string_signature(key: &str) -> (r: Option<FunctionSignature>)
    ensures
        signature_option_view(r) =~~= string_signatures(key@),
{
    if str_eq(key, "len") {
        Some(signature(
            "Len",
            "Returns the length of a string.",
            vec![
                parameter("String", "The string to measure.")
            ],
        ))
    } else if str_eq(key, "mid") {
        Some(signature(
            "Mid",
            "Extracts a substring from a string.",
            vec![
                parameter("String", "Source string."),
                parameter("Start", "Starting position (1-based)."),
                parameter("Length", "Number of characters to extract.")
            ],
        ))
    } else if str_eq(key, "left") {
        Some(signature(
            "Left",
            "Returns leftmost characters of a string.",
            vec![
                parameter("String", "Source string."),
                parameter("Length", "Number of characters to return.")
            ],
        ))
    } else if str_eq(key, "right") {
        Some(signature(
            "Right",
            "Returns rightmost characters of a string.",
            vec![
                parameter("String", "Source string."),
                parameter("Length", "Number of characters to return.")
            ],
        ))
    } else if str_eq(key, "instr") {
        Some(signature(
            "InStr",
            "Finds a substring within a string.",
            vec![
                parameter("Start", "Starting position for search."),
                parameter("SearchString", "String to search in."),
                parameter("FilterString", "String to search for."),
                parameter("SearchOption", "Method-of-search code (0-10; add 100 to strip quotes), not a boolean case-sensitivity flag.")
            ],
        ))
    } else if str_eq(key, "splitstr") {
        Some(signature(
            "SplitStr",
            "Splits a string by delimiter into an array.",
            vec![
                parameter("Result", "Array to store results."),
                parameter("SearchString", "String to split."),
                parameter("FilterString", "Filter for the string(s) to return; its role (delimiter set, exact-match string, or header/footer filter) depends on SplitOption."),
                parameter("NumSplits", "Maximum number of splits."),
                parameter("SplitOption", "Split option flags.")
            ],
        ))
    } else {
        None
    }
}

/// Signatures of the time, system and table-definition instructions, by lowercase name.
pub open spec fn time_and_system_signatures(key: Seq<char>) -> Option<SignatureView> {
    if key == "timer"@ {
        Some(SignatureView {
            name: "Timer"@,
            documentation: "Returns elapsed time from a timer."@,
            parameters: seq![
                ParameterView { name: "TimerNumber"@, documentation: "Timer number (1-4)."@ },
                ParameterView { name: "Units"@, documentation: "Time units for result."@ },
                ParameterView { name: "TimerOption"@, documentation: "0=read, 1=read and reset."@ },
            ],
        })
    } else if key == "timeintointerval"@ {
        Some(SignatureView {
            name: "TimeIntoInterval"@,
            documentation: "Returns true when the interval boundary is crossed."@,
            parameters: seq![
                ParameterView { name: "TintoInt"@, documentation: "Time into interval to trigger."@ },
                ParameterView { name: "Interval"@, documentation: "Time interval to check."@ },
                ParameterView { name: "Units"@, documentation: "Time units (Sec, Min, Hr, etc.)."@ },
            ],
        })
    } else if key == "iftime"@ {
        Some(SignatureView {
            name: "IfTime"@,
            documentation: "Returns true at specified time intervals."@,
            parameters: seq![
                ParameterView { name: "TintoInt"@, documentation: "Time into interval to trigger."@ },
                ParameterView { name: "Interval"@, documentation: "Interval length."@ },
                ParameterView { name: "Units"@, documentation: "Time units."@ },
            ],
        })
    } else if key == "delay"@ {
        Some(SignatureView {
            name: "Delay"@,
            documentation: "Pauses execution for a specified time."@,
            parameters: seq![
                ParameterView { name: "Option"@, documentation: "0=measurement task sequence, 1=processing, 2=digital/SDM measurements."@ },
                ParameterView { name: "Duration"@, documentation: "Length of delay."@ },
                ParameterView { name: "Units"@, documentation: "Time units (uSec, mSec, Sec)."@ },
            ],
        })
    } else if key == "realtime"@ {
        Some(SignatureView {
            name: "RealTime"@,
            documentation: "Extracts the datalogger's current real-time clock values into a 9-element destination array."@,
            parameters: seq![
                ParameterView { name: "Dest"@, documentation: "Array (dimensioned to 9) that receives year, month, day, hour, minute, second, microsecond, day of week, and day of year."@ },
            ],
        })
    } else if key == "setstatus"@ {
        Some(SignatureView {
            name: "SetStatus"@,
            documentation: "Changes the value of a field in the datalogger's Status table."@,
            parameters: seq![
                ParameterView { name: "FieldName"@, documentation: "Name of the Status table field to change, enclosed in quotes."@ },
                ParameterView { name: "Value"@, documentation: "New value for the field; quoted for strings, unquoted for numeric values."@ },
            ],
        })
    } else if key == "setsetting"@ {
        Some(SignatureView {
            name: "SetSetting"@,
            documentation: "Changes the value of a field in the datalogger's Settings table."@,
            parameters: seq![
                ParameterView { name: "FieldName"@, documentation: "Name of the Settings table field to change, enclosed in quotes."@ },
                ParameterView { name: "Value"@, documentation: "New value for the field; quoted for strings, unquoted for numeric values."@ },
            ],
        })
    } else if key == "movebytes"@ {
        Some(SignatureView {
            name: "MoveBytes"@,
            documentation: "Moves binary bytes of data from one memory location to another, with optional byte-order swapping."@,
            parameters: seq![
                ParameterView { name: "Destination"@, documentation: "Variable in which the moved bytes are stored."@ },
                ParameterView { name: "DestOffset"@, documentation: "Zero-based byte offset into Destination where data is written."@ },
                ParameterView { name: "Source"@, documentation: "Variable holding the binary data to copy; left unchanged by the move."@ },
                ParameterView { name: "SourceOffset"@, documentation: "Zero-based byte offset into Source from which data is read."@ },
                ParameterView { name: "NumBytes"@, documentation: "Number of bytes to copy into Destination."@ },
                ParameterView { name: "Transfer"@, documentation: "Optional byte-swap mode (0-4) for handling different device byte ordering."@ },
            ],
        })
    } else if key == "arraylength"@ {
        Some(SignatureView {
            name: "ArrayLength"@,
            documentation: "Returns the total number of elements across all dimensions of an array."@,
            parameters: seq![
                ParameterView { name: "ArrayLenVar"@, documentation: "Array variable for which to return the total element count."@ },
            ],
        })
    } else if key == "nan"@ {
        Some(SignatureView {
            name: "NaN"@,
            documentation: "Represents the IEEE-754 Not-a-Number value used to flag an invalid measurement or processing error. Takes no parentheses."@,
            parameters: seq![],
        })
    } else if key == "datatable"@ {
        Some(SignatureView {
            name: "DataTable"@,
            documentation: "Defines a data table for storing measurements."@,
            parameters: seq![
                ParameterView { name: "TableName"@, documentation: "Name of the data table."@ },
                ParameterView { name: "TriggerCondition"@, documentation: "Condition that triggers output (True/-1 = every scan)."@ },
                ParameterView { name: "Size"@, documentation: "Number of records to store (-1 = auto)."@ },
            ],
        })
    } else {
        None
    }
}

fn time_and_system_signature(key: &str) -> (r: Option<FunctionSignature>)
    ensures
        signature_option_view(r) =~~= time_and_system_signatures(key@),
{
    if str_eq(key, "timer") {
        Some(signature(
            "Timer",
            "Returns elapsed time from a timer.",
            vec![
                parameter("TimerNumber", "Timer number (1-4)."),
                parameter("Units", "Time units for result."),
                parameter("TimerOption", "0=read, 1=read and reset.")
            ],
        ))
    } else if str_eq(key, "timeintointerval") {
        Some(signature(
            "TimeIntoInterval",
            "Returns true when the interval boundary is crossed.",
            vec![
                parameter("TintoInt", "Time into interval to trigger."),
                parameter("Interval", "Time interval to check."),
                parameter("Units", "Time units (Sec, Min, Hr, etc.).")
            ],
        ))
    } else if str_eq(key, "iftime") {
        Some(signature(
            "IfTime",
            "Returns true at specified time intervals.",
            vec![
                parameter("TintoInt", "Time into interval to trigger."),
                parameter("Interval", "Interval length."),
                parameter("Units", "Time units.")
            ],
        ))
    } else if str_eq(key, "delay") {
        Some(signature(
            "Delay",
            "Pauses execution for a specified time.",
            vec![
                parameter("Option", "0=measurement task sequence, 1=processing, 2=digital/SDM measurements."),
                parameter("Duration", "Length of delay."),
                parameter("Units", "Time units (uSec, mSec, Sec).")
            ],
        ))
    } else if str_eq(key, "realtime") {
        Some(signature(
            "RealTime",
            "Extracts the datalogger's current real-time clock values into a 9-element destination array.",
            vec![
                parameter("Dest", "Array (dimensioned to 9) that receives year, month, day, hour, minute, second, microsecond, day of week, and day of year.")
            ],
        ))
    } else if str_eq(key, "setstatus") {
        Some(signature(
            "SetStatus",
            "Changes the value of a field in the datalogger's Status table.",
            vec![
                parameter("FieldName", "Name of the Status table field to change, enclosed in quotes."),
                parameter("Value", "New value for the field; quoted for strings, unquoted for numeric values.")
            ],
        ))
    } else if str_eq(key, "setsetting") {
        Some(signature(
            "SetSetting",
            "Changes the value of a field in the datalogger's Settings table.",
            vec![
                parameter("FieldName", "Name of the Settings table field to change, enclosed in quotes."),
                parameter("Value", "New value for the field; quoted for strings, unquoted for numeric values.")
            ],
        ))
    } else if str_eq(key, "movebytes") {
        Some(signature(
            "MoveBytes",
            "Moves binary bytes of data from one memory location to another, with optional byte-order swapping.",
            vec![
                parameter("Destination", "Variable in which the moved bytes are stored."),
                parameter("DestOffset", "Zero-based byte offset into Destination where data is written."),
                parameter("Source", "Variable holding the binary data to copy; left unchanged by the move."),
                parameter("SourceOffset", "Zero-based byte offset into Source from which data is read."),
                parameter("NumBytes", "Number of bytes to copy into Destination."),
                parameter("Transfer", "Optional byte-swap mode (0-4) for handling different device byte ordering.")
            ],
        ))
    } else if str_eq(key, "arraylength") {
        Some(signature(
            "ArrayLength",
            "Returns the total number of elements across all dimensions of an array.",
            vec![
                parameter("ArrayLenVar", "Array variable for which to return the total element count.")
            ],
        ))
    } else if str_eq(key, "nan") {
        Some(signature("NaN", "Represents the IEEE-754 Not-a-Number value used to flag an invalid measurement or processing error. Takes no parentheses.", Vec::new()))
    } else if str_eq(key, "datatable") {
        Some(signature(
            "DataTable",
            "Defines a data table for storing measurements.",
            vec![
                parameter("TableName", "Name of the data table."),
                parameter("TriggerCondition", "Condition that triggers output (True/-1 = every scan)."),
                parameter("Size", "Number of records to store (-1 = auto).")
            ],
        ))
    } else {
        None
    }
}

/// The signature of a built-in function, by its lowercase name.
pub open spec fn signature_table(key: Seq<char>) -> Option<SignatureView> {
    match scan_and_output_signatures(key) {
        Some(s) => Some(s),
        None => match measurement_signatures(key) {
            Some(s) => Some(s),
            None => match serial_signatures(key) {
                Some(s) => Some(s),
                None => match math_signatures(key) {
                    Some(s) => Some(s),
                    None => match string_signatures(key) {
                        Some(s) => Some(s),
                        None => time_and_system_signatures(key),
                    },
                },
            },
        },
    }
}

/// The label of a signature: `Name(Param1, Param2, ...)`.
pub open spec fn signature_label(sig: SignatureView) -> Seq<char> {
    sig.name + "("@ + joined(sig.parameters.map_values(|p: ParameterView| p.name), ", "@) + ")"@
}

/// Whether `info` presents `sig` as signature help does.
pub open spec fn presents_signature(info: SignatureInformation, sig: SignatureView) -> bool {
    &&& info.label@ == signature_label(sig)
    &&& is_markdown(info.documentation, sig.documentation)
    &&& info.active_parameter is None
    &&& info.parameters matches Some(ps) && ps@.len() == sig.parameters.len() && forall|i: int|
        0 <= i < ps@.len() ==> {
            &&& #[trigger] ps@[i].label@ == sig.parameters[i].name
            &&& is_markdown(ps@[i].documentation, sig.parameters[i].documentation)
        }
}

impl SignatureProvider {
    /// Returns signature help for a function (case-insensitive), with
    /// `active_parameter` marked active; `None` if the function is not
    /// recognized.
    pub fn get_signature_help(function_name: &str, active_parameter: u32) -> (r: Option<
        SignatureHelp,
    >)
        ensures
            r is Some <==> signature_table(lowercase(function_name@)) is Some,
            r matches Some(help) ==> {
                &&& help.signatures@.len() == 1
                &&& presents_signature(
                    help.signatures@[0],
                    signature_table(lowercase(function_name@))->0,
                )
                &&& help.active_signature == Some(0u32)
                &&& help.active_parameter == Some(active_parameter)
            },
    {
        let signature = match Self::get_function_signature(function_name) {
            Some(s) => s,
            None => return None,
        };
        Some(
            SignatureHelp {
                signatures: vec![Self::to_signature_information(&signature)],
                active_signature: Some(0),
                active_parameter: Some(active_parameter),
            },
        )
    }

    /// Returns the signature of a built-in function, looked up by its
    /// lowercase name; `None` if the function is not recognized.
    pub fn get_function_signature(function_name: &str) -> (r: Option<FunctionSignature>)
        ensures
            signature_option_view(r) =~~= signature_table(lowercase(function_name@)),
    {
        let lower = to_lowercase(function_name);
        let key = lower.as_str();
        if let Some(s) = scan_and_output_signature(key) {
            return Some(s);
        }
        if let Some(s) = measurement_signature(key) {
            return Some(s);
        }
        if let Some(s) = serial_signature(key) {
            return Some(s);
        }
        if let Some(s) = math_signature(key) {
            return Some(s);
        }
        if let Some(s) = string_signature(key) {
            return Some(s);
        }
        time_and_system_signature(key)
    }

    /// Converts a signature to its signature help form.
    fn to_signature_information(sig: &FunctionSignature) -> (r: SignatureInformation)
        ensures
            presents_signature(r, sig@),
    {
        let mut label = owned(sig.name.as_str());
        label.append("(");
        let mut parameters: Vec<ParameterInformation> = Vec::new();
        let ghost names = sig@.parameters.map_values(|p: ParameterView| p.name);
        let mut i: usize = 0;
        while i < sig.parameters.len()
            invariant
                i <= sig.parameters@.len(),
                names == sig@.parameters.map_values(|p: ParameterView| p.name),
                label@ == sig.name@ + "("@ + joined(names.take(i as int), ", "@),
                parameters@.len() == i,
                forall|j: int|
                    0 <= j < i ==> {
                        &&& #[trigger] parameters@[j].label@ == sig@.parameters[j].name
                        &&& is_markdown(
                            parameters@[j].documentation,
                            sig@.parameters[j].documentation,
                        )
                    },
            decreases sig.parameters@.len() - i,
        {
            let p = &sig.parameters[i];
            if i > 0 {
                label.append(", ");
            }
            label.append(p.name.as_str());
            proof {
                assert(names.take(i + 1).drop_last() =~= names.take(i as int));
                if i == 0 {
                    assert(names.take(1) =~= seq![names[0]]);
                }
            }
            parameters.push(
                ParameterInformation {
                    label: owned(p.name.as_str()),
                    documentation: Some(markdown(owned(p.documentation.as_str()))),
                },
            );
            i += 1;
        }
        label.append(")");
        proof {
            assert(names.take(sig.parameters@.len() as int) =~= names);
        }
        SignatureInformation {
            label,
            documentation: Some(markdown(owned(sig.documentation.as_str()))),
            parameters: Some(parameters),
            active_parameter: None,
        }
    }
}

// ---------------------------------------------------------------------------
// Locating the call that encloses a cursor
// ---------------------------------------------------------------------------

/// Whether a UTF-8 byte continues a multi-byte character.
pub open spec fn is_continuation_byte(b: u8) -> bool {
    0x80 <= b && b < 0xC0
}

/// State of the backward scan from a cursor towards the unmatched `(`
/// of the call it sits in.
pub struct ParenScan {
    /// Nesting depth of `)` seen and not yet matched
    pub depth: int,
    /// Commas seen at depth 0 outside string literals
    pub commas: int,
    /// Whether the scan is inside a `"` string literal
    pub in_string: bool,
    /// The byte index of the unmatched `(`
    pub open_paren: Option<int>,
}

/// The scan before any byte is seen.
pub open spec fn scan_start() -> ParenScan {
    ParenScan { depth: 0, commas: 0, in_string: false, open_paren: None }
}

/// The scan after seeing byte `b` at index `at` (bytes are seen from the end).
pub open spec fn scan_step(st: ParenScan, b: u8, at: int) -> ParenScan {
    if st.open_paren is Some {
        st
    } else if b == 0x22 {
        ParenScan { in_string: !st.in_string, ..st }
    } else if st.in_string {
        st
    } else if b == 0x29 {
        ParenScan { depth: st.depth + 1, ..st }
    } else if b == 0x28 {
        if st.depth == 0 {
            ParenScan { open_paren: Some(at), ..st }
        } else {
            ParenScan { depth: st.depth - 1, ..st }
        }
    } else if b == 0x2C && st.depth == 0 {
        ParenScan { commas: st.commas + 1, ..st }
    } else {
        st
    }
}

/// The scan after seeing `bytes[k..]`, from the last byte back to `bytes[k]`.
pub open spec fn scan_back(bytes: Seq<u8>, k: int) -> ParenScan
    decreases bytes.len() - k,
{
    if k >= bytes.len() {
        scan_start()
    } else {
        scan_step(scan_back(bytes, k + 1), bytes[k], k)
    }
}

/// The bytes of `text` before the byte offset `cursor` (clamped to its length).
pub open spec fn bytes_before(text: &str, cursor: usize) -> Seq<u8> {
    let n = if cursor <= text.spec_bytes().len() {
        cursor as int
    } else {
        text.spec_bytes().len() as int
    };
    text.spec_bytes().take(n)
}

/// The index of the argument the cursor is in: the commas between the
/// unmatched `(` before the cursor and the cursor, outside string literals
/// and nested parentheses; 0 when there is no such `(`.
pub open spec fn active_parameter_index(before: Seq<u8>) -> int {
    let st = scan_back(before, 0);
    if st.open_paren is Some {
        st.commas
    } else {
        0
    }
}

/// Whether `c` can be part of a function name: `_`, or a character that
/// `char::is_alphanumeric` accepts, which among ASCII characters are the
/// letters and digits.
pub open spec fn is_name_char(c: char) -> bool {
    (if (c as u32) < 128 {
        is_ascii_alnum(c)
    } else {
        unicode_alphanumeric(c)
    }) || c == '_'
}

/// Whether `c` is an ASCII letter, digit or `_`.
pub open spec fn is_ascii_name_char(c: char) -> bool {
    is_ascii_alnum(c) || c == '_'
}

/// The index of the last character of `s` that can not be part of a name.
pub open spec fn last_non_name_char(s: Seq<char>) -> Option<int>
    decreases s.len(),
{
    if s.len() == 0 {
        None
    } else if !is_name_char(s.last()) {
        Some(s.len() - 1)
    } else {
        last_non_name_char(s.drop_last())
    }
}

/// The characters before the unmatched `(` at byte index `paren`.
pub open spec fn head_before_paren(before: Seq<u8>, paren: int) -> Seq<char> {
    decode_utf8(before.take(paren))
}

/// The trailing name-character run of `head`.
pub open spec fn trailing_name(head: Seq<char>) -> Seq<char> {
    match last_non_name_char(head) {
        Some(j) => head.skip(j + 1),
        None => head,
    }
}

/// Whether the cursor offset (clamped to the text's length) starts a
/// character, so that the text before it can be sliced off.
pub open spec fn cursor_on_char_boundary(text: &str, cursor: usize) -> bool {
    is_char_boundary(text.spec_bytes(), bytes_before(text, cursor).len() as int)
}

/// The name of the function whose argument list encloses the cursor: the
/// run of name characters before the unmatched `(`, trimmed; `None` when
/// there is no such `(` or the run is empty.
pub open spec fn enclosing_function_name(before: Seq<u8>) -> Option<Seq<char>> {
    match scan_back(before, 0).open_paren {
        None => None,
        Some(paren) => {
            let name = trimmed(trailing_name(head_before_paren(before, paren)));
            if name.len() == 0 {
                None
            } else {
                Some(name)
            }
        },
    }
}

proof fn lemma_scan_frozen(bytes: Seq<u8>, k: int, j: int)
    requires
        0 <= j <= k <= bytes.len(),
        scan_back(bytes, k).open_paren is Some,
    ensures
        scan_back(bytes, j) == scan_back(bytes, k),
    decreases k - j,
{
    if j < k {
        lemma_scan_frozen(bytes, k, j + 1);
    }
}

proof fn lemma_scan_bounds(bytes: Seq<u8>, k: int)
    requires
        0 <= k <= bytes.len(),
    ensures
        0 <= scan_back(bytes, k).depth <= bytes.len() - k,
        0 <= scan_back(bytes, k).commas <= bytes.len() - k,
        scan_back(bytes, k).open_paren matches Some(at) ==> k <= at < bytes.len() && bytes[at]
            == 0x28,
    decreases bytes.len() - k,
{
    if k < bytes.len() {
        lemma_scan_bounds(bytes, k + 1);
    }
}

/// Result of the backward scan: the byte index of the unmatched `(` if any,
/// and the commas counted before reaching it.
struct ScanResult {
    open_paren: Option<usize>,
    commas: usize,
}

/// Runs the backward scan over `bytes`.
fn run_scan(bytes: &[u8]) -> (r: ScanResult)
    ensures
        r.commas == scan_back(bytes@, 0).commas,
        match (r.open_paren, scan_back(bytes@, 0).open_paren) {
            (Some(a), Some(a2)) => a == a2,
            (None, None) => true,
            _ => false,
        },
{
    let mut k: usize = bytes.len();
    let mut depth: usize = 0;
    let mut commas: usize = 0;
    let mut in_string = false;
    while k > 0
        invariant
            k <= bytes@.len(),
            scan_back(bytes@, k as int) == (ParenScan {
                depth: depth as int,
                commas: commas as int,
                in_string,
                open_paren: None,
            }),
        decreases k,
    {
        proof {
            lemma_scan_bounds(bytes@, k as int);
        }
        let b = bytes[k - 1];
        let at = k - 1;
        if b == 0x22 {
            in_string = !in_string;
        } else if in_string {
        } else if b == 0x29 {
            depth = depth + 1;
        } else if b == 0x28 {
            if depth == 0 {
                proof {
                    lemma_scan_frozen(bytes@, at as int, 0);
                }
                return ScanResult { open_paren: Some(at), commas };
            } else {
                depth = depth - 1;
            }
        } else if b == 0x2C && depth == 0 {
            commas = commas + 1;
        }
        k = at;
    }
    ScanResult { open_paren: None, commas }
}

/// Index of the last character of `s` that can not be part of a name.
fn find_last_non_name_char(s: &Vec<char>) -> (r: Option<usize>)
    ensures
        r matches Some(j) ==> j < s@.len(),
        match (r, last_non_name_char(s@)) {
            (Some(j), Some(j2)) => j == j2,
            (None, None) => true,
            _ => false,
        },
{
    let mut j: usize = s.len();
    assert(s@.take(j as int) =~= s@);
    while j > 0
        invariant
            j <= s@.len(),
            last_non_name_char(s@) == last_non_name_char(s@.take(j as int)),
        decreases j,
    {
        let c = s[j - 1];
        proof {
            assert(s@.take(j as int).drop_last() =~= s@.take(j - 1));
        }
        if !(is_alphanumeric(c) || c == '_') {
            return Some(j - 1);
        }
        j -= 1;
    }
    None
}

impl SignatureProvider {
    /// Counts the commas between the cursor and the unmatched `(` before it,
    /// to determine the active parameter; 0 when there is no such `(`.
    ///
    /// `cursor_offset` is a byte offset; offsets past the end are clamped.
    pub fn count_parameters_before_cursor(text: &str, cursor_offset: usize) -> (r: u32)
        requires
            cursor_on_char_boundary(text, cursor_offset),
            active_parameter_index(bytes_before(text, cursor_offset)) <= u32::MAX,
        ensures
            r == active_parameter_index(bytes_before(text, cursor_offset)),
    {
        let all = text.as_bytes();
        let n = if cursor_offset <= all.len() {
            cursor_offset
        } else {
            all.len()
        };
        let (before, _) = text.split_at(n);
        let bytes = before.as_bytes();
        proof {
            assert(bytes@ =~= bytes_before(text, cursor_offset));
            lemma_scan_bounds(bytes@, 0);
        }
        let scan = run_scan(bytes);
        if scan.open_paren.is_some() {
            scan.commas as u32
        } else {
            0
        }
    }

    /// Extracts the name of the function whose argument list encloses the
    /// cursor: the name characters right before the unmatched `(` before
    /// the cursor, trimmed.
    ///
    /// `cursor_offset` is a byte offset; offsets past the end are clamped.
    pub fn extract_function_name(text: &str, cursor_offset: usize) -> (r: Option<String>)
        requires
            cursor_on_char_boundary(text, cursor_offset),
        ensures
            match (r, enclosing_function_name(bytes_before(text, cursor_offset))) {
                (Some(s), Some(t)) => s@ == t,
                (None, None) => true,
                _ => false,
            },
    {
        let all = text.as_bytes();
        let n = if cursor_offset <= all.len() {
            cursor_offset
        } else {
            all.len()
        };
        let ghost bb = bytes_before(text, cursor_offset);
        let (before, _) = text.split_at(n);
        let bytes = before.as_bytes();
        proof {
            assert(bytes@ =~= bb);
            lemma_scan_bounds(bytes@, 0);
        }
        let scan = run_scan(bytes);
        let end = match scan.open_paren {
            Some(at) => at,
            None => return None,
        };
        proof {
            vstd::utf8::encode_utf8_valid_utf8(before@);
            vstd::utf8::is_char_boundary_iff_not_is_continuation_byte(before.spec_bytes(), end as int);
        }
        let (head, _) = before.split_at(end);
        let head_chars = chars_of(head);
        proof {
            assert(head.spec_bytes() =~= bb.take(end as int));
            encode_utf8_decode_utf8(head@);
            assert(head_chars@ == head_before_paren(bb, end as int));
        }
        let len = head_chars.len();
        let start = match find_last_non_name_char(&head_chars) {
            Some(j) => {
                assert(j < len);
                j + 1
            },
            None => 0,
        };
        let mut name_chars: Vec<char> = Vec::new();
        let mut i = start;
        while i < head_chars.len()
            invariant
                start <= i <= head_chars@.len(),
                name_chars@ == head_chars@.subrange(start as int, i as int),
            decreases head_chars@.len() - i,
        {
            name_chars.push(head_chars[i]);
            i += 1;
        }
        proof {
            assert(name_chars@ =~= trailing_name(head_chars@));
        }
        let (a, b) = trim_bounds(&name_chars);
        if a == b {
            return None;
        }
        let name = head.substring_char(start + a, start + b);
        proof {
            assert(name@ =~= trimmed(name_chars@));
        }
        Some(owned(name))
    }
}

/// The name of the function whose argument list encloses the cursor, or
/// `None` when the cursor offset does not start a character (the case that
/// `SignatureProvider::extract_function_name` does not take).
pub fn function_name_at_cursor(text: &str, cursor_offset: usize) -> (r: Option<Option<String>>)
    ensures
        r is None <==> !cursor_on_char_boundary(text, cursor_offset),
        r matches Some(name) ==> match (name, enclosing_function_name(
            bytes_before(text, cursor_offset),
        )) {
            (Some(s), Some(t)) => s@ == t,
            (None, None) => true,
            _ => false,
        },
{
    let all = text.as_bytes();
    let n = if cursor_offset <= all.len() {
        cursor_offset
    } else {
        all.len()
    };
    if !text.is_char_boundary(n) {
        return None;
    }
    Some(SignatureProvider::extract_function_name(text, cursor_offset))
}

/// The index of the argument the cursor is in, or `None` when the cursor
/// offset does not start a character or the index does not fit a `u32`
/// (the cases that `SignatureProvider::count_parameters_before_cursor` does
/// not take).
pub fn checked_count_parameters_before_cursor(text: &str, cursor_offset: usize) -> (r: Option<u32>)
    ensures
        r is None <==> !cursor_on_char_boundary(text, cursor_offset) || active_parameter_index(
            bytes_before(text, cursor_offset),
        ) > u32::MAX,
        r matches Some(n) ==> n == active_parameter_index(bytes_before(text, cursor_offset)),
{
    let all = text.as_bytes();
    let n = if cursor_offset <= all.len() {
        cursor_offset
    } else {
        all.len()
    };
    if !text.is_char_boundary(n) {
        return None;
    }
    let (before, _) = text.split_at(n);
    let bytes = before.as_bytes();
    proof {
        assert(bytes@ =~= bytes_before(text, cursor_offset));
    }
    let scan = run_scan(bytes);
    if scan.open_paren.is_some() && scan.commas > 0xffff_ffffusize {
        return None;
    }
    Some(SignatureProvider::count_parameters_before_cursor(text, cursor_offset))
}

// ---------------------------------------------------------------------------
// Laws
// ---------------------------------------------------------------------------

/// Signature lookup ignores case: two names with the same lowercase form
/// have the same signature.
pub proof fn signature_lookup_ignores_case(a: &str, b: &str)
    requires
        lowercase(a@) == lowercase(b@),
    ensures
        signature_table(lowercase(a@)) == signature_table(lowercase(b@)),
{
}

/// The active parameter is 0 whenever no unmatched `(` precedes the cursor.
pub proof fn no_open_paren_means_first_parameter(before: Seq<u8>)
    requires
        scan_back(before, 0).open_paren is None,
    ensures
        active_parameter_index(before) == 0,
        enclosing_function_name(before) is None,
{
}

/// The number of `,` bytes in `bytes`.
pub open spec fn comma_count(bytes: Seq<u8>) -> int
    decreases bytes.len(),
{
    if bytes.len() == 0 {
        0
    } else {
        (if bytes[0] == 0x2C {
            1int
        } else {
            0int
        }) + comma_count(bytes.drop_first())
    }
}

proof fn lemma_plain_tail(before: Seq<u8>, paren: int, k: int)
    requires
        0 <= paren < k <= before.len(),
        forall|j: int|
            paren < j < before.len() ==> #[trigger] before[j] != 0x28 && before[j] != 0x29
                && before[j] != 0x22,
    ensures
        scan_back(before, k) == (ParenScan {
            depth: 0,
            commas: comma_count(before.skip(k)),
            in_string: false,
            open_paren: None,
        }),
    decreases before.len() - k,
{
    if k < before.len() {
        lemma_plain_tail(before, paren, k + 1);
        assert(before.skip(k).drop_first() =~= before.skip(k + 1));
        assert(before.skip(k)[0] == before[k]);
    } else {
        assert(before.skip(k) =~= Seq::<u8>::empty());
    }
}

/// The argument the cursor is in is numbered by the commas after the last
/// `(` before it, when no `(`, `)` or `"` follows that `(`: for
/// `p + "(" + s` with no parenthesis or quote in `s`, the index is the
/// number of commas in `s`.
pub proof fn argument_index_counts_the_commas_after_the_paren(before: Seq<u8>, paren: int)
    requires
        0 <= paren < before.len(),
        before[paren] == 0x28,
        forall|k: int|
            paren < k < before.len() ==> #[trigger] before[k] != 0x28 && before[k] != 0x29
                && before[k] != 0x22,
    ensures
        scan_back(before, 0).open_paren == Some(paren),
        active_parameter_index(before) == comma_count(before.skip(paren + 1)),
{
    lemma_plain_tail(before, paren, paren + 1);
    assert(scan_back(before, paren).open_paren == Some(paren));
    lemma_scan_frozen(before, paren, 0);
}

proof fn lemma_last_non_name_char(s: Seq<char>)
    ensures
        match last_non_name_char(s) {
            Some(j) => 0 <= j < s.len() && !is_name_char(s[j]) && forall|k: int|
                j < k < s.len() ==> is_name_char(#[trigger] s[k]),
            None => forall|k: int| 0 <= k < s.len() ==> is_name_char(#[trigger] s[k]),
        },
    decreases s.len(),
{
    if s.len() > 0 && is_name_char(s.last()) {
        lemma_last_non_name_char(s.drop_last());
        assert forall|k: int| 0 <= k < s.len() - 1 implies s[k] == s.drop_last()[k] by {}
    }
}

/// On ASCII text the function name at the cursor is the run of letters,
/// digits and `_` right before the unmatched `(` before the cursor (the
/// longest such run), or none when there is no such `(` or the run is
/// empty.
pub proof fn function_name_on_ascii_text(text: &str, cursor: usize)
    requires
        is_ascii_chars(text@),
    ensures
        ({
            let before = bytes_before(text, cursor);
            match scan_back(before, 0).open_paren {
                None => enclosing_function_name(before) is None,
                Some(q) => {
                    let head = text@.take(q);
                    let w = trailing_name(head);
                    &&& w.len() <= head.len()
                    &&& w == head.skip(head.len() - w.len())
                    &&& forall|j: int| 0 <= j < w.len() ==> is_ascii_name_char(#[trigger] w[j])
                    &&& w.len() < head.len() ==> !is_ascii_name_char(head[head.len() - w.len() - 1])
                    &&& enclosing_function_name(before) == if w.len() == 0 {
                        None
                    } else {
                        Some(w)
                    }
                },
            }
        }),
{
    let before = bytes_before(text, cursor);
    match scan_back(before, 0).open_paren {
        None => {},
        Some(q) => {
            lemma_scan_bounds(before, 0);
            is_ascii_chars_encode_utf8(text@);
            let head = text@.take(q);
            assert(is_ascii_chars(head));
            is_ascii_chars_encode_utf8(head);
            assert(encode_utf8(head) =~= before.take(q)) by {
                assert forall|i: int| 0 <= i < head.len() implies encode_utf8(head)[i] == before.take(
                    q,
                )[i] by {
                    assert(head[i] == text@[i]);
                }
            }
            encode_utf8_decode_utf8(head);
            assert(head_before_paren(before, q) == head);
            lemma_last_non_name_char(head);
            is_ascii_chars_nat_bound(head);
            let w = trailing_name(head);
            match last_non_name_char(head) {
                Some(j) => {
                    assert(w =~= head.skip(j + 1));
                    assert(head[j] == head[head.len() - w.len() - 1]);
                    assert((head[j] as nat) < 128);
                },
                None => {
                    assert(w =~= head.skip(0));
                },
            }
            assert forall|j: int| 0 <= j < w.len() implies is_ascii_name_char(#[trigger] w[j]) by {
                assert(w[j] == head[head.len() - w.len() + j]);
                assert((head[head.len() - w.len() + j] as nat) < 128);
                assert(is_name_char(head[head.len() - w.len() + j]));
            }
            if w.len() > 0 {
                assert(is_ascii_name_char(w[0]));
                assert(!is_unicode_white_space(w[0]));
                assert(is_ascii_name_char(w.last()));
                assert(!is_unicode_white_space(w.last()));
                assert(leading_white_space(w) == 0);
                assert(w.skip(0) =~= w);
                assert(trailing_white_space(w) == 0);
                assert(w.take(w.len() as int) =~= w);
            } else {
                assert(leading_white_space(w) == 0);
                assert(trimmed(w) =~= w);
            }
        },
    }
}

/// A cursor past the end of the text acts as the end: the scan then sees
/// the whole text.
pub proof fn cursor_past_the_end_sees_the_whole_text(text: &str, cursor: usize)
    requires
        cursor >= text.spec_bytes().len(),
    ensures
        bytes_before(text, cursor) == text.spec_bytes(),
{
    assert(text.spec_bytes().take(text.spec_bytes().len() as int) =~= text.spec_bytes());
}

proof fn lemma_scan_and_output_signatures_named_by_key(key: Seq<char>)
    ensures
        scan_and_output_signatures(key) matches Some(sig) ==> lowercase(sig.name) == key,
{
    if key == "scan"@ {
        reveal_strlit("scan");
        reveal_strlit("Scan");
        assert(ascii_lowercase("Scan"@) =~= "scan"@);
    } else if key == "subscan"@ {
        reveal_strlit("subscan");
        reveal_strlit("SubScan");
        assert(ascii_lowercase("SubScan"@) =~= "subscan"@);
    } else if key == "iif"@ {
        reveal_strlit("iif");
        reveal_strlit("IIf");
        assert(ascii_lowercase("IIf"@) =~= "iif"@);
    } else if key == "sample"@ {
        reveal_strlit("sample");
        reveal_strlit("Sample");
        assert(ascii_lowercase("Sample"@) =~= "sample"@);
    } else if key == "average"@ {
        reveal_strlit("average");
        reveal_strlit("Average");
        assert(ascii_lowercase("Average"@) =~= "average"@);
    } else if key == "minimum"@ {
        reveal_strlit("minimum");
        reveal_strlit("Minimum");
        assert(ascii_lowercase("Minimum"@) =~= "minimum"@);
    } else if key == "maximum"@ {
        reveal_strlit("maximum");
        reveal_strlit("Maximum");
        assert(ascii_lowercase("Maximum"@) =~= "maximum"@);
    }
}

proof fn lemma_measurement_signatures_named_by_key(key: Seq<char>)
    ensures
        measurement_signatures(key) matches Some(sig) ==> lowercase(sig.name) == key,
{
    if key == "pulsecount"@ {
        reveal_strlit("pulsecount");
        reveal_strlit("PulseCount");
        assert(ascii_lowercase("PulseCount"@) =~= "pulsecount"@);
    } else if key == "voltse"@ {
        reveal_strlit("voltse");
        reveal_strlit("VoltSe");
        assert(ascii_lowercase("VoltSe"@) =~= "voltse"@);
    } else if key == "voltdiff"@ {
        reveal_strlit("voltdiff");
        reveal_strlit("VoltDiff");
        assert(ascii_lowercase("VoltDiff"@) =~= "voltdiff"@);
    } else if key == "tcdiff"@ {
        reveal_strlit("tcdiff");
        reveal_strlit("TCDiff");
        assert(ascii_lowercase("TCDiff"@) =~= "tcdiff"@);
    } else if key == "resistance"@ {
        reveal_strlit("resistance");
        reveal_strlit("Resistance");
        assert(ascii_lowercase("Resistance"@) =~= "resistance"@);
    } else if key == "sdi12recorder"@ {
        reveal_strlit("sdi12recorder");
        reveal_strlit("SDI12Recorder");
        assert(ascii_lowercase("SDI12Recorder"@) =~= "sdi12recorder"@);
    } else if key == "windvector"@ {
        reveal_strlit("windvector");
        reveal_strlit("WindVector");
        assert(ascii_lowercase("WindVector"@) =~= "windvector"@);
    }
}

proof fn lemma_serial_signatures_named_by_key(key: Seq<char>)
    ensures
        serial_signatures(key) matches Some(sig) ==> lowercase(sig.name) == key,
{
    if key == "serialopen"@ {
        reveal_strlit("serialopen");
        reveal_strlit("SerialOpen");
        assert(ascii_lowercase("SerialOpen"@) =~= "serialopen"@);
    } else if key == "serialout"@ {
        reveal_strlit("serialout");
        reveal_strlit("SerialOut");
        assert(ascii_lowercase("SerialOut"@) =~= "serialout"@);
    } else if key == "serialin"@ {
        reveal_strlit("serialin");
        reveal_strlit("SerialIn");
        assert(ascii_lowercase("SerialIn"@) =~= "serialin"@);
    }
}

proof fn lemma_math_signatures_named_by_key(key: Seq<char>)
    ensures
        math_signatures(key) matches Some(sig) ==> lowercase(sig.name) == key,
{
    if key == "abs"@ {
        reveal_strlit("abs");
        reveal_strlit("Abs");
        assert(ascii_lowercase("Abs"@) =~= "abs"@);
    } else if key == "sqr"@ {
        reveal_strlit("sqr");
        reveal_strlit("Sqr");
        assert(ascii_lowercase("Sqr"@) =~= "sqr"@);
    } else if key == "sin"@ {
        reveal_strlit("sin");
        reveal_strlit("Sin");
        assert(ascii_lowercase("Sin"@) =~= "sin"@);
    } else if key == "cos"@ {
        reveal_strlit("cos");
        reveal_strlit("Cos");
        assert(ascii_lowercase("Cos"@) =~= "cos"@);
    } else if key == "tan"@ {
        reveal_strlit("tan");
        reveal_strlit("Tan");
        assert(ascii_lowercase("Tan"@) =~= "tan"@);
    } else if key == "atn2"@ {
        reveal_strlit("atn2");
        reveal_strlit("Atn2");
        assert(ascii_lowercase("Atn2"@) =~= "atn2"@);
    } else if key == "round"@ {
        reveal_strlit("round");
        reveal_strlit("Round");
        assert(ascii_lowercase("Round"@) =~= "round"@);
    } else if key == "sgn"@ {
        reveal_strlit("sgn");
        reveal_strlit("Sgn");
        assert(ascii_lowercase("Sgn"@) =~= "sgn"@);
    } else if key == "exp"@ {
        reveal_strlit("exp");
        reveal_strlit("Exp");
        assert(ascii_lowercase("Exp"@) =~= "exp"@);
    } else if key == "ln"@ {
        reveal_strlit("ln");
        reveal_strlit("Ln");
        assert(ascii_lowercase("Ln"@) =~= "ln"@);
    } else if key == "log"@ {
        reveal_strlit("log");
        reveal_strlit("Log");
        assert(ascii_lowercase("Log"@) =~= "log"@);
    } else if key == "log10"@ {
        reveal_strlit("log10");
        reveal_strlit("Log10");
        assert(ascii_lowercase("Log10"@) =~= "log10"@);
    } else if key == "sinh"@ {
        reveal_strlit("sinh");
        reveal_strlit("Sinh");
        assert(ascii_lowercase("Sinh"@) =~= "sinh"@);
    } else if key == "cosh"@ {
        reveal_strlit("cosh");
        reveal_strlit("Cosh");
        assert(ascii_lowercase("Cosh"@) =~= "cosh"@);
    } else if key == "tanh"@ {
        reveal_strlit("tanh");
        reveal_strlit("Tanh");
        assert(ascii_lowercase("Tanh"@) =~= "tanh"@);
    } else if key == "asin"@ {
        reveal_strlit("asin");
        reveal_strlit("Asin");
        assert(ascii_lowercase("Asin"@) =~= "asin"@);
    } else if key == "acos"@ {
        reveal_strlit("acos");
        reveal_strlit("Acos");
        assert(ascii_lowercase("Acos"@) =~= "acos"@);
    } else if key == "atn"@ {
        reveal_strlit("atn");
        reveal_strlit("Atn");
        assert(ascii_lowercase("Atn"@) =~= "atn"@);
    } else if key == "int"@ {
        reveal_strlit("int");
        reveal_strlit("Int");
        assert(ascii_lowercase("Int"@) =~= "int"@);
    } else if key == "fix"@ {
        reveal_strlit("fix");
        reveal_strlit("Fix");
        assert(ascii_lowercase("Fix"@) =~= "fix"@);
    } else if key == "frac"@ {
        reveal_strlit("frac");
        reveal_strlit("Frac");
        assert(ascii_lowercase("Frac"@) =~= "frac"@);
    } else if key == "rnd"@ {
        reveal_strlit("rnd");
        reveal_strlit("Rnd");
        assert(ascii_lowercase("Rnd"@) =~= "rnd"@);
    } else if key == "ceiling"@ {
        reveal_strlit("ceiling");
        reveal_strlit("Ceiling");
        assert(ascii_lowercase("Ceiling"@) =~= "ceiling"@);
    } else if key == "floor"@ {
        reveal_strlit("floor");
        reveal_strlit("Floor");
        assert(ascii_lowercase("Floor"@) =~= "floor"@);
    }
}

proof fn lemma_string_signatures_named_by_key(key: Seq<char>)
    ensures
        string_signatures(key) matches Some(sig) ==> lowercase(sig.name) == key,
{
    if key == "len"@ {
        reveal_strlit("len");
        reveal_strlit("Len");
        assert(ascii_lowercase("Len"@) =~= "len"@);
    } else if key == "mid"@ {
        reveal_strlit("mid");
        reveal_strlit("Mid");
        assert(ascii_lowercase("Mid"@) =~= "mid"@);
    } else if key == "left"@ {
        reveal_strlit("left");
        reveal_strlit("Left");
        assert(ascii_lowercase("Left"@) =~= "left"@);
    } else if key == "right"@ {
        reveal_strlit("right");
        reveal_strlit("Right");
        assert(ascii_lowercase("Right"@) =~= "right"@);
    } else if key == "instr"@ {
        reveal_strlit("instr");
        reveal_strlit("InStr");
        assert(ascii_lowercase("InStr"@) =~= "instr"@);
    } else if key == "splitstr"@ {
        reveal_strlit("splitstr");
        reveal_strlit("SplitStr");
        assert(ascii_lowercase("SplitStr"@) =~= "splitstr"@);
    }
}

proof fn lemma_time_and_system_signatures_named_by_key(key: Seq<char>)
    ensures
        time_and_system_signatures(key) matches Some(sig) ==> lowercase(sig.name) == key,
{
    if key == "timer"@ {
        reveal_strlit("timer");
        reveal_strlit("Timer");
        assert(ascii_lowercase("Timer"@) =~= "timer"@);
    } else if key == "timeintointerval"@ {
        reveal_strlit("timeintointerval");
        reveal_strlit("TimeIntoInterval");
        assert(ascii_lowercase("TimeIntoInterval"@) =~= "timeintointerval"@);
    } else if key == "iftime"@ {
        reveal_strlit("iftime");
        reveal_strlit("IfTime");
        assert(ascii_lowercase("IfTime"@) =~= "iftime"@);
    } else if key == "delay"@ {
        reveal_strlit("delay");
        reveal_strlit("Delay");
        assert(ascii_lowercase("Delay"@) =~= "delay"@);
    } else if key == "realtime"@ {
        reveal_strlit("realtime");
        reveal_strlit("RealTime");
        assert(ascii_lowercase("RealTime"@) =~= "realtime"@);
    } else if key == "setstatus"@ {
        reveal_strlit("setstatus");
        reveal_strlit("SetStatus");
        assert(ascii_lowercase("SetStatus"@) =~= "setstatus"@);
    } else if key == "setsetting"@ {
        reveal_strlit("setsetting");
        reveal_strlit("SetSetting");
        assert(ascii_lowercase("SetSetting"@) =~= "setsetting"@);
    } else if key == "movebytes"@ {
        reveal_strlit("movebytes");
        reveal_strlit("MoveBytes");
        assert(ascii_lowercase("MoveBytes"@) =~= "movebytes"@);
    } else if key == "arraylength"@ {
        reveal_strlit("arraylength");
        reveal_strlit("ArrayLength");
        assert(ascii_lowercase("ArrayLength"@) =~= "arraylength"@);
    } else if key == "nan"@ {
        reveal_strlit("nan");
        reveal_strlit("NaN");
        assert(ascii_lowercase("NaN"@) =~= "nan"@);
    } else if key == "datatable"@ {
        reveal_strlit("datatable");
        reveal_strlit("DataTable");
        assert(ascii_lowercase("DataTable"@) =~= "datatable"@);
    }
}

/// The signature found for a name is that name's own: the signature stored
/// under a (lowercase) key is named by the same word, in its own casing.
pub proof fn signature_names_match_their_keys(key: Seq<char>)
    ensures
        signature_table(key) matches Some(sig) ==> lowercase(sig.name) == key,
{
    lemma_scan_and_output_signatures_named_by_key(key);
    lemma_measurement_signatures_named_by_key(key);
    lemma_serial_signatures_named_by_key(key);
    lemma_math_signatures_named_by_key(key);
    lemma_string_signatures_named_by_key(key);
    lemma_time_and_system_signatures_named_by_key(key);
}

} // verus!

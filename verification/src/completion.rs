//! Completion items for CRBasic: keywords, built-in functions, snippets,
//! data types, and the symbols a program declares.
use crate::protocol::{markdown, MarkupContent, MarkupKind};
use crate::syntax::{Program, Statement};
use crate::text::{join_strings, joined, owned};
use vstd::prelude::*;

verus! {

/// What a completion item stands for.
#[derive(Debug, Clone, Copy, PartialEq, Eq)]
pub enum CompletionItemKind {
    Method,
    Function,
    Variable,
    Keyword,
    Snippet,
    Constant,
}

/// How a completion's insert text is to be read.
#[derive(Debug, Clone, Copy, PartialEq, Eq)]
pub enum InsertTextFormat {
    PlainText,
    Snippet,
}

/// A completion item.
#[derive(Debug, Clone, PartialEq, Eq)]
pub struct CompletionItem {
    pub label: String,
    pub kind: Option<CompletionItemKind>,
    pub detail: Option<String>,
    pub documentation: Option<MarkupContent>,
    pub insert_text: Option<String>,
    pub insert_text_format: Option<InsertTextFormat>,
}

/// The value of a completion item; the documentation is its markup kind
/// with its text.
#[verifier::ext_equal]
pub struct CompletionView {
    pub label: Seq<char>,
    pub kind: Option<CompletionItemKind>,
    pub detail: Option<Seq<char>>,
    pub documentation: Option<(MarkupKind, Seq<char>)>,
    pub insert_text: Option<Seq<char>>,
    pub insert_text_format: Option<InsertTextFormat>,
}

/// The text of an optional string.
pub open spec fn string_option_view(s: Option<String>) -> Option<Seq<char>> {
    match s {
        Some(s) => Some(s@),
        None => None,
    }
}

/// The kind and text of optional documentation.
pub open spec fn markup_option_view(m: Option<MarkupContent>) -> Option<(MarkupKind, Seq<char>)> {
    match m {
        Some(c) => Some((c.kind, c.value@)),
        None => None,
    }
}

impl View for CompletionItem {
    type V = CompletionView;

    open spec fn view(&self) -> CompletionView {
        CompletionView {
            label: self.label@,
            kind: self.kind,
            detail: string_option_view(self.detail),
            documentation: markup_option_view(self.documentation),
            insert_text: string_option_view(self.insert_text),
            insert_text_format: self.insert_text_format,
        }
    }
}

/// The values of a list of completion items.
pub open spec fn items_view(items: Seq<CompletionItem>) -> Seq<CompletionView> {
    items.map_values(|c: CompletionItem| c@)
}

/// A plain keyword item.
pub open spec fn keyword_item(label: Seq<char>, detail: Seq<char>) -> CompletionView {
    CompletionView {
        label,
        kind: Some(CompletionItemKind::Keyword),
        detail: Some(detail),
        documentation: None,
        insert_text: None,
        insert_text_format: None,
    }
}

/// A keyword item that inserts a snippet.
pub open spec fn keyword_snippet_item(
    label: Seq<char>,
    insert_text: Seq<char>,
    detail: Seq<char>,
) -> CompletionView {
    CompletionView {
        label,
        kind: Some(CompletionItemKind::Keyword),
        detail: Some(detail),
        documentation: None,
        insert_text: Some(insert_text),
        insert_text_format: Some(InsertTextFormat::Snippet),
    }
}

/// A multi-statement pattern snippet item.
pub open spec fn pattern_snippet_item(
    label: Seq<char>,
    insert_text: Seq<char>,
    detail: Seq<char>,
) -> CompletionView {
    CompletionView {
        label,
        kind: Some(CompletionItemKind::Snippet),
        detail: Some(detail),
        documentation: None,
        insert_text: Some(insert_text),
        insert_text_format: Some(InsertTextFormat::Snippet),
    }
}

/// A built-in function item: detail `Built-in: <label>`, Markdown documentation.
pub open spec fn function_item(
    label: Seq<char>,
    insert_text: Seq<char>,
    doc: Seq<char>,
) -> CompletionView {
    CompletionView {
        label,
        kind: Some(CompletionItemKind::Function),
        detail: Some("Built-in: "@ + label),
        documentation: Some((MarkupKind::Markdown, doc)),
        insert_text: Some(insert_text),
        insert_text_format: Some(InsertTextFormat::Snippet),
    }
}

/// Provides completion items for CRBasic.
pub struct CompletionProvider;

/// The built-in function completion items.
pub open spec fn builtin_function_items() -> Seq<CompletionView> {
    seq![
        function_item("Scan"@, "Scan(${1:Interval}, ${2:Units}, ${3:BufferOption}, ${4:Count})"@, "Initiates a measurement scan at specified intervals."@),
        function_item("SubScan"@, "SubScan(${1:SubInterval}, ${2:Units}, ${3:Count})"@, "Begins a nested sub-scan for faster measurement or multiplexer control."@),
        function_item("Sample"@, "Sample(${1:Reps}, ${2:Source}, ${3:DataType})"@, "Samples and stores a value in the data table."@),
        function_item("Average"@, "Average(${1:Reps}, ${2:Source}, ${3:DataType}, ${4:DisableVar})"@, "Calculates and stores the average of values."@),
        function_item("Minimum"@, "Minimum(${1:Reps}, ${2:Source}, ${3:DataType}, ${4:DisableVar}, ${5:Time})"@, "Stores the minimum value over the output interval."@),
        function_item("Maximum"@, "Maximum(${1:Reps}, ${2:Source}, ${3:DataType}, ${4:DisableVar}, ${5:Time})"@, "Stores the maximum value over the output interval."@),
        function_item("Totalize"@, "Totalize(${1:Reps}, ${2:Source}, ${3:DataType}, ${4:DisableVar})"@, "Stores the sum of values over the output interval."@),
        function_item("StdDev"@, "StdDev(${1:Reps}, ${2:Source}, ${3:DataType}, ${4:DisableVar})"@, "Calculates and stores the standard deviation."@),
        function_item("PulseCount"@, "PulseCount(${1:Dest}, ${2:Reps}, ${3:PChan}, ${4:PConfig}, ${5:POption}, ${6:Mult}, ${7:Offset})"@, "Measures pulse count from a sensor."@),
        function_item("VoltSe"@, "VoltSe(${1:Dest}, ${2:Reps}, ${3:Range}, ${4:SEChan}, ${5:MeasOff}, ${6:SettlingTime}, ${7:fN1}, ${8:Mult}, ${9:Offset})"@, "Measures single-ended voltage."@),
        function_item("VoltDiff"@, "VoltDiff(${1:Dest}, ${2:Reps}, ${3:Range}, ${4:DiffChan}, ${5:RevDiff}, ${6:SettlingTime}, ${7:fN1}, ${8:Mult}, ${9:Offset})"@, "Measures differential voltage."@),
        function_item("Therm107"@, "Therm107(${1:Dest}, ${2:Reps}, ${3:SEChan}, ${4:Excite}, ${5:SettlingTime}, ${6:Integ}, ${7:Mult}, ${8:Offset})"@, "Measures temperature using a 107 thermistor."@),
        function_item("Therm108"@, "Therm108(${1:Dest}, ${2:Reps}, ${3:SEChan}, ${4:Excite}, ${5:SettlingTime}, ${6:Integ}, ${7:Mult}, ${8:Offset})"@, "Measures temperature using a 108 thermistor."@),
        function_item("Therm109"@, "Therm109(${1:Dest}, ${2:Reps}, ${3:SEChan}, ${4:Excite}, ${5:SettlingTime}, ${6:Integ}, ${7:Mult}, ${8:Offset})"@, "Measures temperature using a 109 thermistor."@),
        function_item("TCDiff"@, "TCDiff(${1:Dest}, ${2:Reps}, ${3:Range}, ${4:DiffChan}, ${5:TCType}, ${6:TRef}, ${7:RevDiff}, ${8:SettlingTime}, ${9:fN1}, ${10:Mult}, ${11:Offset})"@, "Measures thermocouple temperature (differential)."@),
        function_item("SerialOpen"@, "SerialOpen(${1:ComPort}, ${2:BaudRate}, ${3:Format}, ${4:TXDelay}, ${5:BufferSize})"@, "Opens a serial communication port."@),
        function_item("SerialClose"@, "SerialClose(${1:ComPort})"@, "Closes a serial communication port."@),
        function_item("SerialIn"@, "SerialIn(${1:Dest}, ${2:ComPort}, ${3:TimeOut}, ${4:TerminationChar}, ${5:MaxNumChars})"@, "Reads data from a serial port."@),
        function_item("SerialOut"@, "SerialOut(${1:ComPort}, ${2:OutString}, ${3:WaitString}, ${4:NumberTries}, ${5:TimeOut})"@, "Sends data to a serial port."@),
        function_item("Abs"@, "Abs(${1:Value})"@, "Returns the absolute value."@),
        function_item("Sqr"@, "Sqr(${1:Value})"@, "Returns the square root."@),
        function_item("Exp"@, "Exp(${1:Value})"@, "Returns e raised to a power."@),
        function_item("Log"@, "Log(${1:Value})"@, "Returns the natural logarithm."@),
        function_item("Log10"@, "Log10(${1:Value})"@, "Returns the base-10 logarithm."@),
        function_item("Sin"@, "Sin(${1:Radians})"@, "Returns the sine."@),
        function_item("Cos"@, "Cos(${1:Radians})"@, "Returns the cosine."@),
        function_item("Tan"@, "Tan(${1:Radians})"@, "Returns the tangent."@),
        function_item("Asin"@, "Asin(${1:Value})"@, "Returns the arc sine."@),
        function_item("Acos"@, "Acos(${1:Value})"@, "Returns the arc cosine."@),
        function_item("Atn"@, "Atn(${1:Value})"@, "Returns the arc tangent."@),
        function_item("Atn2"@, "Atn2(${1:Y}, ${2:X})"@, "Returns the arc tangent of Y/X."@),
        function_item("Int"@, "Int(${1:Value})"@, "Returns the integer part (truncates toward negative infinity)."@),
        function_item("Fix"@, "Fix(${1:Value})"@, "Returns the integer part (truncates toward zero)."@),
        function_item("Round"@, "Round(${1:Value}, ${2:NumDigits})"@, "Rounds to specified decimal places."@),
        function_item("Len"@, "Len(${1:String})"@, "Returns the length of a string."@),
        function_item("Mid"@, "Mid(${1:String}, ${2:Start}, ${3:Length})"@, "Extracts a substring."@),
        function_item("Left"@, "Left(${1:String}, ${2:Length})"@, "Returns leftmost characters."@),
        function_item("Right"@, "Right(${1:String}, ${2:Length})"@, "Returns rightmost characters."@),
        function_item("InStr"@, "InStr(${1:Start}, ${2:SearchString}, ${3:FilterString}, ${4:SearchOption})"@, "Finds a substring within a string."@),
        function_item("Replace"@, "Replace(${1:String}, ${2:Find}, ${3:ReplaceWith})"@, "Replaces occurrences in a string."@),
        function_item("Trim"@, "Trim(${1:String})"@, "Removes leading and trailing spaces."@),
        function_item("LTrim"@, "LTrim(${1:String})"@, "Removes leading spaces."@),
        function_item("RTrim"@, "RTrim(${1:String})"@, "Removes trailing spaces."@),
        function_item("UpperCase"@, "UpperCase(${1:String})"@, "Converts to uppercase."@),
        function_item("LowerCase"@, "LowerCase(${1:String})"@, "Converts to lowercase."@),
        function_item("SplitStr"@, "SplitStr(${1:Result}, ${2:SearchString}, ${3:FilterString}, ${4:NumSplits}, ${5:SplitOption})"@, "Splits a string by delimiter."@),
        function_item("FormatFloat"@, "FormatFloat(${1:Value}, ${2:FormatString})"@, "Formats a float as a string."@),
        function_item("Timer"@, "Timer(${1:TimerNumber}, ${2:Units}, ${3:TimerOption})"@, "Returns elapsed time from a timer."@),
        function_item("TimeIntoInterval"@, "TimeIntoInterval(${1:TintoInt}, ${2:Interval}, ${3:Units})"@, "Returns true when the interval boundary is crossed."@),
        function_item("IfTime"@, "IfTime(${1:TintoInt}, ${2:Interval}, ${3:Units})"@, "Returns true at specified time intervals."@),
        function_item("RealTime"@, "RealTime(${1:Dest})"@, "Returns the current real-time clock values."@),
        function_item("Delay"@, "Delay(${1:Option}, ${2:Duration}, ${3:Units})"@, "Pauses execution for a specified time."@),
        function_item("Battery"@, "Battery(${1:Dest})"@, "Measures the voltage of the battery powering the datalogger."@),
        function_item("PanelTemp"@, "PanelTemp(${1:Dest}, ${2:fN1})"@, "Measures the temperature of the datalogger wiring panel in degrees Celsius."@),
        function_item("BrHalf"@, "BrHalf(${1:Dest}, ${2:Reps}, ${3:Range}, ${4:SEChan}, ${5:ExChan}, ${6:MeasPEx}, ${7:ExmV}, ${8:RevEx}, ${9:SettlingTime}, ${10:fN1}, ${11:Mult}, ${12:Offset})"@, "Applies an excitation voltage to a half bridge and measures the single-ended voltage output."@),
        function_item("BrFull"@, "BrFull(${1:Dest}, ${2:Reps}, ${3:Range}, ${4:DiffChan}, ${5:ExChan}, ${6:MeasPEx}, ${7:ExmV}, ${8:RevEx}, ${9:RevDiff}, ${10:SettlingTime}, ${11:fN1}, ${12:Mult}, ${13:Offset})"@, "Applies an excitation voltage to a full bridge and measures the differential voltage output."@),
        function_item("Resistance"@, "Resistance(${1:Dest}, ${2:Reps}, ${3:Range}, ${4:DiffChan}, ${5:IexChan}, ${6:MeasPEx}, ${7:EXuA}, ${8:RevEx}, ${9:RevDiff}, ${10:SettlingTime}, ${11:fN1}, ${12:Mult}, ${13:Offset}, ${14:MeasCurrent})"@, "Applies a known excitation current and measures the resistance of a bridge or resistive circuit."@),
        function_item("PeriodAvg"@, "PeriodAvg(${1:Dest}, ${2:Reps}, ${3:Chan}, ${4:Option}, ${5:Cycles}, ${6:Timeout}, ${7:Mult}, ${8:Offset})"@, "Measures the period or frequency of a signal on a single-ended channel."@),
        function_item("PortSet"@, "PortSet(${1:Port}, ${2:State}, ${3:Option})"@, "Sets a control port to a high or low state."@),
        function_item("PulsePort"@, "PulsePort(${1:Port}, ${2:Delay})"@, "Toggles a port, delays, toggles it back, and delays again to generate a clocking pulse."@),
        function_item("ExciteV"@, "ExciteV(${1:ExChan}, ${2:ExmV}, ${3:Delay})"@, "Sets an excitation channel output to a specified voltage for a specified duration."@),
        function_item("BrHalf3W"@, "BrHalf3W(${1:Dest}, ${2:Reps}, ${3:Range}, ${4:SEChan}, ${5:ExChan}, ${6:MeasPEx}, ${7:ExmV}, ${8:RevEx}, ${9:SettlingTime}, ${10:fN1}, ${11:Mult}, ${12:Offset})"@, "Applies an excitation voltage and measures a 3-wire half bridge to calculate the resistance ratio."@),
        function_item("BrHalf4W"@, "BrHalf4W(${1:Dest}, ${2:Reps}, ${3:Range1}, ${4:Range2}, ${5:DiffChan}, ${6:ExChan}, ${7:MeasPEx}, ${8:ExmV}, ${9:RevEx}, ${10:RevDiff}, ${11:SettlingTime}, ${12:fN1}, ${13:Mult}, ${14:Offset}, ${15:ReturnV1})"@, "Applies an excitation voltage and makes two differential voltage measurements to measure a 4-wire half bridge."@),
        function_item("BrFull6W"@, "BrFull6W(${1:Dest}, ${2:Reps}, ${3:Range1}, ${4:Range2}, ${5:DiffChan}, ${6:ExChan}, ${7:MeasPEx}, ${8:ExmV}, ${9:RevEx}, ${10:RevDiff}, ${11:SettlingTime}, ${12:fN1}, ${13:Mult}, ${14:Offset}, ${15:ReturnV1})"@, "Applies an excitation voltage and makes two differential voltage measurements to measure a 6-wire full bridge."@),
        function_item("TCSE"@, "TCSE(${1:Dest}, ${2:Reps}, ${3:Range}, ${4:SEChan}, ${5:TCType}, ${6:TRef}, ${7:MeasOff}, ${8:SettlingTime}, ${9:fN1}, ${10:Mult}, ${11:Offset})"@, "Measures a thermocouple on a single-ended channel and converts the reading to degrees Celsius."@),
        function_item("SerialInRecord"@, "SerialInRecord(${1:COMPort}, ${2:Dest}, ${3:BeginWord}, ${4:NBytes}, ${5:EndWord}, ${6:NBytesReturned}, ${7:SerialInRecOption})"@, "Reads and parses incoming serial data using begin/end markers."@),
        function_item("SerialOutBlock"@, "SerialOutBlock(${1:ComPort}, ${2:Expression}, ${3:NumberBytes})"@, "Sends binary data out a serial port."@),
        function_item("SerialFlush"@, "SerialFlush(${1:ComPort})"@, "Clears any characters in the serial input buffer."@),
        function_item("ModbusMaster"@, "ModbusMaster(${1:ResultCode}, ${2:ComPort}, ${3:BaudRate}, ${4:ModbusAddr}, ${5:Function}, ${6:Variable}, ${7:Start}, ${8:Length}, ${9:Tries}, ${10:TimeOut}, ${11:ModbusOption})"@, "Sets up the datalogger as a Modbus client to send or retrieve data from a Modbus server."@),
        function_item("SDI12Recorder"@, "SDI12Recorder(${1:Dest}, ${2:SDIPort}, ${3:SDIAddress}, ${4:SDICommand}, ${5:Multiplier}, ${6:Offset}, ${7:FillNAN}, ${8:WaitonTimeout})"@, "Retrieves measurement results from an SDI-12 sensor."@),
        function_item("TCPOpen"@, "TCPOpen(${1:IPAddr}, ${2:TCPPort}, ${3:IPBuffer}, ${4:IPTimeOut}, ${5:ConnectHandle}, ${6:MaxConnect})"@, "Sets up a TCP/IP socket for communication."@),
        function_item("TCPClose"@, "TCPClose(${1:TCPSocket})"@, "Closes a TCP/IP socket that was set up for communication."@),
        function_item("UDPOpen"@, "UDPOpen(${1:IPAddr}, ${2:UDPPort}, ${3:IPBuffer}, ${4:IPVersion})"@, "Opens a port for transferring UDP packets."@),
        function_item("UDPSocketOpen"@, "UDPSocketOpen(${1:SocketID}, ${2:Port}, ${3:RecvQueueSize}, ${4:Interface})"@, "Opens a UDP socket, relating a UDP source port to an ID."@),
        function_item("UDPSocketSend"@, "UDPSocketSend(${1:BytesSent}, ${2:SocketID}, ${3:IPAddr}, ${4:Port}, ${5:Payload}, ${6:PayLoadLen})"@, "Sends a UDP datagram to a remote device via an opened UDP socket."@),
        function_item("UDPSocketRecv"@, "UDPSocketRecv(${1:BytesReceived}, ${2:SocketID}, ${3:InDatagram}, ${4:InDatagramLen}, ${5:RemoteIPAdd}, ${6:RemotePort}, ${7:Timeout})"@, "Retrieves incoming UDP packets sent to a socket's listening port."@),
        function_item("UDPSocketClose"@, "UDPSocketClose(${1:SocketID})"@, "Closes an opened UDP socket and frees its associated memory."@),
        function_item("EmailRelay"@, "EmailRelay(${1:ToAddr}, ${2:Subject}, ${3:Message}, ${4:ServerResponse}, ${5:Attach}, ${6:NumRecsOrTimeIntoInterval}, ${7:Interval}, ${8:IntervalUnits}, ${9:FileOption}, ${10:TimeOut})"@, "Sends an email message to one or more addresses via a Campbell Scientific relay service."@),
        function_item("PPPOpen"@, "PPPOpen(${1:Option})"@, "Enables a PPP network connection through an external modem and returns its IP address."@),
        function_item("PPPClose"@, "PPPClose()"@, "Closes an open PPP connection with a server."@),
        function_item("FTPClient"@, "FTPClient(${1:IPAddress}, ${2:User}, ${3:Password}, ${4:LocalFileName}, ${5:RemoteFileName}, ${6:PutGetOption}, ${7:NumRecsOrTimeIntoInterval}, ${8:Interval}, ${9:IntervalUnits}, ${10:FileOption}, ${11:TimeOut})"@, "Manages files on a server using FTP, FTPS, or SFTP."@),
        function_item("HTTPGet"@, "HTTPGet(${1:URI}, ${2:Response}, ${3:Header}, ${4:TimeOut})"@, "Sends a GET request to an HTTP server."@),
        function_item("HTTPPost"@, "HTTPPost(${1:URI}, ${2:Contents}, ${3:Response}, ${4:Header}, ${5:NumRecsOrTimeIntoInterval}, ${6:Interval}, ${7:IntervalUnits}, ${8:FileOption}, ${9:TimeOut})"@, "Sends files or text to a URL via an HTTP POST request."@),
        function_item("HTTPPut"@, "HTTPPut(${1:URI}, ${2:Contents}, ${3:Response}, ${4:Header}, ${5:NumRecsOrTimeIntoInterval}, ${6:Interval}, ${7:IntervalUnits}, ${8:FileOption}, ${9:TimeOut})"@, "Sends files or text to a URL via an HTTP PUT request."@),
        function_item("WindVector"@, "WindVector(${1:Reps}, ${2:SpeedOrEast}, ${3:DirectionOrNorth}, ${4:DataType}, ${5:DisableVar}, ${6:Subinterval}, ${7:SensorType}, ${8:OutputOpt})"@, "Calculates and stores the mean wind speed, wind vector magnitude, and direction statistics."@),
        function_item("Histogram"@, "Histogram(${1:BinSelect}, ${2:DataType}, ${3:DisableVar}, ${4:Bins}, ${5:Form}, ${6:WtVal}, ${7:LoLim}, ${8:UpLim})"@, "Stores a frequency distribution of input data across a set of bins."@),
        function_item("FieldNames"@, "FieldNames(${1:FieldNameDescriptionList})"@, "Overrides the default field names for the preceding output-processing instruction."@),
        function_item("CardOut"@, "CardOut(${1:StopRing}, ${2:Size})"@, "Creates a new data table that is stored on a memory card."@),
        function_item("NewFile"@, "NewFile(${1:NewFileVar}, ${2:FileName}, ${3:NewFileName})"@, "Determines whether a monitored file has been newly written since this instruction last ran."@),
        function_item("FileManage"@, "FileManage(${1:DeviceFileName}, ${2:Attribute})"@, "Performs a management operation, such as delete, hide, run, or format, on a file or device."@),
        function_item("FileOpen"@, "FileOpen(${1:FileName}, ${2:Mode}, ${3:SeekPoint})"@, "Opens a file for reading or writing and returns a file handle."@),
        function_item("FileClose"@, "FileClose(${1:FileHandle})"@, "Closes a file previously opened with FileOpen."@),
        function_item("FileRead"@, "FileRead(${1:FileHandle}, ${2:Destination}, ${3:Length})"@, "Reads data from an open file into a variable or array."@),
        function_item("FileWrite"@, "FileWrite(${1:FileHandle}, ${2:Source}, ${3:Length})"@, "Writes data from a variable or array to an open file."@),
        function_item("FileCopy"@, "FileCopy(${1:FromFileName}, ${2:ToFileName})"@, "Copies a file from one drive on the datalogger to another."@),
        function_item("FileRename"@, "FileRename(${1:OldFileName}, ${2:NewFileName})"@, "Renames a file stored on the datalogger."@),
        function_item("FileSize"@, "FileSize(${1:FileHandle})"@, "Returns the size, in bytes, of a specified file."@),
        function_item("FileTime"@, "FileTime(${1:FileHandle})"@, "Returns the last-modified timestamp of a specified file."@),
        function_item("FileList"@, "FileList(${1:Device}, ${2:Dest})"@, "Writes the list of file names on a device into a destination array."@),
        function_item("DataInterval"@, "DataInterval(${1:TintoInt}, ${2:Interval}, ${3:Units}, ${4:Lapses})"@, "Sets the real-time-clock-based interval on which a data table's records are generated."@),
        function_item("FormatLong"@, "FormatLong(${1:LongVar}, ${2:FormatString})"@, "Converts a Long value to a decimal, hexadecimal, or octal string."@),
        function_item("Chr"@, "Chr(${1:Code})"@, "Returns a character in the extended ASCII character set."@),
        function_item("ASCII"@, "ASCII(${1:ASCIIString})"@, "Returns the ASCII value of a character in a string."@),
        function_item("StrComp"@, "StrComp(${1:String1}, ${2:String2})"@, "Compares two strings to determine if they are identical or their sort order."@),
        function_item("CheckSum"@, "CheckSum(${1:ChkSumString}, ${2:ChkSumType}, ${3:CheckSumSize}, ${4:ChkSumOption1}, ${5:ChkSumOption2}, ${6:ChkSumOption3})"@, "Returns a checksum signature for the characters in a string."@),
        function_item("HexToDec"@, "HexToDec(${1:Expression})"@, "Converts a hexadecimal string to a float or integer."@),
        function_item("Hex"@, "Hex(${1:Expression})"@, "Returns a hexadecimal string representation of a Long value."@),
        function_item("Sprintf"@, "Sprintf(${1:Dest}, ${2:Format}, ${3:Argument1})"@, "Writes a formatted output string to a destination variable."@),
        function_item("Sgn"@, "Sgn(${1:Value})"@, "Returns the sign of a number as -1, 0, or 1."@),
        function_item("Ln"@, "Ln(${1:Value})"@, "Returns the natural logarithm."@),
        function_item("Sinh"@, "Sinh(${1:Value})"@, "Returns the hyperbolic sine."@),
        function_item("Cosh"@, "Cosh(${1:Value})"@, "Returns the hyperbolic cosine."@),
        function_item("Tanh"@, "Tanh(${1:Value})"@, "Returns the hyperbolic tangent."@),
        function_item("Frac"@, "Frac(${1:Value})"@, "Returns the fractional portion of a number."@),
        function_item("Rnd"@, "Rnd"@, "Returns a random value between 0 (inclusive) and 1 (exclusive)."@),
        function_item("Ceiling"@, "Ceiling(${1:Value})"@, "Rounds a number up to the nearest integer."@),
        function_item("Floor"@, "Floor(${1:Value})"@, "Rounds a number down to the nearest integer."@),
    ]
}

/// The multi-statement pattern snippets.
pub open spec fn pattern_snippet_items() -> Seq<CompletionView> {
    seq![
        pattern_snippet_item("ScanLoop"@, "Scan(${1:Interval}, ${2:Sec}, ${3:0}, ${4:0})\n\t$0\n\tCallTable ${5:TableName}\nNextScan"@, "Scan/NextScan loop with a CallTable call"@),
        pattern_snippet_item("SlowSequenceLoop"@, "SlowSequence\n\tScan(${1:Interval}, ${2:Sec}, ${3:0}, ${4:0})\n\t\t$0\n\t\tCallTable ${5:TableName}\n\tNextScan\nEndSequence"@, "Low-priority scan sequence for non-time-critical measurements"@),
        pattern_snippet_item("DataTableSample"@, "DataTable(${1:TableName}, ${2:True}, ${3:-1})\n\tSample(${4:1}, ${5:SourceVariable}, ${6:FP2})\n\t$0\nEndTable"@, "DataTable definition with a Sample output field"@),
        pattern_snippet_item("NewProgram"@, "Const ${1:ScanIntervalSec} = ${2:5}\nPublic ${3:VarName} As ${4:Float}\n\nDataTable(${5:TableName},True,-1)\n\tSample(1,${3:VarName},FP2)\nEndTable\n\nBeginProg\n\tScan(${1:ScanIntervalSec},Sec,0,0)\n\t\t$0\n\t\tCallTable ${5:TableName}\n\tNextScan\nEndProg"@, "Starter program skeleton: declarations, DataTable, Scan loop"@),
    ]
}

/// The data types valid after `As`.
pub open spec fn data_type_items() -> Seq<CompletionView> {
    seq![
        keyword_item("Float"@, "Single-precision floating point (default)"@),
        keyword_item("Double"@, "Double-precision floating point"@),
        keyword_item("Long"@, "32-bit signed integer"@),
        keyword_item("Boolean"@, "True (-1) or False (0)"@),
        keyword_item("String"@, "Null-terminated array of characters"@),
        keyword_item("UINT1"@, "8-bit unsigned integer"@),
    ]
}

/// The data types valid only as output-processing arguments.
pub open spec fn output_processing_data_type_items() -> Seq<CompletionView> {
    seq![
        keyword_item("FP2"@, "Campbell Scientific proprietary format; 3 or 4 significant digits (2 bytes)"@),
        keyword_item("IEEE4"@, "Single-precision floating point number (4 bytes); same precision as Float"@),
        keyword_item("IEEE8"@, "Double-precision floating point number (8 bytes); same precision as Double"@),
        keyword_item("UINT2"@, "16-bit unsigned integer"@),
        keyword_item("UINT4"@, "32-bit unsigned integer"@),
        keyword_item("Bool8"@, "Array of eight 1-bit Boolean values packed into 1 byte"@),
        keyword_item("NSEC"@, "Nanosecond-resolution time stamp (8 bytes)"@),
    ]
}

/// The control-flow keywords.
pub open spec fn control_flow_keyword_items() -> Seq<CompletionView> {
    seq![
        keyword_snippet_item("If"@, "If ${1:condition} Then\n\t$0\nEndIf"@, "Conditional statement block"@),
        keyword_item("Then"@, "Part of If statement"@),
        keyword_item("Else"@, "Alternative branch in If statement"@),
        keyword_item("ElseIf"@, "Additional conditional branch"@),
        keyword_item("EndIf"@, "Terminates If block"@),
        keyword_snippet_item("#If"@, "#If ${1:condition}\n\t$0\n#EndIf"@, "Compile-time conditional block"@),
        keyword_item("#ElseIf"@, "Additional compile-time conditional branch"@),
        keyword_item("#Else"@, "Alternative compile-time branch"@),
        keyword_item("#EndIf"@, "Terminates a #If/#IfDef block"@),
        keyword_snippet_item("#IfDef"@, "#IfDef ${1:ConstName} Then\n\t$0\n#EndIf"@, "Compile-time check for a declared Const"@),
        keyword_item("#UnDef"@, "Un-declares a Const so it can be redeclared"@),
        keyword_snippet_item("For"@, "For ${1:i} = ${2:1} To ${3:10}\n\t$0\nNext ${1:i}"@, "Counter-based loop"@),
        keyword_item("To"@, "End value in For loop"@),
        keyword_item("Step"@, "Increment value in For loop"@),
        keyword_item("Next"@, "Terminates For loop"@),
        keyword_snippet_item("Do While"@, "Do While ${1:condition}\n\t$0\nLoop"@, "While loop (condition at start)"@),
        keyword_snippet_item("Do"@, "Do\n\t$0\nLoop While ${1:condition}"@, "Do loop"@),
        keyword_item("Loop"@, "Terminates Do block"@),
        keyword_item("While"@, "Loop condition"@),
        keyword_item("Wend"@, "Terminates a While loop"@),
        keyword_item("Until"@, "Loop condition (inverse of While)"@),
        keyword_item("ExitFor"@, "Exit For loop immediately"@),
        keyword_item("ExitDo"@, "Exit Do loop immediately"@),
        keyword_item("DebugBreak"@, "Suspends execution at this line when running under the CRBasic debugger"@),
        keyword_item("Restart"@, "Stops and restarts the running program"@),
        keyword_snippet_item("Select Case"@, "Select Case ${1:expression}\n\tCase ${2:value}\n\t\t$0\n\tCase Else\n\t\t\nEndSelect"@, "Multi-way branch statement"@),
        keyword_item("Select"@, "Starts a Select Case block"@),
        keyword_item("Case"@, "Branch in Select statement"@),
        keyword_item("Is"@, "Comparison operator in a Case clause"@),
        keyword_item("EndSelect"@, "Terminates Select block"@),
        keyword_item("EndMenu"@, "Terminates a DisplayMenu block"@),
        keyword_item("EndSubMenu"@, "Terminates a SubMenu block"@),
        keyword_item("NextScan"@, "Terminates a Scan loop"@),
        keyword_item("ContinueScan"@, "Jumps to NextScan, skipping the rest of the scan body"@),
        keyword_item("NextSubScan"@, "Terminates a SubScan block"@),
        keyword_item("WaitTriggerSequence"@, "Marks a resume-point inside a SlowSequence, waiting for the trigger condition"@),
        keyword_item("ExitScan"@, "Exits the entire Scan loop immediately, regardless of Count"@),
        keyword_item("Return"@, "Returns a value from a Function"@),
        keyword_item("ExitFunction"@, "Exit Function immediately"@),
        keyword_item("Exit"@, "Used with Sub to exit a Subroutine (Exit Sub)"@),
        keyword_snippet_item("Call"@, "Call ${1:SubName}(${2:arguments})"@, "Invokes a subroutine"@),
    ]
}

/// The declaration keywords.
pub open spec fn declaration_keyword_items() -> Seq<CompletionView> {
    seq![
        keyword_snippet_item("Public"@, "Public ${1:VarName} As ${2:Float}"@, "Declare public (global) variable"@),
        keyword_snippet_item("Dim"@, "Dim ${1:VarName} As ${2:Float}"@, "Declare local (scratch) variable"@),
        keyword_snippet_item("Const"@, "Const ${1:NAME} = ${2:value}"@, "Declare constant value"@),
        keyword_item("Alias"@, "Define alternative variable name"@),
        keyword_item("As"@, "Specify data type"@),
        keyword_item("Units"@, "Specify engineering units"@),
        keyword_item("ReadOnly"@, "Mark a Public variable as visible but not externally editable"@),
        keyword_item("Optional"@, "Mark a Function/Sub parameter as optional"@),
        keyword_snippet_item("Include"@, "Include \"${1:cpu:Filename.crb}\""@, "Pull in an external CRBasic source file"@),
    ]
}

/// The program-structure keywords.
pub open spec fn program_structure_keyword_items() -> Seq<CompletionView> {
    seq![
        keyword_snippet_item("BeginProg"@, "BeginProg\n\t$0\nEndProg"@, "Main program execution block"@),
        keyword_item("EndProg"@, "End of program execution block"@),
        keyword_item("SequentialMode"@, "Forces the datalogger to run in sequential execution mode; placed before BeginProg"@),
        keyword_item("PipeLineMode"@, "Forces the datalogger to run in pipeline execution mode; placed before BeginProg"@),
        keyword_item("PreserveVariables"@, "Retains Dim/Public variable values in memory across a power loss; placed before BeginProg"@),
        keyword_item("AngleDegrees"@, "Switches trig functions to use degrees instead of radians; placed before BeginProg"@),
        keyword_snippet_item("ApplyAndRestartSequence"@, "ApplyAndRestartSequence\n\t$0\nEndApplyAndRestartSequence"@, "Runs when the ConstTable it follows has its ApplyAndRestart setting externally set (e.g. via SetSetting), typically to validate the new constant values"@),
        keyword_item("EndApplyAndRestartSequence"@, "Terminates an ApplyAndRestartSequence block"@),
        keyword_snippet_item("ShutDownBegin"@, "ShutDownBegin\n\t$0\nShutDownEnd"@, "Runs cleanup code when the program stops normally; placed before BeginProg"@),
        keyword_item("ShutDownEnd"@, "Terminates a ShutDownBegin block"@),
        keyword_item("ESSInitialize"@, "Initializes the NTCIP Environmental Sensor Station SNMP agent; placed directly after BeginProg"@),
        keyword_snippet_item("ESSVariables"@, "ESSVariables ${1:Public}"@, "Auto-declares the standard set of NTCIP Environmental Sensor Station variables, used with ESSInitialize"@),
        keyword_item("WebPageEnd"@, "Terminates a WebPageBegin block"@),
        keyword_item("EndModemHangup"@, "Terminates a ModemHangup block"@),
        keyword_snippet_item("VoiceBeg"@, "VoiceBeg\n\t$0\nEndVoice"@, "Begins a block of voice-modem response code"@),
        keyword_item("EndVoice"@, "Terminates a VoiceBeg block"@),
        keyword_snippet_item("DataTable"@, "DataTable(${1:TableName}, ${2:TriggerCondition}, ${3:Size})\n\t$0\nEndTable"@, "Define data storage table"@),
        keyword_item("EndTable"@, "Terminates DataTable block"@),
        keyword_item("TableHide"@, "Suppresses the display and data collection of this DataTable"@),
        keyword_item("OpenInterval"@, "Includes all measurements since the last data storage, spanning missed output intervals"@),
        keyword_item("FillStop"@, "Stops data storage once this DataTable reaches its configured size, instead of overwriting the oldest records"@),
        keyword_snippet_item("CallTable"@, "CallTable ${1:TableName}"@, "Invoke a previously declared DataTable, storing a record if its trigger condition fires"@),
        keyword_snippet_item("ConstTable"@, "ConstTable(${1:TableName}, ${2:Hidden})\n\tConst $0\nEndConstTable"@, "Define a block of editable constants"@),
        keyword_item("EndConstTable"@, "Terminates ConstTable block"@),
        keyword_snippet_item("SlowSequence"@, "SlowSequence\n\t$0\nEndSequence"@, "Begins a slow sequence scan block"@),
        keyword_item("EndSequence"@, "Ends a slow sequence scan block"@),
        keyword_snippet_item("StructureType"@, "StructureType ${1:TypeName}\n\t$0\nEndStructureType"@, "Define a reusable data structure"@),
        keyword_item("EndStructureType"@, "Terminates StructureType block"@),
    ]
}

/// The function-definition keywords.
pub open spec fn function_definition_keyword_items() -> Seq<CompletionView> {
    seq![
        keyword_snippet_item("Function"@, "Function ${1:FuncName}(${2:params}) As ${3:Float}\n\t$0\nEndFunction"@, "Define user function (returns value)"@),
        keyword_item("EndFunction"@, "Terminates Function block"@),
        keyword_snippet_item("Sub"@, "Sub ${1:SubName}(${2:params})\n\t$0\nEndSub"@, "Define subroutine (no return value, copy-back params)"@),
        keyword_item("EndSub"@, "Terminates Sub block"@),
    ]
}

/// The logical operators and boolean literals.
pub open spec fn logical_operator_keyword_items() -> Seq<CompletionView> {
    seq![
        keyword_item("AND"@, "Logical AND operator"@),
        keyword_item("OR"@, "Logical OR operator"@),
        keyword_item("NOT"@, "Logical NOT operator"@),
        keyword_item("XOR"@, "Logical XOR operator"@),
        keyword_item("MOD"@, "Modulo operator"@),
        keyword_item("IMP"@, "Logical implication operator"@),
        keyword_item("EQV"@, "Logical equivalence operator"@),
        keyword_item("INTDV"@, "Integer division operator (synonym for \\)"@),
        keyword_item("True"@, "Boolean true (-1)"@),
        keyword_item("False"@, "Boolean false (0)"@),
    ]
}
/// Whether a statement declares a name: a `Public`/`Dim`/`Const`
/// variable, a `Function` or a `Sub`.
pub open spec fn declares_a_name(s: Statement) -> bool {
    s is VarDeclaration || s is FunctionDefinition || s is SubroutineDefinition
}

/// The number of statements of a list that declare a name.
pub open spec fn declaration_count(statements: Seq<Statement>) -> nat
    decreases statements.len(),
{
    if statements.len() == 0 {
        0
    } else {
        declaration_count(statements.drop_last()) + if declares_a_name(statements.last()) {
            1nat
        } else {
            0nat
        }
    }
}

/// Every top-level declaration is offered exactly once, in order: the
/// user-defined items are as many as the declarations, and the declaration
/// that comes after `n` others is the item at index `n`, labelled with its
/// name; a `Public`, `Dim` or `Const` variable is a variable item (a
/// constant item for `Const`), a `Function` a function item and a `Sub` a
/// method item.
pub proof fn every_declaration_is_offered_once(statements: Seq<Statement>)
    ensures
        user_defined_items(statements).len() == declaration_count(statements),
        forall|i: int|
            0 <= i < statements.len() && declares_a_name(#[trigger] statements[i]) ==> {
                let n = declaration_count(statements.take(i)) as int;
                let item = user_defined_items(statements)[n];
                &&& n < user_defined_items(statements).len()
                &&& match statements[i] {
                    Statement::VarDeclaration { keyword, name, .. } => item.label == name@
                        && item.kind == Some(
                        if keyword@ == "Const"@ {
                            CompletionItemKind::Constant
                        } else {
                            CompletionItemKind::Variable
                        },
                    ),
                    Statement::FunctionDefinition { name, .. } => item.label == name@ && item.kind
                        == Some(CompletionItemKind::Function),
                    Statement::SubroutineDefinition { name, .. } => item.label == name@
                        && item.kind == Some(CompletionItemKind::Method),
                    _ => false,
                }
            },
    decreases statements.len(),
{
    if statements.len() > 0 {
        let p = statements.drop_last();
        every_declaration_is_offered_once(p);
        let items = user_defined_items(statements);
        let prev = user_defined_items(p);
        assert forall|i: int|
            0 <= i < statements.len() && declares_a_name(#[trigger] statements[i]) implies {
                let n = declaration_count(statements.take(i)) as int;
                let item = user_defined_items(statements)[n];
                &&& n < user_defined_items(statements).len()
                &&& match statements[i] {
                    Statement::VarDeclaration { keyword, name, .. } => item.label == name@
                        && item.kind == Some(
                        if keyword@ == "Const"@ {
                            CompletionItemKind::Constant
                        } else {
                            CompletionItemKind::Variable
                        },
                    ),
                    Statement::FunctionDefinition { name, .. } => item.label == name@ && item.kind
                        == Some(CompletionItemKind::Function),
                    Statement::SubroutineDefinition { name, .. } => item.label == name@
                        && item.kind == Some(CompletionItemKind::Method),
                    _ => false,
                }
            } by {
            if i < statements.len() - 1 {
                assert(p.take(i) =~= statements.take(i));
                assert(p[i] == statements[i]);
                let n = declaration_count(statements.take(i)) as int;
                assert(items[n] == prev[n]);
            } else {
                assert(statements.take(i) =~= p);
                assert(items[prev.len() as int] == statement_item(statements.last())->0);
            }
        }
    }
}

impl CompletionProvider {
    /// Returns the built-in function completion items.
    pub fn get_builtin_function_completions() -> (r: Vec<CompletionItem>)
        ensures
            items_view(r@) =~~= builtin_function_items(),
    {
        vec![
            Self::create_function_completion("Scan", "Scan(${1:Interval}, ${2:Units}, ${3:BufferOption}, ${4:Count})", "Initiates a measurement scan at specified intervals."),
            Self::create_function_completion("SubScan", "SubScan(${1:SubInterval}, ${2:Units}, ${3:Count})", "Begins a nested sub-scan for faster measurement or multiplexer control."),
            Self::create_function_completion("Sample", "Sample(${1:Reps}, ${2:Source}, ${3:DataType})", "Samples and stores a value in the data table."),
            Self::create_function_completion("Average", "Average(${1:Reps}, ${2:Source}, ${3:DataType}, ${4:DisableVar})", "Calculates and stores the average of values."),
            Self::create_function_completion("Minimum", "Minimum(${1:Reps}, ${2:Source}, ${3:DataType}, ${4:DisableVar}, ${5:Time})", "Stores the minimum value over the output interval."),
            Self::create_function_completion("Maximum", "Maximum(${1:Reps}, ${2:Source}, ${3:DataType}, ${4:DisableVar}, ${5:Time})", "Stores the maximum value over the output interval."),
            Self::create_function_completion("Totalize", "Totalize(${1:Reps}, ${2:Source}, ${3:DataType}, ${4:DisableVar})", "Stores the sum of values over the output interval."),
            Self::create_function_completion("StdDev", "StdDev(${1:Reps}, ${2:Source}, ${3:DataType}, ${4:DisableVar})", "Calculates and stores the standard deviation."),
            Self::create_function_completion("PulseCount", "PulseCount(${1:Dest}, ${2:Reps}, ${3:PChan}, ${4:PConfig}, ${5:POption}, ${6:Mult}, ${7:Offset})", "Measures pulse count from a sensor."),
            Self::create_function_completion("VoltSe", "VoltSe(${1:Dest}, ${2:Reps}, ${3:Range}, ${4:SEChan}, ${5:MeasOff}, ${6:SettlingTime}, ${7:fN1}, ${8:Mult}, ${9:Offset})", "Measures single-ended voltage."),
            Self::create_function_completion("VoltDiff", "VoltDiff(${1:Dest}, ${2:Reps}, ${3:Range}, ${4:DiffChan}, ${5:RevDiff}, ${6:SettlingTime}, ${7:fN1}, ${8:Mult}, ${9:Offset})", "Measures differential voltage."),
            Self::create_function_completion("Therm107", "Therm107(${1:Dest}, ${2:Reps}, ${3:SEChan}, ${4:Excite}, ${5:SettlingTime}, ${6:Integ}, ${7:Mult}, ${8:Offset})", "Measures temperature using a 107 thermistor."),
            Self::create_function_completion("Therm108", "Therm108(${1:Dest}, ${2:Reps}, ${3:SEChan}, ${4:Excite}, ${5:SettlingTime}, ${6:Integ}, ${7:Mult}, ${8:Offset})", "Measures temperature using a 108 thermistor."),
            Self::create_function_completion("Therm109", "Therm109(${1:Dest}, ${2:Reps}, ${3:SEChan}, ${4:Excite}, ${5:SettlingTime}, ${6:Integ}, ${7:Mult}, ${8:Offset})", "Measures temperature using a 109 thermistor."),
            Self::create_function_completion("TCDiff", "TCDiff(${1:Dest}, ${2:Reps}, ${3:Range}, ${4:DiffChan}, ${5:TCType}, ${6:TRef}, ${7:RevDiff}, ${8:SettlingTime}, ${9:fN1}, ${10:Mult}, ${11:Offset})", "Measures thermocouple temperature (differential)."),
            Self::create_function_completion("SerialOpen", "SerialOpen(${1:ComPort}, ${2:BaudRate}, ${3:Format}, ${4:TXDelay}, ${5:BufferSize})", "Opens a serial communication port."),
            Self::create_function_completion("SerialClose", "SerialClose(${1:ComPort})", "Closes a serial communication port."),
            Self::create_function_completion("SerialIn", "SerialIn(${1:Dest}, ${2:ComPort}, ${3:TimeOut}, ${4:TerminationChar}, ${5:MaxNumChars})", "Reads data from a serial port."),
            Self::create_function_completion("SerialOut", "SerialOut(${1:ComPort}, ${2:OutString}, ${3:WaitString}, ${4:NumberTries}, ${5:TimeOut})", "Sends data to a serial port."),
            Self::create_function_completion("Abs", "Abs(${1:Value})", "Returns the absolute value."),
            Self::create_function_completion("Sqr", "Sqr(${1:Value})", "Returns the square root."),
            Self::create_function_completion("Exp", "Exp(${1:Value})", "Returns e raised to a power."),
            Self::create_function_completion("Log", "Log(${1:Value})", "Returns the natural logarithm."),
            Self::create_function_completion("Log10", "Log10(${1:Value})", "Returns the base-10 logarithm."),
            Self::create_function_completion("Sin", "Sin(${1:Radians})", "Returns the sine."),
            Self::create_function_completion("Cos", "Cos(${1:Radians})", "Returns the cosine."),
            Self::create_function_completion("Tan", "Tan(${1:Radians})", "Returns the tangent."),
            Self::create_function_completion("Asin", "Asin(${1:Value})", "Returns the arc sine."),
            Self::create_function_completion("Acos", "Acos(${1:Value})", "Returns the arc cosine."),
            Self::create_function_completion("Atn", "Atn(${1:Value})", "Returns the arc tangent."),
            Self::create_function_completion("Atn2", "Atn2(${1:Y}, ${2:X})", "Returns the arc tangent of Y/X."),
            Self::create_function_completion("Int", "Int(${1:Value})", "Returns the integer part (truncates toward negative infinity)."),
            Self::create_function_completion("Fix", "Fix(${1:Value})", "Returns the integer part (truncates toward zero)."),
            Self::create_function_completion("Round", "Round(${1:Value}, ${2:NumDigits})", "Rounds to specified decimal places."),
            Self::create_function_completion("Len", "Len(${1:String})", "Returns the length of a string."),
            Self::create_function_completion("Mid", "Mid(${1:String}, ${2:Start}, ${3:Length})", "Extracts a substring."),
            Self::create_function_completion("Left", "Left(${1:String}, ${2:Length})", "Returns leftmost characters."),
            Self::create_function_completion("Right", "Right(${1:String}, ${2:Length})", "Returns rightmost characters."),
            Self::create_function_completion("InStr", "InStr(${1:Start}, ${2:SearchString}, ${3:FilterString}, ${4:SearchOption})", "Finds a substring within a string."),
            Self::create_function_completion("Replace", "Replace(${1:String}, ${2:Find}, ${3:ReplaceWith})", "Replaces occurrences in a string."),
            Self::create_function_completion("Trim", "Trim(${1:String})", "Removes leading and trailing spaces."),
            Self::create_function_completion("LTrim", "LTrim(${1:String})", "Removes leading spaces."),
            Self::create_function_completion("RTrim", "RTrim(${1:String})", "Removes trailing spaces."),
            Self::create_function_completion("UpperCase", "UpperCase(${1:String})", "Converts to uppercase."),
            Self::create_function_completion("LowerCase", "LowerCase(${1:String})", "Converts to lowercase."),
            Self::create_function_completion("SplitStr", "SplitStr(${1:Result}, ${2:SearchString}, ${3:FilterString}, ${4:NumSplits}, ${5:SplitOption})", "Splits a string by delimiter."),
            Self::create_function_completion("FormatFloat", "FormatFloat(${1:Value}, ${2:FormatString})", "Formats a float as a string."),
            Self::create_function_completion("Timer", "Timer(${1:TimerNumber}, ${2:Units}, ${3:TimerOption})", "Returns elapsed time from a timer."),
            Self::create_function_completion("TimeIntoInterval", "TimeIntoInterval(${1:TintoInt}, ${2:Interval}, ${3:Units})", "Returns true when the interval boundary is crossed."),
            Self::create_function_completion("IfTime", "IfTime(${1:TintoInt}, ${2:Interval}, ${3:Units})", "Returns true at specified time intervals."),
            Self::create_function_completion("RealTime", "RealTime(${1:Dest})", "Returns the current real-time clock values."),
            Self::create_function_completion("Delay", "Delay(${1:Option}, ${2:Duration}, ${3:Units})", "Pauses execution for a specified time."),
            Self::create_function_completion("Battery", "Battery(${1:Dest})", "Measures the voltage of the battery powering the datalogger."),
            Self::create_function_completion("PanelTemp", "PanelTemp(${1:Dest}, ${2:fN1})", "Measures the temperature of the datalogger wiring panel in degrees Celsius."),
            Self::create_function_completion("BrHalf", "BrHalf(${1:Dest}, ${2:Reps}, ${3:Range}, ${4:SEChan}, ${5:ExChan}, ${6:MeasPEx}, ${7:ExmV}, ${8:RevEx}, ${9:SettlingTime}, ${10:fN1}, ${11:Mult}, ${12:Offset})", "Applies an excitation voltage to a half bridge and measures the single-ended voltage output."),
            Self::create_function_completion("BrFull", "BrFull(${1:Dest}, ${2:Reps}, ${3:Range}, ${4:DiffChan}, ${5:ExChan}, ${6:MeasPEx}, ${7:ExmV}, ${8:RevEx}, ${9:RevDiff}, ${10:SettlingTime}, ${11:fN1}, ${12:Mult}, ${13:Offset})", "Applies an excitation voltage to a full bridge and measures the differential voltage output."),
            Self::create_function_completion("Resistance", "Resistance(${1:Dest}, ${2:Reps}, ${3:Range}, ${4:DiffChan}, ${5:IexChan}, ${6:MeasPEx}, ${7:EXuA}, ${8:RevEx}, ${9:RevDiff}, ${10:SettlingTime}, ${11:fN1}, ${12:Mult}, ${13:Offset}, ${14:MeasCurrent})", "Applies a known excitation current and measures the resistance of a bridge or resistive circuit."),
            Self::create_function_completion("PeriodAvg", "PeriodAvg(${1:Dest}, ${2:Reps}, ${3:Chan}, ${4:Option}, ${5:Cycles}, ${6:Timeout}, ${7:Mult}, ${8:Offset})", "Measures the period or frequency of a signal on a single-ended channel."),
            Self::create_function_completion("PortSet", "PortSet(${1:Port}, ${2:State}, ${3:Option})", "Sets a control port to a high or low state."),
            Self::create_function_completion("PulsePort", "PulsePort(${1:Port}, ${2:Delay})", "Toggles a port, delays, toggles it back, and delays again to generate a clocking pulse."),
            Self::create_function_completion("ExciteV", "ExciteV(${1:ExChan}, ${2:ExmV}, ${3:Delay})", "Sets an excitation channel output to a specified voltage for a specified duration."),
            Self::create_function_completion("BrHalf3W", "BrHalf3W(${1:Dest}, ${2:Reps}, ${3:Range}, ${4:SEChan}, ${5:ExChan}, ${6:MeasPEx}, ${7:ExmV}, ${8:RevEx}, ${9:SettlingTime}, ${10:fN1}, ${11:Mult}, ${12:Offset})", "Applies an excitation voltage and measures a 3-wire half bridge to calculate the resistance ratio."),
            Self::create_function_completion("BrHalf4W", "BrHalf4W(${1:Dest}, ${2:Reps}, ${3:Range1}, ${4:Range2}, ${5:DiffChan}, ${6:ExChan}, ${7:MeasPEx}, ${8:ExmV}, ${9:RevEx}, ${10:RevDiff}, ${11:SettlingTime}, ${12:fN1}, ${13:Mult}, ${14:Offset}, ${15:ReturnV1})", "Applies an excitation voltage and makes two differential voltage measurements to measure a 4-wire half bridge."),
            Self::create_function_completion("BrFull6W", "BrFull6W(${1:Dest}, ${2:Reps}, ${3:Range1}, ${4:Range2}, ${5:DiffChan}, ${6:ExChan}, ${7:MeasPEx}, ${8:ExmV}, ${9:RevEx}, ${10:RevDiff}, ${11:SettlingTime}, ${12:fN1}, ${13:Mult}, ${14:Offset}, ${15:ReturnV1})", "Applies an excitation voltage and makes two differential voltage measurements to measure a 6-wire full bridge."),
            Self::create_function_completion("TCSE", "TCSE(${1:Dest}, ${2:Reps}, ${3:Range}, ${4:SEChan}, ${5:TCType}, ${6:TRef}, ${7:MeasOff}, ${8:SettlingTime}, ${9:fN1}, ${10:Mult}, ${11:Offset})", "Measures a thermocouple on a single-ended channel and converts the reading to degrees Celsius."),
            Self::create_function_completion("SerialInRecord", "SerialInRecord(${1:COMPort}, ${2:Dest}, ${3:BeginWord}, ${4:NBytes}, ${5:EndWord}, ${6:NBytesReturned}, ${7:SerialInRecOption})", "Reads and parses incoming serial data using begin/end markers."),
            Self::create_function_completion("SerialOutBlock", "SerialOutBlock(${1:ComPort}, ${2:Expression}, ${3:NumberBytes})", "Sends binary data out a serial port."),
            Self::create_function_completion("SerialFlush", "SerialFlush(${1:ComPort})", "Clears any characters in the serial input buffer."),
            Self::create_function_completion("ModbusMaster", "ModbusMaster(${1:ResultCode}, ${2:ComPort}, ${3:BaudRate}, ${4:ModbusAddr}, ${5:Function}, ${6:Variable}, ${7:Start}, ${8:Length}, ${9:Tries}, ${10:TimeOut}, ${11:ModbusOption})", "Sets up the datalogger as a Modbus client to send or retrieve data from a Modbus server."),
            Self::create_function_completion("SDI12Recorder", "SDI12Recorder(${1:Dest}, ${2:SDIPort}, ${3:SDIAddress}, ${4:SDICommand}, ${5:Multiplier}, ${6:Offset}, ${7:FillNAN}, ${8:WaitonTimeout})", "Retrieves measurement results from an SDI-12 sensor."),
            Self::create_function_completion("TCPOpen", "TCPOpen(${1:IPAddr}, ${2:TCPPort}, ${3:IPBuffer}, ${4:IPTimeOut}, ${5:ConnectHandle}, ${6:MaxConnect})", "Sets up a TCP/IP socket for communication."),
            Self::create_function_completion("TCPClose", "TCPClose(${1:TCPSocket})", "Closes a TCP/IP socket that was set up for communication."),
            Self::create_function_completion("UDPOpen", "UDPOpen(${1:IPAddr}, ${2:UDPPort}, ${3:IPBuffer}, ${4:IPVersion})", "Opens a port for transferring UDP packets."),
            Self::create_function_completion("UDPSocketOpen", "UDPSocketOpen(${1:SocketID}, ${2:Port}, ${3:RecvQueueSize}, ${4:Interface})", "Opens a UDP socket, relating a UDP source port to an ID."),
            Self::create_function_completion("UDPSocketSend", "UDPSocketSend(${1:BytesSent}, ${2:SocketID}, ${3:IPAddr}, ${4:Port}, ${5:Payload}, ${6:PayLoadLen})", "Sends a UDP datagram to a remote device via an opened UDP socket."),
            Self::create_function_completion("UDPSocketRecv", "UDPSocketRecv(${1:BytesReceived}, ${2:SocketID}, ${3:InDatagram}, ${4:InDatagramLen}, ${5:RemoteIPAdd}, ${6:RemotePort}, ${7:Timeout})", "Retrieves incoming UDP packets sent to a socket's listening port."),
            Self::create_function_completion("UDPSocketClose", "UDPSocketClose(${1:SocketID})", "Closes an opened UDP socket and frees its associated memory."),
            Self::create_function_completion("EmailRelay", "EmailRelay(${1:ToAddr}, ${2:Subject}, ${3:Message}, ${4:ServerResponse}, ${5:Attach}, ${6:NumRecsOrTimeIntoInterval}, ${7:Interval}, ${8:IntervalUnits}, ${9:FileOption}, ${10:TimeOut})", "Sends an email message to one or more addresses via a Campbell Scientific relay service."),
            Self::create_function_completion("PPPOpen", "PPPOpen(${1:Option})", "Enables a PPP network connection through an external modem and returns its IP address."),
            Self::create_function_completion("PPPClose", "PPPClose()", "Closes an open PPP connection with a server."),
            Self::create_function_completion("FTPClient", "FTPClient(${1:IPAddress}, ${2:User}, ${3:Password}, ${4:LocalFileName}, ${5:RemoteFileName}, ${6:PutGetOption}, ${7:NumRecsOrTimeIntoInterval}, ${8:Interval}, ${9:IntervalUnits}, ${10:FileOption}, ${11:TimeOut})", "Manages files on a server using FTP, FTPS, or SFTP."),
            Self::create_function_completion("HTTPGet", "HTTPGet(${1:URI}, ${2:Response}, ${3:Header}, ${4:TimeOut})", "Sends a GET request to an HTTP server."),
            Self::create_function_completion("HTTPPost", "HTTPPost(${1:URI}, ${2:Contents}, ${3:Response}, ${4:Header}, ${5:NumRecsOrTimeIntoInterval}, ${6:Interval}, ${7:IntervalUnits}, ${8:FileOption}, ${9:TimeOut})", "Sends files or text to a URL via an HTTP POST request."),
            Self::create_function_completion("HTTPPut", "HTTPPut(${1:URI}, ${2:Contents}, ${3:Response}, ${4:Header}, ${5:NumRecsOrTimeIntoInterval}, ${6:Interval}, ${7:IntervalUnits}, ${8:FileOption}, ${9:TimeOut})", "Sends files or text to a URL via an HTTP PUT request."),
            Self::create_function_completion("WindVector", "WindVector(${1:Reps}, ${2:SpeedOrEast}, ${3:DirectionOrNorth}, ${4:DataType}, ${5:DisableVar}, ${6:Subinterval}, ${7:SensorType}, ${8:OutputOpt})", "Calculates and stores the mean wind speed, wind vector magnitude, and direction statistics."),
            Self::create_function_completion("Histogram", "Histogram(${1:BinSelect}, ${2:DataType}, ${3:DisableVar}, ${4:Bins}, ${5:Form}, ${6:WtVal}, ${7:LoLim}, ${8:UpLim})", "Stores a frequency distribution of input data across a set of bins."),
            Self::create_function_completion("FieldNames", "FieldNames(${1:FieldNameDescriptionList})", "Overrides the default field names for the preceding output-processing instruction."),
            Self::create_function_completion("CardOut", "CardOut(${1:StopRing}, ${2:Size})", "Creates a new data table that is stored on a memory card."),
            Self::create_function_completion("NewFile", "NewFile(${1:NewFileVar}, ${2:FileName}, ${3:NewFileName})", "Determines whether a monitored file has been newly written since this instruction last ran."),
            Self::create_function_completion("FileManage", "FileManage(${1:DeviceFileName}, ${2:Attribute})", "Performs a management operation, such as delete, hide, run, or format, on a file or device."),
            Self::create_function_completion("FileOpen", "FileOpen(${1:FileName}, ${2:Mode}, ${3:SeekPoint})", "Opens a file for reading or writing and returns a file handle."),
            Self::create_function_completion("FileClose", "FileClose(${1:FileHandle})", "Closes a file previously opened with FileOpen."),
            Self::create_function_completion("FileRead", "FileRead(${1:FileHandle}, ${2:Destination}, ${3:Length})", "Reads data from an open file into a variable or array."),
            Self::create_function_completion("FileWrite", "FileWrite(${1:FileHandle}, ${2:Source}, ${3:Length})", "Writes data from a variable or array to an open file."),
            Self::create_function_completion("FileCopy", "FileCopy(${1:FromFileName}, ${2:ToFileName})", "Copies a file from one drive on the datalogger to another."),
            Self::create_function_completion("FileRename", "FileRename(${1:OldFileName}, ${2:NewFileName})", "Renames a file stored on the datalogger."),
            Self::create_function_completion("FileSize", "FileSize(${1:FileHandle})", "Returns the size, in bytes, of a specified file."),
            Self::create_function_completion("FileTime", "FileTime(${1:FileHandle})", "Returns the last-modified timestamp of a specified file."),
            Self::create_function_completion("FileList", "FileList(${1:Device}, ${2:Dest})", "Writes the list of file names on a device into a destination array."),
            Self::create_function_completion("DataInterval", "DataInterval(${1:TintoInt}, ${2:Interval}, ${3:Units}, ${4:Lapses})", "Sets the real-time-clock-based interval on which a data table's records are generated."),
            Self::create_function_completion("FormatLong", "FormatLong(${1:LongVar}, ${2:FormatString})", "Converts a Long value to a decimal, hexadecimal, or octal string."),
            Self::create_function_completion("Chr", "Chr(${1:Code})", "Returns a character in the extended ASCII character set."),
            Self::create_function_completion("ASCII", "ASCII(${1:ASCIIString})", "Returns the ASCII value of a character in a string."),
            Self::create_function_completion("StrComp", "StrComp(${1:String1}, ${2:String2})", "Compares two strings to determine if they are identical or their sort order."),
            Self::create_function_completion("CheckSum", "CheckSum(${1:ChkSumString}, ${2:ChkSumType}, ${3:CheckSumSize}, ${4:ChkSumOption1}, ${5:ChkSumOption2}, ${6:ChkSumOption3})", "Returns a checksum signature for the characters in a string."),
            Self::create_function_completion("HexToDec", "HexToDec(${1:Expression})", "Converts a hexadecimal string to a float or integer."),
            Self::create_function_completion("Hex", "Hex(${1:Expression})", "Returns a hexadecimal string representation of a Long value."),
            Self::create_function_completion("Sprintf", "Sprintf(${1:Dest}, ${2:Format}, ${3:Argument1})", "Writes a formatted output string to a destination variable."),
            Self::create_function_completion("Sgn", "Sgn(${1:Value})", "Returns the sign of a number as -1, 0, or 1."),
            Self::create_function_completion("Ln", "Ln(${1:Value})", "Returns the natural logarithm."),
            Self::create_function_completion("Sinh", "Sinh(${1:Value})", "Returns the hyperbolic sine."),
            Self::create_function_completion("Cosh", "Cosh(${1:Value})", "Returns the hyperbolic cosine."),
            Self::create_function_completion("Tanh", "Tanh(${1:Value})", "Returns the hyperbolic tangent."),
            Self::create_function_completion("Frac", "Frac(${1:Value})", "Returns the fractional portion of a number."),
            Self::create_function_completion("Rnd", "Rnd", "Returns a random value between 0 (inclusive) and 1 (exclusive)."),
            Self::create_function_completion("Ceiling", "Ceiling(${1:Value})", "Rounds a number up to the nearest integer."),
            Self::create_function_completion("Floor", "Floor(${1:Value})", "Rounds a number down to the nearest integer."),
        ]
    }

    /// Returns multi-statement pattern snippets for common CRBasic idioms
    /// (e.g. a full Scan/NextScan loop paired with its CallTable).
    pub fn get_pattern_snippet_completions() -> (r: Vec<CompletionItem>)
        ensures
            items_view(r@) =~~= pattern_snippet_items(),
    {
        vec![
            Self::create_pattern_snippet("ScanLoop", "Scan(${1:Interval}, ${2:Sec}, ${3:0}, ${4:0})\n\t$0\n\tCallTable ${5:TableName}\nNextScan", "Scan/NextScan loop with a CallTable call"),
            Self::create_pattern_snippet("SlowSequenceLoop", "SlowSequence\n\tScan(${1:Interval}, ${2:Sec}, ${3:0}, ${4:0})\n\t\t$0\n\t\tCallTable ${5:TableName}\n\tNextScan\nEndSequence", "Low-priority scan sequence for non-time-critical measurements"),
            Self::create_pattern_snippet("DataTableSample", "DataTable(${1:TableName}, ${2:True}, ${3:-1})\n\tSample(${4:1}, ${5:SourceVariable}, ${6:FP2})\n\t$0\nEndTable", "DataTable definition with a Sample output field"),
            Self::create_pattern_snippet("NewProgram", "Const ${1:ScanIntervalSec} = ${2:5}\nPublic ${3:VarName} As ${4:Float}\n\nDataTable(${5:TableName},True,-1)\n\tSample(1,${3:VarName},FP2)\nEndTable\n\nBeginProg\n\tScan(${1:ScanIntervalSec},Sec,0,0)\n\t\t$0\n\t\tCallTable ${5:TableName}\n\tNextScan\nEndProg", "Starter program skeleton: declarations, DataTable, Scan loop"),
        ]
    }

    /// Returns completion items for the data types valid after `As` in a
    /// `Public`/`Dim` declaration.
    pub fn data_type_completions() -> (r: Vec<CompletionItem>)
        ensures
            items_view(r@) =~~= data_type_items(),
    {
        vec![
            Self::create_keyword_completion("Float", "Single-precision floating point (default)"),
            Self::create_keyword_completion("Double", "Double-precision floating point"),
            Self::create_keyword_completion("Long", "32-bit signed integer"),
            Self::create_keyword_completion("Boolean", "True (-1) or False (0)"),
            Self::create_keyword_completion("String", "Null-terminated array of characters"),
            Self::create_keyword_completion("UINT1", "8-bit unsigned integer"),
        ]
    }

    /// Returns completion items for the data types valid only as a
    /// `Sample()`/`Average()`-style instruction argument; those also valid
    /// after `As` are left out to avoid duplicates.
    pub fn output_processing_data_type_completions() -> (r: Vec<CompletionItem>)
        ensures
            items_view(r@) =~~= output_processing_data_type_items(),
    {
        vec![
            Self::create_keyword_completion("FP2", "Campbell Scientific proprietary format; 3 or 4 significant digits (2 bytes)"),
            Self::create_keyword_completion("IEEE4", "Single-precision floating point number (4 bytes); same precision as Float"),
            Self::create_keyword_completion("IEEE8", "Double-precision floating point number (8 bytes); same precision as Double"),
            Self::create_keyword_completion("UINT2", "16-bit unsigned integer"),
            Self::create_keyword_completion("UINT4", "32-bit unsigned integer"),
            Self::create_keyword_completion("Bool8", "Array of eight 1-bit Boolean values packed into 1 byte"),
            Self::create_keyword_completion("NSEC", "Nanosecond-resolution time stamp (8 bytes)"),
        ]
    }

    /// Control-flow keyword items.
    fn control_flow_keywords() -> (r: Vec<CompletionItem>)
        ensures
            items_view(r@) =~~= control_flow_keyword_items(),
    {
        vec![
            Self::create_keyword_snippet("If", "If ${1:condition} Then\n\t$0\nEndIf", "Conditional statement block"),
            Self::create_keyword_completion("Then", "Part of If statement"),
            Self::create_keyword_completion("Else", "Alternative branch in If statement"),
            Self::create_keyword_completion("ElseIf", "Additional conditional branch"),
            Self::create_keyword_completion("EndIf", "Terminates If block"),
            Self::create_keyword_snippet("#If", "#If ${1:condition}\n\t$0\n#EndIf", "Compile-time conditional block"),
            Self::create_keyword_completion("#ElseIf", "Additional compile-time conditional branch"),
            Self::create_keyword_completion("#Else", "Alternative compile-time branch"),
            Self::create_keyword_completion("#EndIf", "Terminates a #If/#IfDef block"),
            Self::create_keyword_snippet("#IfDef", "#IfDef ${1:ConstName} Then\n\t$0\n#EndIf", "Compile-time check for a declared Const"),
            Self::create_keyword_completion("#UnDef", "Un-declares a Const so it can be redeclared"),
            Self::create_keyword_snippet("For", "For ${1:i} = ${2:1} To ${3:10}\n\t$0\nNext ${1:i}", "Counter-based loop"),
            Self::create_keyword_completion("To", "End value in For loop"),
            Self::create_keyword_completion("Step", "Increment value in For loop"),
            Self::create_keyword_completion("Next", "Terminates For loop"),
            Self::create_keyword_snippet("Do While", "Do While ${1:condition}\n\t$0\nLoop", "While loop (condition at start)"),
            Self::create_keyword_snippet("Do", "Do\n\t$0\nLoop While ${1:condition}", "Do loop"),
            Self::create_keyword_completion("Loop", "Terminates Do block"),
            Self::create_keyword_completion("While", "Loop condition"),
            Self::create_keyword_completion("Wend", "Terminates a While loop"),
            Self::create_keyword_completion("Until", "Loop condition (inverse of While)"),
            Self::create_keyword_completion("ExitFor", "Exit For loop immediately"),
            Self::create_keyword_completion("ExitDo", "Exit Do loop immediately"),
            Self::create_keyword_completion("DebugBreak", "Suspends execution at this line when running under the CRBasic debugger"),
            Self::create_keyword_completion("Restart", "Stops and restarts the running program"),
            Self::create_keyword_snippet("Select Case", "Select Case ${1:expression}\n\tCase ${2:value}\n\t\t$0\n\tCase Else\n\t\t\nEndSelect", "Multi-way branch statement"),
            Self::create_keyword_completion("Select", "Starts a Select Case block"),
            Self::create_keyword_completion("Case", "Branch in Select statement"),
            Self::create_keyword_completion("Is", "Comparison operator in a Case clause"),
            Self::create_keyword_completion("EndSelect", "Terminates Select block"),
            Self::create_keyword_completion("EndMenu", "Terminates a DisplayMenu block"),
            Self::create_keyword_completion("EndSubMenu", "Terminates a SubMenu block"),
            Self::create_keyword_completion("NextScan", "Terminates a Scan loop"),
            Self::create_keyword_completion("ContinueScan", "Jumps to NextScan, skipping the rest of the scan body"),
            Self::create_keyword_completion("NextSubScan", "Terminates a SubScan block"),
            Self::create_keyword_completion("WaitTriggerSequence", "Marks a resume-point inside a SlowSequence, waiting for the trigger condition"),
            Self::create_keyword_completion("ExitScan", "Exits the entire Scan loop immediately, regardless of Count"),
            Self::create_keyword_completion("Return", "Returns a value from a Function"),
            Self::create_keyword_completion("ExitFunction", "Exit Function immediately"),
            Self::create_keyword_completion("Exit", "Used with Sub to exit a Subroutine (Exit Sub)"),
            Self::create_keyword_snippet("Call", "Call ${1:SubName}(${2:arguments})", "Invokes a subroutine"),
        ]
    }

    /// Declaration keyword items.
    fn declaration_keywords() -> (r: Vec<CompletionItem>)
        ensures
            items_view(r@) =~~= declaration_keyword_items(),
    {
        vec![
            Self::create_keyword_snippet("Public", "Public ${1:VarName} As ${2:Float}", "Declare public (global) variable"),
            Self::create_keyword_snippet("Dim", "Dim ${1:VarName} As ${2:Float}", "Declare local (scratch) variable"),
            Self::create_keyword_snippet("Const", "Const ${1:NAME} = ${2:value}", "Declare constant value"),
            Self::create_keyword_completion("Alias", "Define alternative variable name"),
            Self::create_keyword_completion("As", "Specify data type"),
            Self::create_keyword_completion("Units", "Specify engineering units"),
            Self::create_keyword_completion("ReadOnly", "Mark a Public variable as visible but not externally editable"),
            Self::create_keyword_completion("Optional", "Mark a Function/Sub parameter as optional"),
            Self::create_keyword_snippet("Include", "Include \"${1:cpu:Filename.crb}\"", "Pull in an external CRBasic source file"),
        ]
    }

    /// Program-structure keyword items.
    fn program_structure_keywords() -> (r: Vec<CompletionItem>)
        ensures
            items_view(r@) =~~= program_structure_keyword_items(),
    {
        vec![
            Self::create_keyword_snippet("BeginProg", "BeginProg\n\t$0\nEndProg", "Main program execution block"),
            Self::create_keyword_completion("EndProg", "End of program execution block"),
            Self::create_keyword_completion("SequentialMode", "Forces the datalogger to run in sequential execution mode; placed before BeginProg"),
            Self::create_keyword_completion("PipeLineMode", "Forces the datalogger to run in pipeline execution mode; placed before BeginProg"),
            Self::create_keyword_completion("PreserveVariables", "Retains Dim/Public variable values in memory across a power loss; placed before BeginProg"),
            Self::create_keyword_completion("AngleDegrees", "Switches trig functions to use degrees instead of radians; placed before BeginProg"),
            Self::create_keyword_snippet("ApplyAndRestartSequence", "ApplyAndRestartSequence\n\t$0\nEndApplyAndRestartSequence", "Runs when the ConstTable it follows has its ApplyAndRestart setting externally set (e.g. via SetSetting), typically to validate the new constant values"),
            Self::create_keyword_completion("EndApplyAndRestartSequence", "Terminates an ApplyAndRestartSequence block"),
            Self::create_keyword_snippet("ShutDownBegin", "ShutDownBegin\n\t$0\nShutDownEnd", "Runs cleanup code when the program stops normally; placed before BeginProg"),
            Self::create_keyword_completion("ShutDownEnd", "Terminates a ShutDownBegin block"),
            Self::create_keyword_completion("ESSInitialize", "Initializes the NTCIP Environmental Sensor Station SNMP agent; placed directly after BeginProg"),
            Self::create_keyword_snippet("ESSVariables", "ESSVariables ${1:Public}", "Auto-declares the standard set of NTCIP Environmental Sensor Station variables, used with ESSInitialize"),
            Self::create_keyword_completion("WebPageEnd", "Terminates a WebPageBegin block"),
            Self::create_keyword_completion("EndModemHangup", "Terminates a ModemHangup block"),
            Self::create_keyword_snippet("VoiceBeg", "VoiceBeg\n\t$0\nEndVoice", "Begins a block of voice-modem response code"),
            Self::create_keyword_completion("EndVoice", "Terminates a VoiceBeg block"),
            Self::create_keyword_snippet("DataTable", "DataTable(${1:TableName}, ${2:TriggerCondition}, ${3:Size})\n\t$0\nEndTable", "Define data storage table"),
            Self::create_keyword_completion("EndTable", "Terminates DataTable block"),
            Self::create_keyword_completion("TableHide", "Suppresses the display and data collection of this DataTable"),
            Self::create_keyword_completion("OpenInterval", "Includes all measurements since the last data storage, spanning missed output intervals"),
            Self::create_keyword_completion("FillStop", "Stops data storage once this DataTable reaches its configured size, instead of overwriting the oldest records"),
            Self::create_keyword_snippet("CallTable", "CallTable ${1:TableName}", "Invoke a previously declared DataTable, storing a record if its trigger condition fires"),
            Self::create_keyword_snippet("ConstTable", "ConstTable(${1:TableName}, ${2:Hidden})\n\tConst $0\nEndConstTable", "Define a block of editable constants"),
            Self::create_keyword_completion("EndConstTable", "Terminates ConstTable block"),
            Self::create_keyword_snippet("SlowSequence", "SlowSequence\n\t$0\nEndSequence", "Begins a slow sequence scan block"),
            Self::create_keyword_completion("EndSequence", "Ends a slow sequence scan block"),
            Self::create_keyword_snippet("StructureType", "StructureType ${1:TypeName}\n\t$0\nEndStructureType", "Define a reusable data structure"),
            Self::create_keyword_completion("EndStructureType", "Terminates StructureType block"),
        ]
    }

    /// Function-definition keyword items.
    fn function_definition_keywords() -> (r: Vec<CompletionItem>)
        ensures
            items_view(r@) =~~= function_definition_keyword_items(),
    {
        vec![
            Self::create_keyword_snippet("Function", "Function ${1:FuncName}(${2:params}) As ${3:Float}\n\t$0\nEndFunction", "Define user function (returns value)"),
            Self::create_keyword_completion("EndFunction", "Terminates Function block"),
            Self::create_keyword_snippet("Sub", "Sub ${1:SubName}(${2:params})\n\t$0\nEndSub", "Define subroutine (no return value, copy-back params)"),
            Self::create_keyword_completion("EndSub", "Terminates Sub block"),
        ]
    }

    /// Logical operator and boolean literal items.
    fn logical_operator_keywords() -> (r: Vec<CompletionItem>)
        ensures
            items_view(r@) =~~= logical_operator_keyword_items(),
    {
        vec![
            Self::create_keyword_completion("AND", "Logical AND operator"),
            Self::create_keyword_completion("OR", "Logical OR operator"),
            Self::create_keyword_completion("NOT", "Logical NOT operator"),
            Self::create_keyword_completion("XOR", "Logical XOR operator"),
            Self::create_keyword_completion("MOD", "Modulo operator"),
            Self::create_keyword_completion("IMP", "Logical implication operator"),
            Self::create_keyword_completion("EQV", "Logical equivalence operator"),
            Self::create_keyword_completion("INTDV", "Integer division operator (synonym for \\)"),
            Self::create_keyword_completion("True", "Boolean true (-1)"),
            Self::create_keyword_completion("False", "Boolean false (0)"),
        ]
    }

}
/// The keyword items, in the order `get_keyword_completions` lists them.
pub open spec fn keyword_items() -> Seq<CompletionView> {
    control_flow_keyword_items() + declaration_keyword_items() + program_structure_keyword_items()
        + function_definition_keyword_items() + logical_operator_keyword_items()
}

/// The completion item a top-level statement contributes, if any: declared
/// variables and constants, functions and subroutines.
pub open spec fn statement_item(s: Statement) -> Option<CompletionView> {
    match s {
        Statement::VarDeclaration { keyword, name, type_annotation, .. } => Some(
            CompletionView {
                label: name@,
                kind: Some(
                    if keyword@ == "Const"@ {
                        CompletionItemKind::Constant
                    } else {
                        CompletionItemKind::Variable
                    },
                ),
                detail: Some(
                    match type_annotation {
                        Some(t) => keyword@ + " "@ + name@ + " As "@ + t@,
                        None => keyword@ + " "@ + name@,
                    },
                ),
                documentation: None,
                insert_text: None,
                insert_text_format: None,
            },
        ),
        Statement::FunctionDefinition { name, parameters, .. } => Some(
            callable_item(name@, parameters@, "Function "@, CompletionItemKind::Function),
        ),
        Statement::SubroutineDefinition { name, parameters, .. } => Some(
            callable_item(name@, parameters@, "Sub "@, CompletionItemKind::Method),
        ),
        _ => None,
    }
}

/// The item of a user-defined `Function`/`Sub`: detail `<prefix>Name(p1, p2)`,
/// inserting `Name(${1})` as a snippet.
pub open spec fn callable_item(
    name: Seq<char>,
    parameters: Seq<String>,
    prefix: Seq<char>,
    kind: CompletionItemKind,
) -> CompletionView {
    CompletionView {
        label: name,
        kind: Some(kind),
        detail: Some(
            prefix + name + "("@ + joined(parameters.map_values(|p: String| p@), ", "@) + ")"@,
        ),
        documentation: None,
        insert_text: Some(name + "(${1})"@),
        insert_text_format: Some(InsertTextFormat::Snippet),
    }
}

/// The items the top-level statements contribute, in order.
pub open spec fn user_defined_items(statements: Seq<Statement>) -> Seq<CompletionView>
    decreases statements.len(),
{
    if statements.len() == 0 {
        Seq::empty()
    } else {
        user_defined_items(statements.drop_last()) + match statement_item(statements.last()) {
            Some(item) => seq![item],
            None => Seq::empty(),
        }
    }
}

/// Every item offered: keywords, built-in functions, pattern snippets, data
/// types, and, given a program, its user-defined symbols.
pub open spec fn all_items(statements: Option<Seq<Statement>>) -> Seq<CompletionView> {
    keyword_items() + builtin_function_items() + pattern_snippet_items() + data_type_items()
        + output_processing_data_type_items() + match statements {
        Some(s) => user_defined_items(s),
        None => Seq::empty(),
    }
}

impl CompletionProvider {
    /// Returns all keyword completion items.
    pub fn get_keyword_completions() -> (r: Vec<CompletionItem>)
        ensures
            items_view(r@) =~~= keyword_items(),
    {
        let mut items = Self::control_flow_keywords();
        let mut more = Self::declaration_keywords();
        items.append(&mut more);
        let mut more = Self::program_structure_keywords();
        items.append(&mut more);
        let mut more = Self::function_definition_keywords();
        items.append(&mut more);
        let mut more = Self::logical_operator_keywords();
        items.append(&mut more);
        items
    }

    /// Returns all completion items (keywords, built-ins, pattern snippets,
    /// data types, and, when a program is given, its user-defined symbols).
    pub fn get_all_completions(ast: Option<&Program>) -> (r: Vec<CompletionItem>)
        ensures
            items_view(r@) =~~= all_items(
                match ast {
                    Some(p) => Some(p.statements@),
                    None => None,
                },
            ),
    {
        let mut items = Self::get_keyword_completions();
        let mut more = Self::get_builtin_function_completions();
        items.append(&mut more);
        let mut more = Self::get_pattern_snippet_completions();
        items.append(&mut more);
        let mut more = Self::data_type_completions();
        items.append(&mut more);
        let mut more = Self::output_processing_data_type_completions();
        items.append(&mut more);
        if let Some(ast) = ast {
            let mut more = Self::get_user_defined_completions(ast);
            items.append(&mut more);
        }
        items
    }

    /// Extracts completion items for the variables, constants, functions
    /// and subroutines declared at the top level of the program.
    pub fn get_user_defined_completions(ast: &Program) -> (r: Vec<CompletionItem>)
        ensures
            items_view(r@) =~~= user_defined_items(ast.statements@),
    {
        let mut items: Vec<CompletionItem> = Vec::new();
        let mut i: usize = 0;
        while i < ast.statements.len()
            invariant
                i <= ast.statements@.len(),
                items_view(items@) =~~= user_defined_items(ast.statements@.take(i as int)),
            decreases ast.statements@.len() - i,
        {
            proof {
                assert(ast.statements@.take(i + 1).drop_last() =~= ast.statements@.take(i as int));
            }
            let ghost before = items@;
            match &ast.statements[i] {
                Statement::VarDeclaration { keyword, name, type_annotation, .. } => {
                    let kind = if crate::text::str_eq(keyword.as_str(), "Const") {
                        CompletionItemKind::Constant
                    } else {
                        CompletionItemKind::Variable
                    };
                    let mut detail = owned(keyword.as_str());
                    detail.append(" ");
                    detail.append(name.as_str());
                    if let Some(t) = type_annotation {
                        detail.append(" As ");
                        detail.append(t.as_str());
                    }
                    items.push(
                        CompletionItem {
                            label: owned(name.as_str()),
                            kind: Some(kind),
                            detail: Some(detail),
                            documentation: None,
                            insert_text: None,
                            insert_text_format: None,
                        },
                    );
                },
                Statement::FunctionDefinition { name, parameters, .. } => {
                    items.push(
                        Self::create_callable_completion(
                            name.as_str(),
                            parameters,
                            "Function ",
                            CompletionItemKind::Function,
                        ),
                    );
                },
                Statement::SubroutineDefinition { name, parameters, .. } => {
                    items.push(
                        Self::create_callable_completion(
                            name.as_str(),
                            parameters,
                            "Sub ",
                            CompletionItemKind::Method,
                        ),
                    );
                },
                _ => {},
            }
            proof {
                assert(items_view(items@) =~~= items_view(before) + match statement_item(
                    ast.statements@[i as int],
                ) {
                    Some(item) => seq![item],
                    None => Seq::empty(),
                });
            }
            i += 1;
        }
        proof {
            assert(ast.statements@.take(i as int) =~= ast.statements@);
        }
        items
    }

    /// The item of a user-defined `Function`/`Sub`.
    fn create_callable_completion(
        name: &str,
        parameters: &Vec<String>,
        prefix: &str,
        kind: CompletionItemKind,
    ) -> (r: CompletionItem)
        ensures
            r@ =~~= callable_item(name@, parameters@, prefix@, kind),
    {
        let mut detail = owned(prefix);
        detail.append(name);
        detail.append("(");
        let params = join_strings(parameters, ", ");
        detail.append(params.as_str());
        detail.append(")");
        let mut insert = owned(name);
        insert.append("(${1})");
        CompletionItem {
            label: owned(name),
            kind: Some(kind),
            detail: Some(detail),
            documentation: None,
            insert_text: Some(insert),
            insert_text_format: Some(InsertTextFormat::Snippet),
        }
    }

    fn create_keyword_completion(label: &str, detail: &str) -> (r: CompletionItem)
        ensures
            r@ =~~= keyword_item(label@, detail@),
    {
        CompletionItem {
            label: owned(label),
            kind: Some(CompletionItemKind::Keyword),
            detail: Some(owned(detail)),
            documentation: None,
            insert_text: None,
            insert_text_format: None,
        }
    }

    fn create_keyword_snippet(label: &str, insert_text: &str, detail: &str) -> (r: CompletionItem)
        ensures
            r@ =~~= keyword_snippet_item(label@, insert_text@, detail@),
    {
        CompletionItem {
            label: owned(label),
            kind: Some(CompletionItemKind::Keyword),
            detail: Some(owned(detail)),
            documentation: None,
            insert_text: Some(owned(insert_text)),
            insert_text_format: Some(InsertTextFormat::Snippet),
        }
    }

    fn create_pattern_snippet(label: &str, insert_text: &str, detail: &str) -> (r: CompletionItem)
        ensures
            r@ =~~= pattern_snippet_item(label@, insert_text@, detail@),
    {
        CompletionItem {
            label: owned(label),
            kind: Some(CompletionItemKind::Snippet),
            detail: Some(owned(detail)),
            documentation: None,
            insert_text: Some(owned(insert_text)),
            insert_text_format: Some(InsertTextFormat::Snippet),
        }
    }

    fn create_function_completion(label: &str, insert_text: &str, doc: &str) -> (r:
        CompletionItem)
        ensures
            r@ =~~= function_item(label@, insert_text@, doc@),
    {
        let mut detail = owned("Built-in: ");
        detail.append(label);
        CompletionItem {
            label: owned(label),
            kind: Some(CompletionItemKind::Function),
            detail: Some(detail),
            documentation: Some(markdown(owned(doc))),
            insert_text: Some(owned(insert_text)),
            insert_text_format: Some(InsertTextFormat::Snippet),
        }
    }
}

} // verus!

//! Hover information for CRBasic keywords, data types and built-in
//! functions.
use crate::protocol::{markdown, MarkupContent, MarkupKind, Position, Range};
use crate::syntax::{lsp_range, span_to_range, token_index_at, find_token_index, Token, TokenKind};
use crate::text::{lowercase, owned, str_eq, to_lowercase};
use vstd::prelude::*;

verus! {

/// Hover information: Markdown content and the range it describes.
#[derive(Debug, Clone, PartialEq, Eq)]
pub struct Hover {
    pub contents: MarkupContent,
    pub range: Option<Range>,
}

/// Provides hover information for CRBasic symbols.
pub struct HoverProvider;

/// The text of an optional string.
pub open spec fn str_option_view(r: Option<&str>) -> Option<Seq<char>> {
    match r {
        Some(s) => Some(s@),
        None => None,
    }
}

/// `a` if it holds a value, else `b`.
pub open spec fn first_of(a: Option<Seq<char>>, b: Option<Seq<char>>) -> Option<Seq<char>> {
    if a is Some {
        a
    } else {
        b
    }
}

/// Descriptions of the data types valid after `As`, by lowercase name.
pub open spec fn data_type_descriptions(key: Seq<char>) -> Option<Seq<char>> {
    if key == "float"@ {
        Some("**Float**\n\nSingle-precision floating point number. The default type if `As` is omitted."@)
    } else if key == "double"@ {
        Some("**Double**\n\nDouble-precision floating point number. Reduces error accumulation in calculations."@)
    } else if key == "long"@ {
        Some("**Long**\n\n32-bit signed integer."@)
    } else if key == "boolean"@ {
        Some("**Boolean**\n\nStores `True` (-1) or `False` (0)."@)
    } else if key == "string"@ {
        Some("**String**\n\nNull-terminated array of characters."@)
    } else if key == "uint1"@ {
        Some("**UINT1**\n\n8-bit unsigned integer."@)
    } else {
        None
    }
}

/// Descriptions of the data types valid only as an output-processing argument, by lowercase name.
pub open spec fn output_processing_data_type_descriptions(key: Seq<char>) -> Option<Seq<char>> {
    if key == "fp2"@ {
        Some("**FP2**\n\nCampbell Scientific proprietary format; 3 or 4 significant digits (2 bytes)."@)
    } else if key == "ieee4"@ {
        Some("**IEEE4**\n\nSingle-precision floating point number (4 bytes); same precision as `Float`."@)
    } else if key == "ieee8"@ {
        Some("**IEEE8**\n\nDouble-precision floating point number (8 bytes); same precision as `Double`."@)
    } else if key == "uint2"@ {
        Some("**UINT2**\n\n16-bit unsigned integer."@)
    } else if key == "uint4"@ {
        Some("**UINT4**\n\n32-bit unsigned integer."@)
    } else if key == "bool8"@ {
        Some("**Bool8**\n\nArray of eight 1-bit Boolean values packed into 1 byte."@)
    } else if key == "nsec"@ {
        Some("**NSEC**\n\nNanosecond-resolution time stamp (8 bytes)."@)
    } else {
        None
    }
}

/// Descriptions of the predefined `#If` constant `LoggerType`, by lowercase name.
pub open spec fn preprocessor_constant_descriptions(key: Seq<char>) -> Option<Seq<char>> {
    if key == "loggertype"@ {
        Some("**LoggerType**\n\nPredefined constant for `#If`/`#ElseIf` model comparisons (e.g. `#If LoggerType = CR1000X`), letting one program compile differently per datalogger model."@)
    } else {
        None
    }
}

/// Descriptions of the `IIf` conditional function, by lowercase name.
pub open spec fn logical_function_descriptions(key: Seq<char>) -> Option<Seq<char>> {
    if key == "iif"@ {
        Some("**IIf**\n\nEvaluates a Boolean expression and returns TrueValue if true, otherwise FalseValue."@)
    } else {
        None
    }
}

/// Descriptions of the custom-menu functions, by lowercase name.
pub open spec fn menu_function_descriptions(key: Seq<char>) -> Option<Seq<char>> {
    if key == "displaymenu"@ {
        Some("**DisplayMenu**\n\nMarks the beginning of a custom on-screen menu definition."@)
    } else if key == "submenu"@ {
        Some("**SubMenu**\n\nMarks the beginning of a nested custom menu within a DisplayMenu block."@)
    } else if key == "menuitem"@ {
        Some("**MenuItem**\n\nDefines an editable custom-menu entry showing the name and value of a variable."@)
    } else if key == "menupick"@ {
        Some("**MenuPick**\n\nCreates a fixed pick-list of selectable values for the preceding MenuItem."@)
    } else if key == "menurecompile"@ {
        Some("**MenuRecompile**\n\nCreates a custom menu item that triggers a program recompile after Constant Table edits."@)
    } else if key == "displayvalue"@ {
        Some("**DisplayValue**\n\nDefines a read-only custom-menu entry showing a data-table field, variable, or expression."@)
    } else if key == "displayline"@ {
        Some("**DisplayLine**\n\nDisplays a single line of read-only text in a custom menu."@)
    } else {
        None
    }
}

/// Descriptions of the time and system functions, by lowercase name.
pub open spec fn time_function_descriptions(key: Seq<char>) -> Option<Seq<char>> {
    if key == "realtime"@ {
        Some("**RealTime**\n\nReturns the current real-time clock values."@)
    } else if key == "clockchange"@ {
        Some("**ClockChange**\n\nReturns the number of milliseconds the datalogger's clock has changed since the last time this instruction was executed."@)
    } else if key == "clockset"@ {
        Some("**ClockSet**\n\nSets the datalogger clock from the values in a 7-element array."@)
    } else if key == "timeintointerval"@ {
        Some("**TimeIntoInterval**\n\nReturns true when the interval boundary is crossed."@)
    } else if key == "iftime"@ {
        Some("**IfTime**\n\nReturns true at specified time intervals."@)
    } else if key == "timer"@ {
        Some("**Timer**\n\nReturns elapsed time from a timer."@)
    } else if key == "delay"@ {
        Some("**Delay**\n\nPauses execution for a specified time."@)
    } else if key == "setstatus"@ {
        Some("**SetStatus**\n\nChanges the value of a field in the datalogger's Status table."@)
    } else if key == "setsetting"@ {
        Some("**SetSetting**\n\nChanges the value of a field in the datalogger's Settings table."@)
    } else if key == "movebytes"@ {
        Some("**MoveBytes**\n\nMoves binary bytes of data from one memory location to another."@)
    } else if key == "arraylength"@ {
        Some("**ArrayLength**\n\nReturns the total number of elements across all dimensions of an array."@)
    } else if key == "nan"@ {
        Some("**NaN**\n\nRepresents the IEEE-754 Not-a-Number value used to flag an invalid measurement. Takes no parentheses."@)
    } else if key == "secssince1990"@ {
        Some("**SecsSince1990**\n\nConverts between a date/time string and the number of seconds since January 1, 1990."@)
    } else if key == "timeisbetween"@ {
        Some("**TimeIsBetween**\n\nReturns true when the datalogger's real-time clock falls within a specified time range."@)
    } else if key == "daylightsaving"@ {
        Some("**DaylightSaving**\n\nDetects a custom-rule daylight saving transition and returns the clock adjustment."@)
    } else if key == "daylightsavingus"@ {
        Some("**DaylightSavingUS**\n\nDetects a US-rule daylight saving transition and returns the clock adjustment."@)
    } else if key == "instructiontimes"@ {
        Some("**InstructionTimes**\n\nPopulates an array with the processing time, in microseconds, of every program line; must precede BeginProg."@)
    } else if key == "linenum"@ {
        Some("**LineNum**\n\nReturns the current program line number, for debugging."@)
    } else if key == "signature"@ {
        Some("**Signature**\n\nReturns a pseudo-random signature of the program code between two Signature markers."@)
    } else if key == "arrayindex"@ {
        Some("**ArrayIndex**\n\nReturns the numeric index of a named array element whose position isn't known in advance."@)
    } else if key == "debug"@ {
        Some("**Debug**\n\nConfigures breakpoint and trace-history behavior for the CRBasic debugger; used together with DebugBreak."@)
    } else if key == "move"@ {
        Some("**Move**\n\nCopies a run of values from a source array/variable into a destination range."@)
    } else if key == "semaphoreget"@ {
        Some("**SemaphoreGet**\n\nWaits for and claims a semaphore, blocking until it is free."@)
    } else if key == "semaphorerelease"@ {
        Some("**SemaphoreRelease**\n\nReleases a semaphore previously claimed with SemaphoreGet."@)
    } else {
        None
    }
}

/// Descriptions of the math functions, by lowercase name.
pub open spec fn math_function_descriptions(key: Seq<char>) -> Option<Seq<char>> {
    if key == "abs"@ {
        Some("**Abs**\n\nReturns the absolute value."@)
    } else if key == "sgn"@ {
        Some("**Sgn**\n\nReturns the sign of a number as -1, 0, or 1."@)
    } else if key == "sqr"@ {
        Some("**Sqr**\n\nReturns the square root."@)
    } else if key == "exp"@ {
        Some("**Exp**\n\nReturns e raised to a power."@)
    } else if key == "ln"@ {
        Some("**Ln**\n\nReturns the natural logarithm."@)
    } else if key == "log"@ {
        Some("**Log**\n\nReturns the natural logarithm."@)
    } else if key == "log10"@ {
        Some("**Log10**\n\nReturns the base-10 logarithm."@)
    } else if key == "sin"@ {
        Some("**Sin**\n\nReturns the sine."@)
    } else if key == "cos"@ {
        Some("**Cos**\n\nReturns the cosine."@)
    } else if key == "tan"@ {
        Some("**Tan**\n\nReturns the tangent."@)
    } else if key == "sinh"@ {
        Some("**Sinh**\n\nReturns the hyperbolic sine."@)
    } else if key == "cosh"@ {
        Some("**Cosh**\n\nReturns the hyperbolic cosine."@)
    } else if key == "tanh"@ {
        Some("**Tanh**\n\nReturns the hyperbolic tangent."@)
    } else if key == "asin"@ {
        Some("**Asin**\n\nReturns the arc sine."@)
    } else if key == "acos"@ {
        Some("**Acos**\n\nReturns the arc cosine."@)
    } else if key == "atn"@ {
        Some("**Atn**\n\nReturns the arc tangent."@)
    } else if key == "atn2"@ {
        Some("**Atn2**\n\nReturns the arc tangent of Y/X."@)
    } else if key == "int"@ {
        Some("**Int**\n\nReturns the integer part (truncates toward negative infinity)."@)
    } else if key == "fix"@ {
        Some("**Fix**\n\nReturns the integer part (truncates toward zero)."@)
    } else if key == "frac"@ {
        Some("**Frac**\n\nReturns the fractional portion of a number."@)
    } else if key == "round"@ {
        Some("**Round**\n\nRounds to specified decimal places."@)
    } else if key == "rnd"@ {
        Some("**Rnd**\n\nReturns a random value between 0 (inclusive) and 1 (exclusive). Takes no parentheses."@)
    } else if key == "randomize"@ {
        Some("**Randomize**\n\nInitializes the random-number generator used by Rnd with a new seed value."@)
    } else if key == "ceiling"@ {
        Some("**Ceiling**\n\nRounds a number up to the nearest integer."@)
    } else if key == "floor"@ {
        Some("**Floor**\n\nRounds a number down to the nearest integer."@)
    } else if key == "matrix"@ {
        Some("**Matrix**\n\nPerforms matrix math (add, subtract, multiply, transpose, invert) on 2-D arrays."@)
    } else if key == "minspa"@ {
        Some("**MinSpa**\n\nFinds the minimum value across a spatial array and its index, writing both into a 2-element Dest array."@)
    } else if key == "sortspa"@ {
        Some("**SortSpa**\n\nSorts array elements in ascending order, with NaN and infinite values sorted to the beginning."@)
    } else if key == "findspa"@ {
        Some("**FindSpa**\n\nSearches an array for a value within a specified range, returning its position, or 0 if not found."@)
    } else if key == "rectpolar"@ {
        Some("**RectPolar**\n\nConverts rectangular coordinates (X, Y) into polar coordinates (vector length and angle in radians)."@)
    } else if key == "satvp"@ {
        Some("**SatVP**\n\nCalculates saturation vapor pressure, in kilopascals, from a temperature measurement."@)
    } else if key == "straincalc"@ {
        Some("**StrainCalc**\n\nConverts the mV/V output from a bridge measurement into microstrain (µε), using the specified bridge configuration."@)
    } else if key == "vaporpressure"@ {
        Some("**VaporPressure**\n\nCalculates vapor pressure, in kilopascals, from temperature and relative humidity."@)
    } else {
        None
    }
}

/// Descriptions of the string functions, by lowercase name.
pub open spec fn string_function_descriptions(key: Seq<char>) -> Option<Seq<char>> {
    if key == "splitstr"@ {
        Some("**SplitStr**\n\nSplits a string by delimiter."@)
    } else if key == "formatfloat"@ {
        Some("**FormatFloat**\n\nFormats a float as a string."@)
    } else if key == "formatlong"@ {
        Some("**FormatLong**\n\nConverts a Long value to a decimal, hexadecimal, or octal string."@)
    } else if key == "formatlonglong"@ {
        Some("**FormatLongLong**\n\nConverts a 64-bit value, stored across two adjacent Long variables, into its decimal string representation."@)
    } else if key == "mid"@ {
        Some("**Mid**\n\nExtracts a substring."@)
    } else if key == "left"@ {
        Some("**Left**\n\nReturns leftmost characters."@)
    } else if key == "right"@ {
        Some("**Right**\n\nReturns rightmost characters."@)
    } else if key == "len"@ {
        Some("**Len**\n\nReturns the length of a string."@)
    } else if key == "instr"@ {
        Some("**InStr**\n\nFinds a substring within a string."@)
    } else if key == "lowercase"@ {
        Some("**LowerCase**\n\nConverts to lowercase."@)
    } else if key == "uppercase"@ {
        Some("**UpperCase**\n\nConverts to uppercase."@)
    } else if key == "trim"@ {
        Some("**Trim**\n\nRemoves leading and trailing spaces."@)
    } else if key == "rtrim"@ {
        Some("**RTrim**\n\nRemoves trailing spaces."@)
    } else if key == "ltrim"@ {
        Some("**LTrim**\n\nRemoves leading spaces."@)
    } else if key == "replace"@ {
        Some("**Replace**\n\nReplaces occurrences in a string."@)
    } else if key == "chr"@ {
        Some("**Chr**\n\nReturns a character in the extended ASCII character set."@)
    } else if key == "ascii"@ {
        Some("**ASCII**\n\nReturns the ASCII value of a character in a string."@)
    } else if key == "strcomp"@ {
        Some("**StrComp**\n\nCompares two strings to determine if they are identical or their sort order."@)
    } else if key == "checksum"@ {
        Some("**CheckSum**\n\nReturns a checksum signature for the characters in a string."@)
    } else if key == "hextodec"@ {
        Some("**HexToDec**\n\nConverts a hexadecimal string to a float or integer."@)
    } else if key == "hex"@ {
        Some("**Hex**\n\nReturns a hexadecimal string representation of a Long value."@)
    } else if key == "sprintf"@ {
        Some("**Sprintf**\n\nWrites a formatted output string to a destination variable."@)
    } else if key == "typeof"@ {
        Some("**TypeOf**\n\nReturns an integer data-type code for a variable."@)
    } else {
        None
    }
}

/// Descriptions of the data-table functions, by lowercase name.
pub open spec fn data_function_descriptions(key: Seq<char>) -> Option<Seq<char>> {
    if key == "sample"@ {
        Some("**Sample**\n\nSamples and stores a value in the data table."@)
    } else if key == "average"@ {
        Some("**Average**\n\nCalculates and stores the average of values."@)
    } else if key == "stddev"@ {
        Some("**StdDev**\n\nCalculates and stores the standard deviation."@)
    } else if key == "minimum"@ {
        Some("**Minimum**\n\nStores the minimum value over the output interval."@)
    } else if key == "maximum"@ {
        Some("**Maximum**\n\nStores the maximum value over the output interval."@)
    } else if key == "totalize"@ {
        Some("**Totalize**\n\nStores the sum of values over the output interval."@)
    } else if key == "histogram"@ {
        Some("**Histogram**\n\nStores a frequency distribution of input data across a set of bins."@)
    } else if key == "histogram4d"@ {
        Some("**Histogram4D**\n\nProcesses input data as a standard or weighted-value histogram of up to four dimensions."@)
    } else if key == "median"@ {
        Some("**Median**\n\nStores the median of a variable, over time, in an output table."@)
    } else if key == "moment"@ {
        Some("**Moment**\n\nOutputs a central moment (variance, skewness, kurtosis, etc.) of a value over the measurement interval."@)
    } else if key == "samplemaxmin"@ {
        Some("**SampleMaxMin**\n\nRecords the value of a companion variable at the moment a preceding Maximum or Minimum reaches its extremum."@)
    } else if key == "peakvalley"@ {
        Some("**PeakValley**\n\nDetects local maxima and minima in signal data with a hysteresis threshold."@)
    } else if key == "fft"@ {
        Some("**FFT**\n\nPerforms a Fast Fourier Transform on time-series measurement data."@)
    } else if key == "covariance"@ {
        Some("**Covariance**\n\nComputes time-series covariance among array elements, for eddy-flux systems."@)
    } else if key == "levelcrossing"@ {
        Some("**LevelCrossing**\n\nBuilds a 1D or 2D level-crossing histogram for fatigue counting."@)
    } else if key == "worstcase"@ {
        Some("**WorstCase**\n\nSaves ranked worst-case data events into separate clone tables."@)
    } else if key == "fieldnames"@ {
        Some("**FieldNames**\n\nOverrides the default field names for the preceding output-processing instruction."@)
    } else if key == "cardout"@ {
        Some("**CardOut**\n\nCreates a new data table that is stored on a memory card."@)
    } else if key == "newfile"@ {
        Some("**NewFile**\n\nDetermines whether a monitored file has been newly written since this instruction last ran."@)
    } else if key == "filemanage"@ {
        Some("**FileManage**\n\nPerforms a management operation, such as delete, hide, run, or format, on a file or device."@)
    } else if key == "fileopen"@ {
        Some("**FileOpen**\n\nOpens a file for reading or writing and returns a file handle."@)
    } else if key == "fileclose"@ {
        Some("**FileClose**\n\nCloses a file previously opened with FileOpen."@)
    } else if key == "fileread"@ {
        Some("**FileRead**\n\nReads data from an open file into a variable or array."@)
    } else if key == "filewrite"@ {
        Some("**FileWrite**\n\nWrites data from a variable or array to an open file."@)
    } else if key == "fileencrypt"@ {
        Some("**FileEncrypt**\n\nEncrypts a file in place; the datalogger automatically decrypts it at compile time when referenced."@)
    } else if key == "filecopy"@ {
        Some("**FileCopy**\n\nCopies a file from one drive on the datalogger to another."@)
    } else if key == "filerename"@ {
        Some("**FileRename**\n\nRenames a file stored on the datalogger."@)
    } else if key == "filesize"@ {
        Some("**FileSize**\n\nReturns the size, in bytes, of a specified file."@)
    } else if key == "filetime"@ {
        Some("**FileTime**\n\nReturns the last-modified timestamp of a specified file."@)
    } else if key == "filelist"@ {
        Some("**FileList**\n\nWrites the list of file names on a device into a destination array."@)
    } else if key == "datainterval"@ {
        Some("**DataInterval**\n\nSets the real-time-clock-based interval on which a data table's records are generated."@)
    } else if key == "cardflush"@ {
        Some("**CardFlush**\n\nImmediately writes buffered data to an external storage device."@)
    } else if key == "dataevent"@ {
        Some("**DataEvent**\n\nConditionally starts and stops data storage to a table based on trigger conditions."@)
    } else if key == "data"@ {
        Some("**Data**\n\nDefines a list of Float constants for later retrieval with Read."@)
    } else if key == "datalong"@ {
        Some("**DataLong**\n\nDefines a list of Long constants for later retrieval with Read."@)
    } else if key == "datatime"@ {
        Some("**DataTime**\n\nSelects whether a data table's records are timestamped at scan time or at storage time."@)
    } else if key == "resettable"@ {
        Some("**ResetTable**\n\nErases all records from a specified data table during program execution."@)
    } else if key == "tablefile"@ {
        Some("**TableFile**\n\nWrites a data table's contents to external storage media; placed inside a DataTable/EndTable declaration."@)
    } else if key == "filemark"@ {
        Some("**FileMark**\n\nInserts a filemark into a data table, signaling file-splitting software to start a new file."@)
    } else if key == "filereadline"@ {
        Some("**FileReadLine**\n\nReads one line from an open file into a destination variable."@)
    } else if key == "erase"@ {
        Some("**Erase**\n\nSets all bytes of a variable or array to zero."@)
    } else if key == "getrecord"@ {
        Some("**GetRecord**\n\nRetrieves one complete record from a data table into an array."@)
    } else if key == "gzip"@ {
        Some("**Gzip**\n\nCompresses one or more files on datalogger storage into a .gz or .tar.gz archive."@)
    } else if key == "newfieldnames"@ {
        Some("**NewFieldNames**\n\nRenames the auto-generated field name(s) of a variable or array for table output."@)
    } else if key == "rainflow"@ {
        Some("**RainFlow**\n\nPerforms rainflow cycle-counting on a signal, building an amplitude/mean histogram for fatigue analysis."@)
    } else if key == "read"@ {
        Some("**Read**\n\nReads the next value(s) sequentially from a Data/DataLong constant list into a variable, advancing the read pointer."@)
    } else if key == "restore"@ {
        Some("**Restore**\n\nResets the read pointer to the start of a Data/DataLong constant list, so a following Read restarts from the beginning."@)
    } else if key == "runprogram"@ {
        Some("**RunProgram**\n\nRuns a specified datalogger program file, replacing the currently active program."@)
    } else if key == "stationname"@ {
        Some("**StationName**\n\nAssigns a name to the station, stored in the Status table; declared once near the top of the program."@)
    } else {
        None
    }
}

/// Descriptions of the communication functions, by lowercase name.
pub open spec fn communication_function_descriptions(key: Seq<char>) -> Option<Seq<char>> {
    if key == "serialopen"@ {
        Some("**SerialOpen**\n\nOpens a serial communication port."@)
    } else if key == "serialclose"@ {
        Some("**SerialClose**\n\nCloses a serial communication port."@)
    } else if key == "serialin"@ {
        Some("**SerialIn**\n\nReads data from a serial port."@)
    } else if key == "serialout"@ {
        Some("**SerialOut**\n\nSends data to a serial port."@)
    } else if key == "serialinrecord"@ {
        Some("**SerialInRecord**\n\nReads and parses incoming serial data using begin/end markers."@)
    } else if key == "serialoutblock"@ {
        Some("**SerialOutBlock**\n\nSends binary data out a serial port."@)
    } else if key == "serialflush"@ {
        Some("**SerialFlush**\n\nClears any characters in the serial input buffer."@)
    } else if key == "serialbrk"@ {
        Some("**SerialBrk**\n\nSends a break signal of a specified duration to a serial communication port."@)
    } else if key == "modbusmaster"@ {
        Some("**ModbusMaster**\n\nSets up the datalogger as a Modbus client to send or retrieve data from a Modbus server."@)
    } else if key == "sdi12recorder"@ {
        Some("**SDI12Recorder**\n\nRetrieves measurement results from an SDI-12 sensor."@)
    } else if key == "tcpopen"@ {
        Some("**TCPOpen**\n\nSets up a TCP/IP socket for communication."@)
    } else if key == "tcpclose"@ {
        Some("**TCPClose**\n\nCloses a TCP/IP socket that was set up for communication."@)
    } else if key == "udpopen"@ {
        Some("**UDPOpen**\n\nOpens a port for transferring UDP packets."@)
    } else if key == "udpsocketopen"@ {
        Some("**UDPSocketOpen**\n\nOpens a UDP socket, relating a UDP source port to an ID."@)
    } else if key == "udpsocketsend"@ {
        Some("**UDPSocketSend**\n\nSends a UDP datagram to a remote device via an opened UDP socket."@)
    } else if key == "udpsocketrecv"@ {
        Some("**UDPSocketRecv**\n\nRetrieves incoming UDP packets sent to a socket's listening port."@)
    } else if key == "udpsocketclose"@ {
        Some("**UDPSocketClose**\n\nCloses an opened UDP socket and frees its associated memory."@)
    } else if key == "emailrelay"@ {
        Some("**EmailRelay**\n\nSends an email message to one or more addresses via a Campbell Scientific relay service."@)
    } else if key == "emailsend"@ {
        Some("**EmailSend**\n\nSends an email message directly via an SMTP server."@)
    } else if key == "dialmodem"@ {
        Some("**DialModem**\n\nDials a modem device over a communications port and checks for an expected response."@)
    } else if key == "dialsequence"@ {
        Some("**DialSequence**\n\nDeclares a PakBus dial-out route/sequence, closed by EndDialSequence."@)
    } else if key == "enddialsequence"@ {
        Some("**EndDialSequence**\n\nCloses a DialSequence block, reporting whether the dial sequence succeeded."@)
    } else if key == "modemhangup"@ {
        Some("**ModemHangup**\n\nDeclares code to run when a communications port hangs up, closed by EndModemHangup."@)
    } else if key == "dialvoice"@ {
        Some("**DialVoice**\n\nDials out over a voice modem, or waits for an incoming call if no dial string is given. Returns -1 (success), 0 (failure), or -3 (no voice modem present)."@)
    } else if key == "voicehangup"@ {
        Some("**VoiceHangup**\n\nHangs up the voice modem after a DialVoice connection; not needed inside a VoiceBeg/EndVoice block, which hangs up automatically via EndVoice."@)
    } else if key == "voicekey"@ {
        Some("**VoiceKey**\n\nWaits for and returns a single DTMF key (0-9, *, #) pressed by the caller, or a timeout/carrier-loss/no-modem/disconnect code."@)
    } else if key == "voicenumber"@ {
        Some("**VoiceNumber**\n\nWaits for and returns a multi-digit DTMF number entered by the caller (terminated by # or timeout), or a timeout/carrier-loss/no-modem/disconnect code."@)
    } else if key == "voicephrases"@ {
        Some("**VoicePhrases**\n\nSpeaks a comma-separated list of vocabulary words/phrases over the voice modem."@)
    } else if key == "voicesetup"@ {
        Some("**VoiceSetup**\n\nConfigures the DTMF keys and timing behavior used by the voice-modem instructions."@)
    } else if key == "voicespeak"@ {
        Some("**VoiceSpeak**\n\nSpeaks a string built by concatenating literal text and variable values over the voice modem."@)
    } else if key == "smsrecv"@ {
        Some("**SMSRecv**\n\nPolls a CELL2XX cellular modem for a pending SMS message."@)
    } else if key == "smssend"@ {
        Some("**SMSSend**\n\nSends an SMS message via a CELL2XX cellular modem."@)
    } else if key == "pppopen"@ {
        Some("**PPPOpen**\n\nEnables a PPP network connection through an external modem and returns its IP address."@)
    } else if key == "pppclose"@ {
        Some("**PPPClose**\n\nCloses an open PPP connection with a server."@)
    } else if key == "ftpclient"@ {
        Some("**FTPClient**\n\nManages files on a server using FTP, FTPS, or SFTP."@)
    } else if key == "httpget"@ {
        Some("**HTTPGet**\n\nSends a GET request to an HTTP server."@)
    } else if key == "httppost"@ {
        Some("**HTTPPost**\n\nSends files or text to a URL via an HTTP POST request."@)
    } else if key == "httpput"@ {
        Some("**HTTPPut**\n\nSends files or text to a URL via an HTTP PUT request."@)
    } else if key == "gps"@ {
        Some("**GPS**\n\nSynchronizes the datalogger clock with a GPS receiver and stores its position/timing data."@)
    } else if key == "ethernetpower"@ {
        Some("**EthernetPower**\n\nTurns power to all Ethernet devices on or off."@)
    } else if key == "i2copen"@ {
        Some("**I2COpen**\n\nConfigures a port pair for I2C communication at a specified clock rate."@)
    } else if key == "i2cread"@ {
        Some("**I2CRead**\n\nReads bytes from an I2C peripheral device."@)
    } else if key == "i2cwrite"@ {
        Some("**I2CWrite**\n\nWrites bytes to an I2C peripheral device."@)
    } else if key == "spiopen"@ {
        Some("**SPIOpen**\n\nConfigures the datalogger as an SPI controller for communication with peripheral devices."@)
    } else if key == "spiread"@ {
        Some("**SPIRead**\n\nSynchronously reads a specified number of bytes from an SPI peripheral device."@)
    } else if key == "spiwrite"@ {
        Some("**SPIWrite**\n\nSynchronously transmits a specified number of bytes to an SPI peripheral device."@)
    } else if key == "acceptdatarecords"@ {
        Some("**AcceptDataRecords**\n\nConfigures the datalogger to receive and store data records pushed from a remote PakBus datalogger."@)
    } else if key == "broadcast"@ {
        Some("**Broadcast**\n\nSends a broadcast message to all devices on a PakBus network."@)
    } else if key == "clockreport"@ {
        Some("**ClockReport**\n\nSends this datalogger's clock value to a specified PakBus device."@)
    } else if key == "datagram"@ {
        Some("**DataGram**\n\nInitializes a SerialServer/DataGram application that tunnels serial traffic through a PakBus network."@)
    } else if key == "encryptexempt"@ {
        Some("**EncryptExempt**\n\nDeclares a PakBus address range exempt from PakBus encryption."@)
    } else if key == "getdatarecord"@ {
        Some("**GetDataRecord**\n\nRetrieves the most recent record(s) from a table on a remote PakBus datalogger into a local table."@)
    } else if key == "getfile"@ {
        Some("**GetFile**\n\nRetrieves a file from a remote PakBus datalogger and stores it locally."@)
    } else if key == "getvariables"@ {
        Some("**GetVariables**\n\nRetrieves one or more variable values from a data table on a remote PakBus device."@)
    } else if key == "pakbusclock"@ {
        Some("**PakBusClock**\n\nConfigures the datalogger to accept and synchronize its clock from time broadcasts sent by a specified PakBus device."@)
    } else if key == "route"@ {
        Some("**Route**\n\nReturns the neighbor address of, or the route to, a PakBus datalogger."@)
    } else if key == "routes"@ {
        Some("**Routes**\n\nRetrieves the datalogger's list of known dynamic PakBus routes into an array."@)
    } else if key == "routersneighbors"@ {
        Some("**RoutersNeighbors**\n\nReturns a list of all PakBus routers and their neighbors known to the datalogger."@)
    } else if key == "senddata"@ {
        Some("**SendData**\n\nSends the most recent record from a data table to a destination PakBus device."@)
    } else if key == "sendfile"@ {
        Some("**SendFile**\n\nSends a file from the datalogger to another PakBus datalogger."@)
    } else if key == "sendgetvariables"@ {
        Some("**SendGetVariables**\n\nSends and/or retrieves an array of values to/from the host datalogger during its assigned time slot."@)
    } else if key == "sendtabledef"@ {
        Some("**SendTableDef**\n\nSends a data table's definition to a destination device on the PakBus network."@)
    } else if key == "sendvariables"@ {
        Some("**SendVariables**\n\nSends one or more variable values to a table in a destination PakBus device."@)
    } else if key == "staticroute"@ {
        Some("**StaticRoute**\n\nDefines a fixed route to a PakBus datalogger, for use when dynamic routing is unavailable."@)
    } else if key == "timeuntiltransmit"@ {
        Some("**TimeUntilTransmit**\n\nReturns the seconds remaining until the datalogger's assigned communication time slot with its host."@)
    } else if key == "dnp"@ {
        Some("**DNP**\n\nConfigures a communications port to set up the datalogger as a DNP3 outstation device."@)
    } else if key == "dnpupdate"@ {
        Some("**DNPUpdate**\n\nSets up the datalogger as a DNP3 outstation and determines when it updates its arrays of DNP elements."@)
    } else if key == "dnpvariable"@ {
        Some("**DNPVariable**\n\nMaps a variable or array to a DNP3 object, variation, and class within the datalogger's outstation configuration."@)
    } else if key == "argosdata"@ {
        Some("**ArgosData**\n\nSpecifies the data to be transmitted to the Argos satellite."@)
    } else if key == "argosdatarepeat"@ {
        Some("**ArgosDataRepeat**\n\nSets the repeat rate for the ArgosData instruction."@)
    } else if key == "argoserror"@ {
        Some("**ArgosError**\n\nRequests and clears the current error message from the Argos transmitter."@)
    } else if key == "argossetup"@ {
        Some("**ArgosSetup**\n\nSets up the datalogger for transmitting data via an Argos satellite."@)
    } else if key == "argostransmit"@ {
        Some("**ArgosTransmit**\n\nInitiates a single transmission to an Argos satellite when the instruction is executed."@)
    } else if key == "goesdata"@ {
        Some("**GOESData**\n\nTransmits data from a data table to a GOES satellite transmitter."@)
    } else if key == "goesfield"@ {
        Some("**GOESField**\n\nDeclares an output field to include in a GOES transmission; precedes the data-table field instruction it applies to."@)
    } else if key == "goesgps"@ {
        Some("**GOESGPS**\n\nRetrieves GPS data from a compatible GOES satellite transmitter and stores it in two variable arrays."@)
    } else if key == "goessetup"@ {
        Some("**GOESSetup**\n\nConfigures a GOES satellite transmitter for communication with the satellite."@)
    } else if key == "goesstatus"@ {
        Some("**GOESStatus**\n\nRequests status and diagnostic information from a GOES satellite transmitter."@)
    } else if key == "goestable"@ {
        Some("**GOESTable**\n\nFormats and outputs a data table's records to a TX325/TX326 GOES satellite transmitter."@)
    } else if key == "sdmao4"@ {
        Some("**SDMAO4**\n\nSets the output voltage on an SDM-AO4 four-channel analog output device."@)
    } else if key == "sdmao4a"@ {
        Some("**SDMAO4A**\n\nSets the output voltage on an SDM-AO4A four-channel analog output device."@)
    } else if key == "sdmbeginport"@ {
        Some("**SDMBeginPort**\n\nDesignates an alternate set of datalogger terminals to use as an SDM port."@)
    } else if key == "sdmcan"@ {
        Some("**SDMCAN**\n\nConfigures and operates the SDM-CAN interface between a CAN-bus network and the datalogger."@)
    } else if key == "sdmcd16ac"@ {
        Some("**SDMCD16AC**\n\nEnables or disables the relay ports of an SDM-CD16AC relay control device."@)
    } else if key == "sdmcd16mask"@ {
        Some("**SDMCD16Mask**\n\nEnables or disables specific relay ports of an SDM-CD16AC device via a bit-mask filter."@)
    } else if key == "timedcontrol"@ {
        Some("**TimedControl**\n\nRuns a timed sequence of binary output values through an SDMCD16 peripheral, synchronized to a specified interval."@)
    } else if key == "sdmcvo4"@ {
        Some("**SDMCVO4**\n\nControls the SDM-CVO4 four-channel current/voltage output device."@)
    } else if key == "sdmgeneric"@ {
        Some("**SDMGeneric**\n\nSends raw commands to an SDM device with no dedicated CRBasic instruction support."@)
    } else if key == "sdmint8"@ {
        Some("**SDMINT8**\n\nPrograms and controls the SDM-INT8 eight-channel interval timer."@)
    } else if key == "sdmio16"@ {
        Some("**SDMIO16**\n\nSets up and operates an SDM-IO16 16-port digital I/O expansion device."@)
    } else if key == "sdmsio4"@ {
        Some("**SDMSIO4**\n\nControls and transfers data with a legacy SDM-SIO4 four-port serial I/O device."@)
    } else if key == "sdmspeed"@ {
        Some("**SDMSpeed**\n\nChanges the bit period the datalogger uses to clock SDM bus communication."@)
    } else if key == "sdmsw8a"@ {
        Some("**SDMSW8A**\n\nReads channels from an SDM-SW8A eight-channel switch closure module."@)
    } else if key == "sdmtrigger"@ {
        Some("**SDMTrigger**\n\nBroadcasts a simultaneous \"measure now\" group trigger to all SDM devices that support it."@)
    } else if key == "sdmx50"@ {
        Some("**SDMX50**\n\nSwitches an SDMX50 coaxial multiplexer to a specified channel."@)
    } else if key == "cpiaddmodule"@ {
        Some("**CPIAddModule**\n\nStatically assigns a CPI-bus address to a GRANITE/CDM/VWIRE module."@)
    } else if key == "cpifilesend"@ {
        Some("**CPIFileSend**\n\nSends an OS file to a GRANITE/CDM module over the CPI bus via memory card, USR drive, or USB."@)
    } else if key == "cpispeed"@ {
        Some("**CPISpeed**\n\nAdjusts the CPI bus bit rate, needed when the bus load or cable length requires a slower speed."@)
    } else if key == "mqttpublishtable"@ {
        Some("**MQTTPublishTable**\n\nPublishes a data table's contents to an MQTT broker; placed inside a DataTable/EndTable declaration."@)
    } else if key == "mqttpublishconsttable"@ {
        Some("**MQTTPublishConstTable**\n\nEnables remote editing of ConstTable values via MQTT; placed inside a ConstTable/EndConstTable declaration."@)
    } else if key == "mqttconnect"@ {
        Some("**MQTTConnect**\n\nOverrides the default MQTT-publish retry schedule, forcing a connect or disconnect attempt over an available IP connection."@)
    } else if key == "cwbdiagnostics"@ {
        Some("**CWBDiagnostics**\n\nReturns diagnostic information about a CWB100 wireless sensor base's network performance."@)
    } else if key == "checkport"@ {
        Some("**CheckPort**\n\nRetrieves the current status (high/low) of a specified digital port or terminal."@)
    } else if key == "comportisactive"@ {
        Some("**ComPortIsActive**\n\nReturns a Boolean indicating whether activity is currently detected on a communications port."@)
    } else if key == "dhcprenew"@ {
        Some("**DHCPRenew**\n\nRestarts DHCP on the Ethernet interface to request a new IP address lease."@)
    } else if key == "encryption"@ {
        Some("**Encryption**\n\nPerforms AES-128 encryption or decryption on the contents of a variable."@)
    } else if key == "httpout"@ {
        Some("**HTTPOut**\n\nEmits a line of HTML for a datalogger-generated web page; used inside WebPageBegin/WebPageEnd."@)
    } else if key == "ipinfo"@ {
        Some("**IPInfo**\n\nRetrieves the IP address of a datalogger interface, or the remote IP of a socket handle."@)
    } else if key == "ipnetpower"@ {
        Some("**IPNetPower**\n\nPowers on or off a specific IP-capable network interface."@)
    } else if key == "iproute"@ {
        Some("**IPRoute**\n\nDirects outgoing IP traffic through a specified network interface when multiple interfaces are active."@)
    } else if key == "iptrace"@ {
        Some("**IPTrace**\n\nWrites IP debug/troubleshooting messages to a string variable; can be used as a DataTable output trigger."@)
    } else if key == "monitorcomms"@ {
        Some("**MonitorComms**\n\nCaptures communication traffic from a specified port into a string variable, for debugging."@)
    } else if key == "pingip"@ {
        Some("**PingIP**\n\nPings an IP address and returns the response time in milliseconds."@)
    } else if key == "portbridge"@ {
        Some("**PortBridge**\n\nEstablishes a bidirectional data channel between two communications ports."@)
    } else if key == "portget"@ {
        Some("**PortGet**\n\nReads the status of a control or universal port into a destination variable."@)
    } else if key == "portpairconfig"@ {
        Some("**PortPairConfig**\n\nConfigures the voltage level and pull-resistor mode for a terminal pair."@)
    } else if key == "portsconfig"@ {
        Some("**PortsConfig**\n\nConfigures digital ports as input or output using a bitmask."@)
    } else if key == "snmpvariable"@ {
        Some("**SNMPVariable**\n\nDefines a custom MIB entry exposing a datalogger variable through SNMP."@)
    } else if key == "tcpactiveconnections"@ {
        Some("**TCPActiveConnections**\n\nMonitors active TCP connections and polling activity on a listening port."@)
    } else if key == "udpdatagram"@ {
        Some("**UDPDataGram**\n\nSends and receives UDP packets."@)
    } else if key == "webpagebegin"@ {
        Some("**WebPageBegin**\n\nDeclares a datalogger-served HTML page, closed by WebPageEnd."@)
    } else if key == "xmlparse"@ {
        Some("**XMLParse**\n\nParses an XML file or string on the datalogger."@)
    } else if key == "emailrecv"@ {
        Some("**EMailRecv**\n\nPolls a POP3 mail server for a message matching the given criteria and stores its body in a string variable."@)
    } else if key == "modbusserver"@ {
        Some("**ModbusServer**\n\nConfigures the datalogger as a Modbus server, exposing variables/coils to a Modbus client (formerly ModbusSlave)."@)
    } else if key == "modemcallback"@ {
        Some("**ModemCallBack**\n\nDials out via a phone modem so the datalogger initiates a callback connection to a computer."@)
    } else if key == "networktimeprotocol"@ {
        Some("**NetworkTimeProtocol**\n\nSynchronizes the datalogger clock with an NTP server, returning the pre-adjustment clock error in milliseconds."@)
    } else if key == "serialinblock"@ {
        Some("**SerialInBlock**\n\nReads a block of raw serial bytes into Dest without waiting for a delimiter, returning the byte count received."@)
    } else {
        None
    }
}

/// Descriptions of the scan functions, by lowercase name.
pub open spec fn scan_function_descriptions(key: Seq<char>) -> Option<Seq<char>> {
    if key == "scan"@ {
        Some("**Scan**\n\nInitiates a measurement scan at specified intervals."@)
    } else if key == "subscan"@ {
        Some("**SubScan**\n\nBegins a nested sub-scan for faster measurement or multiplexer control."@)
    } else if key == "triggersequence"@ {
        Some("**TriggerSequence**\n\nTriggers execution of a SlowSequence at its WaitTriggerSequence point, after an optional delay."@)
    } else if key == "waitdigtrig"@ {
        Some("**WaitDigTrig**\n\nTriggers a measurement scan using an external digital signal instead of the datalogger's internal clock."@)
    } else {
        None
    }
}

/// Descriptions of the measurement functions, by lowercase name.
pub open spec fn measurement_function_descriptions(key: Seq<char>) -> Option<Seq<char>> {
    if key == "windvector"@ {
        Some("**WindVector**\n\nProcesses raw wind speed/direction samples into mean wind speed, mean wind vector magnitude and direction, and standard deviation of wind direction."@)
    } else if key == "battery"@ {
        Some("**Battery**\n\nMeasures the voltage of the battery powering the datalogger."@)
    } else if key == "paneltemp"@ {
        Some("**PanelTemp**\n\nMeasures the temperature of the datalogger wiring panel in degrees Celsius."@)
    } else if key == "voltse"@ {
        Some("**VoltSe**\n\nMeasures single-ended voltage."@)
    } else if key == "voltdiff"@ {
        Some("**VoltDiff**\n\nMeasures differential voltage."@)
    } else if key == "brhalf"@ {
        Some("**BrHalf**\n\nApplies an excitation voltage to a half bridge and measures the single-ended voltage output."@)
    } else if key == "brfull"@ {
        Some("**BrFull**\n\nApplies an excitation voltage to a full bridge and measures the differential voltage output."@)
    } else if key == "therm107"@ {
        Some("**Therm107**\n\nMeasures temperature using a 107 thermistor."@)
    } else if key == "therm108"@ {
        Some("**Therm108**\n\nMeasures temperature using a 108 thermistor."@)
    } else if key == "therm109"@ {
        Some("**Therm109**\n\nMeasures temperature using a 109 thermistor."@)
    } else if key == "thermistor"@ {
        Some("**Thermistor**\n\nPerforms a bridge measurement of a thermistor, returning resistance in Ohms, or temperature in Celsius if Steinhart-Hart coefficients are given."@)
    } else if key == "tcpsyc"@ {
        Some("**TCPsyc**\n\nMeasures one or more Peltier-style thermocouple psychrometers, directly or via an AM16/32B multiplexer."@)
    } else if key == "periodavg"@ {
        Some("**PeriodAvg**\n\nMeasures the period or frequency of a signal on a single-ended channel."@)
    } else if key == "pulsecount"@ {
        Some("**PulseCount**\n\nMeasures pulse count from a sensor."@)
    } else if key == "timerinput"@ {
        Some("**TimerInput**\n\nMeasures time intervals between edges, or frequency, on digital ports; can span across scan intervals."@)
    } else if key == "portset"@ {
        Some("**PortSet**\n\nSets a control port to a high or low state."@)
    } else if key == "pulseport"@ {
        Some("**PulsePort**\n\nToggles a port, delays, toggles it back, and delays again to generate a clocking pulse."@)
    } else if key == "readio"@ {
        Some("**ReadIO**\n\nReads the status of one or more digital ports or terminals, storing the result in Dest."@)
    } else if key == "writeio"@ {
        Some("**WriteIO**\n\nSets the status of one or more digital control ports or universal terminals from Source."@)
    } else if key == "excitev"@ {
        Some("**ExciteV**\n\nSets an excitation channel output to a specified voltage for a specified duration."@)
    } else if key == "excitei"@ {
        Some("**ExciteI**\n\nApplies a current excitation to an excitation channel."@)
    } else if key == "swvx"@ {
        Some("**SWVX**\n\nSets a switched, regulated VX excitation channel high or low to power external peripherals or toggle control lines."@)
    } else if key == "brhalf3w"@ {
        Some("**BrHalf3W**\n\nApplies an excitation voltage and measures a 3-wire half bridge to calculate the resistance ratio."@)
    } else if key == "brhalf4w"@ {
        Some("**BrHalf4W**\n\nApplies an excitation voltage and makes two differential voltage measurements to measure a 4-wire half bridge."@)
    } else if key == "brfull6w"@ {
        Some("**BrFull6W**\n\nApplies an excitation voltage and makes two differential voltage measurements to measure a 6-wire full bridge."@)
    } else if key == "tcse"@ {
        Some("**TCSE**\n\nMeasures a thermocouple on a single-ended channel and converts the reading to degrees Celsius."@)
    } else if key == "tcdiff"@ {
        Some("**TCDiff**\n\nMeasures a thermocouple on a differential channel and converts the result to degrees Celsius."@)
    } else if key == "resistance"@ {
        Some("**Resistance**\n\nMeasures the resistance of a basic or full-bridge circuit using current excitation."@)
    } else if key == "resistance3w"@ {
        Some("**Resistance3W**\n\nPerforms a 3-wire resistance measurement, using differential and reverse excitation to cancel voltage offset errors."@)
    } else if key == "watchdogtimer"@ {
        Some("**WatchdogTimer**\n\nEnables a user-programmed watchdog timer that guards the program against lockup."@)
    } else if key == "pwm"@ {
        Some("**PWM**\n\nGenerates a pulse-width-modulated signal on a digital port at a specified duty cycle."@)
    } else if key == "dewpoint"@ {
        Some("**DewPoint**\n\nCalculates dew point temperature from air temperature and relative humidity."@)
    } else if key == "csat3"@ {
        Some("**CSAT3**\n\nControls and retrieves wind and sonic temperature data from a CSAT3 3D sonic anemometer via SDM."@)
    } else if key == "csat3b"@ {
        Some("**CSAT3B**\n\nControls and retrieves wind and sonic temperature data from a CSAT3B 3D sonic anemometer via SDM or CPI."@)
    } else if key == "csat3bmonitor"@ {
        Some("**CSAT3BMonitor**\n\nRetrieves enclosure temperature, relative humidity, and inclination diagnostics from a CSAT3B."@)
    } else if key == "ec100"@ {
        Some("**EC100**\n\nRetrieves measurement data from an EC100-based gas analyzer (EC150, EC155, IRGASON) via SDM."@)
    } else if key == "ec100configure"@ {
        Some("**EC100Configure**\n\nReads or writes configuration settings on an EC100-based gas analyzer via SDM."@)
    } else if key == "li7200"@ {
        Some("**LI7200**\n\nMeasures CO2 and H2O concentration from an LI-7200 closed-path gas analyzer via SDM."@)
    } else if key == "li7700"@ {
        Some("**LI7700**\n\nMeasures methane concentration from an LI-7700 open-path gas analyzer via SDM."@)
    } else if key == "cdm_acpower"@ {
        Some("**CDM_ACPower**\n\nMeasures real AC power and power-quality parameters via a CDM module in single-phase, split-phase, or three-phase configurations."@)
    } else if key == "cdm_battery"@ {
        Some("**CDM_Battery**\n\nReads and returns a CDM module's own power-supply voltage."@)
    } else if key == "cdm_brfull"@ {
        Some("**CDM_BrFull**\n\nMakes a 4-wire full-bridge measurement via a CDM module."@)
    } else if key == "cdm_brfull6w"@ {
        Some("**CDM_BrFull6W**\n\nMakes a 6-wire full-bridge measurement via a CDM module."@)
    } else if key == "cdm_brhalf"@ {
        Some("**CDM_BrHalf**\n\nMakes a single-ended half-bridge measurement via a CDM module."@)
    } else if key == "cdm_brhalf3w"@ {
        Some("**CDM_BrHalf3W**\n\nMakes a 3-wire half-bridge measurement via a CDM module."@)
    } else if key == "cdm_brhalf4w"@ {
        Some("**CDM_BrHalf4W**\n\nMakes a 4-wire half-bridge measurement via a CDM module, commonly used with PRTCalc for RTDs."@)
    } else if key == "cdm_currentdiff"@ {
        Some("**CDM_CurrentDiff**\n\nMakes a differential current-loop measurement via a CDM module."@)
    } else if key == "cdm_delay"@ {
        Some("**CDM_Delay**\n\nDelays a CDM module's measurement or processing task sequence for a specified time."@)
    } else if key == "cdm_excitei"@ {
        Some("**CDM_ExciteI**\n\nApplies a current excitation to an excitation channel on a CDM module."@)
    } else if key == "cdm_excitev"@ {
        Some("**CDM_ExciteV**\n\nApplies a voltage excitation to an excitation channel on a CDM module."@)
    } else if key == "cdm_muxselect"@ {
        Some("**CDM_MuxSelect**\n\nWakes and clocks an AM16/32A or AM16/32B multiplexer to a starting channel via a CDM module."@)
    } else if key == "cdm_paneltemp"@ {
        Some("**CDM_PanelTemp**\n\nReads a CDM wiring-panel thermistor, for use as a thermocouple reference temperature."@)
    } else if key == "cdm_periodavg"@ {
        Some("**CDM_PeriodAvg**\n\nMeasures the period or frequency of a signal on a CDM single-ended channel."@)
    } else if key == "cdm_pulseport"@ {
        Some("**CDM_PulsePort**\n\nToggles a CDM switched-5V digital port, delays, and toggles it again to generate a clock signal."@)
    } else if key == "cdm_resistance"@ {
        Some("**CDM_Resistance**\n\nMeasures resistance via current excitation on a CDM module."@)
    } else if key == "cdm_resistance3w"@ {
        Some("**CDM_Resistance3W**\n\nMeasures resistance via current excitation using a 3-wire connection on a CDM module."@)
    } else if key == "cdm_sw12"@ {
        Some("**CDM_SW12**\n\nSets a CDM switched-12V output port high or low to power external peripherals."@)
    } else if key == "cdm_sw5"@ {
        Some("**CDM_SW5**\n\nSets a CDM switched-5V output port high or low to power external peripherals."@)
    } else if key == "cdm_swpower"@ {
        Some("**CDM_SWPower**\n\nSets the ganged switched-12V and switched-5V power output on a VOLT408 isolation module."@)
    } else if key == "cdm_tccomp"@ {
        Some("**CDM_TCComp**\n\nMakes a differential thermocouple measurement with automatic cold-junction compensation via a CDM module."@)
    } else if key == "cdm_tcdiff"@ {
        Some("**CDM_TCDiff**\n\nMakes a differential thermocouple measurement via a CDM module."@)
    } else if key == "cdm_tcse"@ {
        Some("**CDM_TCSE**\n\nMakes a single-ended thermocouple measurement via a CDM module."@)
    } else if key == "cdm_therm107"@ {
        Some("**CDM_Therm107**\n\nMeasures a 107 thermistor probe via a CDM module."@)
    } else if key == "cdm_therm108"@ {
        Some("**CDM_Therm108**\n\nMeasures a 108 thermistor probe via a CDM module."@)
    } else if key == "cdm_therm109"@ {
        Some("**CDM_Therm109**\n\nMeasures a 109 thermistor probe via a CDM module."@)
    } else if key == "cdm_voltdiff"@ {
        Some("**CDM_VoltDiff**\n\nMakes a differential voltage measurement via a CDM module."@)
    } else if key == "cdm_voltse"@ {
        Some("**CDM_VoltSE**\n\nMakes a single-ended voltage measurement via a CDM module."@)
    } else if key == "cdm_vw300config"@ {
        Some("**CDM_VW300Config**\n\nSends configuration settings to a CDM-VW300 vibrating-wire spectrum analyzer; must precede BeginProg."@)
    } else if key == "cdm_vw300dynamic"@ {
        Some("**CDM_VW300Dynamic**\n\nCaptures the dynamic resonant frequency output of a CDM-VW300 vibrating-wire spectrum analyzer."@)
    } else if key == "cdm_vw300rainflow"@ {
        Some("**CDM_VW300RainFlow**\n\nCaptures rainflow-histogram data from a CDM-VW300 vibrating-wire spectrum analyzer."@)
    } else if key == "cdm_vw300static"@ {
        Some("**CDM_VW300Static**\n\nCaptures the static resonant frequency, thermistor temperature, and frequency standard deviation from a CDM-VW300 vibrating-wire spectrum analyzer."@)
    } else if key == "calibrate"@ {
        Some("**Calibrate**\n\nForces calibration of all analog channels under program control to compensate for temperature-related measurement errors."@)
    } else if key == "fieldcal"@ {
        Some("**FieldCal**\n\nSets up the datalogger to perform calibration of one or more variables in an array."@)
    } else if key == "fieldcalstrain"@ {
        Some("**FieldCalStrain**\n\nSets up the datalogger to perform a zero or shunt calibration for a strain measurement."@)
    } else if key == "loadfieldcal"@ {
        Some("**LoadFieldCal**\n\nLoads values from the FieldCal file into datalogger variables, returning True if successful."@)
    } else if key == "samplefieldcal"@ {
        Some("**SampleFieldCal**\n\nStores the values in the FieldCal file to a data table; used inside a DataTable/EndTable declaration."@)
    } else if key == "calfile"@ {
        Some("**CalFile**\n\nWrites an array to a calibration file, or reads a calibration file back into an array if its signature matches."@)
    } else if key == "newfieldcal"@ {
        Some("**NewFieldCal**\n\nA Boolean DataTable trigger that is true for one scan cycle after a new field calibration has been performed."@)
    } else if key == "acpower"@ {
        Some("**ACPower**\n\nMeasures real AC power and power-quality parameters for single-phase, split-phase, or three-phase Y systems."@)
    } else if key == "am25t"@ {
        Some("**AM25T**\n\nControls and measures the AM25T thermocouple multiplexer."@)
    } else if key == "avw200"@ {
        Some("**AVW200**\n\nReads vibrating-wire sensors via an AVW200 spectrum analyzer."@)
    } else if key == "vibratingwire"@ {
        Some("**VibratingWire**\n\nMeasures one or more vibrating-wire sensors by sweeping an excitation frequency and detecting the sensor's resonant frequency."@)
    } else if key == "cs616"@ {
        Some("**CS616**\n\nEnables and measures a CS616/CS625 water content reflectometer."@)
    } else if key == "cs7500"@ {
        Some("**CS7500**\n\nCommunicates with a LI-7500(A) gas analyzer via SDM."@)
    } else if key == "currentse"@ {
        Some("**CurrentSE**\n\nMeasures single-ended current via the datalogger's internal shunt resistor."@)
    } else if key == "hydraprobe"@ {
        Some("**HydraProbe**\n\nConverts raw voltages from a Stevens Hydra Probe sensor into soil measurements."@)
    } else if key == "tdr100"@ {
        Some("**TDR100**\n\nMeasures time-domain-reflectometry probes via a TDR100 device."@)
    } else if key == "tdr200"@ {
        Some("**TDR200**\n\nMeasures time-domain-reflectometry probes via a TDR200 device."@)
    } else if key == "tga"@ {
        Some("**TGA**\n\nMeasures a TGA100A/TGA200/TGA200A trace gas analyzer via SDM."@)
    } else if key == "quadrature"@ {
        Some("**Quadrature**\n\nMeasures a shaft quadrature encoder to determine displacement and rotational direction."@)
    } else if key == "sw12"@ {
        Some("**SW12**\n\nEnables or disables a switched-12V output channel to power external peripherals."@)
    } else if key == "etsz"@ {
        Some("**ETsz**\n\nCalculates the ASCE standardized reference evapotranspiration."@)
    } else if key == "solarposition"@ {
        Some("**SolarPosition**\n\nCalculates solar azimuth, elevation, hour angle, declination, and air mass."@)
    } else if key == "wetdrybulb"@ {
        Some("**WetDryBulb**\n\nComputes vapor pressure from wet-bulb and dry-bulb temperatures and barometric pressure."@)
    } else if key == "muxselect"@ {
        Some("**MuxSelect**\n\nSelects a channel on an AM16/32A or AM16/32B multiplexer and readies it for measurement."@)
    } else if key == "pulsecountreset"@ {
        Some("**PulseCountReset**\n\nResets the pulse counter and running-average values associated with pulse count measurements."@)
    } else if key == "prt"@ {
        Some("**PRT**\n\nConverts RTD resistance measurements to temperature using the DIN 43760 standard."@)
    } else if key == "prtcalc"@ {
        Some("**PRTCalc**\n\nConverts RTD resistance measurements to temperature using the Callendar-Van Dusen equation."@)
    } else if key == "moveprecise"@ {
        Some("**MovePrecise**\n\nTransfers a value into a variable as a high-precision (56-bit mantissa) number."@)
    } else if key == "addprecise"@ {
        Some("**AddPrecise**\n\nPerforms high-precision addition, reducing floating-point rounding error in running totals."@)
    } else if key == "pwr"@ {
        Some("**PWR**\n\nRaises X to the power of Y and returns a floating-point result."@)
    } else if key == "ctype"@ {
        Some("**CType**\n\nConverts an expression to a specified data type (Float, IEEE4, Long, String, or Double)."@)
    } else if key == "avgrun"@ {
        Some("**AvgRun**\n\nComputes a running average over the last Number values of a measurement."@)
    } else if key == "maxrun"@ {
        Some("**MaxRun**\n\nComputes a running maximum over the last Number values of a measurement."@)
    } else if key == "minrun"@ {
        Some("**MinRun**\n\nComputes a running minimum over the last Number values of a measurement."@)
    } else if key == "totalrun"@ {
        Some("**TotalRun**\n\nComputes a running total over the last Number values of a measurement."@)
    } else if key == "avgspa"@ {
        Some("**AvgSpa**\n\nComputes the spatial average of a measurement across array elements."@)
    } else if key == "covspa"@ {
        Some("**CovSpa**\n\nComputes spatial covariance between a reference data set and one or more comparison data sets."@)
    } else if key == "maxspa"@ {
        Some("**MaxSpa**\n\nLocates the maximum value and its position within an array."@)
    } else if key == "rmsspa"@ {
        Some("**RMSSpa**\n\nComputes the spatial root-mean-square value across array elements."@)
    } else if key == "stddevspa"@ {
        Some("**StdDevSpa**\n\nComputes the spatial standard deviation across array elements."@)
    } else if key == "fftspa"@ {
        Some("**FFTSpa**\n\nPerforms a Fast Fourier Transform on time-series data, for use mid-program rather than as a table entry."@)
    } else if key == "serialinchk"@ {
        Some("**SerialInChk**\n\nReturns the number of characters currently available in the serial input buffer."@)
    } else if key == "setsecurity"@ {
        Some("**SetSecurity**\n\nEstablishes up to three hierarchical security levels restricting access to datalogger functions."@)
    } else {
        None
    }
}

/// Descriptions of the language keywords, by lowercase name.
pub open spec fn keyword_descriptions(key: Seq<char>) -> Option<Seq<char>> {
    if key == "if"@ {
        Some("**If**\n\nConditional statement. Executes code block if condition is true.\n\n```crbasic\nIf condition Then\n  ' statements\nEndIf\n```"@)
    } else if key == "then"@ {
        Some("**Then**\n\nPart of If statement. Follows the condition."@)
    } else if key == "else"@ {
        Some("**Else**\n\nAlternative branch in If statement. Executes when condition is false."@)
    } else if key == "elseif"@ {
        Some("**ElseIf**\n\nAdditional conditional branch in If statement."@)
    } else if key == "endif"@ {
        Some("**EndIf**\n\nTerminates an If block."@)
    } else if key == "#if"@ {
        Some("**#If**\n\nCompile-time conditional. Includes the following code only when the condition holds -- compared against `LoggerType` or a `Const`.\n\n```crbasic\n#If LoggerType = GRANITE6\n  ' statements\n#EndIf\n```"@)
    } else if key == "#elseif"@ {
        Some("**#ElseIf**\n\nAdditional compile-time conditional branch, following `#If`."@)
    } else if key == "#else"@ {
        Some("**#Else**\n\nAlternative compile-time branch, following `#If`/`#IfDef`."@)
    } else if key == "#endif"@ {
        Some("**#EndIf**\n\nTerminates a `#If`/`#IfDef` block."@)
    } else if key == "#ifdef"@ {
        Some("**#IfDef**\n\nCompile-time check for whether a `Const` has already been declared.\n\n```crbasic\nConst FINAL = 1\n#IfDef FINAL Then\n  Public Testing\n#EndIf\n```"@)
    } else if key == "#undef"@ {
        Some("**#UnDef**\n\nUn-declares a `Const` so it can be redeclared -- typically used with `Include` to stitch together library files that each define their own same-named constants."@)
    } else if key == "for"@ {
        Some("**For**\n\nLoop statement with counter.\n\n```crbasic\nFor i = 1 To 10 Step 1\n  ' statements\nNext i\n```"@)
    } else if key == "to"@ {
        Some("**To**\n\nSpecifies the end value in a For loop."@)
    } else if key == "step"@ {
        Some("**Step**\n\nSpecifies the increment value in a For loop. Default is 1."@)
    } else if key == "next"@ {
        Some("**Next**\n\nTerminates a For loop and increments the counter."@)
    } else if key == "do"@ {
        Some("**Do**\n\nLoop statement.\n\n```crbasic\nDo While condition\n  ' statements\nLoop\n```"@)
    } else if key == "loop"@ {
        Some("**Loop**\n\nTerminates a Do block."@)
    } else if key == "while"@ {
        Some("**While**\n\nLoop condition. Used with `Do`/`Loop`, or as the start of a standalone `While`/`Wend` loop.\n\n```crbasic\nWhile condition\n  ' statements\nWend\n```"@)
    } else if key == "wend"@ {
        Some("**Wend**\n\nTerminates a While loop."@)
    } else if key == "until"@ {
        Some("**Until**\n\nLoop condition, the inverse of `While`. Used with `Do`/`Loop` at either the start or end of the block.\n\n```crbasic\nDo Until condition\n  ' statements\nLoop\n```"@)
    } else if key == "exitfor"@ {
        Some("**ExitFor**\n\nImmediately exits a For loop."@)
    } else if key == "exitdo"@ {
        Some("**ExitDo**\n\nImmediately exits a Do loop."@)
    } else if key == "debugbreak"@ {
        Some("**DebugBreak**\n\nSuspends program execution at this line when running under the CRBasic debugger."@)
    } else if key == "restart"@ {
        Some("**Restart**\n\nStops and restarts the running program."@)
    } else if key == "select"@ {
        Some("**Select**\n\nMulti-way branch statement.\n\n```crbasic\nSelect Case expression\n  Case value1\n    ' statements\n  Case Else\n    ' default\nEndSelect\n```"@)
    } else if key == "case"@ {
        Some("**Case**\n\nSpecifies a branch in a Select statement."@)
    } else if key == "is"@ {
        Some("**Is**\n\nUsed with a comparison operator in a Case clause (e.g. `Case Is > 10`)."@)
    } else if key == "endselect"@ {
        Some("**EndSelect**\n\nTerminates a Select block."@)
    } else if key == "endmenu"@ {
        Some("**EndMenu**\n\nTerminates a `DisplayMenu` block.\n\n```crbasic\nDisplayMenu(\"MenuName\", 1, 1)\n  ' menu items\nEndMenu\n```"@)
    } else if key == "endsubmenu"@ {
        Some("**EndSubMenu**\n\nTerminates a `SubMenu` block nested inside a `DisplayMenu`."@)
    } else if key == "nextscan"@ {
        Some("**NextScan**\n\nMarks the end of a Scan loop."@)
    } else if key == "continuescan"@ {
        Some("**ContinueScan**\n\nJumps to `NextScan`, skipping the remaining instructions in the current scan."@)
    } else if key == "nextsubscan"@ {
        Some("**NextSubScan**\n\nMarks the end of a SubScan block."@)
    } else if key == "slowsequence"@ {
        Some("**SlowSequence**\n\nBegins a slow sequence scan block, for measurements at a slower rate than the main scan.\n\n```crbasic\nSlowSequence\n  Scan(...)\n    ' statements\n  NextScan\nEndSequence\n```"@)
    } else if key == "endsequence"@ {
        Some("**EndSequence**\n\nTerminates a SlowSequence block."@)
    } else if key == "waittriggersequence"@ {
        Some("**WaitTriggerSequence**\n\nMarks a resume-point inside a `SlowSequence`, suspending execution there until the trigger condition is met again."@)
    } else if key == "exitscan"@ {
        Some("**ExitScan**\n\nExits the current Scan loop immediately, regardless of the scan Count."@)
    } else if key == "public"@ {
        Some("**Public**\n\nDeclares a public (global) variable that can be monitored and logged.\n\n```crbasic\nPublic Temp_C As Float\n```"@)
    } else if key == "dim"@ {
        Some("**Dim**\n\nDeclares a local (scratch) variable. Not accessible for monitoring.\n\n```crbasic\nDim i As Long\n```"@)
    } else if key == "const"@ {
        Some("**Const**\n\nDeclares a constant value that cannot be changed.\n\n```crbasic\nConst PI = 3.14159\n```"@)
    } else if key == "alias"@ {
        Some("**Alias**\n\nDefines an alternative name for a variable."@)
    } else if key == "as"@ {
        Some("**As**\n\nSpecifies the data type in a variable declaration.\n\nTypes: Float, Long, String, Boolean"@)
    } else if key == "units"@ {
        Some("**Units**\n\nSpecifies the engineering units for a variable."@)
    } else if key == "readonly"@ {
        Some("**ReadOnly**\n\nMarks one or more previously declared `Public` variables as visible for monitoring but not externally editable.\n\n```crbasic\nPublic Mult, Offset\nReadOnly Mult, Offset\n```"@)
    } else if key == "optional"@ {
        Some("**Optional**\n\nMarks a `Function`/`Sub` parameter as optional.\n\n```crbasic\nFunction Scale(a, Optional b)\n  ...\nEndFunction\n```"@)
    } else if key == "include"@ {
        Some("**Include**\n\nPulls in an external CRBasic source file.\n\n```crbasic\nInclude \"cpu:Sensor_PT500_Lib.crb\"\n```"@)
    } else if key == "beginprog"@ {
        Some("**BeginProg**\n\nMarks the start of the main program execution block."@)
    } else if key == "endprog"@ {
        Some("**EndProg**\n\nMarks the end of the main program execution block."@)
    } else if key == "sequentialmode"@ {
        Some("**SequentialMode**\n\nForces the datalogger to run in sequential execution mode. Placed before `BeginProg`."@)
    } else if key == "pipelinemode"@ {
        Some("**PipeLineMode**\n\nForces the datalogger to run in pipeline execution mode. Placed before `BeginProg`."@)
    } else if key == "preservevariables"@ {
        Some("**PreserveVariables**\n\nRetains the values of all `Dim`/`Public` variables in memory across a power loss. Placed before `BeginProg`."@)
    } else if key == "angledegrees"@ {
        Some("**AngleDegrees**\n\nSwitches `ATN`/`ATN2`/`ACOS`/`ASIN`/`RectPolar` to return degrees (instead of radians) and `COS`/`TAN`/`SIN` to interpret their arguments as degrees. Placed before `BeginProg`."@)
    } else if key == "applyandrestartsequence"@ {
        Some("**ApplyAndRestartSequence**\n\nRuns arbitrary code when the `ConstTable` it follows has its `ApplyAndRestart` setting externally set (e.g. via `SetSetting`), typically to validate the table's new constant values before triggering the restart itself. Declared after the `ConstTable` it applies to, both before `BeginProg`.\n\n```crbasic\nConstTable(TableName, Hidden)\n  Const A = 1\nEndConstTable\nApplyAndRestartSequence\n  ' validation code\n  SetSetting(\"TableName.ApplyAndRestart\", 1)\nEndApplyAndRestartSequence\n```"@)
    } else if key == "endapplyandrestartsequence"@ {
        Some("**EndApplyAndRestartSequence**\n\nTerminates an ApplyAndRestartSequence block."@)
    } else if key == "shutdownbegin"@ {
        Some("**ShutDownBegin**\n\nRuns cleanup code (e.g. closing a serial port) when the program stops normally. Placed before `BeginProg`.\n\n```crbasic\nShutDownBegin\n  SerialClose(ComC1)\nShutDownEnd\n```"@)
    } else if key == "shutdownend"@ {
        Some("**ShutDownEnd**\n\nTerminates a ShutDownBegin block."@)
    } else if key == "essinitialize"@ {
        Some("**ESSInitialize**\n\nInitializes the NTCIP Environmental Sensor Station SNMP agent for roadway-weather/DOT telemetry programs. Takes an optional SNMP read/write community string. Placed directly after `BeginProg`.\n\n```crbasic\nBeginProg\n  ESSInitialize(\"private, public\")\nEndProg\n```"@)
    } else if key == "essvariables"@ {
        Some("**ESSVariables**\n\nAuto-declares the standard set of NTCIP Environmental Sensor Station variables (used with `ESSInitialize` for roadway-weather/DOT telemetry programs). Takes an optional `Public` or `Dim` modifier (defaults to `Public`).\n\n```crbasic\nESSVariables Dim\n```"@)
    } else if key == "webpageend"@ {
        Some("**WebPageEnd**\n\nTerminates a `WebPageBegin` block.\n\n```crbasic\nWebPageBegin(\"Page1\", 1)\n  HTTPOut(\"Hello\", \"text/html\")\nWebPageEnd\n```"@)
    } else if key == "endmodemhangup"@ {
        Some("**EndModemHangup**\n\nTerminates a `ModemHangup` block.\n\n```crbasic\nModemHangup(ComC1)\n  ' cleanup instructions\nEndModemHangup\n```"@)
    } else if key == "voicebeg"@ {
        Some("**VoiceBeg**\n\nBegins a block of voice-modem response code.\n\n```crbasic\nVoiceBeg\n  ' voice response instructions\nEndVoice\n```"@)
    } else if key == "endvoice"@ {
        Some("**EndVoice**\n\nTerminates a VoiceBeg block."@)
    } else if key == "datatable"@ {
        Some("**DataTable**\n\nDefines a data table for storing measurements.\n\n```crbasic\nDataTable(TableName, TriggerCondition, Size)\n  ' output instructions\nEndTable\n```"@)
    } else if key == "endtable"@ {
        Some("**EndTable**\n\nTerminates a DataTable block."@)
    } else if key == "tablehide"@ {
        Some("**TableHide**\n\nSuppresses the display and data collection of this DataTable in datalogger memory. Placed immediately after the DataTable statement."@)
    } else if key == "openinterval"@ {
        Some("**OpenInterval**\n\nMakes time series processing include all measurements since the last data storage, spanning any missed output intervals, instead of only the current interval."@)
    } else if key == "fillstop"@ {
        Some("**FillStop**\n\nStops data storage once this DataTable reaches its configured size, instead of the default ring-memory behavior of overwriting the oldest records. Used within the DataTable declaration."@)
    } else if key == "calltable"@ {
        Some("**CallTable**\n\nInvokes a previously declared DataTable: checks its trigger condition and stores a record if it fires. A bare keyword, not a parenthesized call.\n\n```crbasic\nCallTable TableName\n```"@)
    } else if key == "consttable"@ {
        Some("**ConstTable**\n\nDefines a block of constants that field technicians can edit and recompile without touching the constants' use sites. The second parameter, `Hidden`, is 1 to create a table visible only at the highest security level, or 0 (or omitted) for a standard visible table.\n\n```crbasic\nConstTable(TableName, Hidden)\n  Const A = 1\nEndConstTable\n```"@)
    } else if key == "structuretype"@ {
        Some("**StructureType**\n\nDefines a reusable data structure. Instances are declared with `Public`/`Dim ... As TypeName` and members are accessed with dot notation.\n\n```crbasic\nStructureType TempRHSensor\n  Temp As Float\n  RH As Float\nEndStructureType\n\nPublic CS215(3) As TempRHSensor\n' CS215(1).Temp\n```"@)
    } else if key == "endstructuretype"@ {
        Some("**EndStructureType**\n\nTerminates a StructureType block."@)
    } else if key == "endconsttable"@ {
        Some("**EndConstTable**\n\nTerminates a ConstTable block."@)
    } else if key == "function"@ {
        Some("**Function**\n\nDefines a user-defined function that returns a value.\n\n```crbasic\nFunction MyFunc(param As Float) As Float\n  MyFunc = param * 2\nEndFunction\n```"@)
    } else if key == "endfunction"@ {
        Some("**EndFunction**\n\nTerminates a Function block."@)
    } else if key == "return"@ {
        Some("**Return**\n\nReturns a value from a Function and exits it immediately.\n\n```crbasic\nReturn(expression)\n```"@)
    } else if key == "exitfunction"@ {
        Some("**ExitFunction**\n\nExits a Function immediately."@)
    } else if key == "sub"@ {
        Some("**Sub**\n\nDefines a subroutine (procedure without return value).\n\n```crbasic\nSub MySub(ByRef param As Float)\n  param = param * 2\nEndSub\n```"@)
    } else if key == "endsub"@ {
        Some("**EndSub**\n\nTerminates a Sub block."@)
    } else if key == "exit"@ {
        Some("**Exit**\n\nUsed with `Sub` to exit a Subroutine immediately: `Exit Sub`."@)
    } else if key == "call"@ {
        Some("**Call**\n\nInvokes a subroutine. Optional -- `Call MySub(x, y)` behaves the same as `MySub(x, y)`.\n\n```crbasic\nCall MySub(x, y)\n```"@)
    } else if key == "and"@ {
        Some("**AND**\n\nLogical AND operator. Returns true if both operands are true."@)
    } else if key == "or"@ {
        Some("**OR**\n\nLogical OR operator. Returns true if either operand is true."@)
    } else if key == "not"@ {
        Some("**NOT**\n\nLogical NOT operator. Negates a boolean value."@)
    } else if key == "xor"@ {
        Some("**XOR**\n\nLogical XOR operator. Returns true if exactly one operand is true."@)
    } else if key == "mod"@ {
        Some("**MOD**\n\nModulo operator. Returns the remainder of `A / B`. Operands can be any number, not just integers (e.g. `19 MOD 6.7` = `5.6`)."@)
    } else if key == "imp"@ {
        Some("**IMP**\n\nLogical implication operator. `A IMP B` is equivalent to `(NOT A) OR B`."@)
    } else if key == "eqv"@ {
        Some("**EQV**\n\nLogical equivalence operator. `A EQV B` is true when A and B have the same truth value (equivalent to `NOT (A XOR B)`)."@)
    } else if key == "intdv"@ {
        Some("**INTDV**\n\nInteger division operator. Keyword-form synonym for `\\`: `A INTDV B` divides A by B and truncates to an integer."@)
    } else if key == "true"@ {
        Some("**True**\n\nBoolean literal representing true (-1 in CRBasic)."@)
    } else if key == "false"@ {
        Some("**False**\n\nBoolean literal representing false (0 in CRBasic)."@)
    } else {
        None
    }
}

impl HoverProvider {
    /// Returns the description for a data type name valid after `As`, or
    /// `None` if `name` isn't one of them (e.g. an ordinary variable name)
    pub fn get_data_type_description(name: &str) -> (r: Option<&'static str>)
        ensures
            str_option_view(r) == data_type_descriptions(lowercase(name@)),
    {
        let lower = to_lowercase(name);
        let key = lower.as_str();
        if str_eq(key, "float") {
            Some("**Float**\n\nSingle-precision floating point number. The default type if `As` is omitted.")
        } else if str_eq(key, "double") {
            Some("**Double**\n\nDouble-precision floating point number. Reduces error accumulation in calculations.")
        } else if str_eq(key, "long") {
            Some("**Long**\n\n32-bit signed integer.")
        } else if str_eq(key, "boolean") {
            Some("**Boolean**\n\nStores `True` (-1) or `False` (0).")
        } else if str_eq(key, "string") {
            Some("**String**\n\nNull-terminated array of characters.")
        } else if str_eq(key, "uint1") {
            Some("**UINT1**\n\n8-bit unsigned integer.")
        } else {
            None
        }
    }

    /// Returns the description for a data type name valid only as a
    /// `Sample()`/`Average()`-style instruction argument (final data
    /// storage), or `None` if `name` isn't one of them.
    ///
    /// Distinct from `get_data_type_description`: per Campbell Scientific's
    /// "Data Types" documentation, `Long`/`UINT1`/`Boolean`/`String` are
    /// valid in both positions and already covered there, so they aren't
    /// repeated here.
    pub fn get_output_processing_data_type_description(name: &str) -> (r: Option<&'static str>)
        ensures
            str_option_view(r) == output_processing_data_type_descriptions(lowercase(name@)),
    {
        let lower = to_lowercase(name);
        let key = lower.as_str();
        if str_eq(key, "fp2") {
            Some("**FP2**\n\nCampbell Scientific proprietary format; 3 or 4 significant digits (2 bytes).")
        } else if str_eq(key, "ieee4") {
            Some("**IEEE4**\n\nSingle-precision floating point number (4 bytes); same precision as `Float`.")
        } else if str_eq(key, "ieee8") {
            Some("**IEEE8**\n\nDouble-precision floating point number (8 bytes); same precision as `Double`.")
        } else if str_eq(key, "uint2") {
            Some("**UINT2**\n\n16-bit unsigned integer.")
        } else if str_eq(key, "uint4") {
            Some("**UINT4**\n\n32-bit unsigned integer.")
        } else if str_eq(key, "bool8") {
            Some("**Bool8**\n\nArray of eight 1-bit Boolean values packed into 1 byte.")
        } else if str_eq(key, "nsec") {
            Some("**NSEC**\n\nNanosecond-resolution time stamp (8 bytes).")
        } else {
            None
        }
    }

    /// Returns the description for `LoggerType`, the predefined constant
    /// compared inside `#If`/`#ElseIf` conditions, or `None` if `name` isn't
    /// it (e.g. an ordinary variable name).
    ///
    /// Not part of `LANGUAGE_KEYWORDS` for the same reason as
    /// `get_data_type_description`: `LoggerType` is lexed as a plain
    /// identifier, and reclassifying it as a keyword would break `#If
    /// LoggerType = ...` parsing (only `True`/`False` have a primary-
    /// expression fallback for bare keyword tokens today).
    pub fn get_preprocessor_constant_description(name: &str) -> (r: Option<&'static str>)
        ensures
            str_option_view(r) == preprocessor_constant_descriptions(lowercase(name@)),
    {
        let lower = to_lowercase(name);
        let key = lower.as_str();
        if str_eq(key, "loggertype") {
            Some("**LoggerType**\n\nPredefined constant for `#If`/`#ElseIf` model comparisons (e.g. `#If LoggerType = CR1000X`), letting one program compile differently per datalogger model.")
        } else {
            None
        }
    }

    /// Returns the description for the built-in `IIf` conditional-expression
    /// function, or `None` if `name` isn't it.
    pub fn get_logical_function_description(name: &str) -> (r: Option<&'static str>)
        ensures
            str_option_view(r) == logical_function_descriptions(lowercase(name@)),
    {
        let lower = to_lowercase(name);
        let key = lower.as_str();
        if str_eq(key, "iif") {
            Some("**IIf**\n\nEvaluates a Boolean expression and returns TrueValue if true, otherwise FalseValue.")
        } else {
            None
        }
    }

    /// Returns the description for a built-in custom-menu function name, or
    /// `None` if `name` isn't one of them.
    pub fn get_menu_function_description(name: &str) -> (r: Option<&'static str>)
        ensures
            str_option_view(r) == menu_function_descriptions(lowercase(name@)),
    {
        let lower = to_lowercase(name);
        let key = lower.as_str();
        if str_eq(key, "displaymenu") {
            Some("**DisplayMenu**\n\nMarks the beginning of a custom on-screen menu definition.")
        } else if str_eq(key, "submenu") {
            Some("**SubMenu**\n\nMarks the beginning of a nested custom menu within a DisplayMenu block.")
        } else if str_eq(key, "menuitem") {
            Some("**MenuItem**\n\nDefines an editable custom-menu entry showing the name and value of a variable.")
        } else if str_eq(key, "menupick") {
            Some("**MenuPick**\n\nCreates a fixed pick-list of selectable values for the preceding MenuItem.")
        } else if str_eq(key, "menurecompile") {
            Some("**MenuRecompile**\n\nCreates a custom menu item that triggers a program recompile after Constant Table edits.")
        } else if str_eq(key, "displayvalue") {
            Some("**DisplayValue**\n\nDefines a read-only custom-menu entry showing a data-table field, variable, or expression.")
        } else if str_eq(key, "displayline") {
            Some("**DisplayLine**\n\nDisplays a single line of read-only text in a custom menu.")
        } else {
            None
        }
    }

    /// Returns the description for a built-in time/system function name,
    /// or `None` if `name` isn't one of them.
    pub fn get_time_function_description(name: &str) -> (r: Option<&'static str>)
        ensures
            str_option_view(r) == time_function_descriptions(lowercase(name@)),
    {
        let lower = to_lowercase(name);
        let key = lower.as_str();
        if str_eq(key, "realtime") {
            Some("**RealTime**\n\nReturns the current real-time clock values.")
        } else if str_eq(key, "clockchange") {
            Some("**ClockChange**\n\nReturns the number of milliseconds the datalogger's clock has changed since the last time this instruction was executed.")
        } else if str_eq(key, "clockset") {
            Some("**ClockSet**\n\nSets the datalogger clock from the values in a 7-element array.")
        } else if str_eq(key, "timeintointerval") {
            Some("**TimeIntoInterval**\n\nReturns true when the interval boundary is crossed.")
        } else if str_eq(key, "iftime") {
            Some("**IfTime**\n\nReturns true at specified time intervals.")
        } else if str_eq(key, "timer") {
            Some("**Timer**\n\nReturns elapsed time from a timer.")
        } else if str_eq(key, "delay") {
            Some("**Delay**\n\nPauses execution for a specified time.")
        } else if str_eq(key, "setstatus") {
            Some("**SetStatus**\n\nChanges the value of a field in the datalogger's Status table.")
        } else if str_eq(key, "setsetting") {
            Some("**SetSetting**\n\nChanges the value of a field in the datalogger's Settings table.")
        } else if str_eq(key, "movebytes") {
            Some("**MoveBytes**\n\nMoves binary bytes of data from one memory location to another.")
        } else if str_eq(key, "arraylength") {
            Some("**ArrayLength**\n\nReturns the total number of elements across all dimensions of an array.")
        } else if str_eq(key, "nan") {
            Some("**NaN**\n\nRepresents the IEEE-754 Not-a-Number value used to flag an invalid measurement. Takes no parentheses.")
        } else if str_eq(key, "secssince1990") {
            Some("**SecsSince1990**\n\nConverts between a date/time string and the number of seconds since January 1, 1990.")
        } else if str_eq(key, "timeisbetween") {
            Some("**TimeIsBetween**\n\nReturns true when the datalogger's real-time clock falls within a specified time range.")
        } else if str_eq(key, "daylightsaving") {
            Some("**DaylightSaving**\n\nDetects a custom-rule daylight saving transition and returns the clock adjustment.")
        } else if str_eq(key, "daylightsavingus") {
            Some("**DaylightSavingUS**\n\nDetects a US-rule daylight saving transition and returns the clock adjustment.")
        } else if str_eq(key, "instructiontimes") {
            Some("**InstructionTimes**\n\nPopulates an array with the processing time, in microseconds, of every program line; must precede BeginProg.")
        } else if str_eq(key, "linenum") {
            Some("**LineNum**\n\nReturns the current program line number, for debugging.")
        } else if str_eq(key, "signature") {
            Some("**Signature**\n\nReturns a pseudo-random signature of the program code between two Signature markers.")
        } else if str_eq(key, "arrayindex") {
            Some("**ArrayIndex**\n\nReturns the numeric index of a named array element whose position isn't known in advance.")
        } else if str_eq(key, "debug") {
            Some("**Debug**\n\nConfigures breakpoint and trace-history behavior for the CRBasic debugger; used together with DebugBreak.")
        } else if str_eq(key, "move") {
            Some("**Move**\n\nCopies a run of values from a source array/variable into a destination range.")
        } else if str_eq(key, "semaphoreget") {
            Some("**SemaphoreGet**\n\nWaits for and claims a semaphore, blocking until it is free.")
        } else if str_eq(key, "semaphorerelease") {
            Some("**SemaphoreRelease**\n\nReleases a semaphore previously claimed with SemaphoreGet.")
        } else {
            None
        }
    }

    /// Returns the description for a built-in math function name, or
    /// `None` if `name` isn't one of them.
    pub fn get_math_function_description(name: &str) -> (r: Option<&'static str>)
        ensures
            str_option_view(r) == math_function_descriptions(lowercase(name@)),
    {
        let lower = to_lowercase(name);
        let key = lower.as_str();
        if str_eq(key, "abs") {
            Some("**Abs**\n\nReturns the absolute value.")
        } else if str_eq(key, "sgn") {
            Some("**Sgn**\n\nReturns the sign of a number as -1, 0, or 1.")
        } else if str_eq(key, "sqr") {
            Some("**Sqr**\n\nReturns the square root.")
        } else if str_eq(key, "exp") {
            Some("**Exp**\n\nReturns e raised to a power.")
        } else if str_eq(key, "ln") {
            Some("**Ln**\n\nReturns the natural logarithm.")
        } else if str_eq(key, "log") {
            Some("**Log**\n\nReturns the natural logarithm.")
        } else if str_eq(key, "log10") {
            Some("**Log10**\n\nReturns the base-10 logarithm.")
        } else if str_eq(key, "sin") {
            Some("**Sin**\n\nReturns the sine.")
        } else if str_eq(key, "cos") {
            Some("**Cos**\n\nReturns the cosine.")
        } else if str_eq(key, "tan") {
            Some("**Tan**\n\nReturns the tangent.")
        } else if str_eq(key, "sinh") {
            Some("**Sinh**\n\nReturns the hyperbolic sine.")
        } else if str_eq(key, "cosh") {
            Some("**Cosh**\n\nReturns the hyperbolic cosine.")
        } else if str_eq(key, "tanh") {
            Some("**Tanh**\n\nReturns the hyperbolic tangent.")
        } else if str_eq(key, "asin") {
            Some("**Asin**\n\nReturns the arc sine.")
        } else if str_eq(key, "acos") {
            Some("**Acos**\n\nReturns the arc cosine.")
        } else if str_eq(key, "atn") {
            Some("**Atn**\n\nReturns the arc tangent.")
        } else if str_eq(key, "atn2") {
            Some("**Atn2**\n\nReturns the arc tangent of Y/X.")
        } else if str_eq(key, "int") {
            Some("**Int**\n\nReturns the integer part (truncates toward negative infinity).")
        } else if str_eq(key, "fix") {
            Some("**Fix**\n\nReturns the integer part (truncates toward zero).")
        } else if str_eq(key, "frac") {
            Some("**Frac**\n\nReturns the fractional portion of a number.")
        } else if str_eq(key, "round") {
            Some("**Round**\n\nRounds to specified decimal places.")
        } else if str_eq(key, "rnd") {
            Some("**Rnd**\n\nReturns a random value between 0 (inclusive) and 1 (exclusive). Takes no parentheses.")
        } else if str_eq(key, "randomize") {
            Some("**Randomize**\n\nInitializes the random-number generator used by Rnd with a new seed value.")
        } else if str_eq(key, "ceiling") {
            Some("**Ceiling**\n\nRounds a number up to the nearest integer.")
        } else if str_eq(key, "floor") {
            Some("**Floor**\n\nRounds a number down to the nearest integer.")
        } else if str_eq(key, "matrix") {
            Some("**Matrix**\n\nPerforms matrix math (add, subtract, multiply, transpose, invert) on 2-D arrays.")
        } else if str_eq(key, "minspa") {
            Some("**MinSpa**\n\nFinds the minimum value across a spatial array and its index, writing both into a 2-element Dest array.")
        } else if str_eq(key, "sortspa") {
            Some("**SortSpa**\n\nSorts array elements in ascending order, with NaN and infinite values sorted to the beginning.")
        } else if str_eq(key, "findspa") {
            Some("**FindSpa**\n\nSearches an array for a value within a specified range, returning its position, or 0 if not found.")
        } else if str_eq(key, "rectpolar") {
            Some("**RectPolar**\n\nConverts rectangular coordinates (X, Y) into polar coordinates (vector length and angle in radians).")
        } else if str_eq(key, "satvp") {
            Some("**SatVP**\n\nCalculates saturation vapor pressure, in kilopascals, from a temperature measurement.")
        } else if str_eq(key, "straincalc") {
            Some("**StrainCalc**\n\nConverts the mV/V output from a bridge measurement into microstrain (µε), using the specified bridge configuration.")
        } else if str_eq(key, "vaporpressure") {
            Some("**VaporPressure**\n\nCalculates vapor pressure, in kilopascals, from temperature and relative humidity.")
        } else {
            None
        }
    }

    /// Returns the description for a built-in string-manipulation function
    /// name, or `None` if `name` isn't one of them.
    pub fn get_string_function_description(name: &str) -> (r: Option<&'static str>)
        ensures
            str_option_view(r) == string_function_descriptions(lowercase(name@)),
    {
        let lower = to_lowercase(name);
        let key = lower.as_str();
        if str_eq(key, "splitstr") {
            Some("**SplitStr**\n\nSplits a string by delimiter.")
        } else if str_eq(key, "formatfloat") {
            Some("**FormatFloat**\n\nFormats a float as a string.")
        } else if str_eq(key, "formatlong") {
            Some("**FormatLong**\n\nConverts a Long value to a decimal, hexadecimal, or octal string.")
        } else if str_eq(key, "formatlonglong") {
            Some("**FormatLongLong**\n\nConverts a 64-bit value, stored across two adjacent Long variables, into its decimal string representation.")
        } else if str_eq(key, "mid") {
            Some("**Mid**\n\nExtracts a substring.")
        } else if str_eq(key, "left") {
            Some("**Left**\n\nReturns leftmost characters.")
        } else if str_eq(key, "right") {
            Some("**Right**\n\nReturns rightmost characters.")
        } else if str_eq(key, "len") {
            Some("**Len**\n\nReturns the length of a string.")
        } else if str_eq(key, "instr") {
            Some("**InStr**\n\nFinds a substring within a string.")
        } else if str_eq(key, "lowercase") {
            Some("**LowerCase**\n\nConverts to lowercase.")
        } else if str_eq(key, "uppercase") {
            Some("**UpperCase**\n\nConverts to uppercase.")
        } else if str_eq(key, "trim") {
            Some("**Trim**\n\nRemoves leading and trailing spaces.")
        } else if str_eq(key, "rtrim") {
            Some("**RTrim**\n\nRemoves trailing spaces.")
        } else if str_eq(key, "ltrim") {
            Some("**LTrim**\n\nRemoves leading spaces.")
        } else if str_eq(key, "replace") {
            Some("**Replace**\n\nReplaces occurrences in a string.")
        } else if str_eq(key, "chr") {
            Some("**Chr**\n\nReturns a character in the extended ASCII character set.")
        } else if str_eq(key, "ascii") {
            Some("**ASCII**\n\nReturns the ASCII value of a character in a string.")
        } else if str_eq(key, "strcomp") {
            Some("**StrComp**\n\nCompares two strings to determine if they are identical or their sort order.")
        } else if str_eq(key, "checksum") {
            Some("**CheckSum**\n\nReturns a checksum signature for the characters in a string.")
        } else if str_eq(key, "hextodec") {
            Some("**HexToDec**\n\nConverts a hexadecimal string to a float or integer.")
        } else if str_eq(key, "hex") {
            Some("**Hex**\n\nReturns a hexadecimal string representation of a Long value.")
        } else if str_eq(key, "sprintf") {
            Some("**Sprintf**\n\nWrites a formatted output string to a destination variable.")
        } else if str_eq(key, "typeof") {
            Some("**TypeOf**\n\nReturns an integer data-type code for a variable.")
        } else {
            None
        }
    }

    /// Returns the description for a built-in data-table/output-processing
    /// or file-management function name, or `None` if `name` isn't one of
    /// them.
    pub fn get_data_function_description(name: &str) -> (r: Option<&'static str>)
        ensures
            str_option_view(r) == data_function_descriptions(lowercase(name@)),
    {
        let lower = to_lowercase(name);
        let key = lower.as_str();
        if str_eq(key, "sample") {
            Some("**Sample**\n\nSamples and stores a value in the data table.")
        } else if str_eq(key, "average") {
            Some("**Average**\n\nCalculates and stores the average of values.")
        } else if str_eq(key, "stddev") {
            Some("**StdDev**\n\nCalculates and stores the standard deviation.")
        } else if str_eq(key, "minimum") {
            Some("**Minimum**\n\nStores the minimum value over the output interval.")
        } else if str_eq(key, "maximum") {
            Some("**Maximum**\n\nStores the maximum value over the output interval.")
        } else if str_eq(key, "totalize") {
            Some("**Totalize**\n\nStores the sum of values over the output interval.")
        } else if str_eq(key, "histogram") {
            Some("**Histogram**\n\nStores a frequency distribution of input data across a set of bins.")
        } else if str_eq(key, "histogram4d") {
            Some("**Histogram4D**\n\nProcesses input data as a standard or weighted-value histogram of up to four dimensions.")
        } else if str_eq(key, "median") {
            Some("**Median**\n\nStores the median of a variable, over time, in an output table.")
        } else if str_eq(key, "moment") {
            Some("**Moment**\n\nOutputs a central moment (variance, skewness, kurtosis, etc.) of a value over the measurement interval.")
        } else if str_eq(key, "samplemaxmin") {
            Some("**SampleMaxMin**\n\nRecords the value of a companion variable at the moment a preceding Maximum or Minimum reaches its extremum.")
        } else if str_eq(key, "peakvalley") {
            Some("**PeakValley**\n\nDetects local maxima and minima in signal data with a hysteresis threshold.")
        } else if str_eq(key, "fft") {
            Some("**FFT**\n\nPerforms a Fast Fourier Transform on time-series measurement data.")
        } else if str_eq(key, "covariance") {
            Some("**Covariance**\n\nComputes time-series covariance among array elements, for eddy-flux systems.")
        } else if str_eq(key, "levelcrossing") {
            Some("**LevelCrossing**\n\nBuilds a 1D or 2D level-crossing histogram for fatigue counting.")
        } else if str_eq(key, "worstcase") {
            Some("**WorstCase**\n\nSaves ranked worst-case data events into separate clone tables.")
        } else if str_eq(key, "fieldnames") {
            Some("**FieldNames**\n\nOverrides the default field names for the preceding output-processing instruction.")
        } else if str_eq(key, "cardout") {
            Some("**CardOut**\n\nCreates a new data table that is stored on a memory card.")
        } else if str_eq(key, "newfile") {
            Some("**NewFile**\n\nDetermines whether a monitored file has been newly written since this instruction last ran.")
        } else if str_eq(key, "filemanage") {
            Some("**FileManage**\n\nPerforms a management operation, such as delete, hide, run, or format, on a file or device.")
        } else if str_eq(key, "fileopen") {
            Some("**FileOpen**\n\nOpens a file for reading or writing and returns a file handle.")
        } else if str_eq(key, "fileclose") {
            Some("**FileClose**\n\nCloses a file previously opened with FileOpen.")
        } else if str_eq(key, "fileread") {
            Some("**FileRead**\n\nReads data from an open file into a variable or array.")
        } else if str_eq(key, "filewrite") {
            Some("**FileWrite**\n\nWrites data from a variable or array to an open file.")
        } else if str_eq(key, "fileencrypt") {
            Some("**FileEncrypt**\n\nEncrypts a file in place; the datalogger automatically decrypts it at compile time when referenced.")
        } else if str_eq(key, "filecopy") {
            Some("**FileCopy**\n\nCopies a file from one drive on the datalogger to another.")
        } else if str_eq(key, "filerename") {
            Some("**FileRename**\n\nRenames a file stored on the datalogger.")
        } else if str_eq(key, "filesize") {
            Some("**FileSize**\n\nReturns the size, in bytes, of a specified file.")
        } else if str_eq(key, "filetime") {
            Some("**FileTime**\n\nReturns the last-modified timestamp of a specified file.")
        } else if str_eq(key, "filelist") {
            Some("**FileList**\n\nWrites the list of file names on a device into a destination array.")
        } else if str_eq(key, "datainterval") {
            Some("**DataInterval**\n\nSets the real-time-clock-based interval on which a data table's records are generated.")
        } else if str_eq(key, "cardflush") {
            Some("**CardFlush**\n\nImmediately writes buffered data to an external storage device.")
        } else if str_eq(key, "dataevent") {
            Some("**DataEvent**\n\nConditionally starts and stops data storage to a table based on trigger conditions.")
        } else if str_eq(key, "data") {
            Some("**Data**\n\nDefines a list of Float constants for later retrieval with Read.")
        } else if str_eq(key, "datalong") {
            Some("**DataLong**\n\nDefines a list of Long constants for later retrieval with Read.")
        } else if str_eq(key, "datatime") {
            Some("**DataTime**\n\nSelects whether a data table's records are timestamped at scan time or at storage time.")
        } else if str_eq(key, "resettable") {
            Some("**ResetTable**\n\nErases all records from a specified data table during program execution.")
        } else if str_eq(key, "tablefile") {
            Some("**TableFile**\n\nWrites a data table's contents to external storage media; placed inside a DataTable/EndTable declaration.")
        } else if str_eq(key, "filemark") {
            Some("**FileMark**\n\nInserts a filemark into a data table, signaling file-splitting software to start a new file.")
        } else if str_eq(key, "filereadline") {
            Some("**FileReadLine**\n\nReads one line from an open file into a destination variable.")
        } else if str_eq(key, "erase") {
            Some("**Erase**\n\nSets all bytes of a variable or array to zero.")
        } else if str_eq(key, "getrecord") {
            Some("**GetRecord**\n\nRetrieves one complete record from a data table into an array.")
        } else if str_eq(key, "gzip") {
            Some("**Gzip**\n\nCompresses one or more files on datalogger storage into a .gz or .tar.gz archive.")
        } else if str_eq(key, "newfieldnames") {
            Some("**NewFieldNames**\n\nRenames the auto-generated field name(s) of a variable or array for table output.")
        } else if str_eq(key, "rainflow") {
            Some("**RainFlow**\n\nPerforms rainflow cycle-counting on a signal, building an amplitude/mean histogram for fatigue analysis.")
        } else if str_eq(key, "read") {
            Some("**Read**\n\nReads the next value(s) sequentially from a Data/DataLong constant list into a variable, advancing the read pointer.")
        } else if str_eq(key, "restore") {
            Some("**Restore**\n\nResets the read pointer to the start of a Data/DataLong constant list, so a following Read restarts from the beginning.")
        } else if str_eq(key, "runprogram") {
            Some("**RunProgram**\n\nRuns a specified datalogger program file, replacing the currently active program.")
        } else if str_eq(key, "stationname") {
            Some("**StationName**\n\nAssigns a name to the station, stored in the Status table; declared once near the top of the program.")
        } else {
            None
        }
    }

    /// Returns the description for a built-in communication function name
    /// (serial, TCP/UDP, Modbus, SDI-12, email, PPP, FTP, HTTP), or `None`
    /// if `name` isn't one of them.
    pub fn get_communication_function_description(name: &str) -> (r: Option<&'static str>)
        ensures
            str_option_view(r) == communication_function_descriptions(lowercase(name@)),
    {
        let lower = to_lowercase(name);
        let key = lower.as_str();
        if str_eq(key, "serialopen") {
            Some("**SerialOpen**\n\nOpens a serial communication port.")
        } else if str_eq(key, "serialclose") {
            Some("**SerialClose**\n\nCloses a serial communication port.")
        } else if str_eq(key, "serialin") {
            Some("**SerialIn**\n\nReads data from a serial port.")
        } else if str_eq(key, "serialout") {
            Some("**SerialOut**\n\nSends data to a serial port.")
        } else if str_eq(key, "serialinrecord") {
            Some("**SerialInRecord**\n\nReads and parses incoming serial data using begin/end markers.")
        } else if str_eq(key, "serialoutblock") {
            Some("**SerialOutBlock**\n\nSends binary data out a serial port.")
        } else if str_eq(key, "serialflush") {
            Some("**SerialFlush**\n\nClears any characters in the serial input buffer.")
        } else if str_eq(key, "serialbrk") {
            Some("**SerialBrk**\n\nSends a break signal of a specified duration to a serial communication port.")
        } else if str_eq(key, "modbusmaster") {
            Some("**ModbusMaster**\n\nSets up the datalogger as a Modbus client to send or retrieve data from a Modbus server.")
        } else if str_eq(key, "sdi12recorder") {
            Some("**SDI12Recorder**\n\nRetrieves measurement results from an SDI-12 sensor.")
        } else if str_eq(key, "tcpopen") {
            Some("**TCPOpen**\n\nSets up a TCP/IP socket for communication.")
        } else if str_eq(key, "tcpclose") {
            Some("**TCPClose**\n\nCloses a TCP/IP socket that was set up for communication.")
        } else if str_eq(key, "udpopen") {
            Some("**UDPOpen**\n\nOpens a port for transferring UDP packets.")
        } else if str_eq(key, "udpsocketopen") {
            Some("**UDPSocketOpen**\n\nOpens a UDP socket, relating a UDP source port to an ID.")
        } else if str_eq(key, "udpsocketsend") {
            Some("**UDPSocketSend**\n\nSends a UDP datagram to a remote device via an opened UDP socket.")
        } else if str_eq(key, "udpsocketrecv") {
            Some("**UDPSocketRecv**\n\nRetrieves incoming UDP packets sent to a socket's listening port.")
        } else if str_eq(key, "udpsocketclose") {
            Some("**UDPSocketClose**\n\nCloses an opened UDP socket and frees its associated memory.")
        } else if str_eq(key, "emailrelay") {
            Some("**EmailRelay**\n\nSends an email message to one or more addresses via a Campbell Scientific relay service.")
        } else if str_eq(key, "emailsend") {
            Some("**EmailSend**\n\nSends an email message directly via an SMTP server.")
        } else if str_eq(key, "dialmodem") {
            Some("**DialModem**\n\nDials a modem device over a communications port and checks for an expected response.")
        } else if str_eq(key, "dialsequence") {
            Some("**DialSequence**\n\nDeclares a PakBus dial-out route/sequence, closed by EndDialSequence.")
        } else if str_eq(key, "enddialsequence") {
            Some("**EndDialSequence**\n\nCloses a DialSequence block, reporting whether the dial sequence succeeded.")
        } else if str_eq(key, "modemhangup") {
            Some("**ModemHangup**\n\nDeclares code to run when a communications port hangs up, closed by EndModemHangup.")
        } else if str_eq(key, "dialvoice") {
            Some("**DialVoice**\n\nDials out over a voice modem, or waits for an incoming call if no dial string is given. Returns -1 (success), 0 (failure), or -3 (no voice modem present).")
        } else if str_eq(key, "voicehangup") {
            Some("**VoiceHangup**\n\nHangs up the voice modem after a DialVoice connection; not needed inside a VoiceBeg/EndVoice block, which hangs up automatically via EndVoice.")
        } else if str_eq(key, "voicekey") {
            Some("**VoiceKey**\n\nWaits for and returns a single DTMF key (0-9, *, #) pressed by the caller, or a timeout/carrier-loss/no-modem/disconnect code.")
        } else if str_eq(key, "voicenumber") {
            Some("**VoiceNumber**\n\nWaits for and returns a multi-digit DTMF number entered by the caller (terminated by # or timeout), or a timeout/carrier-loss/no-modem/disconnect code.")
        } else if str_eq(key, "voicephrases") {
            Some("**VoicePhrases**\n\nSpeaks a comma-separated list of vocabulary words/phrases over the voice modem.")
        } else if str_eq(key, "voicesetup") {
            Some("**VoiceSetup**\n\nConfigures the DTMF keys and timing behavior used by the voice-modem instructions.")
        } else if str_eq(key, "voicespeak") {
            Some("**VoiceSpeak**\n\nSpeaks a string built by concatenating literal text and variable values over the voice modem.")
        } else if str_eq(key, "smsrecv") {
            Some("**SMSRecv**\n\nPolls a CELL2XX cellular modem for a pending SMS message.")
        } else if str_eq(key, "smssend") {
            Some("**SMSSend**\n\nSends an SMS message via a CELL2XX cellular modem.")
        } else if str_eq(key, "pppopen") {
            Some("**PPPOpen**\n\nEnables a PPP network connection through an external modem and returns its IP address.")
        } else if str_eq(key, "pppclose") {
            Some("**PPPClose**\n\nCloses an open PPP connection with a server.")
        } else if str_eq(key, "ftpclient") {
            Some("**FTPClient**\n\nManages files on a server using FTP, FTPS, or SFTP.")
        } else if str_eq(key, "httpget") {
            Some("**HTTPGet**\n\nSends a GET request to an HTTP server.")
        } else if str_eq(key, "httppost") {
            Some("**HTTPPost**\n\nSends files or text to a URL via an HTTP POST request.")
        } else if str_eq(key, "httpput") {
            Some("**HTTPPut**\n\nSends files or text to a URL via an HTTP PUT request.")
        } else if str_eq(key, "gps") {
            Some("**GPS**\n\nSynchronizes the datalogger clock with a GPS receiver and stores its position/timing data.")
        } else if str_eq(key, "ethernetpower") {
            Some("**EthernetPower**\n\nTurns power to all Ethernet devices on or off.")
        } else if str_eq(key, "i2copen") {
            Some("**I2COpen**\n\nConfigures a port pair for I2C communication at a specified clock rate.")
        } else if str_eq(key, "i2cread") {
            Some("**I2CRead**\n\nReads bytes from an I2C peripheral device.")
        } else if str_eq(key, "i2cwrite") {
            Some("**I2CWrite**\n\nWrites bytes to an I2C peripheral device.")
        } else if str_eq(key, "spiopen") {
            Some("**SPIOpen**\n\nConfigures the datalogger as an SPI controller for communication with peripheral devices.")
        } else if str_eq(key, "spiread") {
            Some("**SPIRead**\n\nSynchronously reads a specified number of bytes from an SPI peripheral device.")
        } else if str_eq(key, "spiwrite") {
            Some("**SPIWrite**\n\nSynchronously transmits a specified number of bytes to an SPI peripheral device.")
        } else if str_eq(key, "acceptdatarecords") {
            Some("**AcceptDataRecords**\n\nConfigures the datalogger to receive and store data records pushed from a remote PakBus datalogger.")
        } else if str_eq(key, "broadcast") {
            Some("**Broadcast**\n\nSends a broadcast message to all devices on a PakBus network.")
        } else if str_eq(key, "clockreport") {
            Some("**ClockReport**\n\nSends this datalogger's clock value to a specified PakBus device.")
        } else if str_eq(key, "datagram") {
            Some("**DataGram**\n\nInitializes a SerialServer/DataGram application that tunnels serial traffic through a PakBus network.")
        } else if str_eq(key, "encryptexempt") {
            Some("**EncryptExempt**\n\nDeclares a PakBus address range exempt from PakBus encryption.")
        } else if str_eq(key, "getdatarecord") {
            Some("**GetDataRecord**\n\nRetrieves the most recent record(s) from a table on a remote PakBus datalogger into a local table.")
        } else if str_eq(key, "getfile") {
            Some("**GetFile**\n\nRetrieves a file from a remote PakBus datalogger and stores it locally.")
        } else if str_eq(key, "getvariables") {
            Some("**GetVariables**\n\nRetrieves one or more variable values from a data table on a remote PakBus device.")
        } else if str_eq(key, "pakbusclock") {
            Some("**PakBusClock**\n\nConfigures the datalogger to accept and synchronize its clock from time broadcasts sent by a specified PakBus device.")
        } else if str_eq(key, "route") {
            Some("**Route**\n\nReturns the neighbor address of, or the route to, a PakBus datalogger.")
        } else if str_eq(key, "routes") {
            Some("**Routes**\n\nRetrieves the datalogger's list of known dynamic PakBus routes into an array.")
        } else if str_eq(key, "routersneighbors") {
            Some("**RoutersNeighbors**\n\nReturns a list of all PakBus routers and their neighbors known to the datalogger.")
        } else if str_eq(key, "senddata") {
            Some("**SendData**\n\nSends the most recent record from a data table to a destination PakBus device.")
        } else if str_eq(key, "sendfile") {
            Some("**SendFile**\n\nSends a file from the datalogger to another PakBus datalogger.")
        } else if str_eq(key, "sendgetvariables") {
            Some("**SendGetVariables**\n\nSends and/or retrieves an array of values to/from the host datalogger during its assigned time slot.")
        } else if str_eq(key, "sendtabledef") {
            Some("**SendTableDef**\n\nSends a data table's definition to a destination device on the PakBus network.")
        } else if str_eq(key, "sendvariables") {
            Some("**SendVariables**\n\nSends one or more variable values to a table in a destination PakBus device.")
        } else if str_eq(key, "staticroute") {
            Some("**StaticRoute**\n\nDefines a fixed route to a PakBus datalogger, for use when dynamic routing is unavailable.")
        } else if str_eq(key, "timeuntiltransmit") {
            Some("**TimeUntilTransmit**\n\nReturns the seconds remaining until the datalogger's assigned communication time slot with its host.")
        } else if str_eq(key, "dnp") {
            Some("**DNP**\n\nConfigures a communications port to set up the datalogger as a DNP3 outstation device.")
        } else if str_eq(key, "dnpupdate") {
            Some("**DNPUpdate**\n\nSets up the datalogger as a DNP3 outstation and determines when it updates its arrays of DNP elements.")
        } else if str_eq(key, "dnpvariable") {
            Some("**DNPVariable**\n\nMaps a variable or array to a DNP3 object, variation, and class within the datalogger's outstation configuration.")
        } else if str_eq(key, "argosdata") {
            Some("**ArgosData**\n\nSpecifies the data to be transmitted to the Argos satellite.")
        } else if str_eq(key, "argosdatarepeat") {
            Some("**ArgosDataRepeat**\n\nSets the repeat rate for the ArgosData instruction.")
        } else if str_eq(key, "argoserror") {
            Some("**ArgosError**\n\nRequests and clears the current error message from the Argos transmitter.")
        } else if str_eq(key, "argossetup") {
            Some("**ArgosSetup**\n\nSets up the datalogger for transmitting data via an Argos satellite.")
        } else if str_eq(key, "argostransmit") {
            Some("**ArgosTransmit**\n\nInitiates a single transmission to an Argos satellite when the instruction is executed.")
        } else if str_eq(key, "goesdata") {
            Some("**GOESData**\n\nTransmits data from a data table to a GOES satellite transmitter.")
        } else if str_eq(key, "goesfield") {
            Some("**GOESField**\n\nDeclares an output field to include in a GOES transmission; precedes the data-table field instruction it applies to.")
        } else if str_eq(key, "goesgps") {
            Some("**GOESGPS**\n\nRetrieves GPS data from a compatible GOES satellite transmitter and stores it in two variable arrays.")
        } else if str_eq(key, "goessetup") {
            Some("**GOESSetup**\n\nConfigures a GOES satellite transmitter for communication with the satellite.")
        } else if str_eq(key, "goesstatus") {
            Some("**GOESStatus**\n\nRequests status and diagnostic information from a GOES satellite transmitter.")
        } else if str_eq(key, "goestable") {
            Some("**GOESTable**\n\nFormats and outputs a data table's records to a TX325/TX326 GOES satellite transmitter.")
        } else if str_eq(key, "sdmao4") {
            Some("**SDMAO4**\n\nSets the output voltage on an SDM-AO4 four-channel analog output device.")
        } else if str_eq(key, "sdmao4a") {
            Some("**SDMAO4A**\n\nSets the output voltage on an SDM-AO4A four-channel analog output device.")
        } else if str_eq(key, "sdmbeginport") {
            Some("**SDMBeginPort**\n\nDesignates an alternate set of datalogger terminals to use as an SDM port.")
        } else if str_eq(key, "sdmcan") {
            Some("**SDMCAN**\n\nConfigures and operates the SDM-CAN interface between a CAN-bus network and the datalogger.")
        } else if str_eq(key, "sdmcd16ac") {
            Some("**SDMCD16AC**\n\nEnables or disables the relay ports of an SDM-CD16AC relay control device.")
        } else if str_eq(key, "sdmcd16mask") {
            Some("**SDMCD16Mask**\n\nEnables or disables specific relay ports of an SDM-CD16AC device via a bit-mask filter.")
        } else if str_eq(key, "timedcontrol") {
            Some("**TimedControl**\n\nRuns a timed sequence of binary output values through an SDMCD16 peripheral, synchronized to a specified interval.")
        } else if str_eq(key, "sdmcvo4") {
            Some("**SDMCVO4**\n\nControls the SDM-CVO4 four-channel current/voltage output device.")
        } else if str_eq(key, "sdmgeneric") {
            Some("**SDMGeneric**\n\nSends raw commands to an SDM device with no dedicated CRBasic instruction support.")
        } else if str_eq(key, "sdmint8") {
            Some("**SDMINT8**\n\nPrograms and controls the SDM-INT8 eight-channel interval timer.")
        } else if str_eq(key, "sdmio16") {
            Some("**SDMIO16**\n\nSets up and operates an SDM-IO16 16-port digital I/O expansion device.")
        } else if str_eq(key, "sdmsio4") {
            Some("**SDMSIO4**\n\nControls and transfers data with a legacy SDM-SIO4 four-port serial I/O device.")
        } else if str_eq(key, "sdmspeed") {
            Some("**SDMSpeed**\n\nChanges the bit period the datalogger uses to clock SDM bus communication.")
        } else if str_eq(key, "sdmsw8a") {
            Some("**SDMSW8A**\n\nReads channels from an SDM-SW8A eight-channel switch closure module.")
        } else if str_eq(key, "sdmtrigger") {
            Some("**SDMTrigger**\n\nBroadcasts a simultaneous \"measure now\" group trigger to all SDM devices that support it.")
        } else if str_eq(key, "sdmx50") {
            Some("**SDMX50**\n\nSwitches an SDMX50 coaxial multiplexer to a specified channel.")
        } else if str_eq(key, "cpiaddmodule") {
            Some("**CPIAddModule**\n\nStatically assigns a CPI-bus address to a GRANITE/CDM/VWIRE module.")
        } else if str_eq(key, "cpifilesend") {
            Some("**CPIFileSend**\n\nSends an OS file to a GRANITE/CDM module over the CPI bus via memory card, USR drive, or USB.")
        } else if str_eq(key, "cpispeed") {
            Some("**CPISpeed**\n\nAdjusts the CPI bus bit rate, needed when the bus load or cable length requires a slower speed.")
        } else if str_eq(key, "mqttpublishtable") {
            Some("**MQTTPublishTable**\n\nPublishes a data table's contents to an MQTT broker; placed inside a DataTable/EndTable declaration.")
        } else if str_eq(key, "mqttpublishconsttable") {
            Some("**MQTTPublishConstTable**\n\nEnables remote editing of ConstTable values via MQTT; placed inside a ConstTable/EndConstTable declaration.")
        } else if str_eq(key, "mqttconnect") {
            Some("**MQTTConnect**\n\nOverrides the default MQTT-publish retry schedule, forcing a connect or disconnect attempt over an available IP connection.")
        } else if str_eq(key, "cwbdiagnostics") {
            Some("**CWBDiagnostics**\n\nReturns diagnostic information about a CWB100 wireless sensor base's network performance.")
        } else if str_eq(key, "checkport") {
            Some("**CheckPort**\n\nRetrieves the current status (high/low) of a specified digital port or terminal.")
        } else if str_eq(key, "comportisactive") {
            Some("**ComPortIsActive**\n\nReturns a Boolean indicating whether activity is currently detected on a communications port.")
        } else if str_eq(key, "dhcprenew") {
            Some("**DHCPRenew**\n\nRestarts DHCP on the Ethernet interface to request a new IP address lease.")
        } else if str_eq(key, "encryption") {
            Some("**Encryption**\n\nPerforms AES-128 encryption or decryption on the contents of a variable.")
        } else if str_eq(key, "httpout") {
            Some("**HTTPOut**\n\nEmits a line of HTML for a datalogger-generated web page; used inside WebPageBegin/WebPageEnd.")
        } else if str_eq(key, "ipinfo") {
            Some("**IPInfo**\n\nRetrieves the IP address of a datalogger interface, or the remote IP of a socket handle.")
        } else if str_eq(key, "ipnetpower") {
            Some("**IPNetPower**\n\nPowers on or off a specific IP-capable network interface.")
        } else if str_eq(key, "iproute") {
            Some("**IPRoute**\n\nDirects outgoing IP traffic through a specified network interface when multiple interfaces are active.")
        } else if str_eq(key, "iptrace") {
            Some("**IPTrace**\n\nWrites IP debug/troubleshooting messages to a string variable; can be used as a DataTable output trigger.")
        } else if str_eq(key, "monitorcomms") {
            Some("**MonitorComms**\n\nCaptures communication traffic from a specified port into a string variable, for debugging.")
        } else if str_eq(key, "pingip") {
            Some("**PingIP**\n\nPings an IP address and returns the response time in milliseconds.")
        } else if str_eq(key, "portbridge") {
            Some("**PortBridge**\n\nEstablishes a bidirectional data channel between two communications ports.")
        } else if str_eq(key, "portget") {
            Some("**PortGet**\n\nReads the status of a control or universal port into a destination variable.")
        } else if str_eq(key, "portpairconfig") {
            Some("**PortPairConfig**\n\nConfigures the voltage level and pull-resistor mode for a terminal pair.")
        } else if str_eq(key, "portsconfig") {
            Some("**PortsConfig**\n\nConfigures digital ports as input or output using a bitmask.")
        } else if str_eq(key, "snmpvariable") {
            Some("**SNMPVariable**\n\nDefines a custom MIB entry exposing a datalogger variable through SNMP.")
        } else if str_eq(key, "tcpactiveconnections") {
            Some("**TCPActiveConnections**\n\nMonitors active TCP connections and polling activity on a listening port.")
        } else if str_eq(key, "udpdatagram") {
            Some("**UDPDataGram**\n\nSends and receives UDP packets.")
        } else if str_eq(key, "webpagebegin") {
            Some("**WebPageBegin**\n\nDeclares a datalogger-served HTML page, closed by WebPageEnd.")
        } else if str_eq(key, "xmlparse") {
            Some("**XMLParse**\n\nParses an XML file or string on the datalogger.")
        } else if str_eq(key, "emailrecv") {
            Some("**EMailRecv**\n\nPolls a POP3 mail server for a message matching the given criteria and stores its body in a string variable.")
        } else if str_eq(key, "modbusserver") {
            Some("**ModbusServer**\n\nConfigures the datalogger as a Modbus server, exposing variables/coils to a Modbus client (formerly ModbusSlave).")
        } else if str_eq(key, "modemcallback") {
            Some("**ModemCallBack**\n\nDials out via a phone modem so the datalogger initiates a callback connection to a computer.")
        } else if str_eq(key, "networktimeprotocol") {
            Some("**NetworkTimeProtocol**\n\nSynchronizes the datalogger clock with an NTP server, returning the pre-adjustment clock error in milliseconds.")
        } else if str_eq(key, "serialinblock") {
            Some("**SerialInBlock**\n\nReads a block of raw serial bytes into Dest without waiting for a delimiter, returning the byte count received.")
        } else {
            None
        }
    }

    /// Returns the description for a built-in `Scan`/`SubScan` function
    /// name, or `None` if `name` isn't one of them.
    pub fn get_scan_function_description(name: &str) -> (r: Option<&'static str>)
        ensures
            str_option_view(r) == scan_function_descriptions(lowercase(name@)),
    {
        let lower = to_lowercase(name);
        let key = lower.as_str();
        if str_eq(key, "scan") {
            Some("**Scan**\n\nInitiates a measurement scan at specified intervals.")
        } else if str_eq(key, "subscan") {
            Some("**SubScan**\n\nBegins a nested sub-scan for faster measurement or multiplexer control.")
        } else if str_eq(key, "triggersequence") {
            Some("**TriggerSequence**\n\nTriggers execution of a SlowSequence at its WaitTriggerSequence point, after an optional delay.")
        } else if str_eq(key, "waitdigtrig") {
            Some("**WaitDigTrig**\n\nTriggers a measurement scan using an external digital signal instead of the datalogger's internal clock.")
        } else {
            None
        }
    }

    /// Returns the description for a built-in measurement/output-processing
    /// function name, or `None` if `name` isn't one of them (e.g. an
    /// ordinary variable name).
    pub fn get_measurement_function_description(name: &str) -> (r: Option<&'static str>)
        ensures
            str_option_view(r) == measurement_function_descriptions(lowercase(name@)),
    {
        let lower = to_lowercase(name);
        let key = lower.as_str();
        if str_eq(key, "windvector") {
            Some("**WindVector**\n\nProcesses raw wind speed/direction samples into mean wind speed, mean wind vector magnitude and direction, and standard deviation of wind direction.")
        } else if str_eq(key, "battery") {
            Some("**Battery**\n\nMeasures the voltage of the battery powering the datalogger.")
        } else if str_eq(key, "paneltemp") {
            Some("**PanelTemp**\n\nMeasures the temperature of the datalogger wiring panel in degrees Celsius.")
        } else if str_eq(key, "voltse") {
            Some("**VoltSe**\n\nMeasures single-ended voltage.")
        } else if str_eq(key, "voltdiff") {
            Some("**VoltDiff**\n\nMeasures differential voltage.")
        } else if str_eq(key, "brhalf") {
            Some("**BrHalf**\n\nApplies an excitation voltage to a half bridge and measures the single-ended voltage output.")
        } else if str_eq(key, "brfull") {
            Some("**BrFull**\n\nApplies an excitation voltage to a full bridge and measures the differential voltage output.")
        } else if str_eq(key, "therm107") {
            Some("**Therm107**\n\nMeasures temperature using a 107 thermistor.")
        } else if str_eq(key, "therm108") {
            Some("**Therm108**\n\nMeasures temperature using a 108 thermistor.")
        } else if str_eq(key, "therm109") {
            Some("**Therm109**\n\nMeasures temperature using a 109 thermistor.")
        } else if str_eq(key, "thermistor") {
            Some("**Thermistor**\n\nPerforms a bridge measurement of a thermistor, returning resistance in Ohms, or temperature in Celsius if Steinhart-Hart coefficients are given.")
        } else if str_eq(key, "tcpsyc") {
            Some("**TCPsyc**\n\nMeasures one or more Peltier-style thermocouple psychrometers, directly or via an AM16/32B multiplexer.")
        } else if str_eq(key, "periodavg") {
            Some("**PeriodAvg**\n\nMeasures the period or frequency of a signal on a single-ended channel.")
        } else if str_eq(key, "pulsecount") {
            Some("**PulseCount**\n\nMeasures pulse count from a sensor.")
        } else if str_eq(key, "timerinput") {
            Some("**TimerInput**\n\nMeasures time intervals between edges, or frequency, on digital ports; can span across scan intervals.")
        } else if str_eq(key, "portset") {
            Some("**PortSet**\n\nSets a control port to a high or low state.")
        } else if str_eq(key, "pulseport") {
            Some("**PulsePort**\n\nToggles a port, delays, toggles it back, and delays again to generate a clocking pulse.")
        } else if str_eq(key, "readio") {
            Some("**ReadIO**\n\nReads the status of one or more digital ports or terminals, storing the result in Dest.")
        } else if str_eq(key, "writeio") {
            Some("**WriteIO**\n\nSets the status of one or more digital control ports or universal terminals from Source.")
        } else if str_eq(key, "excitev") {
            Some("**ExciteV**\n\nSets an excitation channel output to a specified voltage for a specified duration.")
        } else if str_eq(key, "excitei") {
            Some("**ExciteI**\n\nApplies a current excitation to an excitation channel.")
        } else if str_eq(key, "swvx") {
            Some("**SWVX**\n\nSets a switched, regulated VX excitation channel high or low to power external peripherals or toggle control lines.")
        } else if str_eq(key, "brhalf3w") {
            Some("**BrHalf3W**\n\nApplies an excitation voltage and measures a 3-wire half bridge to calculate the resistance ratio.")
        } else if str_eq(key, "brhalf4w") {
            Some("**BrHalf4W**\n\nApplies an excitation voltage and makes two differential voltage measurements to measure a 4-wire half bridge.")
        } else if str_eq(key, "brfull6w") {
            Some("**BrFull6W**\n\nApplies an excitation voltage and makes two differential voltage measurements to measure a 6-wire full bridge.")
        } else if str_eq(key, "tcse") {
            Some("**TCSE**\n\nMeasures a thermocouple on a single-ended channel and converts the reading to degrees Celsius.")
        } else if str_eq(key, "tcdiff") {
            Some("**TCDiff**\n\nMeasures a thermocouple on a differential channel and converts the result to degrees Celsius.")
        } else if str_eq(key, "resistance") {
            Some("**Resistance**\n\nMeasures the resistance of a basic or full-bridge circuit using current excitation.")
        } else if str_eq(key, "resistance3w") {
            Some("**Resistance3W**\n\nPerforms a 3-wire resistance measurement, using differential and reverse excitation to cancel voltage offset errors.")
        } else if str_eq(key, "watchdogtimer") {
            Some("**WatchdogTimer**\n\nEnables a user-programmed watchdog timer that guards the program against lockup.")
        } else if str_eq(key, "pwm") {
            Some("**PWM**\n\nGenerates a pulse-width-modulated signal on a digital port at a specified duty cycle.")
        } else if str_eq(key, "dewpoint") {
            Some("**DewPoint**\n\nCalculates dew point temperature from air temperature and relative humidity.")
        } else if str_eq(key, "csat3") {
            Some("**CSAT3**\n\nControls and retrieves wind and sonic temperature data from a CSAT3 3D sonic anemometer via SDM.")
        } else if str_eq(key, "csat3b") {
            Some("**CSAT3B**\n\nControls and retrieves wind and sonic temperature data from a CSAT3B 3D sonic anemometer via SDM or CPI.")
        } else if str_eq(key, "csat3bmonitor") {
            Some("**CSAT3BMonitor**\n\nRetrieves enclosure temperature, relative humidity, and inclination diagnostics from a CSAT3B.")
        } else if str_eq(key, "ec100") {
            Some("**EC100**\n\nRetrieves measurement data from an EC100-based gas analyzer (EC150, EC155, IRGASON) via SDM.")
        } else if str_eq(key, "ec100configure") {
            Some("**EC100Configure**\n\nReads or writes configuration settings on an EC100-based gas analyzer via SDM.")
        } else if str_eq(key, "li7200") {
            Some("**LI7200**\n\nMeasures CO2 and H2O concentration from an LI-7200 closed-path gas analyzer via SDM.")
        } else if str_eq(key, "li7700") {
            Some("**LI7700**\n\nMeasures methane concentration from an LI-7700 open-path gas analyzer via SDM.")
        } else if str_eq(key, "cdm_acpower") {
            Some("**CDM_ACPower**\n\nMeasures real AC power and power-quality parameters via a CDM module in single-phase, split-phase, or three-phase configurations.")
        } else if str_eq(key, "cdm_battery") {
            Some("**CDM_Battery**\n\nReads and returns a CDM module's own power-supply voltage.")
        } else if str_eq(key, "cdm_brfull") {
            Some("**CDM_BrFull**\n\nMakes a 4-wire full-bridge measurement via a CDM module.")
        } else if str_eq(key, "cdm_brfull6w") {
            Some("**CDM_BrFull6W**\n\nMakes a 6-wire full-bridge measurement via a CDM module.")
        } else if str_eq(key, "cdm_brhalf") {
            Some("**CDM_BrHalf**\n\nMakes a single-ended half-bridge measurement via a CDM module.")
        } else if str_eq(key, "cdm_brhalf3w") {
            Some("**CDM_BrHalf3W**\n\nMakes a 3-wire half-bridge measurement via a CDM module.")
        } else if str_eq(key, "cdm_brhalf4w") {
            Some("**CDM_BrHalf4W**\n\nMakes a 4-wire half-bridge measurement via a CDM module, commonly used with PRTCalc for RTDs.")
        } else if str_eq(key, "cdm_currentdiff") {
            Some("**CDM_CurrentDiff**\n\nMakes a differential current-loop measurement via a CDM module.")
        } else if str_eq(key, "cdm_delay") {
            Some("**CDM_Delay**\n\nDelays a CDM module's measurement or processing task sequence for a specified time.")
        } else if str_eq(key, "cdm_excitei") {
            Some("**CDM_ExciteI**\n\nApplies a current excitation to an excitation channel on a CDM module.")
        } else if str_eq(key, "cdm_excitev") {
            Some("**CDM_ExciteV**\n\nApplies a voltage excitation to an excitation channel on a CDM module.")
        } else if str_eq(key, "cdm_muxselect") {
            Some("**CDM_MuxSelect**\n\nWakes and clocks an AM16/32A or AM16/32B multiplexer to a starting channel via a CDM module.")
        } else if str_eq(key, "cdm_paneltemp") {
            Some("**CDM_PanelTemp**\n\nReads a CDM wiring-panel thermistor, for use as a thermocouple reference temperature.")
        } else if str_eq(key, "cdm_periodavg") {
            Some("**CDM_PeriodAvg**\n\nMeasures the period or frequency of a signal on a CDM single-ended channel.")
        } else if str_eq(key, "cdm_pulseport") {
            Some("**CDM_PulsePort**\n\nToggles a CDM switched-5V digital port, delays, and toggles it again to generate a clock signal.")
        } else if str_eq(key, "cdm_resistance") {
            Some("**CDM_Resistance**\n\nMeasures resistance via current excitation on a CDM module.")
        } else if str_eq(key, "cdm_resistance3w") {
            Some("**CDM_Resistance3W**\n\nMeasures resistance via current excitation using a 3-wire connection on a CDM module.")
        } else if str_eq(key, "cdm_sw12") {
            Some("**CDM_SW12**\n\nSets a CDM switched-12V output port high or low to power external peripherals.")
        } else if str_eq(key, "cdm_sw5") {
            Some("**CDM_SW5**\n\nSets a CDM switched-5V output port high or low to power external peripherals.")
        } else if str_eq(key, "cdm_swpower") {
            Some("**CDM_SWPower**\n\nSets the ganged switched-12V and switched-5V power output on a VOLT408 isolation module.")
        } else if str_eq(key, "cdm_tccomp") {
            Some("**CDM_TCComp**\n\nMakes a differential thermocouple measurement with automatic cold-junction compensation via a CDM module.")
        } else if str_eq(key, "cdm_tcdiff") {
            Some("**CDM_TCDiff**\n\nMakes a differential thermocouple measurement via a CDM module.")
        } else if str_eq(key, "cdm_tcse") {
            Some("**CDM_TCSE**\n\nMakes a single-ended thermocouple measurement via a CDM module.")
        } else if str_eq(key, "cdm_therm107") {
            Some("**CDM_Therm107**\n\nMeasures a 107 thermistor probe via a CDM module.")
        } else if str_eq(key, "cdm_therm108") {
            Some("**CDM_Therm108**\n\nMeasures a 108 thermistor probe via a CDM module.")
        } else if str_eq(key, "cdm_therm109") {
            Some("**CDM_Therm109**\n\nMeasures a 109 thermistor probe via a CDM module.")
        } else if str_eq(key, "cdm_voltdiff") {
            Some("**CDM_VoltDiff**\n\nMakes a differential voltage measurement via a CDM module.")
        } else if str_eq(key, "cdm_voltse") {
            Some("**CDM_VoltSE**\n\nMakes a single-ended voltage measurement via a CDM module.")
        } else if str_eq(key, "cdm_vw300config") {
            Some("**CDM_VW300Config**\n\nSends configuration settings to a CDM-VW300 vibrating-wire spectrum analyzer; must precede BeginProg.")
        } else if str_eq(key, "cdm_vw300dynamic") {
            Some("**CDM_VW300Dynamic**\n\nCaptures the dynamic resonant frequency output of a CDM-VW300 vibrating-wire spectrum analyzer.")
        } else if str_eq(key, "cdm_vw300rainflow") {
            Some("**CDM_VW300RainFlow**\n\nCaptures rainflow-histogram data from a CDM-VW300 vibrating-wire spectrum analyzer.")
        } else if str_eq(key, "cdm_vw300static") {
            Some("**CDM_VW300Static**\n\nCaptures the static resonant frequency, thermistor temperature, and frequency standard deviation from a CDM-VW300 vibrating-wire spectrum analyzer.")
        } else if str_eq(key, "calibrate") {
            Some("**Calibrate**\n\nForces calibration of all analog channels under program control to compensate for temperature-related measurement errors.")
        } else if str_eq(key, "fieldcal") {
            Some("**FieldCal**\n\nSets up the datalogger to perform calibration of one or more variables in an array.")
        } else if str_eq(key, "fieldcalstrain") {
            Some("**FieldCalStrain**\n\nSets up the datalogger to perform a zero or shunt calibration for a strain measurement.")
        } else if str_eq(key, "loadfieldcal") {
            Some("**LoadFieldCal**\n\nLoads values from the FieldCal file into datalogger variables, returning True if successful.")
        } else if str_eq(key, "samplefieldcal") {
            Some("**SampleFieldCal**\n\nStores the values in the FieldCal file to a data table; used inside a DataTable/EndTable declaration.")
        } else if str_eq(key, "calfile") {
            Some("**CalFile**\n\nWrites an array to a calibration file, or reads a calibration file back into an array if its signature matches.")
        } else if str_eq(key, "newfieldcal") {
            Some("**NewFieldCal**\n\nA Boolean DataTable trigger that is true for one scan cycle after a new field calibration has been performed.")
        } else if str_eq(key, "acpower") {
            Some("**ACPower**\n\nMeasures real AC power and power-quality parameters for single-phase, split-phase, or three-phase Y systems.")
        } else if str_eq(key, "am25t") {
            Some("**AM25T**\n\nControls and measures the AM25T thermocouple multiplexer.")
        } else if str_eq(key, "avw200") {
            Some("**AVW200**\n\nReads vibrating-wire sensors via an AVW200 spectrum analyzer.")
        } else if str_eq(key, "vibratingwire") {
            Some("**VibratingWire**\n\nMeasures one or more vibrating-wire sensors by sweeping an excitation frequency and detecting the sensor's resonant frequency.")
        } else if str_eq(key, "cs616") {
            Some("**CS616**\n\nEnables and measures a CS616/CS625 water content reflectometer.")
        } else if str_eq(key, "cs7500") {
            Some("**CS7500**\n\nCommunicates with a LI-7500(A) gas analyzer via SDM.")
        } else if str_eq(key, "currentse") {
            Some("**CurrentSE**\n\nMeasures single-ended current via the datalogger's internal shunt resistor.")
        } else if str_eq(key, "hydraprobe") {
            Some("**HydraProbe**\n\nConverts raw voltages from a Stevens Hydra Probe sensor into soil measurements.")
        } else if str_eq(key, "tdr100") {
            Some("**TDR100**\n\nMeasures time-domain-reflectometry probes via a TDR100 device.")
        } else if str_eq(key, "tdr200") {
            Some("**TDR200**\n\nMeasures time-domain-reflectometry probes via a TDR200 device.")
        } else if str_eq(key, "tga") {
            Some("**TGA**\n\nMeasures a TGA100A/TGA200/TGA200A trace gas analyzer via SDM.")
        } else if str_eq(key, "quadrature") {
            Some("**Quadrature**\n\nMeasures a shaft quadrature encoder to determine displacement and rotational direction.")
        } else if str_eq(key, "sw12") {
            Some("**SW12**\n\nEnables or disables a switched-12V output channel to power external peripherals.")
        } else if str_eq(key, "etsz") {
            Some("**ETsz**\n\nCalculates the ASCE standardized reference evapotranspiration.")
        } else if str_eq(key, "solarposition") {
            Some("**SolarPosition**\n\nCalculates solar azimuth, elevation, hour angle, declination, and air mass.")
        } else if str_eq(key, "wetdrybulb") {
            Some("**WetDryBulb**\n\nComputes vapor pressure from wet-bulb and dry-bulb temperatures and barometric pressure.")
        } else if str_eq(key, "muxselect") {
            Some("**MuxSelect**\n\nSelects a channel on an AM16/32A or AM16/32B multiplexer and readies it for measurement.")
        } else if str_eq(key, "pulsecountreset") {
            Some("**PulseCountReset**\n\nResets the pulse counter and running-average values associated with pulse count measurements.")
        } else if str_eq(key, "prt") {
            Some("**PRT**\n\nConverts RTD resistance measurements to temperature using the DIN 43760 standard.")
        } else if str_eq(key, "prtcalc") {
            Some("**PRTCalc**\n\nConverts RTD resistance measurements to temperature using the Callendar-Van Dusen equation.")
        } else if str_eq(key, "moveprecise") {
            Some("**MovePrecise**\n\nTransfers a value into a variable as a high-precision (56-bit mantissa) number.")
        } else if str_eq(key, "addprecise") {
            Some("**AddPrecise**\n\nPerforms high-precision addition, reducing floating-point rounding error in running totals.")
        } else if str_eq(key, "pwr") {
            Some("**PWR**\n\nRaises X to the power of Y and returns a floating-point result.")
        } else if str_eq(key, "ctype") {
            Some("**CType**\n\nConverts an expression to a specified data type (Float, IEEE4, Long, String, or Double).")
        } else if str_eq(key, "avgrun") {
            Some("**AvgRun**\n\nComputes a running average over the last Number values of a measurement.")
        } else if str_eq(key, "maxrun") {
            Some("**MaxRun**\n\nComputes a running maximum over the last Number values of a measurement.")
        } else if str_eq(key, "minrun") {
            Some("**MinRun**\n\nComputes a running minimum over the last Number values of a measurement.")
        } else if str_eq(key, "totalrun") {
            Some("**TotalRun**\n\nComputes a running total over the last Number values of a measurement.")
        } else if str_eq(key, "avgspa") {
            Some("**AvgSpa**\n\nComputes the spatial average of a measurement across array elements.")
        } else if str_eq(key, "covspa") {
            Some("**CovSpa**\n\nComputes spatial covariance between a reference data set and one or more comparison data sets.")
        } else if str_eq(key, "maxspa") {
            Some("**MaxSpa**\n\nLocates the maximum value and its position within an array.")
        } else if str_eq(key, "rmsspa") {
            Some("**RMSSpa**\n\nComputes the spatial root-mean-square value across array elements.")
        } else if str_eq(key, "stddevspa") {
            Some("**StdDevSpa**\n\nComputes the spatial standard deviation across array elements.")
        } else if str_eq(key, "fftspa") {
            Some("**FFTSpa**\n\nPerforms a Fast Fourier Transform on time-series data, for use mid-program rather than as a table entry.")
        } else if str_eq(key, "serialinchk") {
            Some("**SerialInChk**\n\nReturns the number of characters currently available in the serial input buffer.")
        } else if str_eq(key, "setsecurity") {
            Some("**SetSecurity**\n\nEstablishes up to three hierarchical security levels restricting access to datalogger functions.")
        } else {
            None
        }
    }

    /// Returns the description for a keyword
    pub fn get_keyword_description(name: &str) -> (r: Option<&'static str>)
        ensures
            str_option_view(r) == keyword_descriptions(lowercase(name@)),
    {
        let lower = to_lowercase(name);
        let key = lower.as_str();
        if str_eq(key, "if") {
            Some("**If**\n\nConditional statement. Executes code block if condition is true.\n\n```crbasic\nIf condition Then\n  ' statements\nEndIf\n```")
        } else if str_eq(key, "then") {
            Some("**Then**\n\nPart of If statement. Follows the condition.")
        } else if str_eq(key, "else") {
            Some("**Else**\n\nAlternative branch in If statement. Executes when condition is false.")
        } else if str_eq(key, "elseif") {
            Some("**ElseIf**\n\nAdditional conditional branch in If statement.")
        } else if str_eq(key, "endif") {
            Some("**EndIf**\n\nTerminates an If block.")
        } else if str_eq(key, "#if") {
            Some("**#If**\n\nCompile-time conditional. Includes the following code only when the condition holds -- compared against `LoggerType` or a `Const`.\n\n```crbasic\n#If LoggerType = GRANITE6\n  ' statements\n#EndIf\n```")
        } else if str_eq(key, "#elseif") {
            Some("**#ElseIf**\n\nAdditional compile-time conditional branch, following `#If`.")
        } else if str_eq(key, "#else") {
            Some("**#Else**\n\nAlternative compile-time branch, following `#If`/`#IfDef`.")
        } else if str_eq(key, "#endif") {
            Some("**#EndIf**\n\nTerminates a `#If`/`#IfDef` block.")
        } else if str_eq(key, "#ifdef") {
            Some("**#IfDef**\n\nCompile-time check for whether a `Const` has already been declared.\n\n```crbasic\nConst FINAL = 1\n#IfDef FINAL Then\n  Public Testing\n#EndIf\n```")
        } else if str_eq(key, "#undef") {
            Some("**#UnDef**\n\nUn-declares a `Const` so it can be redeclared -- typically used with `Include` to stitch together library files that each define their own same-named constants.")
        } else if str_eq(key, "for") {
            Some("**For**\n\nLoop statement with counter.\n\n```crbasic\nFor i = 1 To 10 Step 1\n  ' statements\nNext i\n```")
        } else if str_eq(key, "to") {
            Some("**To**\n\nSpecifies the end value in a For loop.")
        } else if str_eq(key, "step") {
            Some("**Step**\n\nSpecifies the increment value in a For loop. Default is 1.")
        } else if str_eq(key, "next") {
            Some("**Next**\n\nTerminates a For loop and increments the counter.")
        } else if str_eq(key, "do") {
            Some("**Do**\n\nLoop statement.\n\n```crbasic\nDo While condition\n  ' statements\nLoop\n```")
        } else if str_eq(key, "loop") {
            Some("**Loop**\n\nTerminates a Do block.")
        } else if str_eq(key, "while") {
            Some("**While**\n\nLoop condition. Used with `Do`/`Loop`, or as the start of a standalone `While`/`Wend` loop.\n\n```crbasic\nWhile condition\n  ' statements\nWend\n```")
        } else if str_eq(key, "wend") {
            Some("**Wend**\n\nTerminates a While loop.")
        } else if str_eq(key, "until") {
            Some("**Until**\n\nLoop condition, the inverse of `While`. Used with `Do`/`Loop` at either the start or end of the block.\n\n```crbasic\nDo Until condition\n  ' statements\nLoop\n```")
        } else if str_eq(key, "exitfor") {
            Some("**ExitFor**\n\nImmediately exits a For loop.")
        } else if str_eq(key, "exitdo") {
            Some("**ExitDo**\n\nImmediately exits a Do loop.")
        } else if str_eq(key, "debugbreak") {
            Some("**DebugBreak**\n\nSuspends program execution at this line when running under the CRBasic debugger.")
        } else if str_eq(key, "restart") {
            Some("**Restart**\n\nStops and restarts the running program.")
        } else if str_eq(key, "select") {
            Some("**Select**\n\nMulti-way branch statement.\n\n```crbasic\nSelect Case expression\n  Case value1\n    ' statements\n  Case Else\n    ' default\nEndSelect\n```")
        } else if str_eq(key, "case") {
            Some("**Case**\n\nSpecifies a branch in a Select statement.")
        } else if str_eq(key, "is") {
            Some("**Is**\n\nUsed with a comparison operator in a Case clause (e.g. `Case Is > 10`).")
        } else if str_eq(key, "endselect") {
            Some("**EndSelect**\n\nTerminates a Select block.")
        } else if str_eq(key, "endmenu") {
            Some("**EndMenu**\n\nTerminates a `DisplayMenu` block.\n\n```crbasic\nDisplayMenu(\"MenuName\", 1, 1)\n  ' menu items\nEndMenu\n```")
        } else if str_eq(key, "endsubmenu") {
            Some("**EndSubMenu**\n\nTerminates a `SubMenu` block nested inside a `DisplayMenu`.")
        } else if str_eq(key, "nextscan") {
            Some("**NextScan**\n\nMarks the end of a Scan loop.")
        } else if str_eq(key, "continuescan") {
            Some("**ContinueScan**\n\nJumps to `NextScan`, skipping the remaining instructions in the current scan.")
        } else if str_eq(key, "nextsubscan") {
            Some("**NextSubScan**\n\nMarks the end of a SubScan block.")
        } else if str_eq(key, "slowsequence") {
            Some("**SlowSequence**\n\nBegins a slow sequence scan block, for measurements at a slower rate than the main scan.\n\n```crbasic\nSlowSequence\n  Scan(...)\n    ' statements\n  NextScan\nEndSequence\n```")
        } else if str_eq(key, "endsequence") {
            Some("**EndSequence**\n\nTerminates a SlowSequence block.")
        } else if str_eq(key, "waittriggersequence") {
            Some("**WaitTriggerSequence**\n\nMarks a resume-point inside a `SlowSequence`, suspending execution there until the trigger condition is met again.")
        } else if str_eq(key, "exitscan") {
            Some("**ExitScan**\n\nExits the current Scan loop immediately, regardless of the scan Count.")
        } else if str_eq(key, "public") {
            Some("**Public**\n\nDeclares a public (global) variable that can be monitored and logged.\n\n```crbasic\nPublic Temp_C As Float\n```")
        } else if str_eq(key, "dim") {
            Some("**Dim**\n\nDeclares a local (scratch) variable. Not accessible for monitoring.\n\n```crbasic\nDim i As Long\n```")
        } else if str_eq(key, "const") {
            Some("**Const**\n\nDeclares a constant value that cannot be changed.\n\n```crbasic\nConst PI = 3.14159\n```")
        } else if str_eq(key, "alias") {
            Some("**Alias**\n\nDefines an alternative name for a variable.")
        } else if str_eq(key, "as") {
            Some("**As**\n\nSpecifies the data type in a variable declaration.\n\nTypes: Float, Long, String, Boolean")
        } else if str_eq(key, "units") {
            Some("**Units**\n\nSpecifies the engineering units for a variable.")
        } else if str_eq(key, "readonly") {
            Some("**ReadOnly**\n\nMarks one or more previously declared `Public` variables as visible for monitoring but not externally editable.\n\n```crbasic\nPublic Mult, Offset\nReadOnly Mult, Offset\n```")
        } else if str_eq(key, "optional") {
            Some("**Optional**\n\nMarks a `Function`/`Sub` parameter as optional.\n\n```crbasic\nFunction Scale(a, Optional b)\n  ...\nEndFunction\n```")
        } else if str_eq(key, "include") {
            Some("**Include**\n\nPulls in an external CRBasic source file.\n\n```crbasic\nInclude \"cpu:Sensor_PT500_Lib.crb\"\n```")
        } else if str_eq(key, "beginprog") {
            Some("**BeginProg**\n\nMarks the start of the main program execution block.")
        } else if str_eq(key, "endprog") {
            Some("**EndProg**\n\nMarks the end of the main program execution block.")
        } else if str_eq(key, "sequentialmode") {
            Some("**SequentialMode**\n\nForces the datalogger to run in sequential execution mode. Placed before `BeginProg`.")
        } else if str_eq(key, "pipelinemode") {
            Some("**PipeLineMode**\n\nForces the datalogger to run in pipeline execution mode. Placed before `BeginProg`.")
        } else if str_eq(key, "preservevariables") {
            Some("**PreserveVariables**\n\nRetains the values of all `Dim`/`Public` variables in memory across a power loss. Placed before `BeginProg`.")
        } else if str_eq(key, "angledegrees") {
            Some("**AngleDegrees**\n\nSwitches `ATN`/`ATN2`/`ACOS`/`ASIN`/`RectPolar` to return degrees (instead of radians) and `COS`/`TAN`/`SIN` to interpret their arguments as degrees. Placed before `BeginProg`.")
        } else if str_eq(key, "applyandrestartsequence") {
            Some("**ApplyAndRestartSequence**\n\nRuns arbitrary code when the `ConstTable` it follows has its `ApplyAndRestart` setting externally set (e.g. via `SetSetting`), typically to validate the table's new constant values before triggering the restart itself. Declared after the `ConstTable` it applies to, both before `BeginProg`.\n\n```crbasic\nConstTable(TableName, Hidden)\n  Const A = 1\nEndConstTable\nApplyAndRestartSequence\n  ' validation code\n  SetSetting(\"TableName.ApplyAndRestart\", 1)\nEndApplyAndRestartSequence\n```")
        } else if str_eq(key, "endapplyandrestartsequence") {
            Some("**EndApplyAndRestartSequence**\n\nTerminates an ApplyAndRestartSequence block.")
        } else if str_eq(key, "shutdownbegin") {
            Some("**ShutDownBegin**\n\nRuns cleanup code (e.g. closing a serial port) when the program stops normally. Placed before `BeginProg`.\n\n```crbasic\nShutDownBegin\n  SerialClose(ComC1)\nShutDownEnd\n```")
        } else if str_eq(key, "shutdownend") {
            Some("**ShutDownEnd**\n\nTerminates a ShutDownBegin block.")
        } else if str_eq(key, "essinitialize") {
            Some("**ESSInitialize**\n\nInitializes the NTCIP Environmental Sensor Station SNMP agent for roadway-weather/DOT telemetry programs. Takes an optional SNMP read/write community string. Placed directly after `BeginProg`.\n\n```crbasic\nBeginProg\n  ESSInitialize(\"private, public\")\nEndProg\n```")
        } else if str_eq(key, "essvariables") {
            Some("**ESSVariables**\n\nAuto-declares the standard set of NTCIP Environmental Sensor Station variables (used with `ESSInitialize` for roadway-weather/DOT telemetry programs). Takes an optional `Public` or `Dim` modifier (defaults to `Public`).\n\n```crbasic\nESSVariables Dim\n```")
        } else if str_eq(key, "webpageend") {
            Some("**WebPageEnd**\n\nTerminates a `WebPageBegin` block.\n\n```crbasic\nWebPageBegin(\"Page1\", 1)\n  HTTPOut(\"Hello\", \"text/html\")\nWebPageEnd\n```")
        } else if str_eq(key, "endmodemhangup") {
            Some("**EndModemHangup**\n\nTerminates a `ModemHangup` block.\n\n```crbasic\nModemHangup(ComC1)\n  ' cleanup instructions\nEndModemHangup\n```")
        } else if str_eq(key, "voicebeg") {
            Some("**VoiceBeg**\n\nBegins a block of voice-modem response code.\n\n```crbasic\nVoiceBeg\n  ' voice response instructions\nEndVoice\n```")
        } else if str_eq(key, "endvoice") {
            Some("**EndVoice**\n\nTerminates a VoiceBeg block.")
        } else if str_eq(key, "datatable") {
            Some("**DataTable**\n\nDefines a data table for storing measurements.\n\n```crbasic\nDataTable(TableName, TriggerCondition, Size)\n  ' output instructions\nEndTable\n```")
        } else if str_eq(key, "endtable") {
            Some("**EndTable**\n\nTerminates a DataTable block.")
        } else if str_eq(key, "tablehide") {
            Some("**TableHide**\n\nSuppresses the display and data collection of this DataTable in datalogger memory. Placed immediately after the DataTable statement.")
        } else if str_eq(key, "openinterval") {
            Some("**OpenInterval**\n\nMakes time series processing include all measurements since the last data storage, spanning any missed output intervals, instead of only the current interval.")
        } else if str_eq(key, "fillstop") {
            Some("**FillStop**\n\nStops data storage once this DataTable reaches its configured size, instead of the default ring-memory behavior of overwriting the oldest records. Used within the DataTable declaration.")
        } else if str_eq(key, "calltable") {
            Some("**CallTable**\n\nInvokes a previously declared DataTable: checks its trigger condition and stores a record if it fires. A bare keyword, not a parenthesized call.\n\n```crbasic\nCallTable TableName\n```")
        } else if str_eq(key, "consttable") {
            Some("**ConstTable**\n\nDefines a block of constants that field technicians can edit and recompile without touching the constants' use sites. The second parameter, `Hidden`, is 1 to create a table visible only at the highest security level, or 0 (or omitted) for a standard visible table.\n\n```crbasic\nConstTable(TableName, Hidden)\n  Const A = 1\nEndConstTable\n```")
        } else if str_eq(key, "structuretype") {
            Some("**StructureType**\n\nDefines a reusable data structure. Instances are declared with `Public`/`Dim ... As TypeName` and members are accessed with dot notation.\n\n```crbasic\nStructureType TempRHSensor\n  Temp As Float\n  RH As Float\nEndStructureType\n\nPublic CS215(3) As TempRHSensor\n' CS215(1).Temp\n```")
        } else if str_eq(key, "endstructuretype") {
            Some("**EndStructureType**\n\nTerminates a StructureType block.")
        } else if str_eq(key, "endconsttable") {
            Some("**EndConstTable**\n\nTerminates a ConstTable block.")
        } else if str_eq(key, "function") {
            Some("**Function**\n\nDefines a user-defined function that returns a value.\n\n```crbasic\nFunction MyFunc(param As Float) As Float\n  MyFunc = param * 2\nEndFunction\n```")
        } else if str_eq(key, "endfunction") {
            Some("**EndFunction**\n\nTerminates a Function block.")
        } else if str_eq(key, "return") {
            Some("**Return**\n\nReturns a value from a Function and exits it immediately.\n\n```crbasic\nReturn(expression)\n```")
        } else if str_eq(key, "exitfunction") {
            Some("**ExitFunction**\n\nExits a Function immediately.")
        } else if str_eq(key, "sub") {
            Some("**Sub**\n\nDefines a subroutine (procedure without return value).\n\n```crbasic\nSub MySub(ByRef param As Float)\n  param = param * 2\nEndSub\n```")
        } else if str_eq(key, "endsub") {
            Some("**EndSub**\n\nTerminates a Sub block.")
        } else if str_eq(key, "exit") {
            Some("**Exit**\n\nUsed with `Sub` to exit a Subroutine immediately: `Exit Sub`.")
        } else if str_eq(key, "call") {
            Some("**Call**\n\nInvokes a subroutine. Optional -- `Call MySub(x, y)` behaves the same as `MySub(x, y)`.\n\n```crbasic\nCall MySub(x, y)\n```")
        } else if str_eq(key, "and") {
            Some("**AND**\n\nLogical AND operator. Returns true if both operands are true.")
        } else if str_eq(key, "or") {
            Some("**OR**\n\nLogical OR operator. Returns true if either operand is true.")
        } else if str_eq(key, "not") {
            Some("**NOT**\n\nLogical NOT operator. Negates a boolean value.")
        } else if str_eq(key, "xor") {
            Some("**XOR**\n\nLogical XOR operator. Returns true if exactly one operand is true.")
        } else if str_eq(key, "mod") {
            Some("**MOD**\n\nModulo operator. Returns the remainder of `A / B`. Operands can be any number, not just integers (e.g. `19 MOD 6.7` = `5.6`).")
        } else if str_eq(key, "imp") {
            Some("**IMP**\n\nLogical implication operator. `A IMP B` is equivalent to `(NOT A) OR B`.")
        } else if str_eq(key, "eqv") {
            Some("**EQV**\n\nLogical equivalence operator. `A EQV B` is true when A and B have the same truth value (equivalent to `NOT (A XOR B)`).")
        } else if str_eq(key, "intdv") {
            Some("**INTDV**\n\nInteger division operator. Keyword-form synonym for `\\`: `A INTDV B` divides A by B and truncates to an integer.")
        } else if str_eq(key, "true") {
            Some("**True**\n\nBoolean literal representing true (-1 in CRBasic).")
        } else if str_eq(key, "false") {
            Some("**False**\n\nBoolean literal representing false (0 in CRBasic).")
        } else {
            None
        }
    }
}

/// Description of a built-in function of any category, by lowercase name.
pub open spec fn builtin_function_descriptions(key: Seq<char>) -> Option<Seq<char>> {
    first_of(
        scan_function_descriptions(key),
        first_of(
            measurement_function_descriptions(key),
            first_of(
                communication_function_descriptions(key),
                first_of(
                    data_function_descriptions(key),
                    first_of(
                        string_function_descriptions(key),
                        first_of(
                            math_function_descriptions(key),
                            first_of(
                                time_function_descriptions(key),
                                first_of(
                                    logical_function_descriptions(key),
                                    menu_function_descriptions(key),
                                ),
                            ),
                        ),
                    ),
                ),
            ),
        ),
    )
}

/// Description of an identifier: a data type, an output-processing data
/// type, the `LoggerType` constant, or a built-in function.
pub open spec fn identifier_description(name: Seq<char>) -> Option<Seq<char>> {
    let key = lowercase(name);
    first_of(
        data_type_descriptions(key),
        first_of(
            output_processing_data_type_descriptions(key),
            first_of(preprocessor_constant_descriptions(key), builtin_function_descriptions(key)),
        ),
    )
}

/// Description of a token: keywords and identifiers have one, other tokens none.
pub open spec fn token_description(t: Token) -> Option<Seq<char>> {
    match t.kind {
        TokenKind::Keyword(kw) => keyword_descriptions(lowercase(kw@)),
        TokenKind::Identifier(name) => identifier_description(name@),
        TokenKind::Other => None,
    }
}

/// Whether `h` is the Markdown hover showing `text` over `range`.
pub open spec fn is_hover(h: Hover, text: Seq<char>, range: Option<Range>) -> bool {
    h.contents.kind == MarkupKind::Markdown && h.contents.value@ == text && h.range == range
}

impl HoverProvider {
    /// Returns hover information for the token at the given position:
    /// the first token containing it, if it has a description.
    pub fn get_hover_at_position(tokens: &[Token], position: Position) -> (r: Option<Hover>)
        ensures
            match token_index_at(tokens@, position, false) {
                None => r is None,
                Some(i) => match token_description(tokens@[i]) {
                    None => r is None,
                    Some(d) => r matches Some(h) && is_hover(
                        h,
                        d,
                        Some(lsp_range(tokens@[i].span)),
                    ),
                },
            },
    {
        let i = match find_token_index(tokens, position, false) {
            Some(i) => i,
            None => return None,
        };
        Self::get_hover_for_token(&tokens[i])
    }

    /// Returns hover information for a token.
    fn get_hover_for_token(token: &Token) -> (r: Option<Hover>)
        ensures
            match token_description(*token) {
                None => r is None,
                Some(d) => r matches Some(h) && is_hover(h, d, Some(lsp_range(token.span))),
            },
    {
        let description = match &token.kind {
            TokenKind::Keyword(kw) => Self::get_keyword_description(kw.as_str()),
            // Data type names (Float, Long, FP2, ...) and `LoggerType` are
            // lexed as plain identifiers, not keywords.
            TokenKind::Identifier(name) => {
                let n = name.as_str();
                match Self::get_data_type_description(n) {
                    Some(d) => Some(d),
                    None => match Self::get_output_processing_data_type_description(n) {
                        Some(d) => Some(d),
                        None => match Self::get_preprocessor_constant_description(n) {
                            Some(d) => Some(d),
                            None => Self::get_builtin_function_description(n),
                        },
                    },
                }
            },
            TokenKind::Other => None,
        };
        match description {
            Some(d) => Some(
                Hover {
                    contents: markdown(owned(d)),
                    range: Some(Self::token_to_lsp_range(token)),
                },
            ),
            None => None,
        }
    }

    /// Returns the description for a built-in function name (any category),
    /// or `None` if `name` isn't one (e.g. an ordinary variable name).
    pub fn get_builtin_function_description(name: &str) -> (r: Option<&'static str>)
        ensures
            str_option_view(r) == builtin_function_descriptions(lowercase(name@)),
    {
        if let Some(d) = Self::get_scan_function_description(name) {
            return Some(d);
        }
        if let Some(d) = Self::get_measurement_function_description(name) {
            return Some(d);
        }
        if let Some(d) = Self::get_communication_function_description(name) {
            return Some(d);
        }
        if let Some(d) = Self::get_data_function_description(name) {
            return Some(d);
        }
        if let Some(d) = Self::get_string_function_description(name) {
            return Some(d);
        }
        if let Some(d) = Self::get_math_function_description(name) {
            return Some(d);
        }
        if let Some(d) = Self::get_time_function_description(name) {
            return Some(d);
        }
        if let Some(d) = Self::get_logical_function_description(name) {
            return Some(d);
        }
        Self::get_menu_function_description(name)
    }

    /// Converts a token's span to a protocol range.
    fn token_to_lsp_range(token: &Token) -> (r: Range)
        ensures
            r == lsp_range(token.span),
    {
        span_to_range(token.span)
    }

    /// Returns hover information for a keyword (case-insensitive), without
    /// a range; `None` if the keyword is not recognized.
    pub fn get_keyword_hover(keyword: &str) -> (r: Option<Hover>)
        ensures
            match keyword_descriptions(lowercase(keyword@)) {
                None => r is None,
                Some(d) => r matches Some(h) && is_hover(h, d, None),
            },
    {
        match Self::get_keyword_description(keyword) {
            Some(d) => Some(Hover { contents: markdown(owned(d)), range: None }),
            None => None,
        }
    }
}

/// Hover lookup ignores case: keywords with the same lowercase form get the
/// same hover text.
pub proof fn keyword_hover_ignores_case(a: &str, b: &str)
    requires
        lowercase(a@) == lowercase(b@),
    ensures
        keyword_descriptions(lowercase(a@)) == keyword_descriptions(lowercase(b@)),
        identifier_description(a@) == identifier_description(b@),
{
}

} // verus!

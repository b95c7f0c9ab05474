//! The decisions the language server makes around its providers: turning
//! semantic errors into diagnostics (with the quick-fix payload they carry
//! back), and locating the cursor of a signature-help request in the text.
use crate::code_action::TruncateVariableNameData;
use crate::protocol::{
    option_text, Diagnostic, DiagnosticSeverity, DiagnosticView, Position as LspPosition, Range,
    SignatureHelp,
};
use crate::signature::{
    bytes_before, enclosing_function_name, function_name_at_cursor, cursor_on_char_boundary, checked_count_parameters_before_cursor,
    signature_table, SignatureProvider, active_parameter_index, presents_signature,
};
use crate::syntax::{lsp_range, span_to_range, ErrorSeverity, SemanticError, SemanticErrorKind};
use crate::text::{lowercase, owned};
use vstd::prelude::*;
use vstd::string::StringSliceAdditionalSpecFns;

verus! {

/// The name the server reports its diagnostics under.
pub open spec fn diagnostic_source() -> Seq<char> {
    "crbasic-lsp"@
}

/// The code of the diagnostics that offer the truncation quick fix.
pub open spec fn truncate_code() -> Seq<char> {
    "truncate-variable-name"@
}

/// The diagnostic code and quick-fix payload of an error kind: an
/// over-long name (beyond the maximum or the recommended length) gets the
/// truncation payload for that length; a truncation collision gets none.
pub open spec fn quick_fix_of(kind: SemanticErrorKind) -> (Option<Seq<char>>, Option<
    (Seq<char>, usize),
>) {
    match kind {
        SemanticErrorKind::MaxLengthExceeded { variable_name, max_length } => (
            Some(truncate_code()),
            Some((variable_name@, max_length)),
        ),
        SemanticErrorKind::RecommendedLengthExceeded { variable_name, recommended_length } => (
            Some(truncate_code()),
            Some((variable_name@, recommended_length)),
        ),
        SemanticErrorKind::TruncationCollision { .. } => (None, None),
    }
}

/// The diagnostic of a semantic error.
pub open spec fn diagnostic_of(e: SemanticError) -> DiagnosticView {
    DiagnosticView {
        range: lsp_range(e.span),
        severity: Some(
            match e.severity {
                ErrorSeverity::Error => DiagnosticSeverity::Error,
                ErrorSeverity::Warning => DiagnosticSeverity::Warning,
            },
        ),
        code: quick_fix_of(e.kind).0,
        source: Some(diagnostic_source()),
        message: e.message@,
        data: quick_fix_of(e.kind).1,
    }
}

/// Builds the diagnostic code and quick-fix payload of a semantic error kind.
pub fn code_action_data(kind: &SemanticErrorKind) -> (r: (
    Option<String>,
    Option<TruncateVariableNameData>,
))
    ensures
        option_text(r.0) == quick_fix_of(*kind).0,
        match (r.1, quick_fix_of(*kind).1) {
            (Some(d), Some((name, n))) => d.variable_name@ == name && d.target_length == n,
            (None, None) => true,
            _ => false,
        },
{
    match kind {
        SemanticErrorKind::MaxLengthExceeded { variable_name, max_length } => (
            Some(owned("truncate-variable-name")),
            Some(
                TruncateVariableNameData {
                    variable_name: owned(variable_name.as_str()),
                    target_length: *max_length,
                },
            ),
        ),
        SemanticErrorKind::RecommendedLengthExceeded { variable_name, recommended_length } => (
            Some(owned("truncate-variable-name")),
            Some(
                TruncateVariableNameData {
                    variable_name: owned(variable_name.as_str()),
                    target_length: *recommended_length,
                },
            ),
        ),
        SemanticErrorKind::TruncationCollision { .. } => (None, None),
    }
}

/// Converts semantic errors to diagnostics, one for each, in order.
pub fn semantic_errors_to_diagnostics(errors: &[SemanticError]) -> (r: Vec<Diagnostic>)
    ensures
        r@.len() == errors@.len(),
        forall|i: int| 0 <= i < r@.len() ==> (#[trigger] r@[i])@ == diagnostic_of(errors@[i]),
{
    let mut diagnostics: Vec<Diagnostic> = Vec::new();
    let mut i: usize = 0;
    while i < errors.len()
        invariant
            i <= errors@.len(),
            diagnostics@.len() == i,
            forall|k: int|
                0 <= k < i ==> (#[trigger] diagnostics@[k])@ == diagnostic_of(errors@[k]),
        decreases errors@.len() - i,
    {
        let error = &errors[i];
        let severity = match error.severity {
            ErrorSeverity::Error => DiagnosticSeverity::Error,
            ErrorSeverity::Warning => DiagnosticSeverity::Warning,
        };
        let (code, data) = code_action_data(&error.kind);
        diagnostics.push(
            Diagnostic {
                range: span_to_range(error.span),
                severity: Some(severity),
                code,
                source: Some(owned("crbasic-lsp")),
                message: owned(error.message.as_str()),
                data,
            },
        );
        i += 1;
    }
    diagnostics
}

/// The diagnostic published when a document cannot be analyzed at all: an
/// error at the very start of the document carrying the failure message.
pub fn analysis_failure_diagnostic(message: String) -> (r: Diagnostic)
    ensures
        r@ == (DiagnosticView {
            range: Range {
                start: LspPosition { line: 0, character: 0 },
                end: LspPosition { line: 0, character: 0 },
            },
            severity: Some(DiagnosticSeverity::Error),
            code: None,
            source: Some(diagnostic_source()),
            message: message@,
            data: None,
        }),
{
    let origin = LspPosition { line: 0, character: 0 };
    Diagnostic {
        range: Range { start: origin, end: origin },
        severity: Some(DiagnosticSeverity::Error),
        code: None,
        source: Some(owned("crbasic-lsp")),
        message,
        data: None,
    }
}

// ---------------------------------------------------------------------------
// Locating the cursor of a signature-help request
// ---------------------------------------------------------------------------

/// The index of the first newline byte of `b`.
pub open spec fn first_newline(b: Seq<u8>) -> Option<int>
    decreases b.len(),
{
    if b.len() == 0 {
        None
    } else {
        match first_newline(b.drop_last()) {
            Some(k) => Some(k),
            None => if b.last() == 10 {
                Some(b.len() - 1)
            } else {
                None
            },
        }
    }
}

/// The byte length of the line that ends at the newline at `k`, without a
/// carriage return before that newline (as `str::lines` gives it).
pub open spec fn line_length(b: Seq<u8>, k: int) -> int {
    if k > 0 && b[k - 1] == 13 {
        k - 1
    } else {
        k
    }
}

/// The byte offset of (`line`, `character`) in a text whose bytes are `b`:
/// the lengths of the lines before `line`, each plus one, then
/// `character`; past the last line, the lengths of all lines, each plus one.
pub open spec fn offset_of(b: Seq<u8>, line: nat, character: nat) -> nat
    decreases b.len(),
{
    match first_newline(b) {
        None => if b.len() == 0 {
            0
        } else if line == 0 {
            character
        } else {
            b.len() + 1
        },
        Some(k) => if line == 0 {
            character
        } else {
            proof {
                lemma_first_newline_bounds(b);
            }
            (line_length(b, k) + 1 + offset_of(b.skip(k + 1), (line - 1) as nat, character)) as nat
        },
    }
}

proof fn lemma_first_newline(b: Seq<u8>, k: int)
    requires
        0 <= k <= b.len(),
        forall|j: int| 0 <= j < k ==> b[j] != 10,
        k == b.len() || b[k] == 10,
    ensures
        first_newline(b) == if k == b.len() {
            None::<int>
        } else {
            Some(k)
        },
    decreases b.len(),
{
    if b.len() > 0 {
        if k == b.len() {
            lemma_first_newline(b.drop_last(), k - 1);
        } else if k < b.len() - 1 {
            lemma_first_newline(b.drop_last(), k);
        } else {
            lemma_first_newline(b.drop_last(), k);
        }
    }
}

proof fn lemma_offset_bound(b: Seq<u8>, line: nat, character: nat)
    ensures
        offset_of(b, line, character) <= b.len() + 1 + character,
    decreases b.len(),
{
    if let Some(k) = first_newline(b) {
        lemma_first_newline_bounds(b);
        if line > 0 {
            lemma_offset_bound(b.skip(k + 1), (line - 1) as nat, character);
        }
    }
}

/// The first newline, when there is one, lies in `b`.
pub proof fn lemma_first_newline_bounds(b: Seq<u8>)
    ensures
        first_newline(b) matches Some(k) ==> 0 <= k < b.len() && b[k] == 10,
    decreases b.len(),
{
    if b.len() > 0 {
        lemma_first_newline_bounds(b.drop_last());
    }
}

/// The byte offset of a protocol position in `text`, counting each line as
/// `str::lines` gives it plus one byte for its line ending.
pub fn cursor_offset(text: &str, position: LspPosition) -> (r: usize)
    requires
        text.spec_bytes().len() + 1 + u32::MAX <= usize::MAX,
    ensures
        r == offset_of(text.spec_bytes(), position.line as nat, position.character as nat),
{
    let bytes = text.as_bytes();
    let ghost b = bytes@;
    let n = bytes.len();
    let mut offset: usize = 0;
    let mut line: u32 = 0;
    let mut pos: usize = 0;
    proof {
        assert(b.skip(0) =~= b);
        lemma_offset_bound(b, position.line as nat, position.character as nat);
    }
    while pos < n
        invariant
            b == text.spec_bytes(),
            bytes@ == b,
            n == b.len(),
            pos <= n,
            line <= position.line,
            n + 1 + u32::MAX <= usize::MAX,
            offset + offset_of(b.skip(pos as int), (position.line - line) as nat, position.character as nat)
                == offset_of(b, position.line as nat, position.character as nat),
            offset + offset_of(b.skip(pos as int), (position.line - line) as nat, position.character as nat)
                <= n + 1 + u32::MAX,
            offset <= pos + line,
        decreases n - pos,
    {
        let ghost rest = b.skip(pos as int);
        if line == position.line {
            proof {
                assert(rest.len() > 0);
                lemma_first_newline_bounds(rest);
            }
            return offset + position.character as usize;
        }
        let mut end = pos;
        while end < n && bytes[end] != 10
            invariant
                b == text.spec_bytes(),
                bytes@ == b,
                n == b.len(),
                pos <= end <= n,
                forall|j: int| pos <= j < end ==> b[j] != 10,
            decreases n - end,
        {
            end += 1;
        }
        proof {
            assert forall|j: int| 0 <= j < end - pos implies rest[j] != 10 by {
                assert(rest[j] == b[pos + j]);
            }
            if end < n {
                assert(rest[end - pos] == b[end as int]);
            }
            lemma_first_newline(rest, end - pos);
        }
        let length = if end > pos && bytes[end - 1] == 13 {
            end - 1 - pos
        } else {
            end - pos
        };
        if end == n {
            proof {
                assert(offset_of(rest, (position.line - line) as nat, position.character as nat)
                    == rest.len() + 1);
                lemma_offset_bound(b.skip(n as int), 0, 0);
                assert(b.skip(n as int) =~= Seq::<u8>::empty());
            }
            offset = offset + (n - pos) + 1;
            pos = n;
            line = position.line;
            proof {
                assert(offset_of(b.skip(pos as int), 0, position.character as nat) == 0);
            }
        } else {
            proof {
                if end > pos {
                    assert(rest[end - pos - 1] == b[end - 1]);
                }
                assert(line_length(rest, end - pos) == length);
                assert(rest.skip(end - pos + 1) =~= b.skip(end + 1));
            }
            offset = offset + length + 1;
            pos = end + 1;
            line = line + 1;
        }
    }
    proof {
        assert(b.skip(pos as int) =~= Seq::<u8>::empty());
    }
    offset
}

/// The signature help at a protocol position of `text`: the signature of
/// the function whose argument list encloses the cursor, with the argument
/// the cursor is in.
pub open spec fn signature_help_spec(text: &str, position: LspPosition) -> Option<(Seq<char>, int)> {
    let before = bytes_before(
        text,
        offset_of(text.spec_bytes(), position.line as nat, position.character as nat) as usize,
    );
    match enclosing_function_name(before) {
        Some(name) => Some((name, active_parameter_index(before))),
        None => None,
    }
}

/// Whether the signature help at `position` can be computed: the cursor
/// offset fits the machine and starts a character, and, when a call
/// encloses the cursor, the index of the argument it is in fits a `u32`.
pub open spec fn signature_help_computable(text: &str, position: LspPosition) -> bool {
    let offset = offset_of(text.spec_bytes(), position.line as nat, position.character as nat);
    let before = bytes_before(text, offset as usize);
    &&& text.spec_bytes().len() + 1 + u32::MAX <= usize::MAX
    &&& cursor_on_char_boundary(text, offset as usize)
    &&& enclosing_function_name(before) is Some ==> active_parameter_index(before) <= u32::MAX
}

/// The signature help at a protocol position of `text`: the signature of
/// the function whose argument list encloses the cursor, with the argument
/// the cursor is in marked active; `None` when no recognized function's
/// argument list encloses the cursor.
pub fn signature_help_at(text: &str, position: LspPosition) -> (r: Option<SignatureHelp>)
    requires
        signature_help_computable(text, position),
    ensures
        match signature_help_spec(text, position) {
            None => r is None,
            Some((name, active)) => {
                &&& r is Some <==> signature_table(lowercase(name)) is Some
                &&& r matches Some(help) ==> {
                    &&& help.signatures@.len() == 1
                    &&& presents_signature(help.signatures@[0], signature_table(lowercase(name))->0)
                    &&& help.active_signature == Some(0u32)
                    &&& help.active_parameter == Some(active as u32)
                }
            },
        },
{
    let offset = cursor_offset(text, position);
    match SignatureProvider::extract_function_name(text, offset) {
        Some(name) => {
            let active = SignatureProvider::count_parameters_before_cursor(text, offset);
            SignatureProvider::get_signature_help(name.as_str(), active)
        },
        None => None,
    }
}

/// The signature help at a protocol position, or `None` when it cannot be
/// computed (see `signature_help_computable`).
pub fn checked_signature_help_at(text: &str, position: LspPosition) -> (r: Option<
    Option<SignatureHelp>,
>)
    ensures
        r is Some <==> signature_help_computable(text, position),
        r matches Some(help) ==> match signature_help_spec(text, position) {
            None => help is None,
            Some((name, active)) => {
                &&& help is Some <==> signature_table(lowercase(name)) is Some
                &&& help matches Some(h) ==> {
                    &&& h.signatures@.len() == 1
                    &&& presents_signature(h.signatures@[0], signature_table(lowercase(name))->0)
                    &&& h.active_signature == Some(0u32)
                    &&& h.active_parameter == Some(active as u32)
                }
            },
        },
{
    let length = text.as_bytes().len();
    if length as u128 + 1 + 0xffff_ffffu128 > usize::MAX as u128 {
        return None;
    }
    let offset = cursor_offset(text, position);
    let name = match function_name_at_cursor(text, offset) {
        None => return None,
        Some(name) => name,
    };
    if name.is_some() && checked_count_parameters_before_cursor(text, offset).is_none() {
        return None;
    }
    Some(signature_help_at(text, position))
}

} // verus!

//! Code actions: the "truncate this variable name" quick fix offered for a
//! diagnostic that carries a [`TruncateVariableNameData`] payload. The
//! payload is what the analyzer computed when the diagnostic was published
//! (see `crate::backend`); this module only reads it back.
use crate::protocol::{
    CodeAction, CodeActionKind, Diagnostic, DiagnosticView, Range, TextEdit, WorkspaceEdit,
};
use crate::references::{reference_spans, ReferencesProvider};
use crate::syntax::{lsp_range, span_to_range, Span, Token};
use crate::text::{count_string, decimal_digits, owned};
use vstd::prelude::*;
use vstd::string::StrSliceExecFns;

verus! {

/// The payload of a diagnostic for an over-long variable name.
#[derive(Debug, Clone, PartialEq, Eq)]
pub struct TruncateVariableNameData {
    /// The over-long variable name to rename
    pub variable_name: String,
    /// The length to truncate the name to
    pub target_length: usize,
}

/// Provides Code Action (quick fix) functionality.
pub struct CodeActionProvider;

/// The first `n` characters of `name` (all of it when it is shorter).
pub open spec fn truncated(name: Seq<char>, n: usize) -> Seq<char> {
    if n < name.len() {
        name.take(n as int)
    } else {
        name
    }
}

/// The title of the quick fix.
pub open spec fn truncate_title(name: Seq<char>, new_name: Seq<char>, n: usize) -> Seq<char> {
    "Truncate '"@ + name + "' to '"@ + new_name + "' ("@ + decimal_digits(n as nat)
        + " characters)"@
}

/// Whether `edits` replace each of `spans`, in order, by `new_text`.
pub open spec fn replaces_each(spans: Seq<Span>, new_text: Seq<char>, edits: Seq<TextEdit>) -> bool {
    &&& edits.len() == spans.len()
    &&& forall|i: int|
        0 <= i < spans.len() ==> (#[trigger] edits[i]).range == lsp_range(spans[i])
            && edits[i].new_text@ == new_text
}

/// Whether `action` is the quick fix for diagnostic `d` (whose payload
/// names `name` and length `n`) in document `uri`: it renames every
/// occurrence of `name` to its truncation, in that one document.
pub open spec fn is_truncate_action(
    action: CodeAction,
    d: DiagnosticView,
    name: Seq<char>,
    n: usize,
    tokens: Seq<Token>,
    uri: Seq<char>,
) -> bool {
    let new_name = truncated(name, n);
    &&& action.title@ == truncate_title(name, new_name, n)
    &&& action.kind == Some(CodeActionKind::QuickFix)
    &&& action.diagnostics matches Some(ds) && ds@.len() == 1 && ds@[0]@ == d
    &&& action.edit matches Some(e) && e.changes@.len() == 1 && e.changes@[0].0@ == uri
        && replaces_each(reference_spans(tokens, name), new_name, e.changes@[0].1@)
    &&& action.is_preferred == Some(true)
}

/// Whether `action` is the quick fix of diagnostic `d` in document `uri`.
pub open spec fn fixes(action: CodeAction, d: DiagnosticView, tokens: Seq<Token>, uri: Seq<char>) -> bool {
    match d.data {
        Some(payload) => is_truncate_action(action, d, payload.0, payload.1, tokens, uri),
        None => false,
    }
}

/// When a diagnostic gets a quick fix: it carries a payload whose
/// truncation is neither empty nor the whole name, and the name occurs in
/// the document.
pub open spec fn has_truncate_action(d: DiagnosticView, tokens: Seq<Token>) -> bool {
    d.data matches Some((name, n)) && truncated(name, n).len() > 0 && truncated(name, n) != name
        && reference_spans(tokens, name).len() > 0
}

/// The quick fixes of a list of diagnostics: one for each that gets one,
/// in order.
pub open spec fn actions_for(
    diagnostics: Seq<DiagnosticView>,
    tokens: Seq<Token>,
) -> Seq<DiagnosticView>
    decreases diagnostics.len(),
{
    if diagnostics.len() == 0 {
        Seq::empty()
    } else if has_truncate_action(diagnostics.last(), tokens) {
        actions_for(diagnostics.drop_last(), tokens).push(diagnostics.last())
    } else {
        actions_for(diagnostics.drop_last(), tokens)
    }
}

/// A copy of a diagnostic.
fn copy_diagnostic(d: &Diagnostic) -> (r: Diagnostic)
    ensures
        r@ == d@,
{
    Diagnostic {
        range: d.range,
        severity: d.severity,
        code: match &d.code {
            Some(c) => Some(owned(c.as_str())),
            None => None,
        },
        source: match &d.source {
            Some(s) => Some(owned(s.as_str())),
            None => None,
        },
        message: owned(d.message.as_str()),
        data: match &d.data {
            Some(data) => Some(
                TruncateVariableNameData {
                    variable_name: owned(data.variable_name.as_str()),
                    target_length: data.target_length,
                },
            ),
            None => None,
        },
    }
}

impl CodeActionProvider {
    /// Builds one quick fix for each diagnostic that carries a
    /// [`TruncateVariableNameData`] payload it can act on, in order.
    pub fn get_code_actions(tokens: &[Token], diagnostics: &[Diagnostic], uri: &str) -> (r: Vec<
        CodeAction,
    >)
        ensures
            ({
                let fixed = actions_for(diagnostics@.map_values(|d: Diagnostic| d@), tokens@);
                &&& r@.len() == fixed.len()
                &&& forall|i: int|
                    0 <= i < r@.len() ==> fixes(#[trigger] r@[i], fixed[i], tokens@, uri@)
            }),
    {
        let ghost views = diagnostics@.map_values(|d: Diagnostic| d@);
        let mut actions: Vec<CodeAction> = Vec::new();
        let mut i: usize = 0;
        while i < diagnostics.len()
            invariant
                i <= diagnostics@.len(),
                views == diagnostics@.map_values(|d: Diagnostic| d@),
                ({
                    let fixed = actions_for(views.take(i as int), tokens@);
                    &&& actions@.len() == fixed.len()
                    &&& forall|k: int|
                        0 <= k < actions@.len() ==> fixes(#[trigger] actions@[k], fixed[k], tokens@, uri@)
                }),
            decreases diagnostics@.len() - i,
        {
            proof {
                assert(views.take(i + 1).drop_last() =~= views.take(i as int));
                assert(views.take(i + 1).last() == diagnostics@[i as int]@);
            }
            let ghost prev_fixed = actions_for(views.take(i as int), tokens@);
            let ghost prev_actions = actions@;
            if let Some(action) = Self::truncate_variable_name_action(tokens, &diagnostics[i], uri) {
                let ghost act = action;
                actions.push(action);
                proof {
                    let f = actions_for(views.take(i + 1), tokens@);
                    assert(f == prev_fixed.push(views[i as int]));
                    assert(actions@[prev_actions.len() as int] == act);
                    assert forall|k: int| 0 <= k < actions@.len() implies fixes(
                        #[trigger] actions@[k],
                        f[k],
                        tokens@,
                        uri@,
                    ) by {
                        if k < prev_actions.len() {
                            assert(actions@[k] == prev_actions[k]);
                            assert(f[k] == prev_fixed[k]);
                        }
                    }
                }
            } else {
                proof {
                    assert(actions_for(views.take(i + 1), tokens@) == prev_fixed);
                }
            }
            i += 1;
        }
        proof {
            assert(views.take(i as int) =~= views);
        }
        actions
    }

    /// The "truncate this variable name" quick fix for one diagnostic, if
    /// it carries a payload, the truncated name is neither empty nor the
    /// whole name, and the name occurs in the document.
    fn truncate_variable_name_action(tokens: &[Token], diagnostic: &Diagnostic, uri: &str) -> (r:
        Option<CodeAction>)
        ensures
            match r {
                Some(action) => has_truncate_action(diagnostic@, tokens@) && fixes(
                    action,
                    diagnostic@,
                    tokens@,
                    uri@,
                ),
                None => !has_truncate_action(diagnostic@, tokens@),
            },
    {
        let data = match &diagnostic.data {
            Some(d) => d,
            None => return None,
        };
        let name = data.variable_name.as_str();
        let length = name.unicode_len();
        let keep = if data.target_length < length {
            data.target_length
        } else {
            length
        };
        let new_name = owned(name.substring_char(0, keep));
        proof {
            if data.target_length >= length {
                assert(name@.subrange(0, keep as int) =~= name@);
            }
        }
        if keep == 0 || keep == length {
            proof {
                if keep == length {
                    assert(new_name@ =~= name@);
                }
            }
            return None;
        }
        proof {
            assert(new_name@.len() == keep);
        }
        let spans = ReferencesProvider::find_all_references(tokens, name);
        if spans.len() == 0 {
            return None;
        }
        let mut edits: Vec<TextEdit> = Vec::new();
        let mut i: usize = 0;
        while i < spans.len()
            invariant
                i <= spans@.len(),
                edits@.len() == i,
                forall|k: int|
                    0 <= k < i ==> (#[trigger] edits@[k]).range == lsp_range(spans@[k])
                        && edits@[k].new_text@ == new_name@,
            decreases spans@.len() - i,
        {
            edits.push(TextEdit { range: span_to_range(spans[i]), new_text: owned(new_name.as_str()) });
            i += 1;
        }
        let mut title = owned("Truncate '");
        title.append(name);
        title.append("' to '");
        title.append(new_name.as_str());
        title.append("' (");
        let count = count_string(data.target_length);
        title.append(count.as_str());
        title.append(" characters)");
        let mut changes: Vec<(String, Vec<TextEdit>)> = Vec::new();
        changes.push((owned(uri), edits));
        let mut diagnostics: Vec<Diagnostic> = Vec::new();
        diagnostics.push(copy_diagnostic(diagnostic));
        Some(
            CodeAction {
                title,
                kind: Some(CodeActionKind::QuickFix),
                diagnostics: Some(diagnostics),
                edit: Some(WorkspaceEdit { changes }),
                is_preferred: Some(true),
            },
        )
    }
}

} // verus!

//! Rename: replaces every occurrence of the identifier under the cursor.
use crate::protocol::{Position, Range, TextEdit, WorkspaceEdit};
use crate::syntax::{
    find_token_index, identifier_index_at, lsp_range, span_to_range, Token, TokenKind,
};
use crate::text::{chars_of, is_ascii_alnum, is_ascii_letter, owned, str_eq};
use vstd::prelude::*;

verus! {

/// Provides Rename Symbol functionality.
pub struct RenameProvider;

/// Whether `c` may appear in a CRBasic identifier.
pub open spec fn is_identifier_char(c: char) -> bool {
    is_ascii_alnum(c) || c == '_'
}

/// Whether `name` is a CRBasic identifier: an ASCII letter or underscore
/// followed by ASCII letters, digits and underscores.
pub open spec fn valid_identifier(name: Seq<char>) -> bool {
    &&& name.len() > 0
    &&& (is_ascii_letter(name[0]) || name[0] == '_')
    &&& forall|i: int| 1 <= i < name.len() ==> #[trigger] is_identifier_char(name[i])
}

/// Whether `t` is an identifier token with the name `name`.
pub open spec fn is_named(t: Token, name: Seq<char>) -> bool {
    t.kind matches TokenKind::Identifier(n) && n@ == name
}

/// The ranges of every identifier token named `name`, in token order.
pub open spec fn named_ranges(tokens: Seq<Token>, name: Seq<char>) -> Seq<Range>
    decreases tokens.len(),
{
    if tokens.len() == 0 {
        Seq::empty()
    } else {
        named_ranges(tokens.drop_last(), name) + if is_named(tokens.last(), name) {
            seq![lsp_range(tokens.last().span)]
        } else {
            Seq::empty()
        }
    }
}

/// The message of the error returned for an invalid new name.
pub open spec fn invalid_name_message(new_name: Seq<char>) -> Seq<char> {
    "\""@ + new_name + "\" is not a valid CRBasic identifier"@
}

/// Whether `edits` replace exactly `ranges`, in order, with `new_name`.
pub open spec fn replaces_all(edits: Seq<TextEdit>, ranges: Seq<Range>, new_name: Seq<char>) -> bool {
    &&& edits.len() == ranges.len()
    &&& forall|i: int|
        #![trigger edits[i]]
        0 <= i < edits.len() ==> edits[i].range == ranges[i] && edits[i].new_text@ == new_name
}

/// Whether `edit` renames, in document `uri`, every identifier token named
/// like `symbol` to `new_name`.
pub open spec fn renames_occurrences(
    edit: WorkspaceEdit,
    tokens: Seq<Token>,
    symbol: Token,
    uri: Seq<char>,
    new_name: Seq<char>,
) -> bool {
    &&& edit.changes@.len() == 1
    &&& edit.changes@[0].0@ == uri
    &&& symbol.kind matches TokenKind::Identifier(name) && replaces_all(
        edit.changes@[0].1@,
        named_ranges(tokens, name@),
        new_name,
    )
}

impl RenameProvider {
    /// Checks whether `name` is a syntactically valid CRBasic identifier.
    pub fn is_valid_identifier(name: &str) -> (r: bool)
        ensures
            r == valid_identifier(name@),
    {
        let chars = chars_of(name);
        if chars.len() == 0 {
            return false;
        }
        let c = chars[0];
        if !(('a' <= c && c <= 'z') || ('A' <= c && c <= 'Z') || c == '_') {
            return false;
        }
        let mut i: usize = 1;
        while i < chars.len()
            invariant
                1 <= i <= chars@.len(),
                chars@ == name@,
                forall|j: int| 1 <= j < i ==> #[trigger] is_identifier_char(chars@[j]),
            decreases chars@.len() - i,
        {
            let c = chars[i];
            if !(('a' <= c && c <= 'z') || ('A' <= c && c <= 'Z') || ('0' <= c && c <= '9') || c
                == '_') {
                assert(!is_identifier_char(chars@[i as int]));
                return false;
            }
            i += 1;
        }
        true
    }

    /// Returns the range of the identifier at the given position, for a
    /// prepare-rename request.
    pub fn prepare_rename(tokens: &[Token], position: Position) -> (r: Option<Range>)
        ensures
            match identifier_index_at(tokens@, position) {
                Some(i) => r == Some(lsp_range(tokens@[i].span)),
                None => r is None,
            },
    {
        match find_token_index(tokens, position, true) {
            Some(i) => Some(span_to_range(tokens[i].span)),
            None => None,
        }
    }

    /// Builds a workspace edit that renames every occurrence of the
    /// identifier at the given position to `new_name`.
    ///
    /// Returns `Err` when `new_name` is not a valid identifier, `Ok(None)`
    /// when no identifier is at `position`.
    pub fn get_rename_edit(tokens: &[Token], position: Position, new_name: &str, uri: &str) -> (r:
        Result<Option<WorkspaceEdit>, String>)
        ensures
            !valid_identifier(new_name@) ==> (r matches Err(m) && m@ == invalid_name_message(
                new_name@,
            )),
            valid_identifier(new_name@) ==> match identifier_index_at(tokens@, position) {
                None => r == Ok::<Option<WorkspaceEdit>, String>(None),
                Some(i) => (r matches Ok(Some(edit)) && renames_occurrences(
                    edit,
                    tokens@,
                    tokens@[i],
                    uri@,
                    new_name@,
                )),
            },
    {
        if !Self::is_valid_identifier(new_name) {
            let mut message = owned("\"");
            message.append(new_name);
            message.append("\" is not a valid CRBasic identifier");
            return Err(message);
        }
        let i = match find_token_index(tokens, position, true) {
            Some(i) => i,
            None => return Ok(None),
        };
        let symbol_name = match &tokens[i].kind {
            TokenKind::Identifier(name) => name,
            _ => return Ok(None),
        };
        let mut edits: Vec<TextEdit> = Vec::new();
        let mut k: usize = 0;
        while k < tokens.len()
            invariant
                k <= tokens@.len(),
                replaces_all(edits@, named_ranges(tokens@.take(k as int), symbol_name@), new_name@),
            decreases tokens@.len() - k,
        {
            proof {
                assert(tokens@.take(k + 1).drop_last() =~= tokens@.take(k as int));
            }
            let t = &tokens[k];
            let named = match &t.kind {
                TokenKind::Identifier(name) => str_eq(name.as_str(), symbol_name.as_str()),
                _ => false,
            };
            if named {
                edits.push(TextEdit { range: span_to_range(t.span), new_text: owned(new_name) });
            }
            k += 1;
        }
        proof {
            assert(tokens@.take(k as int) =~= tokens@);
        }
        Ok(Some(WorkspaceEdit { changes: vec![(owned(uri), edits)] }))
    }
}

/// Every edit of an accepted rename writes the new name.
pub proof fn rename_writes_the_new_name(edits: Seq<TextEdit>, ranges: Seq<Range>, new_name: Seq<char>, i: int)
    requires
        replaces_all(edits, ranges, new_name),
        0 <= i < edits.len(),
    ensures
        edits[i].new_text@ == new_name,
{
}

} // verus!

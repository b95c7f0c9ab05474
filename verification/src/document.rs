//! The documents the server has open: each one's text and version, and the
//! syntax tree and semantic errors of its last successful analysis.
use crate::syntax::{Program, SemanticError};
use crate::text::str_eq;
use vstd::prelude::*;

verus! {

/// A document open in the server.
#[derive(Debug)]
pub struct Document {
    /// URI of the document
    pub uri: String,
    /// Text content of the document
    pub text: String,
    /// Version number (incremented on each change)
    pub version: i32,
    /// Cached syntax tree of the last successful analysis
    pub ast: Option<Program>,
    /// Cached semantic errors of the last successful analysis
    pub semantic_errors: Vec<SemanticError>,
}

impl Document {
    /// Creates a document that has not been analyzed yet.
    pub fn new(uri: String, text: String, version: i32) -> (r: Document)
        ensures
            r.uri == uri,
            r.text == text,
            r.version == version,
            r.ast is None,
            r.semantic_errors@.len() == 0,
    {
        Document { uri, text, version, ast: None, semantic_errors: Vec::new() }
    }

    /// Replaces the document's content; the cached analysis is dropped.
    pub fn update(&mut self, text: String, version: i32)
        ensures
            final(self).uri == old(self).uri,
            final(self).text == text,
            final(self).version == version,
            final(self).ast is None,
            final(self).semantic_errors@.len() == 0,
    {
        self.text = text;
        self.version = version;
        self.ast = None;
        self.semantic_errors = Vec::new();
    }

    /// Records the outcome of a successful analysis: the parsed program and
    /// its semantic errors. (A failed parse leaves the document as it was.)
    pub fn record_analysis(&mut self, program: Program, errors: Vec<SemanticError>)
        ensures
            final(self).uri == old(self).uri,
            final(self).text == old(self).text,
            final(self).version == old(self).version,
            final(self).ast == Some(program),
            final(self).semantic_errors == errors,
    {
        self.ast = Some(program);
        self.semantic_errors = errors;
    }

    /// The semantic errors of the last successful analysis.
    pub fn errors(&self) -> (r: &Vec<SemanticError>)
        ensures
            *r == self.semantic_errors,
    {
        &self.semantic_errors
    }
}

/// The open documents, by URI.
#[derive(Debug)]
pub struct DocumentManager {
    documents: Vec<(String, Document)>,
}

/// The map that `entries` stand for.
pub open spec fn documents_map(entries: Seq<(String, Document)>) -> Map<Seq<char>, Document>
    decreases entries.len(),
{
    if entries.len() == 0 {
        Map::empty()
    } else {
        documents_map(entries.drop_last()).insert(entries.last().0@, entries.last().1)
    }
}

/// Whether no two entries share a URI.
pub open spec fn distinct_uris(entries: Seq<(String, Document)>) -> bool {
    forall|i: int, j: int|
        0 <= i < entries.len() && 0 <= j < entries.len() && i != j ==> entries[i].0@
            != entries[j].0@
}

/// The analyzed documents among `docs`, in order: each one's URI with its
/// syntax tree.
pub open spec fn analyzed_in(docs: Seq<Document>) -> Seq<(Seq<char>, Program)>
    decreases docs.len(),
{
    if docs.len() == 0 {
        Seq::empty()
    } else {
        analyzed_in(docs.drop_last()) + match docs.last().ast {
            Some(p) => seq![(docs.last().uri@, p)],
            None => Seq::empty(),
        }
    }
}

proof fn lemma_map_lookup(entries: Seq<(String, Document)>, i: int)
    requires
        distinct_uris(entries),
        0 <= i < entries.len(),
    ensures
        documents_map(entries).contains_key(entries[i].0@),
        documents_map(entries)[entries[i].0@] == entries[i].1,
    decreases entries.len(),
{
    if i < entries.len() - 1 {
        lemma_map_lookup(entries.drop_last(), i);
    }
}

proof fn lemma_map_domain(entries: Seq<(String, Document)>, k: Seq<char>)
    ensures
        documents_map(entries).contains_key(k) <==> exists|i: int|
            0 <= i < entries.len() && entries[i].0@ == k,
    decreases entries.len(),
{
    if entries.len() > 0 {
        lemma_map_domain(entries.drop_last(), k);
        if documents_map(entries.drop_last()).contains_key(k) {
            let i = choose|i: int|
                0 <= i < entries.drop_last().len() && entries.drop_last()[i].0@ == k;
            assert(entries[i].0@ == k);
        }
        if exists|i: int| 0 <= i < entries.len() && entries[i].0@ == k {
            let i = choose|i: int| 0 <= i < entries.len() && entries[i].0@ == k;
            if i < entries.len() - 1 {
                assert(entries.drop_last()[i].0@ == k);
            }
        }
    }
}

proof fn lemma_map_update(entries: Seq<(String, Document)>, j: int, e: (String, Document))
    requires
        distinct_uris(entries),
        0 <= j < entries.len(),
        entries[j].0@ == e.0@,
    ensures
        documents_map(entries.update(j, e)) =~= documents_map(entries).insert(e.0@, e.1),
    decreases entries.len(),
{
    if j == entries.len() - 1 {
        assert(entries.update(j, e).drop_last() =~= entries.drop_last());
    } else {
        assert(entries.update(j, e).drop_last() =~= entries.drop_last().update(j, e));
        lemma_map_update(entries.drop_last(), j, e);
    }
}

proof fn lemma_map_update_any(entries: Seq<(String, Document)>, j: int)
    requires
        distinct_uris(entries),
        0 <= j < entries.len(),
    ensures
        forall|d: Document|
            #[trigger] documents_map(entries.update(j, (entries[j].0, d))) == documents_map(
                entries,
            ).insert(entries[j].0@, d),
{
    assert forall|d: Document|
        #[trigger] documents_map(entries.update(j, (entries[j].0, d))) == documents_map(
            entries,
        ).insert(entries[j].0@, d) by {
        lemma_map_update(entries, j, (entries[j].0, d));
    }
}

proof fn lemma_map_remove(entries: Seq<(String, Document)>, j: int)
    requires
        distinct_uris(entries),
        0 <= j < entries.len(),
    ensures
        documents_map(entries.remove(j)) =~= documents_map(entries).remove(entries[j].0@),
    decreases entries.len(),
{
    let k = entries[j].0@;
    if j == entries.len() - 1 {
        assert(entries.remove(j) =~= entries.drop_last());
        lemma_map_domain(entries.drop_last(), k);
    } else {
        assert(entries.remove(j).drop_last() =~= entries.drop_last().remove(j));
        assert(entries.remove(j).last() == entries.last());
        lemma_map_remove(entries.drop_last(), j);
    }
}

impl View for DocumentManager {
    type V = Map<Seq<char>, Document>;

    closed spec fn view(&self) -> Map<Seq<char>, Document> {
        documents_map(self.documents@)
    }
}

impl DocumentManager {
    /// The manager's invariant: no URI is held twice.
    pub closed spec fn wf(&self) -> bool {
        distinct_uris(self.documents@)
    }

    /// The open documents, in the order they were opened.
    pub closed spec fn documents(&self) -> Seq<Document> {
        self.documents@.map_values(|e: (String, Document)| e.1)
    }

    /// The open documents are the map's values, one for each URI.
    pub proof fn lemma_documents(&self)
        requires
            self.wf(),
        ensures
            self.documents().len() == self@.dom().len(),
            forall|d: Document|
                self.documents().contains(d) ==> exists|k: Seq<char>|
                    self@.contains_key(k) && self@[k] == d,
            forall|k: Seq<char>|
                self@.contains_key(k) ==> self.documents().contains(#[trigger] self@[k]),
    {
        lemma_documents_len(self.documents@);
        assert forall|d: Document| self.documents().contains(d) implies exists|k: Seq<char>|
            self@.contains_key(k) && self@[k] == d by {
            let i = choose|i: int| 0 <= i < self.documents().len() && self.documents()[i] == d;
            lemma_map_lookup(self.documents@, i);
            assert(self@.contains_key(self.documents@[i].0@) && self@[self.documents@[i].0@] == d);
        }
        assert forall|k: Seq<char>| self@.contains_key(k) implies self.documents().contains(
            #[trigger] self@[k],
        ) by {
            lemma_map_domain(self.documents@, k);
            let i = choose|i: int| 0 <= i < self.documents@.len() && self.documents@[i].0@ == k;
            lemma_map_lookup(self.documents@, i);
            assert(self.documents()[i] == self@[k]);
        }
    }

    /// Creates a manager with no open document.
    pub fn new() -> (r: DocumentManager)
        ensures
            r.wf(),
            r@ == Map::<Seq<char>, Document>::empty(),
    {
        DocumentManager { documents: Vec::new() }
    }

    /// Finds the index of the document `uri`.
    fn position(&self, uri: &str) -> (r: Option<usize>)
        requires
            self.wf(),
        ensures
            match r {
                Some(i) => i < self.documents@.len() && self.documents@[i as int].0@ == uri@,
                None => !self@.contains_key(uri@),
            },
    {
        let mut i: usize = 0;
        while i < self.documents.len()
            invariant
                i <= self.documents@.len(),
                forall|j: int| 0 <= j < i ==> self.documents@[j].0@ != uri@,
            decreases self.documents@.len() - i,
        {
            if str_eq(self.documents[i].0.as_str(), uri) {
                return Some(i);
            }
            i += 1;
        }
        proof {
            lemma_map_domain(self.documents@, uri@);
        }
        None
    }

    /// Opens a document, replacing any document already open under `uri`,
    /// and returns it.
    pub fn open(&mut self, uri: String, text: String, version: i32) -> (r: &mut Document)
        requires
            old(self).wf(),
        ensures
            final(self).wf(),
            r.uri == uri,
            r.text == text,
            r.version == version,
            r.ast is None,
            r.semantic_errors@.len() == 0,
            final(self)@ == old(self)@.insert(uri@, *final(r)),
    {
        let key = crate::text::owned(uri.as_str());
        let ghost k = key@;
        let doc = Document::new(uri, text, version);
        let ghost before = self.documents@;
        let i = match self.position(key.as_str()) {
            Some(i) => {
                proof {
                    lemma_map_update(self.documents@, i as int, (key, doc));
                }
                self.documents.set(i, (key, doc));
                i
            },
            None => {
                proof {
                    lemma_map_domain(self.documents@, k);
                }
                self.documents.push((key, doc));
                proof {
                    assert(self.documents@.drop_last() =~= before);
                }
                self.documents.len() - 1
            },
        };
        proof {
            lemma_map_update_any(self.documents@, i as int);
        }
        &mut self.documents[i].1
    }

    /// Replaces the content of the document `uri`, dropping its cached
    /// analysis; `None` (and no change) when it is not open.
    pub fn update(&mut self, uri: &str, text: String, version: i32) -> (r: Option<&mut Document>)
        requires
            old(self).wf(),
        ensures
            final(self).wf(),
            match r {
                Some(d) => {
                    &&& old(self)@.contains_key(uri@)
                    &&& d.uri == old(self)@[uri@].uri
                    &&& d.text == text
                    &&& d.version == version
                    &&& d.ast is None
                    &&& d.semantic_errors@.len() == 0
                    &&& final(self)@ == old(self)@.insert(uri@, *final(d))
                },
                None => !old(self)@.contains_key(uri@) && final(self)@ == old(self)@,
            },
    {
        match self.get_mut(uri) {
            Some(doc) => {
                doc.update(text, version);
                Some(doc)
            },
            None => None,
        }
    }

    /// Closes the document `uri`, if it is open.
    pub fn close(&mut self, uri: &str)
        requires
            old(self).wf(),
        ensures
            final(self).wf(),
            final(self)@ == old(self)@.remove(uri@),
    {
        match self.position(uri) {
            Some(i) => {
                proof {
                    lemma_map_remove(self.documents@, i as int);
                }
                self.documents.remove(i);
            },
            None => {
                assert(self@ =~= self@.remove(uri@));
            },
        }
    }

    /// The document `uri`, if it is open.
    pub fn get(&self, uri: &str) -> (r: Option<&Document>)
        requires
            self.wf(),
        ensures
            match r {
                Some(d) => self@.contains_key(uri@) && *d == self@[uri@],
                None => !self@.contains_key(uri@),
            },
    {
        match self.position(uri) {
            Some(i) => {
                proof {
                    lemma_map_lookup(self.documents@, i as int);
                }
                Some(&self.documents[i].1)
            },
            None => None,
        }
    }

    /// The document `uri`, for changing, if it is open.
    pub fn get_mut(&mut self, uri: &str) -> (r: Option<&mut Document>)
        requires
            old(self).wf(),
        ensures
            final(self).wf(),
            match r {
                Some(d) => old(self)@.contains_key(uri@) && *d == old(self)@[uri@] && final(self)@
                    == old(self)@.insert(uri@, *final(d)),
                None => !old(self)@.contains_key(uri@) && final(self)@ == old(self)@,
            },
    {
        match self.position(uri) {
            Some(i) => {
                proof {
                    lemma_map_lookup(self.documents@, i as int);
                    lemma_map_update_any(self.documents@, i as int);
                }
                Some(&mut self.documents[i].1)
            },
            None => None,
        }
    }

    /// Every open document that has a cached syntax tree, with its URI, in
    /// the order the documents were opened. Documents not analyzed yet, or
    /// whose last analysis failed, are left out.
    pub fn analyzed_documents(&self) -> (r: Vec<(&str, &Program)>)
        ensures
            r@.map_values(|p: (&str, &Program)| (p.0@, *p.1)) == analyzed_in(self.documents()),
    {
        let ghost docs = self.documents();
        let mut r: Vec<(&str, &Program)> = Vec::new();
        let mut i: usize = 0;
        while i < self.documents.len()
            invariant
                i <= self.documents@.len(),
                docs == self.documents(),
                r@.map_values(|p: (&str, &Program)| (p.0@, *p.1)) == analyzed_in(
                    docs.take(i as int),
                ),
            decreases self.documents@.len() - i,
        {
            proof {
                assert(docs.take(i + 1).drop_last() =~= docs.take(i as int));
                assert(docs.take(i + 1).last() == self.documents@[i as int].1);
            }
            let ghost before = r@.map_values(|p: (&str, &Program)| (p.0@, *p.1));
            let doc = &self.documents[i].1;
            if let Some(ast) = &doc.ast {
                r.push((doc.uri.as_str(), ast));
                proof {
                    assert(r@.map_values(|p: (&str, &Program)| (p.0@, *p.1)) =~= before.push(
                        (doc.uri@, *ast),
                    ));
                }
            }
            i += 1;
        }
        proof {
            assert(docs.take(i as int) =~= docs);
        }
        r
    }
}

/// A document opened (or updated) under `uri` is the one found under `uri`
/// afterwards, and the other documents are unchanged.
pub proof fn an_opened_document_is_found(
    before: Map<Seq<char>, Document>,
    uri: Seq<char>,
    d: Document,
)
    ensures
        before.insert(uri, d).contains_key(uri),
        before.insert(uri, d)[uri] == d,
        forall|other: Seq<char>|
            other != uri ==> (before.insert(uri, d).contains_key(other) == before.contains_key(
                other,
            ) && (before.contains_key(other) ==> before.insert(uri, d)[other] == before[other])),
{
}

/// A closed document is no longer found, and the other documents are
/// unchanged.
pub proof fn a_closed_document_is_gone(before: Map<Seq<char>, Document>, uri: Seq<char>)
    ensures
        !before.remove(uri).contains_key(uri),
        forall|other: Seq<char>|
            other != uri ==> (before.remove(uri).contains_key(other) == before.contains_key(other)
                && (before.contains_key(other) ==> before.remove(uri)[other] == before[other])),
{
}

proof fn lemma_documents_len(entries: Seq<(String, Document)>)
    requires
        distinct_uris(entries),
    ensures
        documents_map(entries).dom().finite(),
        documents_map(entries).dom().len() == entries.len(),
    decreases entries.len(),
{
    if entries.len() > 0 {
        lemma_documents_len(entries.drop_last());
        lemma_map_domain(entries.drop_last(), entries.last().0@);
    }
}

} // verus!

use crbasic_lsp::document::{Document, DocumentManager};
use crbasic_lsp::syntax::{Position, Program, Span, Statement};

fn create_test_uri(name: &str) -> String {
    format!("file:///{}.cr6", name)
}

fn span(line: usize) -> Span {
    Span::new(Position::new(line, 1), Position::new(line, 10))
}

fn public_var(name: &str) -> Statement {
    Statement::VarDeclaration {
        keyword: "Public".to_string(),
        name: name.to_string(),
        array_dimensions: None,
        type_annotation: None,
        initializer: None,
        span: span(1),
    }
}

fn analyzed(statement: Statement) -> Program {
    Program::new(vec![statement], span(1))
}

#[test]
fn opens_new_document() {
    let mut manager = DocumentManager::new();
    let uri = create_test_uri("test");

    manager.open(uri.clone(), "Public Temp_C".to_string(), 1);

    assert!(manager.get(&uri).is_some());
}

#[test]
fn updates_existing_document() {
    let mut manager = DocumentManager::new();
    let uri = create_test_uri("test");

    manager.open(uri.clone(), "Public Temp_C".to_string(), 1);
    manager.update(&uri, "Public Humidity".to_string(), 2);

    let doc = manager.get(&uri).expect("Document should exist");
    assert_eq!(doc.text, "Public Humidity");
    assert_eq!(doc.version, 2);
}

#[test]
fn document_closes_document() {
    let mut manager = DocumentManager::new();
    let uri = create_test_uri("test");

    manager.open(uri.clone(), "Public Temp_C".to_string(), 1);
    manager.close(&uri);

    assert!(manager.get(&uri).is_none());
}

#[test]
fn returns_none_for_nonexistent_document() {
    let manager = DocumentManager::new();
    let uri = create_test_uri("nonexistent");

    assert!(manager.get(&uri).is_none());
}

#[test]
fn analyzed_documents_includes_every_analyzed_document() {
    let mut manager = DocumentManager::new();
    let uri_a = create_test_uri("a");
    let uri_b = create_test_uri("b");

    manager.open(uri_a.clone(), "Public Temp_C".to_string(), 1);
    manager.open(uri_b.clone(), "Public Humidity".to_string(), 1);
    manager
        .get_mut(&uri_a)
        .expect("Document should exist")
        .record_analysis(analyzed(public_var("Temp_C")), Vec::new());
    manager
        .get_mut(&uri_b)
        .expect("Document should exist")
        .record_analysis(analyzed(public_var("Humidity")), Vec::new());

    let uris: Vec<&str> = manager.analyzed_documents().iter().map(|(uri, _)| *uri).collect();

    assert_eq!(uris.len(), 2);
    assert!(uris.contains(&uri_a.as_str()));
    assert!(uris.contains(&uri_b.as_str()));
}

#[test]
fn analyzed_documents_skips_documents_without_a_cached_ast() {
    let mut manager = DocumentManager::new();
    let uri = create_test_uri("test");

    manager.open(uri, "Public Temp_C".to_string(), 1); // Never analyzed

    assert_eq!(manager.analyzed_documents().len(), 0);
}

#[test]
fn update_clears_cached_analysis() {
    let mut doc = Document::new(create_test_uri("a"), "Public Temp_C".to_string(), 1);
    doc.record_analysis(analyzed(public_var("Temp_C")), Vec::new());
    assert!(doc.ast.is_some());

    doc.update("Public Humidity".to_string(), 2);

    assert!(doc.ast.is_none());
    assert!(doc.semantic_errors.is_empty());
    assert_eq!(doc.text, "Public Humidity");
    assert_eq!(doc.version, 2);
}

#[test]
fn reopening_a_document_replaces_it() {
    let mut manager = DocumentManager::new();
    let uri = create_test_uri("a");

    manager.open(uri.clone(), "one".to_string(), 1);
    let doc = manager.open(uri.clone(), "two".to_string(), 5);
    assert_eq!(doc.text, "two");

    let doc = manager.get(&uri).expect("Document should exist");
    assert_eq!(doc.text, "two");
    assert_eq!(doc.version, 5);
    assert!(doc.ast.is_none());
}

#[test]
fn updating_an_unopened_document_changes_nothing() {
    let mut manager = DocumentManager::new();
    let opened = create_test_uri("a");
    manager.open(opened.clone(), "text".to_string(), 1);

    assert!(manager.update(&create_test_uri("b"), "other".to_string(), 2).is_none());
    assert!(manager.get(&create_test_uri("b")).is_none());
    assert_eq!(manager.get(&opened).expect("still open").text, "text");
}

#[test]
fn closing_one_document_keeps_the_others() {
    let mut manager = DocumentManager::new();
    let a = create_test_uri("a");
    let b = create_test_uri("b");
    manager.open(a.clone(), "A".to_string(), 1);
    manager.open(b.clone(), "B".to_string(), 1);

    manager.close(&a);

    assert!(manager.get(&a).is_none());
    assert_eq!(manager.get(&b).expect("still open").text, "B");
}

#[test]
fn analyzed_documents_come_in_opening_order_with_their_trees() {
    let mut manager = DocumentManager::new();
    let a = create_test_uri("a");
    let b = create_test_uri("b");
    manager.open(b.clone(), "B".to_string(), 1);
    manager.open(a.clone(), "A".to_string(), 1);
    manager
        .get_mut(&a)
        .expect("open")
        .record_analysis(analyzed(public_var("X")), Vec::new());
    manager
        .get_mut(&b)
        .expect("open")
        .record_analysis(analyzed(public_var("Y")), Vec::new());

    let docs = manager.analyzed_documents();

    assert_eq!(docs.len(), 2);
    assert_eq!(docs[0].0, b.as_str());
    assert_eq!(docs[1].0, a.as_str());
    assert_eq!(*docs[1].1, analyzed(public_var("X")));
}

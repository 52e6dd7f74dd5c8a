use chromadb::collection::{ChromaCollection, RecordsOperation};
use chromadb::json::Metadata;

fn metadata() -> Metadata {
    let mut m = Metadata::new();
    m.insert("test".to_string(), serde_json::Value::String("test".to_string()));
    m
}

#[test]
fn getters_return_what_the_collection_was_made_with() {
    let c = ChromaCollection::new("id-1".to_string(), "books".to_string(), Some(metadata()));
    assert_eq!(c.id(), "id-1");
    assert_eq!(c.name(), "books");
    assert_eq!(c.metadata(), Some(&metadata()));
    let bare = ChromaCollection::new("id-2".to_string(), "films".to_string(), None);
    assert!(bare.metadata().is_none());
}

#[test]
fn paths_are_under_the_collection() {
    let c = ChromaCollection::new("abc".to_string(), "n".to_string(), None);
    assert_eq!(c.count_path(), "/collections/abc/count");
    assert_eq!(c.get_path(), "/collections/abc/get");
    assert_eq!(c.records_path(RecordsOperation::Add), "/collections/abc/add");
    assert_eq!(c.records_path(RecordsOperation::Upsert), "/collections/abc/upsert");
    assert_eq!(c.records_path(RecordsOperation::Update), "/collections/abc/update");
    assert_eq!(c.modify_request(None, None).path, "/collections/abc");
}

#[test]
fn modify_request_carries_name_and_metadata() {
    let c = ChromaCollection::new("abc".to_string(), "n".to_string(), None);
    let q = c.modify_request(Some("new name for test collection".to_string()), Some(metadata()));
    assert_eq!(q.new_name.as_deref(), Some("new name for test collection"));
    assert_eq!(q.new_metadata, Some(metadata()));
    let q = c.modify_request(None, None);
    assert!(q.new_name.is_none() && q.new_metadata.is_none());
}

#[test]
fn get_request_defaults_the_fields_to_return() {
    let c = ChromaCollection::new("abc".to_string(), "n".to_string(), None);
    let q = c.get_request(vec![], None, None, None, None, None);
    assert_eq!(q.path, "/collections/abc/get");
    assert!(q.ids.is_empty());
    assert_eq!(q.included, vec!["metadatas".to_string(), "documents".to_string()]);
    let q = c.get_request(
        vec!["x".to_string()],
        Some(serde_json::Value::Bool(true)),
        Some(10),
        Some(5),
        None,
        Some(vec!["documents".to_string()]),
    );
    assert_eq!(q.ids, vec!["x".to_string()]);
    assert_eq!(q.where_metadata, Some(serde_json::Value::Bool(true)));
    assert_eq!(q.limit, Some(10));
    assert_eq!(q.offset, Some(5));
    assert!(q.where_document.is_none());
    assert_eq!(q.included, vec!["documents".to_string()]);
}

#[test]
fn operations_say_whether_they_need_embeddings_or_documents() {
    assert!(RecordsOperation::Add.requires_embeddings_or_documents());
    assert!(RecordsOperation::Upsert.requires_embeddings_or_documents());
    assert!(!RecordsOperation::Update.requires_embeddings_or_documents());
}

#[test]
fn unoffered_operations_do_nothing() {
    ChromaCollection::query();
    ChromaCollection::peek();
    ChromaCollection::delete();
}

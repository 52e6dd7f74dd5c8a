use chromadb::collection::{ChromaCollection, RecordsOperation, RecordsRequest};
use chromadb::json::Metadata;
use chromadb::validation::{duplicate_ids, plan_embeddings, validate, ValidationError};

type Embedding = Vec<f32>;

fn collection() -> ChromaCollection {
    ChromaCollection::new("11-recipies-for-octopus".to_string(), "octopus".to_string(), None)
}

/// Stands for the mock embedding provider: one embedding per document.
fn mock_embed(documents: &[String]) -> Vec<Embedding> {
    documents.iter().map(|d| vec![d.len() as f32, 1.0]).collect()
}

/// Runs both stages of validation as the collection's operations do.
fn send(
    op: RecordsOperation,
    ids: Vec<&str>,
    embeddings: Option<Vec<Embedding>>,
    metadatas: Option<Vec<Metadata>>,
    documents: Option<Vec<String>>,
    with_function: bool,
) -> Result<RecordsRequest<Embedding, Metadata>, ValidationError> {
    let compute = plan_embeddings(
        op.requires_embeddings_or_documents(),
        embeddings.is_some(),
        documents.is_some(),
        with_function,
    )?;
    let computed = if compute {
        mock_embed(documents.as_ref().unwrap())
    } else {
        Vec::new()
    };
    collection().records_request(
        op,
        ids.into_iter().map(String::from).collect(),
        embeddings,
        metadatas,
        documents,
        with_function,
        computed,
    )
}

fn two_documents() -> Option<Vec<String>> {
    Some(vec!["Document content 1".into(), "Document content 2".into()])
}

fn check_common_scenarios(op: RecordsOperation) {
    let response = send(op, vec!["test"], None, None, two_documents(), true);
    assert!(
        response.is_err(),
        "IDs, embeddings, metadatas, and documents must all be the same length"
    );

    let response = send(op, vec!["test1", "test2"], None, None, two_documents(), true);
    assert!(
        response.is_ok(),
        "IDs, embeddings, metadatas, and documents must all be the same length"
    );

    let response = send(op, vec!["test1", ""], None, None, two_documents(), true);
    assert!(response.is_err(), "Empty IDs not allowed");

    let response = send(op, vec!["test", "test"], None, None, two_documents(), true);
    assert!(
        response.is_err(),
        "Expected IDs to be unique. Duplicates not allowed"
    );

    let response = send(op, vec!["test1", "test2"], None, None, two_documents(), false);
    assert!(
        response.is_err(),
        "embedding_function cannot be None if documents are provided and embeddings are None"
    );

    let response = send(op, vec!["test1", "test2"], None, None, two_documents(), true);
    assert!(
        response.is_ok(),
        "Embeddings are computed by the embedding_function if embeddings are None and documents are provided"
    );
}

#[test]
fn test_add_to_collection() {
    let response = send(RecordsOperation::Add, vec!["test"], None, None, None, true);
    assert!(
        response.is_err(),
        "Embeddings and documents cannot both be None"
    );
    check_common_scenarios(RecordsOperation::Add);
}

#[test]
fn test_upsert_collection() {
    let response = send(RecordsOperation::Upsert, vec!["test"], None, None, None, true);
    assert!(
        response.is_err(),
        "Embeddings and documents cannot both be None"
    );
    check_common_scenarios(RecordsOperation::Upsert);
}

#[test]
fn test_update_collection() {
    let response = send(RecordsOperation::Update, vec!["test"], None, None, None, true);
    assert!(response.is_ok(), "Embeddings and documents can both be None");
    check_common_scenarios(RecordsOperation::Update);
}

#[test]
fn each_refusal_has_its_reason() {
    let r = send(RecordsOperation::Add, vec!["a"], None, None, None, false);
    assert!(matches!(r, Err(ValidationError::MissingEmbeddingsAndDocuments)));
    let r = send(RecordsOperation::Add, vec!["a"], None, None, Some(vec!["d".into()]), false);
    assert!(matches!(r, Err(ValidationError::MissingEmbeddingFunction)));
    let r = send(RecordsOperation::Add, vec!["a"], Some(vec![vec![1.0]]), None, None, true);
    assert!(matches!(r, Err(ValidationError::UnexpectedEmbeddingFunction)));
    let r = send(RecordsOperation::Add, vec!["a", ""], Some(vec![vec![1.0]]), None, None, false);
    assert!(matches!(r, Err(ValidationError::EmptyId)));
    let r = send(RecordsOperation::Add, vec!["a", "b"], Some(vec![vec![1.0]]), None, None, false);
    assert!(matches!(r, Err(ValidationError::LengthMismatch)));
    let r = send(
        RecordsOperation::Add,
        vec!["a", "b"],
        Some(vec![vec![1.0], vec![2.0]]),
        Some(vec![Metadata::new()]),
        None,
        false,
    );
    assert!(matches!(r, Err(ValidationError::LengthMismatch)));
    let r = send(RecordsOperation::Add, vec!["a", "a"], Some(vec![vec![1.0], vec![2.0]]), None, None, false);
    match r {
        Err(ValidationError::DuplicateIds(d)) => assert_eq!(d, vec!["a".to_string(), "a".to_string()]),
        _ => panic!("expected a refusal for duplicate ids"),
    }
}

#[test]
fn checks_run_in_the_documented_order() {
    // An empty id is reported before a length mismatch and duplicates.
    let r = send(RecordsOperation::Add, vec!["", "", "x"], Some(vec![vec![1.0]]), None, None, false);
    assert!(matches!(r, Err(ValidationError::EmptyId)));
    // A length mismatch is reported before duplicates.
    let r = send(RecordsOperation::Add, vec!["x", "x"], Some(vec![vec![1.0]]), None, None, false);
    assert!(matches!(r, Err(ValidationError::LengthMismatch)));
    // The sources are checked before the ids.
    let r = send(RecordsOperation::Add, vec![""], Some(vec![vec![1.0]]), None, None, true);
    assert!(matches!(r, Err(ValidationError::UnexpectedEmbeddingFunction)));
}

#[test]
fn given_embeddings_are_sent() {
    let r = send(
        RecordsOperation::Upsert,
        vec!["a", "b"],
        Some(vec![vec![1.0, 2.0], vec![3.0]]),
        Some(vec![Metadata::new(), Metadata::new()]),
        None,
        false,
    )
    .unwrap();
    assert_eq!(r.path, "/collections/11-recipies-for-octopus/upsert");
    assert_eq!(r.records.ids, vec!["a".to_string(), "b".to_string()]);
    assert_eq!(r.records.embeddings, vec![vec![1.0, 2.0], vec![3.0]]);
    assert_eq!(r.records.metadatas.map(|m| m.len()), Some(2));
    assert!(r.records.documents.is_none());
}

#[test]
fn computed_embeddings_are_sent() {
    let r = send(RecordsOperation::Add, vec!["a", "b"], None, None, Some(vec!["xyz".into(), "q".into()]), true)
        .unwrap();
    assert_eq!(r.path, "/collections/11-recipies-for-octopus/add");
    assert_eq!(r.records.embeddings, vec![vec![3.0, 1.0], vec![1.0, 1.0]]);
    assert_eq!(r.records.documents, Some(vec!["xyz".to_string(), "q".to_string()]));
}

#[test]
fn update_without_sources_sends_no_embeddings() {
    let r = send(RecordsOperation::Update, vec!["a"], None, Some(vec![Metadata::new()]), None, false).unwrap();
    assert_eq!(r.path, "/collections/11-recipies-for-octopus/update");
    assert!(r.records.embeddings.is_empty());
}

#[test]
fn plan_asks_for_embeddings_only_from_documents_and_a_function() {
    assert!(matches!(plan_embeddings(true, false, true, true), Ok(true)));
    assert!(matches!(plan_embeddings(true, true, true, false), Ok(false)));
    assert!(matches!(plan_embeddings(false, false, false, false), Ok(false)));
    assert!(matches!(plan_embeddings(false, false, false, true), Ok(false)));
    assert!(matches!(
        plan_embeddings(true, false, false, true),
        Err(ValidationError::MissingEmbeddingsAndDocuments)
    ));
}

#[test]
fn computed_embeddings_are_ignored_unless_planned() {
    let r = validate::<Embedding, Metadata>(
        true,
        vec!["a".into()],
        Some(vec![vec![7.0]]),
        None,
        None,
        false,
        vec![vec![9.0]],
    )
    .unwrap();
    assert_eq!(r.embeddings, vec![vec![7.0]]);
}

#[test]
fn add_and_upsert_agree_and_update_relaxes_only_sources() {
    let cases: Vec<(Vec<&str>, Option<Vec<Embedding>>, Option<Vec<String>>, bool)> = vec![
        (vec!["a"], None, None, false),
        (vec!["a"], None, None, true),
        (vec!["a", "a"], None, None, false),
        (vec![""], None, None, true),
        (vec!["a"], None, Some(vec!["d".into()]), true),
        (vec!["a"], Some(vec![vec![1.0]]), None, true),
    ];
    for (ids, e, d, f) in cases {
        let add = send(RecordsOperation::Add, ids.clone(), e.clone(), None, d.clone(), f);
        let upsert = send(RecordsOperation::Upsert, ids.clone(), e.clone(), None, d.clone(), f);
        let update = send(RecordsOperation::Update, ids.clone(), e.clone(), None, d.clone(), f);
        assert_eq!(add.is_ok(), upsert.is_ok());
        assert!(!matches!(update, Err(ValidationError::MissingEmbeddingsAndDocuments)));
        if add.is_ok() {
            assert!(update.is_ok());
        }
        if !matches!(add, Err(ValidationError::MissingEmbeddingsAndDocuments)) {
            assert_eq!(add.is_ok(), update.is_ok());
        }
    }
}

#[test]
fn duplicates_list_every_occurrence_in_order() {
    let ids: Vec<String> = ["a", "b", "a", "c", "b", "a"].iter().map(|s| s.to_string()).collect();
    let d = duplicate_ids(&ids);
    assert_eq!(d, vec!["a", "b", "a", "b", "a"]);
    let distinct: Vec<String> = ["a", "b", "c"].iter().map(|s| s.to_string()).collect();
    assert!(duplicate_ids(&distinct).is_empty());
    assert!(duplicate_ids(&Vec::new()).is_empty());
}

#[test]
fn messages_match_the_refusals() {
    assert_eq!(
        ValidationError::MissingEmbeddingsAndDocuments.message(),
        "Embeddings and documents cannot both be None"
    );
    assert_eq!(
        ValidationError::MissingEmbeddingFunction.message(),
        "embedding_function cannot be None if documents are provided and embeddings are None"
    );
    assert_eq!(
        ValidationError::UnexpectedEmbeddingFunction.message(),
        "embedding_function should be None if embeddings are provided"
    );
    assert_eq!(ValidationError::EmptyId.message(), "Found empty string in IDs");
    assert_eq!(
        ValidationError::LengthMismatch.message(),
        "IDs, embeddings, metadatas, and documents must all be the same length"
    );
    assert_eq!(
        ValidationError::DuplicateIds(vec!["test".into(), "test".into()]).message(),
        "Expected IDs to be unique, found duplicates for: [\"test\", \"test\"]"
    );
    assert_eq!(
        ValidationError::DuplicateIds(vec!["q\"x".into(), "q\"x".into()]).message(),
        "Expected IDs to be unique, found duplicates for: [\"q\\\"x\", \"q\\\"x\"]"
    );
}

//! A collection of a Chroma database, and the requests that its operations send.
//!
//! Each operation is a request to a path under `/collections/<id>` with a
//! JSON body; the library computes the path and the body's fields, and
//! refuses invalid batches of records before anything is sent.
use vstd::prelude::*;

use crate::json::Metadata;
use crate::validation::{
    ValidatedRecords,
    ValidationError,
    validate,
    validation_outcome,
};

verus! {

/// The operations that send a batch of records.
#[derive(Clone, Copy, Debug)]
pub enum RecordsOperation {
    /// Adds the records; an id that already exists is left as it is.
    Add,
    /// Adds the records; an id that already exists is updated.
    Upsert,
    /// Updates the records with the given ids.
    Update,
}

impl RecordsOperation {
    /// Add and upsert need embeddings or documents; update needs neither.
    pub open spec fn needs_embeddings_or_documents(self) -> bool {
        !(self is Update)
    }

    /// The last segment of the operation's path.
    pub open spec fn path_suffix(self) -> Seq<char> {
        match self {
            RecordsOperation::Add => "/add"@,
            RecordsOperation::Upsert => "/upsert"@,
            RecordsOperation::Update => "/update"@,
        }
    }

    /// Whether the operation needs embeddings or documents.
    pub fn requires_embeddings_or_documents(&self) -> (r: bool)
        ensures
            r == self.needs_embeddings_or_documents(),
    {
        match self {
            RecordsOperation::Update => false,
            _ => true,
        }
    }

    fn suffix(&self) -> (s: &str)
        ensures
            s@ == self.path_suffix(),
    {
        match self {
            RecordsOperation::Add => "/add",
            RecordsOperation::Upsert => "/upsert",
            RecordsOperation::Update => "/update",
        }
    }
}

/// The path of a request on the collection `id`: `/collections/<id><suffix>`.
pub open spec fn collection_path(id: Seq<char>, suffix: Seq<char>) -> Seq<char> {
    "/collections/"@ + id + suffix
}

/// The mathematical state of a collection.
pub struct CollectionState {
    pub id: Seq<char>,
    pub name: Seq<char>,
    pub metadata: Option<Metadata>,
}

/// A collection: its id (a UUID), its name and its metadata.
pub struct ChromaCollection {
    id: String,
    metadata: Option<Metadata>,
    name: String,
}

/// The fields of a request that renames a collection or replaces its metadata.
pub struct ModifyRequest {
    pub path: String,
    pub new_name: Option<String>,
    pub new_metadata: Option<Metadata>,
}

/// The fields of a request that reads records.
pub struct GetRequest {
    pub path: String,
    pub ids: Vec<String>,
    pub where_metadata: Option<serde_json::Value>,
    pub limit: Option<usize>,
    pub offset: Option<usize>,
    pub where_document: Option<serde_json::Value>,
    pub included: Vec<String>,
}

/// A request that sends a validated batch of records.
pub struct RecordsRequest<E, M> {
    pub path: String,
    pub records: ValidatedRecords<E, M>,
}

/// The records that a get request returns; `E` stands for one embedding.
pub struct GetResult<E> {
    pub ids: Vec<String>,
    pub metadatas: Option<Vec<Metadata>>,
    pub documents: Option<Vec<String>>,
    pub embeddings: Option<Vec<E>>,
}

impl View for ChromaCollection {
    type V = CollectionState;

    closed spec fn view(&self) -> CollectionState {
        CollectionState { id: self.id@, name: self.name@, metadata: self.metadata }
    }
}

impl ChromaCollection {
    /// A collection with the given id, name and metadata.
    pub fn new(id: String, name: String, metadata: Option<Metadata>) -> (c: Self)
        ensures
            c@.id == id@,
            c@.name == name@,
            c@.metadata == metadata,
    {
        ChromaCollection { id, metadata, name }
    }

    /// Get the UUID of the collection.
    pub fn id(&self) -> (r: &str)
        ensures
            r@ == self@.id,
    {
        self.id.as_str()
    }

    /// Get the name of the collection.
    pub fn name(&self) -> (r: &str)
        ensures
            r@ == self@.name,
    {
        self.name.as_str()
    }

    /// Get the metadata of the collection.
    pub fn metadata(&self) -> (r: Option<&Metadata>)
        ensures
            match r {
                Some(m) => self@.metadata == Some(*m),
                None => self@.metadata is None,
            },
    {
        self.metadata.as_ref()
    }

    /// `/collections/<id>` followed by `suffix`.
    fn path_with(&self, suffix: &str) -> (p: String)
        ensures
            p@ == collection_path(self@.id, suffix@),
    {
        let mut p = String::from_str("/collections/");
        p.append(self.id.as_str());
        p.append(suffix);
        p
    }

    /// The path of the request that counts the collection's records.
    pub fn count_path(&self) -> (p: String)
        ensures
            p@ == collection_path(self@.id, "/count"@),
    {
        self.path_with("/count")
    }

    /// The path of the request that reads records.
    pub fn get_path(&self) -> (p: String)
        ensures
            p@ == collection_path(self@.id, "/get"@),
    {
        self.path_with("/get")
    }

    /// The path of the request that sends a batch of records.
    pub fn records_path(&self, op: RecordsOperation) -> (p: String)
        ensures
            p@ == collection_path(self@.id, op.path_suffix()),
    {
        self.path_with(op.suffix())
    }

    /// The request that renames the collection and/or replaces its metadata
    /// (a name of `None` keeps the name, a metadata of `None` keeps the metadata).
    pub fn modify_request(&self, name: Option<String>, metadata: Option<Metadata>) -> (q:
        ModifyRequest)
        ensures
            q.path@ == collection_path(self@.id, Seq::empty()),
            q.new_name == name,
            q.new_metadata == metadata,
    {
        let path = self.path_with("");
        proof {
            reveal_strlit("");
            assert(collection_path(self@.id, ""@) =~= collection_path(self@.id, Seq::empty()));
        }
        ModifyRequest { path, new_name: name, new_metadata: metadata }
    }

    /// The request that reads records: those with the given ids (all when
    /// there are none), filtered by metadata and by document, at most `limit`
    /// of them from `offset` on. The fields to return beside the ids default
    /// to the metadatas and the documents.
    pub fn get_request(
        &self,
        ids: Vec<String>,
        where_metadata: Option<serde_json::Value>,
        limit: Option<usize>,
        offset: Option<usize>,
        where_document: Option<serde_json::Value>,
        included: Option<Vec<String>>,
    ) -> (q: GetRequest)
        ensures
            q.path@ == collection_path(self@.id, "/get"@),
            q.ids == ids,
            q.where_metadata == where_metadata,
            q.limit == limit,
            q.offset == offset,
            q.where_document == where_document,
            match included {
                Some(i) => q.included == i,
                None => q.included.deep_view() == seq!["metadatas"@, "documents"@],
            },
    {
        let included = match included {
            Some(i) => i,
            None => {
                let mut d: Vec<String> = Vec::new();
                d.push(String::from_str("metadatas"));
                d.push(String::from_str("documents"));
                proof {
                    assert(d.deep_view() =~= seq!["metadatas"@, "documents"@]);
                }
                d
            },
        };
        GetRequest {
            path: self.get_path(),
            ids,
            where_metadata,
            limit,
            offset,
            where_document,
            included,
        }
    }

    /// The request that sends a batch of records with `op`, or the refusal of
    /// the batch. `computed` is what the embedding function returned for the
    /// documents when `plan_embeddings` asked for it.
    pub fn records_request<E, M>(
        &self,
        op: RecordsOperation,
        ids: Vec<String>,
        embeddings: Option<Vec<E>>,
        metadatas: Option<Vec<M>>,
        documents: Option<Vec<String>>,
        has_embedding_function: bool,
        computed: Vec<E>,
    ) -> (r: Result<RecordsRequest<E, M>, ValidationError>)
        ensures
            match r {
                Ok(q) => {
                    &&& q.path@ == collection_path(self@.id, op.path_suffix())
                    &&& validation_outcome(
                        op.needs_embeddings_or_documents(),
                        ids,
                        embeddings,
                        metadatas,
                        documents,
                        has_embedding_function,
                        computed,
                        Ok(q.records),
                    )
                },
                Err(e) => validation_outcome(
                    op.needs_embeddings_or_documents(),
                    ids,
                    embeddings,
                    metadatas,
                    documents,
                    has_embedding_function,
                    computed,
                    Err(e),
                ),
            },
    {
        let require = op.requires_embeddings_or_documents();
        match validate(
            require,
            ids,
            embeddings,
            metadatas,
            documents,
            has_embedding_function,
            computed,
        ) {
            Ok(records) => Ok(RecordsRequest { path: self.records_path(op), records }),
            Err(e) => Err(e),
        }
    }

    /// Not offered by this collection: does nothing.
    pub fn query() {
    }

    /// Not offered by this collection: does nothing.
    pub fn peek() {
    }

    /// Not offered by this collection: does nothing.
    pub fn delete() {
    }
}

} // verus!

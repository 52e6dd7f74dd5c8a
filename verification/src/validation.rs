//! Validation of the records that `add`, `upsert` and `update` send.
//!
//! A batch of records is a list of ids together with optional embeddings,
//! metadatas and documents, one of each per id. The checks come in two
//! stages, as the embedding function runs between them: first the sources of
//! the embeddings (`plan_embeddings`), then the ids and the lengths
//! (`validate`, which repeats the first stage so that its contract is whole).
use vstd::prelude::*;

verus! {

/// Why a batch of records is refused.
#[derive(Debug)]
pub enum ValidationError {
    /// Neither embeddings nor documents were given where one of them is needed.
    MissingEmbeddingsAndDocuments,
    /// Documents were given without embeddings and without an embedding function.
    MissingEmbeddingFunction,
    /// Embeddings were given together with an embedding function.
    UnexpectedEmbeddingFunction,
    /// One of the ids is the empty string.
    EmptyId,
    /// The embeddings, metadatas or documents do not have one entry per id.
    LengthMismatch,
    /// Some ids occur more than once; the payload lists every occurrence of
    /// each such id, in the order of the input.
    DuplicateIds(Vec<String>),
}

/// The mathematical form of a `ValidationError`, with ids as character sequences.
pub enum Rejection {
    MissingEmbeddingsAndDocuments,
    MissingEmbeddingFunction,
    UnexpectedEmbeddingFunction,
    EmptyId,
    LengthMismatch,
    DuplicateIds(Seq<Seq<char>>),
}

impl View for ValidationError {
    type V = Rejection;

    open spec fn view(&self) -> Rejection {
        match self {
            ValidationError::MissingEmbeddingsAndDocuments => Rejection::MissingEmbeddingsAndDocuments,
            ValidationError::MissingEmbeddingFunction => Rejection::MissingEmbeddingFunction,
            ValidationError::UnexpectedEmbeddingFunction => Rejection::UnexpectedEmbeddingFunction,
            ValidationError::EmptyId => Rejection::EmptyId,
            ValidationError::LengthMismatch => Rejection::LengthMismatch,
            ValidationError::DuplicateIds(d) => Rejection::DuplicateIds(d.deep_view()),
        }
    }
}

/// A batch of records that passed validation, as it is sent.
pub struct ValidatedRecords<E, M> {
    pub ids: Vec<String>,
    pub embeddings: Vec<E>,
    pub metadatas: Option<Vec<M>>,
    pub documents: Option<Vec<String>>,
}

// ---------------------------------------------------------------------------
// The rules, as spec functions
// ---------------------------------------------------------------------------

/// The first stage: the refusal, if any, that follows from which of the
/// embeddings, the documents and the embedding function were given.
pub open spec fn source_rejection(
    require_embeddings_or_documents: bool,
    has_embeddings: bool,
    has_documents: bool,
    has_embedding_function: bool,
) -> Option<Rejection> {
    if require_embeddings_or_documents && !has_embeddings && !has_documents {
        Some(Rejection::MissingEmbeddingsAndDocuments)
    } else if !has_embeddings && has_documents && !has_embedding_function {
        Some(Rejection::MissingEmbeddingFunction)
    } else if has_embeddings && has_embedding_function {
        Some(Rejection::UnexpectedEmbeddingFunction)
    } else {
        None
    }
}

/// Whether the embedding function is to compute the embeddings from the documents.
pub open spec fn computes_embeddings(
    has_embeddings: bool,
    has_documents: bool,
    has_embedding_function: bool,
) -> bool {
    !has_embeddings && has_documents && has_embedding_function
}

/// The number of entries of an optional list.
pub open spec fn entry_count<T>(list: Option<Vec<T>>) -> Option<nat> {
    match list {
        Some(v) => Some(v@.len()),
        None => None,
    }
}

/// An optional list of `count` entries has one entry per id.
pub open spec fn one_per_id(n: nat, count: Option<nat>) -> bool {
    match count {
        Some(c) => c == n,
        None => true,
    }
}

/// Some id is the empty string.
pub open spec fn has_empty_id(ids: Seq<Seq<char>>) -> bool {
    exists|i: int| 0 <= i < ids.len() && (#[trigger] ids[i]).len() == 0
}

/// No id occurs twice.
pub open spec fn all_distinct(ids: Seq<Seq<char>>) -> bool {
    forall|i: int, j: int| 0 <= i < j < ids.len() ==> ids[i] != ids[j]
}

/// How many times `x` occurs in `s`.
pub open spec fn occurrences(s: Seq<Seq<char>>, x: Seq<char>) -> nat
    decreases s.len(),
{
    if s.len() == 0 {
        0
    } else {
        occurrences(s.drop_last(), x) + (if s.last() == x { 1nat } else { 0nat })
    }
}

/// The first `k` ids, keeping only those that occur more than once in all of `ids`.
pub open spec fn repeated_prefix(ids: Seq<Seq<char>>, k: int) -> Seq<Seq<char>>
    decreases k,
{
    if k <= 0 {
        Seq::empty()
    } else {
        let rest = repeated_prefix(ids, k - 1);
        if occurrences(ids, ids[k - 1]) > 1 {
            rest.push(ids[k - 1])
        } else {
            rest
        }
    }
}

/// Every occurrence of every id that occurs more than once, in input order.
pub open spec fn duplicates_of(ids: Seq<Seq<char>>) -> Seq<Seq<char>> {
    repeated_prefix(ids, ids.len() as int)
}

/// The refusal, if any, of a whole batch: the first of the checks, in the
/// order sources, empty ids, lengths, duplicates, that fails.
pub open spec fn records_rejection(
    require_embeddings_or_documents: bool,
    ids: Seq<Seq<char>>,
    embeddings: Option<nat>,
    metadatas: Option<nat>,
    documents: Option<nat>,
    has_embedding_function: bool,
) -> Option<Rejection> {
    let sources = source_rejection(
        require_embeddings_or_documents,
        embeddings is Some,
        documents is Some,
        has_embedding_function,
    );
    if sources is Some {
        sources
    } else if has_empty_id(ids) {
        Some(Rejection::EmptyId)
    } else if !one_per_id(ids.len(), embeddings) || !one_per_id(ids.len(), metadatas)
        || !one_per_id(ids.len(), documents) {
        Some(Rejection::LengthMismatch)
    } else if !all_distinct(ids) {
        Some(Rejection::DuplicateIds(duplicates_of(ids)))
    } else {
        None
    }
}

/// What `validate` returns on these arguments: the refusal of
/// `records_rejection` when there is one, and otherwise the records
/// unchanged, with the embeddings given, or else those computed (when the
/// embedding function was to compute them), or else none.
pub open spec fn validation_outcome<E, M>(
    require_embeddings_or_documents: bool,
    ids: Vec<String>,
    embeddings: Option<Vec<E>>,
    metadatas: Option<Vec<M>>,
    documents: Option<Vec<String>>,
    has_embedding_function: bool,
    computed: Vec<E>,
    r: Result<ValidatedRecords<E, M>, ValidationError>,
) -> bool {
    let rejection = records_rejection(
        require_embeddings_or_documents,
        ids.deep_view(),
        entry_count(embeddings),
        entry_count(metadatas),
        entry_count(documents),
        has_embedding_function,
    );
    match r {
        Ok(v) => {
            &&& rejection is None
            &&& v.ids == ids
            &&& v.metadatas == metadatas
            &&& v.documents == documents
            &&& match embeddings {
                Some(e) => v.embeddings == e,
                None => if computes_embeddings(false, documents is Some, has_embedding_function) {
                    v.embeddings == computed
                } else {
                    v.embeddings@.len() == 0
                },
            }
        },
        Err(e) => rejection == Some(e@),
    }
}

// ---------------------------------------------------------------------------
// Lemmas on occurrences
// ---------------------------------------------------------------------------

proof fn lemma_occurrences_at(s: Seq<Seq<char>>, i: int)
    requires
        0 <= i < s.len(),
    ensures
        occurrences(s, s[i]) >= 1,
    decreases s.len(),
{
    if i < s.len() - 1 {
        lemma_occurrences_at(s.drop_last(), i);
        assert(s.drop_last()[i] == s[i]);
    }
}

proof fn lemma_occurrences_twice(s: Seq<Seq<char>>, i: int, j: int)
    requires
        0 <= i < j < s.len(),
        s[i] == s[j],
    ensures
        occurrences(s, s[i]) >= 2,
    decreases s.len(),
{
    assert(s.drop_last()[i] == s[i]);
    if j == s.len() - 1 {
        lemma_occurrences_at(s.drop_last(), i);
    } else {
        assert(s.drop_last()[j] == s[j]);
        lemma_occurrences_twice(s.drop_last(), i, j);
    }
}

pub proof fn lemma_occurrences_absent(s: Seq<Seq<char>>, x: Seq<char>)
    requires
        forall|k: int| 0 <= k < s.len() ==> s[k] != x,
    ensures
        occurrences(s, x) == 0,
    decreases s.len(),
{
    if s.len() > 0 {
        assert forall|k: int| 0 <= k < s.drop_last().len() implies s.drop_last()[k] != x by {
            assert(s.drop_last()[k] == s[k]);
        }
        lemma_occurrences_absent(s.drop_last(), x);
    }
}

proof fn lemma_occurrences_distinct(s: Seq<Seq<char>>, k: int)
    requires
        all_distinct(s),
        0 <= k < s.len(),
    ensures
        occurrences(s, s[k]) == 1,
    decreases s.len(),
{
    let t = s.drop_last();
    assert forall|i: int, j: int| 0 <= i < j < t.len() implies t[i] != t[j] by {
        assert(t[i] == s[i] && t[j] == s[j]);
    }
    if k == s.len() - 1 {
        assert forall|m: int| 0 <= m < t.len() implies t[m] != s[k] by {
            assert(t[m] == s[m]);
        }
        lemma_occurrences_absent(t, s[k]);
    } else {
        assert(t[k] == s[k]);
        lemma_occurrences_distinct(t, k);
    }
}

proof fn lemma_repeated_prefix_empty(ids: Seq<Seq<char>>, k: int)
    requires
        all_distinct(ids),
        k <= ids.len(),
    ensures
        repeated_prefix(ids, k).len() == 0,
    decreases k,
{
    if k > 0 {
        lemma_repeated_prefix_empty(ids, k - 1);
        lemma_occurrences_distinct(ids, k - 1);
    }
}

proof fn lemma_repeated_prefix_grows(ids: Seq<Seq<char>>, j: int, k: int)
    requires
        0 <= j < k <= ids.len(),
        occurrences(ids, ids[j]) > 1,
    ensures
        repeated_prefix(ids, k).len() > 0,
    decreases k,
{
    if k - 1 > j {
        lemma_repeated_prefix_grows(ids, j, k - 1);
    }
}

/// The list of duplicates is empty exactly when no id occurs twice.
pub proof fn lemma_duplicates_empty_iff_distinct(ids: Seq<Seq<char>>)
    ensures
        duplicates_of(ids).len() == 0 <==> all_distinct(ids),
{
    if all_distinct(ids) {
        lemma_repeated_prefix_empty(ids, ids.len() as int);
    } else {
        let (i, j) = choose|i: int, j: int| 0 <= i < j < ids.len() && ids[i] == ids[j];
        lemma_occurrences_twice(ids, i, j);
        lemma_repeated_prefix_grows(ids, j, ids.len() as int);
    }
}

// ---------------------------------------------------------------------------
// Executable checks
// ---------------------------------------------------------------------------

/// The first stage of validation: decides from which of the embeddings, the
/// documents and the embedding function were given whether the batch is
/// refused, and if not, whether the embedding function is to compute the
/// embeddings from the documents (`Ok(true)`).
pub fn plan_embeddings(
    require_embeddings_or_documents: bool,
    has_embeddings: bool,
    has_documents: bool,
    has_embedding_function: bool,
) -> (r: Result<bool, ValidationError>)
    ensures
        match r {
            Ok(compute) => {
                &&& source_rejection(require_embeddings_or_documents, has_embeddings, has_documents, has_embedding_function) is None
                &&& compute == computes_embeddings(has_embeddings, has_documents, has_embedding_function)
            },
            Err(e) => source_rejection(
                require_embeddings_or_documents,
                has_embeddings,
                has_documents,
                has_embedding_function,
            ) == Some(e@),
        },
{
    if require_embeddings_or_documents && !has_embeddings && !has_documents {
        return Err(ValidationError::MissingEmbeddingsAndDocuments);
    }
    if !has_embeddings && has_documents && !has_embedding_function {
        return Err(ValidationError::MissingEmbeddingFunction);
    }
    if has_embeddings && has_embedding_function {
        return Err(ValidationError::UnexpectedEmbeddingFunction);
    }
    Ok(!has_embeddings && has_documents && has_embedding_function)
}

/// How many times `x` occurs among `ids`.
fn count_occurrences(ids: &Vec<String>, x: &String) -> (c: usize)
    ensures
        c == occurrences(ids.deep_view(), x@),
{
    let ghost s = ids.deep_view();
    let n = ids.len();
    let mut c: usize = 0;
    let mut j: usize = 0;
    while j < n
        invariant
            n == ids.len(),
            s == ids.deep_view(),
            j <= n,
            c <= j,
            c == occurrences(s.take(j as int), x@),
        decreases n - j,
    {
        proof {
            assert(s.take(j + 1).drop_last() =~= s.take(j as int));
            assert(s.take(j + 1).last() == ids@[j as int]@);
        }
        if ids[j] == *x {
            c = c + 1;
        }
        j = j + 1;
    }
    proof {
        assert(s.take(n as int) =~= s);
    }
    c
}

/// Every occurrence of every id that occurs more than once, in input order.
pub fn duplicate_ids(ids: &Vec<String>) -> (dups: Vec<String>)
    ensures
        dups.deep_view() == duplicates_of(ids.deep_view()),
{
    let ghost s = ids.deep_view();
    let n = ids.len();
    let mut dups: Vec<String> = Vec::new();
    let mut i: usize = 0;
    while i < n
        invariant
            n == ids.len(),
            s == ids.deep_view(),
            i <= n,
            dups.deep_view() == repeated_prefix(s, i as int),
        decreases n - i,
    {
        let c = count_occurrences(ids, &ids[i]);
        assert(s[i as int] == ids@[i as int]@);
        if c > 1 {
            let ghost before = dups.deep_view();
            dups.push(ids[i].clone());
            assert(dups.deep_view() =~= before.push(s[i as int]));
        }
        i = i + 1;
    }
    dups
}

/// Whether some id is the empty string.
fn find_empty_id(ids: &Vec<String>) -> (found: bool)
    ensures
        found == has_empty_id(ids.deep_view()),
{
    let ghost s = ids.deep_view();
    let n = ids.len();
    let mut i: usize = 0;
    while i < n
        invariant
            n == ids.len(),
            s == ids.deep_view(),
            i <= n,
            forall|k: int| 0 <= k < i ==> (#[trigger] s[k]).len() != 0,
        decreases n - i,
    {
        assert(s[i as int] == ids@[i as int]@);
        if ids[i].as_str().is_empty() {
            return true;
        }
        i = i + 1;
    }
    false
}

/// Validates a batch of records and assembles what is sent.
///
/// `computed` is what the embedding function returned for the documents when
/// `plan_embeddings` asked for it; it is not read otherwise. The embeddings
/// sent are those given, or else those computed, or else none.
pub fn validate<E, M>(
    require_embeddings_or_documents: bool,
    ids: Vec<String>,
    embeddings: Option<Vec<E>>,
    metadatas: Option<Vec<M>>,
    documents: Option<Vec<String>>,
    has_embedding_function: bool,
    computed: Vec<E>,
) -> (r: Result<ValidatedRecords<E, M>, ValidationError>)
    ensures
        validation_outcome(
            require_embeddings_or_documents,
            ids,
            embeddings,
            metadatas,
            documents,
            has_embedding_function,
            computed,
            r,
        ),
        (exists|i: int| 0 <= i < ids@.len() && (#[trigger] ids@[i])@.len() == 0) ==> r is Err,
        (embeddings matches Some(e) && e@.len() != ids@.len()) ==> r is Err,
        (metadatas matches Some(m) && m@.len() != ids@.len()) ==> r is Err,
        (documents matches Some(d) && d@.len() != ids@.len()) ==> r is Err,
        (exists|i: int, j: int| 0 <= i < j < ids@.len() && ids@[i]@ == ids@[j]@) ==> r is Err,
{
    let compute = match plan_embeddings(
        require_embeddings_or_documents,
        embeddings.is_some(),
        documents.is_some(),
        has_embedding_function,
    ) {
        Ok(c) => c,
        Err(e) => return Err(e),
    };
    if find_empty_id(&ids) {
        return Err(ValidationError::EmptyId);
    }
    let n = ids.len();
    let embeddings_mismatch = match &embeddings {
        Some(e) => e.len() != n,
        None => false,
    };
    let metadatas_mismatch = match &metadatas {
        Some(m) => m.len() != n,
        None => false,
    };
    let documents_mismatch = match &documents {
        Some(d) => d.len() != n,
        None => false,
    };
    if embeddings_mismatch || metadatas_mismatch || documents_mismatch {
        return Err(ValidationError::LengthMismatch);
    }
    let dups = duplicate_ids(&ids);
    proof {
        lemma_duplicates_empty_iff_distinct(ids.deep_view());
    }
    if dups.len() > 0 {
        return Err(ValidationError::DuplicateIds(dups));
    }
    proof {
        let s = ids.deep_view();
        assert forall|i: int| 0 <= i < ids@.len() implies (#[trigger] ids@[i])@.len() != 0 by {
            assert(s[i] == ids@[i]@);
        }
        assert forall|i: int, j: int| 0 <= i < j < ids@.len() implies ids@[i]@ != ids@[j]@ by {
            assert(s[i] == ids@[i]@);
            assert(s[j] == ids@[j]@);
        }
    }
    let sent = match embeddings {
        Some(e) => e,
        None => if compute {
            computed
        } else {
            Vec::new()
        },
    };
    Ok(ValidatedRecords { ids, embeddings: sent, metadatas, documents })
}


// ---------------------------------------------------------------------------
// Messages
// ---------------------------------------------------------------------------

/// The text that std's `Debug` gives a list of strings, such as `["a", "b"]`.
pub uninterp spec fn debug_rendering(items: Seq<Seq<char>>) -> Seq<char>;

/// `format!("{:?}", items)`: std's `Debug` rendering of a list of strings.
/// It depends on the strings alone; its text (brackets, quotes, escapes) is
/// not stated here, only named.
#[verifier::external_body]
fn render_debug_list(items: &Vec<String>) -> (res: String)
    ensures
        res@ == debug_rendering(items.deep_view()),
{
    format!("{:?}", items)
}

/// The message of a refusal for duplicate ids, given the rendering of the list.
pub fn duplicate_ids_message(rendered: &str) -> (res: String)
    ensures
        res@ == "Expected IDs to be unique, found duplicates for: "@ + rendered@,
{
    let mut m = String::from_str("Expected IDs to be unique, found duplicates for: ");
    m.append(rendered);
    m
}

impl ValidationError {
    /// The human-readable message of the refusal.
    pub fn message(&self) -> (res: String)
        ensures
            match self {
                ValidationError::MissingEmbeddingsAndDocuments => res@
                    == "Embeddings and documents cannot both be None"@,
                ValidationError::MissingEmbeddingFunction => res@
                    == "embedding_function cannot be None if documents are provided and embeddings are None"@,
                ValidationError::UnexpectedEmbeddingFunction => res@
                    == "embedding_function should be None if embeddings are provided"@,
                ValidationError::EmptyId => res@ == "Found empty string in IDs"@,
                ValidationError::LengthMismatch => res@
                    == "IDs, embeddings, metadatas, and documents must all be the same length"@,
                ValidationError::DuplicateIds(d) => res@
                    == "Expected IDs to be unique, found duplicates for: "@ + debug_rendering(d.deep_view()),
            },
    {
        match self {
            ValidationError::MissingEmbeddingsAndDocuments => String::from_str(
                "Embeddings and documents cannot both be None",
            ),
            ValidationError::MissingEmbeddingFunction => String::from_str(
                "embedding_function cannot be None if documents are provided and embeddings are None",
            ),
            ValidationError::UnexpectedEmbeddingFunction => String::from_str(
                "embedding_function should be None if embeddings are provided",
            ),
            ValidationError::EmptyId => String::from_str("Found empty string in IDs"),
            ValidationError::LengthMismatch => String::from_str(
                "IDs, embeddings, metadatas, and documents must all be the same length",
            ),
            ValidationError::DuplicateIds(d) => {
                let rendered = render_debug_list(d);
                duplicate_ids_message(rendered.as_str())
            },
        }
    }
}

} // verus!

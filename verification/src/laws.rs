//! Properties of the validation of records that span several inputs or
//! several operations.
use vstd::prelude::*;

use crate::collection::{RecordsOperation, collection_path};
use crate::validation::{
    Rejection,
    all_distinct,
    duplicates_of,
    has_empty_id,
    lemma_duplicates_empty_iff_distinct,
    occurrences,
    one_per_id,
    records_rejection,
    repeated_prefix,
    source_rejection,
    computes_embeddings,
};

verus! {

/// Every refusal that the documentation of `add`, `upsert` and `update`
/// lists happens: a batch is refused when it holds neither embeddings nor
/// documents (where they are needed), documents without embeddings and
/// without an embedding function, embeddings together with an embedding
/// function, an empty id, a list with other than one entry per id, or an id
/// twice; and, where embeddings or documents are needed, an embedding
/// function without documents.
pub proof fn lemma_documented_refusals(
    require_embeddings_or_documents: bool,
    ids: Seq<Seq<char>>,
    embeddings: Option<nat>,
    metadatas: Option<nat>,
    documents: Option<nat>,
    has_embedding_function: bool,
)
    ensures
        ({
            let r = records_rejection(
                require_embeddings_or_documents,
                ids,
                embeddings,
                metadatas,
                documents,
                has_embedding_function,
            );
            &&& require_embeddings_or_documents && embeddings is None && documents is None ==> r is Some
            &&& embeddings is None && documents is Some && !has_embedding_function ==> r is Some
            &&& embeddings is Some && has_embedding_function ==> r is Some
            &&& has_empty_id(ids) ==> r is Some
            &&& !one_per_id(ids.len(), embeddings) ==> r is Some
            &&& !one_per_id(ids.len(), metadatas) ==> r is Some
            &&& !one_per_id(ids.len(), documents) ==> r is Some
            &&& !all_distinct(ids) ==> r is Some
            &&& require_embeddings_or_documents && has_embedding_function && documents is None ==> r is Some
            &&& (exists|i: int| 0 <= i < ids.len() && (#[trigger] ids[i]).len() == 0) ==> r is Some
            &&& (embeddings matches Some(c) && c != ids.len()) ==> r is Some
            &&& (metadatas matches Some(c) && c != ids.len()) ==> r is Some
            &&& (documents matches Some(c) && c != ids.len()) ==> r is Some
            &&& (exists|i: int, j: int| 0 <= i < j < ids.len() && ids[i] == ids[j]) ==> r is Some
        }),
{
}

/// A batch is accepted exactly when its sources agree (embeddings or
/// documents where needed, an embedding function exactly when documents stand
/// without embeddings), no id is empty, every given list has one entry per id,
/// and no id occurs twice.
pub proof fn lemma_accepted_batches(
    require_embeddings_or_documents: bool,
    ids: Seq<Seq<char>>,
    embeddings: Option<nat>,
    metadatas: Option<nat>,
    documents: Option<nat>,
    has_embedding_function: bool,
)
    ensures
        records_rejection(
            require_embeddings_or_documents,
            ids,
            embeddings,
            metadatas,
            documents,
            has_embedding_function,
        ) is None <==> {
            &&& !(require_embeddings_or_documents && embeddings is None && documents is None)
            &&& !(embeddings is None && documents is Some && !has_embedding_function)
            &&& !(embeddings is Some && has_embedding_function)
            &&& forall|i: int| 0 <= i < ids.len() ==> (#[trigger] ids[i]).len() > 0
            &&& (embeddings matches Some(c) ==> c == ids.len())
            &&& (metadatas matches Some(c) ==> c == ids.len())
            &&& (documents matches Some(c) ==> c == ids.len())
            &&& forall|i: int, j: int| 0 <= i < j < ids.len() ==> ids[i] != ids[j]
        },
{
}

/// When the sources agree, the refusal names the first failing check on the
/// ids: an empty id anywhere, else a list with other than one entry per id,
/// else ids that occur twice (all their occurrences, which are then not none).
pub proof fn lemma_refusal_reasons(
    ids: Seq<Seq<char>>,
    embeddings: Option<nat>,
    metadatas: Option<nat>,
    documents: Option<nat>,
    has_embedding_function: bool,
    require_embeddings_or_documents: bool,
)
    requires
        source_rejection(
            require_embeddings_or_documents,
            embeddings is Some,
            documents is Some,
            has_embedding_function,
        ) is None,
    ensures
        ({
            let r = records_rejection(
                require_embeddings_or_documents,
                ids,
                embeddings,
                metadatas,
                documents,
                has_embedding_function,
            );
            let empty = exists|i: int| 0 <= i < ids.len() && (#[trigger] ids[i]).len() == 0;
            let mismatch = (embeddings matches Some(c) && c != ids.len())
                || (metadatas matches Some(c) && c != ids.len())
                || (documents matches Some(c) && c != ids.len());
            let repeated = exists|i: int, j: int| 0 <= i < j < ids.len() && ids[i] == ids[j];
            &&& empty ==> r == Some(Rejection::EmptyId)
            &&& !empty && mismatch ==> r == Some(Rejection::LengthMismatch)
            &&& !empty && !mismatch && repeated ==> (r matches Some(Rejection::DuplicateIds(d))
                && d.len() > 0)
        }),
{
    lemma_duplicates_empty_iff_distinct(ids);
}

/// A request path is `/collections/`, then the whole id, then the suffix.
pub proof fn lemma_paths_hold_the_whole_id(id: Seq<char>, suffix: Seq<char>)
    ensures
        ({
            let p = collection_path(id, suffix);
            &&& p.len() == 13 + id.len() + suffix.len()
            &&& p.subrange(0, 13) == seq!['/', 'c', 'o', 'l', 'l', 'e', 'c', 't', 'i', 'o', 'n', 's', '/']
            &&& p.subrange(13, 13 + id.len() as int) == id
            &&& p.subrange(13 + id.len() as int, p.len() as int) == suffix
        }),
{
    reveal_strlit("/collections/");
    let p = collection_path(id, suffix);
    assert(p.subrange(0, 13) =~= seq!['/', 'c', 'o', 'l', 'l', 'e', 'c', 't', 'i', 'o', 'n', 's', '/']);
    assert(p.subrange(13, 13 + id.len() as int) =~= id);
    assert(p.subrange(13 + id.len() as int, p.len() as int) =~= suffix);
}

/// Two collections with different ids send the same operation to different paths.
pub proof fn lemma_paths_tell_collections_apart(a: Seq<char>, b: Seq<char>, suffix: Seq<char>)
    requires
        collection_path(a, suffix) == collection_path(b, suffix),
    ensures
        a == b,
{
    lemma_paths_hold_the_whole_id(a, suffix);
    lemma_paths_hold_the_whole_id(b, suffix);
}

/// The first stage (`plan_embeddings`) refuses exactly when the whole
/// validation refuses for a reason of the first stage, and then for the same
/// reason.
pub proof fn lemma_plan_agrees_with_validation(
    require_embeddings_or_documents: bool,
    ids: Seq<Seq<char>>,
    embeddings: Option<nat>,
    metadatas: Option<nat>,
    documents: Option<nat>,
    has_embedding_function: bool,
)
    ensures
        ({
            let s = source_rejection(
                require_embeddings_or_documents,
                embeddings is Some,
                documents is Some,
                has_embedding_function,
            );
            let r = records_rejection(
                require_embeddings_or_documents,
                ids,
                embeddings,
                metadatas,
                documents,
                has_embedding_function,
            );
            &&& s is Some ==> r == s
            &&& s is None ==> !(r matches Some(x) && (x is MissingEmbeddingsAndDocuments
                || x is MissingEmbeddingFunction || x is UnexpectedEmbeddingFunction))
        }),
{
}

/// Add and upsert accept and refuse the same batches, for the same reasons.
pub proof fn lemma_add_and_upsert_validate_alike(
    ids: Seq<Seq<char>>,
    embeddings: Option<nat>,
    metadatas: Option<nat>,
    documents: Option<nat>,
    has_embedding_function: bool,
)
    ensures
        records_rejection(
            RecordsOperation::Add.needs_embeddings_or_documents(),
            ids,
            embeddings,
            metadatas,
            documents,
            has_embedding_function,
        ) == records_rejection(
            RecordsOperation::Upsert.needs_embeddings_or_documents(),
            ids,
            embeddings,
            metadatas,
            documents,
            has_embedding_function,
        ),
{
}

/// Update never refuses for want of embeddings and documents, and otherwise
/// refuses exactly what add refuses, for the same reasons; so update accepts
/// every batch that add accepts.
pub proof fn lemma_update_relaxes_only_the_sources(
    ids: Seq<Seq<char>>,
    embeddings: Option<nat>,
    metadatas: Option<nat>,
    documents: Option<nat>,
    has_embedding_function: bool,
)
    ensures
        ({
            let add = records_rejection(
                RecordsOperation::Add.needs_embeddings_or_documents(),
                ids,
                embeddings,
                metadatas,
                documents,
                has_embedding_function,
            );
            let update = records_rejection(
                RecordsOperation::Update.needs_embeddings_or_documents(),
                ids,
                embeddings,
                metadatas,
                documents,
                has_embedding_function,
            );
            &&& update != Some(Rejection::MissingEmbeddingsAndDocuments)
            &&& add != Some(Rejection::MissingEmbeddingsAndDocuments) ==> update == add
            &&& add is None ==> update is None
        }),
{
}

proof fn lemma_occurs_somewhere(s: Seq<Seq<char>>, x: Seq<char>)
    requires
        occurrences(s, x) > 0,
    ensures
        exists|i: int| 0 <= i < s.len() && s[i] == x,
{
    if forall|i: int| 0 <= i < s.len() ==> s[i] != x {
        crate::validation::lemma_occurrences_absent(s, x);
    }
}

proof fn lemma_repeated_prefix_members(ids: Seq<Seq<char>>, k: int, x: Seq<char>)
    requires
        0 <= k <= ids.len(),
    ensures
        repeated_prefix(ids, k).contains(x) <==> (occurrences(ids, x) > 1 && exists|i: int|
            0 <= i < k && ids[i] == x),
    decreases k,
{
    if k > 0 {
        lemma_repeated_prefix_members(ids, k - 1, x);
        let rest = repeated_prefix(ids, k - 1);
        if occurrences(ids, ids[k - 1]) > 1 {
            let p = rest.push(ids[k - 1]);
            assert(p.contains(x) <==> (rest.contains(x) || ids[k - 1] == x)) by {
                if p.contains(x) {
                    let j = choose|j: int| 0 <= j < p.len() && p[j] == x;
                    if j < rest.len() {
                        assert(rest[j] == x);
                    }
                }
                if rest.contains(x) {
                    let j = choose|j: int| 0 <= j < rest.len() && rest[j] == x;
                    assert(p[j] == x);
                }
                if ids[k - 1] == x {
                    assert(p[rest.len() as int] == x);
                }
            }
        }
        if exists|i: int| 0 <= i < k && ids[i] == x {
            let i = choose|i: int| 0 <= i < k && ids[i] == x;
            if i < k - 1 {
                assert(exists|i2: int| 0 <= i2 < k - 1 && ids[i2] == x);
            }
        }
    }
}

/// The ids reported as duplicates are exactly those that occur more than once.
pub proof fn lemma_duplicates_are_the_repeated_ids(ids: Seq<Seq<char>>, x: Seq<char>)
    ensures
        duplicates_of(ids).contains(x) <==> occurrences(ids, x) > 1,
{
    lemma_repeated_prefix_members(ids, ids.len() as int, x);
    if occurrences(ids, x) > 1 {
        lemma_occurs_somewhere(ids, x);
    }
}

/// `occurrences` counts as the multiset of a sequence does.
pub proof fn lemma_occurrences_count(s: Seq<Seq<char>>, x: Seq<char>)
    ensures
        occurrences(s, x) == s.to_multiset().count(x),
    decreases s.len(),
{
    broadcast use vstd::seq_lib::group_to_multiset_ensures, vstd::multiset::group_multiset_axioms;

    if s.len() == 0 {
        assert(!s.contains(x));
    } else {
        lemma_occurrences_count(s.drop_last(), x);
        assert(s =~= s.drop_last().push(s.last()));
    }
}

proof fn lemma_repeated_prefix_count(ids: Seq<Seq<char>>, k: int, x: Seq<char>)
    requires
        0 <= k <= ids.len(),
    ensures
        repeated_prefix(ids, k).to_multiset().count(x) == (if occurrences(ids, x) > 1 {
            occurrences(ids.take(k), x)
        } else {
            0
        }),
    decreases k,
{
    broadcast use vstd::seq_lib::group_to_multiset_ensures, vstd::multiset::group_multiset_axioms;

    if k == 0 {
        assert(!repeated_prefix(ids, 0).contains(x));
        assert(ids.take(0).len() == 0);
    } else {
        lemma_repeated_prefix_count(ids, k - 1, x);
        assert(ids.take(k).drop_last() =~= ids.take(k - 1));
        assert(ids.take(k).last() == ids[k - 1]);
    }
}

/// The list of duplicates holds each id that occurs more than once exactly as
/// many times as it occurs, and no other id.
pub proof fn lemma_duplicates_keep_every_occurrence(ids: Seq<Seq<char>>, x: Seq<char>)
    ensures
        duplicates_of(ids).to_multiset().count(x) == (if ids.to_multiset().count(x) > 1 {
            ids.to_multiset().count(x)
        } else {
            0
        }),
{
    lemma_repeated_prefix_count(ids, ids.len() as int, x);
    assert(ids.take(ids.len() as int) =~= ids);
    lemma_occurrences_count(ids, x);
}

/// The embedding function is asked for embeddings exactly when documents
/// come without embeddings and the first stage accepts.
pub proof fn lemma_when_embeddings_are_computed(
    require_embeddings_or_documents: bool,
    has_embeddings: bool,
    has_documents: bool,
    has_embedding_function: bool,
)
    requires
        source_rejection(
            require_embeddings_or_documents,
            has_embeddings,
            has_documents,
            has_embedding_function,
        ) is None,
    ensures
        computes_embeddings(has_embeddings, has_documents, has_embedding_function) <==> (
        !has_embeddings && has_documents),
        computes_embeddings(has_embeddings, has_documents, has_embedding_function)
            ==> has_embedding_function,
{
}

/// Each operation sends its records to its own path: `/add`, `/upsert` and
/// `/update`, which differ from one another.
pub proof fn lemma_operation_suffixes()
    ensures
        RecordsOperation::Add.path_suffix() == seq!['/', 'a', 'd', 'd'],
        RecordsOperation::Upsert.path_suffix() == seq!['/', 'u', 'p', 's', 'e', 'r', 't'],
        RecordsOperation::Update.path_suffix() == seq!['/', 'u', 'p', 'd', 'a', 't', 'e'],
{
    reveal_strlit("/add");
    reveal_strlit("/upsert");
    reveal_strlit("/update");
    assert(RecordsOperation::Add.path_suffix() =~= seq!['/', 'a', 'd', 'd']);
    assert(RecordsOperation::Upsert.path_suffix() =~= seq!['/', 'u', 'p', 's', 'e', 'r', 't']);
    assert(RecordsOperation::Update.path_suffix() =~= seq!['/', 'u', 'p', 'd', 'a', 't', 'e']);
}

} // verus!

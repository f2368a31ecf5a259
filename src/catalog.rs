//! The two closed catalogs: exact identifier strings mapped to the model
//! variants that fastembed knows.
use vstd::prelude::*;

use fastembed::{EmbeddingModel, RerankerModel};

verus! {

#[verifier::external_type_specification]
pub struct ExEmbeddingModel(EmbeddingModel);

#[verifier::external_type_specification]
pub struct ExRerankerModel(RerankerModel);

/// The embedding catalog, in table order.
pub open spec fn embedding_catalog() -> Seq<(Seq<char>, EmbeddingModel)> {
    seq![
        ("BAAI/bge-small-en-v1.5"@, EmbeddingModel::BGESmallENV15),
        ("sentence-transformers/all-MiniLM-L6-v2"@, EmbeddingModel::AllMiniLML6V2),
        ("sentence-transformers/all-MiniLM-L12-v2"@, EmbeddingModel::AllMiniLML12V2),
        ("mixedbread-ai/mxbai-embed-large-v1"@, EmbeddingModel::MxbaiEmbedLargeV1),
        ("Qdrant/clip-ViT-B-32-text"@, EmbeddingModel::ClipVitB32),
        ("BAAI/bge-large-en-v1.5"@, EmbeddingModel::BGELargeENV15),
        ("BAAI/bge-small-zh-v1.5"@, EmbeddingModel::BGESmallZHV15),
        ("BAAI/bge-base-en-v1.5"@, EmbeddingModel::BGEBaseENV15),
        ("sentence-transformers/paraphrase-MiniLM-L12-v2"@, EmbeddingModel::ParaphraseMLMiniLML12V2),
        ("sentence-transformers/paraphrase-multilingual-mpnet-base-v2"@, EmbeddingModel::ParaphraseMLMpnetBaseV2),
        ("lightonai/ModernBERT-embed-large"@, EmbeddingModel::ModernBertEmbedLarge),
        ("nomic-ai/nomic-embed-text-v1"@, EmbeddingModel::NomicEmbedTextV1),
        ("nomic-ai/nomic-embed-text-v1.5"@, EmbeddingModel::NomicEmbedTextV15),
        ("intfloat/multilingual-e5-small"@, EmbeddingModel::MultilingualE5Small),
        ("intfloat/multilingual-e5-base"@, EmbeddingModel::MultilingualE5Base),
        ("intfloat/multilingual-e5-large"@, EmbeddingModel::MultilingualE5Large),
        ("Alibaba-NLP/gte-base-en-v1.5"@, EmbeddingModel::GTEBaseENV15),
        ("Alibaba-NLP/gte-large-en-v1.5"@, EmbeddingModel::GTELargeENV15),
    ]
}

/// The reranker catalog, in table order.
pub open spec fn reranker_catalog() -> Seq<(Seq<char>, RerankerModel)> {
    seq![
        ("BAAI/bge-reranker-base"@, RerankerModel::BGERerankerBase),
        ("BAAI/bge-reranker-v2-m3"@, RerankerModel::BGERerankerV2M3),
        ("jinaai/jina-reranker-v1-turbo-en"@, RerankerModel::JINARerankerV1TurboEn),
        ("jinaai/jina-reranker-v2-base-multiligual"@, RerankerModel::JINARerankerV2BaseMultiligual),
    ]
}

/// `i` is the first position of the table whose identifier is `id`.
pub open spec fn first_match<M>(table: Seq<(Seq<char>, M)>, id: Seq<char>, i: int) -> bool {
    &&& 0 <= i < table.len()
    &&& table[i].0 == id
    &&& forall|j: int| 0 <= j < i ==> table[j].0 != id
}

/// The variant that the table gives to `id`: the one of its first entry
/// with exactly that identifier, if there is one.
pub open spec fn lookup<M>(table: Seq<(Seq<char>, M)>, id: Seq<char>) -> Option<M> {
    if exists|i: int| first_match(table, id, i) {
        Some(table[choose|i: int| first_match(table, id, i)].1)
    } else {
        None
    }
}

/// The embedding variant cataloged under `id`.
pub open spec fn embedding_model_of(id: Seq<char>) -> Option<EmbeddingModel> {
    lookup(embedding_catalog(), id)
}

/// The reranking variant cataloged under `id`.
pub open spec fn reranker_model_of(id: Seq<char>) -> Option<RerankerModel> {
    lookup(reranker_catalog(), id)
}

pub open spec fn table_view<M>(t: Seq<(&str, M)>) -> Seq<(Seq<char>, M)> {
    t.map_values(|e: (&str, M)| (e.0@, e.1))
}

/// Two first matches of one identifier are one position.
proof fn lemma_first_match_unique<M>(table: Seq<(Seq<char>, M)>, id: Seq<char>, i: int, k: int)
    requires
        first_match(table, id, i),
        first_match(table, id, k),
    ensures
        i == k,
{
    if i < k {
        assert(table[i].0 != id);
    } else if k < i {
        assert(table[k].0 != id);
    }
}

/// Whether two strings hold the same characters.
pub fn same_text(a: &str, b: &str) -> (r: bool)
    ensures
        r == (a@ == b@),
{
    let n = a.unicode_len();
    if n != b.unicode_len() {
        return false;
    }
    let mut i: usize = 0;
    while i < n
        invariant
            n == a@.len(),
            n == b@.len(),
            i <= n,
            forall|j: int| 0 <= j < i ==> a@[j] == b@[j],
        decreases n - i,
    {
        if a.get_char(i) != b.get_char(i) {
            return false;
        }
        i += 1;
    }
    assert(a@ =~= b@);
    true
}

/// Finds the first entry of `table` whose identifier is `id`.
fn find_entry<M>(table: &Vec<(&'static str, M)>, id: &str) -> (r: Option<usize>)
    ensures
        match r {
            Some(i) => first_match(table_view(table@), id@, i as int),
            None => lookup(table_view(table@), id@) is None,
        },
        r is Some <==> lookup(table_view(table@), id@) is Some,
{
    let ghost tv = table_view(table@);
    let mut i: usize = 0;
    while i < table.len()
        invariant
            tv == table_view(table@),
            i <= table@.len(),
            forall|j: int| 0 <= j < i ==> tv[j].0 != id@,
        decreases table@.len() - i,
    {
        if same_text(table[i].0, id) {
            assert(first_match(tv, id@, i as int));
            return Some(i);
        }
        i += 1;
    }
    assert(!exists|k: int| first_match(tv, id@, k));
    None
}

/// Takes the variant of the first entry of `table` under `id`.
fn take_entry<M>(table: Vec<(&'static str, M)>, id: &str) -> (r: Option<M>)
    ensures
        r == lookup(table_view(table@), id@),
{
    let ghost tv = table_view(table@);
    match find_entry(&table, id) {
        Some(i) => {
            proof {
                let c = choose|k: int| first_match(tv, id@, k);
                lemma_first_match_unique(tv, id@, i as int, c);
            }
            let mut t = table;
            let (_, m) = t.swap_remove(i);
            Some(m)
        },
        None => None,
    }
}

/// The embedding catalog as an executable table.
pub fn embedding_table() -> (t: Vec<(&'static str, EmbeddingModel)>)
    ensures
        table_view(t@) == embedding_catalog(),
{
    let t = vec![
        ("BAAI/bge-small-en-v1.5", EmbeddingModel::BGESmallENV15),
        ("sentence-transformers/all-MiniLM-L6-v2", EmbeddingModel::AllMiniLML6V2),
        ("sentence-transformers/all-MiniLM-L12-v2", EmbeddingModel::AllMiniLML12V2),
        ("mixedbread-ai/mxbai-embed-large-v1", EmbeddingModel::MxbaiEmbedLargeV1),
        ("Qdrant/clip-ViT-B-32-text", EmbeddingModel::ClipVitB32),
        ("BAAI/bge-large-en-v1.5", EmbeddingModel::BGELargeENV15),
        ("BAAI/bge-small-zh-v1.5", EmbeddingModel::BGESmallZHV15),
        ("BAAI/bge-base-en-v1.5", EmbeddingModel::BGEBaseENV15),
        ("sentence-transformers/paraphrase-MiniLM-L12-v2", EmbeddingModel::ParaphraseMLMiniLML12V2),
        ("sentence-transformers/paraphrase-multilingual-mpnet-base-v2", EmbeddingModel::ParaphraseMLMpnetBaseV2),
        ("lightonai/ModernBERT-embed-large", EmbeddingModel::ModernBertEmbedLarge),
        ("nomic-ai/nomic-embed-text-v1", EmbeddingModel::NomicEmbedTextV1),
        ("nomic-ai/nomic-embed-text-v1.5", EmbeddingModel::NomicEmbedTextV15),
        ("intfloat/multilingual-e5-small", EmbeddingModel::MultilingualE5Small),
        ("intfloat/multilingual-e5-base", EmbeddingModel::MultilingualE5Base),
        ("intfloat/multilingual-e5-large", EmbeddingModel::MultilingualE5Large),
        ("Alibaba-NLP/gte-base-en-v1.5", EmbeddingModel::GTEBaseENV15),
        ("Alibaba-NLP/gte-large-en-v1.5", EmbeddingModel::GTELargeENV15),
    ];
    assert(table_view(t@) =~= embedding_catalog());
    t
}

/// The reranker catalog as an executable table.
pub fn reranker_table() -> (t: Vec<(&'static str, RerankerModel)>)
    ensures
        table_view(t@) == reranker_catalog(),
{
    let t = vec![
        ("BAAI/bge-reranker-base", RerankerModel::BGERerankerBase),
        ("BAAI/bge-reranker-v2-m3", RerankerModel::BGERerankerV2M3),
        ("jinaai/jina-reranker-v1-turbo-en", RerankerModel::JINARerankerV1TurboEn),
        ("jinaai/jina-reranker-v2-base-multiligual", RerankerModel::JINARerankerV2BaseMultiligual),
    ];
    assert(table_view(t@) =~= reranker_catalog());
    t
}

/// Resolves an embedding model identifier by exact match.
pub fn embedding_model_for(id: &str) -> (r: Option<EmbeddingModel>)
    ensures
        r == embedding_model_of(id@),
{
    take_entry(embedding_table(), id)
}

/// Resolves a reranking model identifier by exact match.
pub fn reranker_model_for(id: &str) -> (r: Option<RerankerModel>)
    ensures
        r == reranker_model_of(id@),
{
    take_entry(reranker_table(), id)
}

} // verus!

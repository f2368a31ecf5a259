//! The calls into fastembed that the invocation layer makes, each with what
//! it relies on. Vector components and scores cross this boundary as their
//! IEEE-754 single-precision bit patterns.
use vstd::prelude::*;

use fastembed::{
    EmbeddingModel, InitOptions, RerankInitOptions, RerankerModel, TextEmbedding, TextRerank,
};

verus! {

#[verifier::external_type_specification]
#[verifier::external_body]
pub struct ExTextEmbedding(TextEmbedding);

#[verifier::external_type_specification]
#[verifier::external_body]
pub struct ExTextRerank(TextRerank);

/// One entry of a reranking: the position of the document in the request,
/// the bit pattern of its relevance score, and the document itself when asked for.
pub struct RankedResult {
    pub index: usize,
    pub score_bits: u32,
    pub document: Option<String>,
}

/// An embedding model built for a catalog variant, with that variant and the
/// output dimension that fastembed lists for it. Only `load_embedder` makes one.
pub struct LoadedEmbedder {
    model: TextEmbedding,
    variant: EmbeddingModel,
    dimension: usize,
}

impl LoadedEmbedder {
    pub closed spec fn variant(&self) -> EmbeddingModel {
        self.variant
    }

    pub closed spec fn dimension(&self) -> usize {
        self.dimension
    }

    pub fn dim(&self) -> (d: usize)
        ensures
            d == self.dimension(),
    {
        self.dimension
    }
}

/// A reranking model built for a catalog variant, with that variant. Only
/// `load_reranker_model` makes one.
pub struct LoadedReranker {
    model: TextRerank,
    variant: RerankerModel,
}

impl LoadedReranker {
    pub closed spec fn variant(&self) -> RerankerModel {
        self.variant
    }
}

/// The output dimension that fastembed's model table lists for each variant
/// of the catalog.
pub open spec fn listed_dimension(m: EmbeddingModel) -> Option<usize> {
    match m {
        EmbeddingModel::BGESmallENV15 => Some(384),
        EmbeddingModel::AllMiniLML6V2 => Some(384),
        EmbeddingModel::AllMiniLML12V2 => Some(384),
        EmbeddingModel::MxbaiEmbedLargeV1 => Some(1024),
        EmbeddingModel::ClipVitB32 => Some(512),
        EmbeddingModel::BGELargeENV15 => Some(1024),
        EmbeddingModel::BGESmallZHV15 => Some(512),
        EmbeddingModel::BGEBaseENV15 => Some(768),
        EmbeddingModel::ParaphraseMLMiniLML12V2 => Some(384),
        EmbeddingModel::ParaphraseMLMpnetBaseV2 => Some(768),
        EmbeddingModel::ModernBertEmbedLarge => Some(1024),
        EmbeddingModel::NomicEmbedTextV1 => Some(768),
        EmbeddingModel::NomicEmbedTextV15 => Some(768),
        EmbeddingModel::MultilingualE5Small => Some(384),
        EmbeddingModel::MultilingualE5Base => Some(768),
        EmbeddingModel::MultilingualE5Large => Some(1024),
        EmbeddingModel::GTEBaseENV15 => Some(768),
        EmbeddingModel::GTELargeENV15 => Some(1024),
        _ => None,
    }
}

/// The key by which `f32::total_cmp` orders a score with bit pattern `b`.
pub open spec fn total_order_key(b: u32) -> int {
    if b < 0x8000_0000 {
        b as int
    } else {
        0x7fff_ffff - b as int
    }
}

/// Some entry of `results` stands for the document at position `k`.
pub open spec fn names_position(results: Seq<RankedResult>, k: int) -> bool {
    exists|i: int| 0 <= i < results.len() && (#[trigger] results[i]).index == k
}

/// `results` ranks every document exactly once: one entry per document, each
/// position named by exactly one entry, the document text carried back
/// exactly when `return_docs` asks for it, and scores in descending order.
pub open spec fn ranks_all(results: Seq<RankedResult>, documents: Seq<String>, return_docs: bool) -> bool {
    &&& results.len() == documents.len()
    &&& forall|i: int| 0 <= i < results.len() ==> (#[trigger] results[i]).index < documents.len()
    &&& forall|i: int, j: int|
        0 <= i < j < results.len() ==> (#[trigger] results[i]).index != (#[trigger] results[j]).index
    &&& forall|k: int|
        0 <= k < documents.len() ==> #[trigger] names_position(results, k)
    &&& forall|i: int|
        0 <= i < results.len() ==> (#[trigger] results[i]).document == if return_docs {
            Some(documents[results[i].index as int])
        } else {
            None
        }
    &&& forall|i: int, j: int|
        0 <= i < j < results.len() ==> total_order_key((#[trigger] results[i]).score_bits)
            >= total_order_key((#[trigger] results[j]).score_bits)
}

/// Relies on TextEmbedding::get_model_info, which looks `m` up in fastembed's
/// static model table and reads the entry's `dim`.
#[verifier::external_body]
pub(crate) fn model_dimension(m: &EmbeddingModel) -> (r: Option<usize>)
    ensures
        listed_dimension(*m) is Some ==> r == listed_dimension(*m),
{
    match TextEmbedding::get_model_info(m) {
        Ok(info) => Some(info.dim),
        Err(_) => None,
    }
}

/// Relies on TextEmbedding::try_new with the default options for `m`
/// (fetching the weights if they are not cached); its error is handed over
/// as its message.
#[verifier::external_body]
fn build_embedder(m: &EmbeddingModel) -> (r: Result<TextEmbedding, String>) {
    TextEmbedding::try_new(InitOptions::new(m.clone())).map_err(|e| e.to_string())
}

/// Relies on TextRerank::try_new for `m`, with download progress shown; its
/// error is handed over as its message.
#[verifier::external_body]
fn build_reranker(m: &RerankerModel) -> (r: Result<TextRerank, String>) {
    TextRerank::try_new(RerankInitOptions::new(m.clone()).with_show_download_progress(true))
        .map_err(|e| e.to_string())
}

/// Builds the embedding model `m`, whose listed dimension is `dimension`.
pub(crate) fn load_embedder(m: EmbeddingModel, dimension: usize) -> (r: Result<LoadedEmbedder, String>)
    requires
        listed_dimension(m) == Some(dimension),
    ensures
        r matches Ok(l) ==> l.variant() == m && l.dimension() == dimension,
{
    match build_embedder(&m) {
        Ok(model) => Ok(LoadedEmbedder { model, variant: m, dimension }),
        Err(e) => Err(e),
    }
}

/// Builds the reranking model `m`.
pub(crate) fn load_reranker_model(m: RerankerModel) -> (r: Result<LoadedReranker, String>)
    ensures
        r matches Ok(l) ==> l.variant() == m,
{
    match build_reranker(&m) {
        Ok(model) => Ok(LoadedReranker { model, variant: m }),
        Err(e) => Err(e),
    }
}

/// Relies on TextEmbedding::embed with the default batch size: the pooled
/// output of each batch has one row per text, the rows of the batches are
/// concatenated in input order, and each row is as wide as the model's listed
/// `dim` (fastembed's own tests hold every listed model to that width). A
/// dynamically quantized model sizes its batches by the number of texts, so
/// an empty batch is left out.
#[verifier::external_body]
pub(crate) fn embed_batch(model: &LoadedEmbedder, texts: Vec<String>) -> (r: Result<Vec<Vec<u32>>, String>)
    requires
        texts@.len() > 0,
    ensures
        r matches Ok(v) ==> v@.len() == texts@.len() && forall|i: int|
            0 <= i < v@.len() ==> (#[trigger] v@[i])@.len() == model.dimension(),
{
    match model.model.embed(texts, None) {
        Ok(vs) => Ok(vs.into_iter().map(|v| v.into_iter().map(|x| x.to_bits()).collect()).collect()),
        Err(e) => Err(e.to_string()),
    }
}

/// Relies on TextRerank::rerank with the default batch size: it scores each
/// document once, tags each score with the document's position, carries the
/// document when asked, and sorts the entries by `f32::total_cmp`, highest
/// first.
#[verifier::external_body]
pub(crate) fn rerank_batch(model: &LoadedReranker, query: &String, documents: &Vec<String>, return_docs: bool)
    -> (r: Result<Vec<RankedResult>, String>)
    ensures
        r matches Ok(v) ==> ranks_all(v@, documents@, return_docs),
{
    let refs: Vec<&String> = documents.iter().collect();
    match model.model.rerank(query, refs, return_docs, None) {
        Ok(rs) => Ok(rs.into_iter().map(|sd| RankedResult {
            index: sd.index,
            score_bits: sd.score.to_bits(),
            document: sd.document,
        }).collect()),
        Err(e) => Err(e.to_string()),
    }
}

} // verus!

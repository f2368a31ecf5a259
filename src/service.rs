//! The invocation layer: loading an embedding model or a reranker into its
//! registry, and running the resident model on a batch.
//!
//! The two registries are independent values. A load is two steps.
//! `prepare_embedder` (or `prepare_reranker`) resolves the identifier and
//! builds the model; it touches no registry, so a caller that shares a
//! registry between threads runs it outside any lock. The install step then
//! stores the model, unless the registry already holds one, in which case the
//! fresh model is dropped.
use vstd::prelude::*;

use crate::catalog::{
    embedding_catalog, embedding_model_for, embedding_model_of, first_match, reranker_model_for,
    reranker_model_of,
};
use crate::engine::{
    embed_batch, listed_dimension, load_embedder, load_reranker_model, model_dimension, ranks_all,
    rerank_batch, LoadedEmbedder, LoadedReranker, RankedResult,
};
use crate::messages::{
    model_loaded, model_loaded_message, no_info, no_info_message, no_model, no_model_message,
    no_reranker, no_reranker_message, reranker_loaded, reranker_loaded_message,
    unrecognized_model, unrecognized_model_message, unrecognized_reranker,
    unrecognized_reranker_message,
};
use crate::slot::Slot;

verus! {

/// A result with its error message seen as characters.
pub open spec fn outcome<T>(r: Result<T, String>) -> Result<T, Seq<char>> {
    match r {
        Ok(v) => Ok(v),
        Err(e) => Err(e@),
    }
}

/// The dimension that the catalog and fastembed's model table give to `id`,
/// or the error that says which of the two lacks it.
pub open spec fn dimension_of(id: Seq<char>) -> Result<i64, Seq<char>> {
    match embedding_model_of(id) {
        None => Err(unrecognized_model_message(id)),
        Some(m) => match listed_dimension(m) {
            None => Err(no_info_message(id)),
            Some(d) => Ok(d as i64),
        },
    }
}

/// Every variant of the embedding catalog has a listed dimension.
pub proof fn lemma_catalog_dimensions(id: Seq<char>)
    ensures
        embedding_model_of(id) matches Some(m) ==> listed_dimension(m) is Some,
{
    let t = embedding_catalog();
    assert forall|i: int| 0 <= i < t.len() implies (#[trigger] listed_dimension(t[i].1)) is Some by {
    }
    if exists|i: int| first_match(t, id, i) {
        let i = choose|i: int| first_match(t, id, i);
        assert(listed_dimension(t[i].1) is Some);
    }
}

/// `b` is what preparing the embedding model `id` may give: the catalog's
/// error, or else a build failure, or the model built for the cataloged
/// variant with its listed dimension.
pub open spec fn prepared_embedder(id: Seq<char>, b: Result<LoadedEmbedder, String>) -> bool {
    match dimension_of(id) {
        Err(e) => outcome(b) == Err::<LoadedEmbedder, Seq<char>>(e),
        Ok(d) => b matches Ok(l) ==> Some(l.variant()) == embedding_model_of(id)
            && l.dimension() as i64 == d,
    }
}

/// `b` is what preparing the reranker `id` may give: the catalog's error, or
/// else a build failure, or the model built for the cataloged variant.
pub open spec fn prepared_reranker(id: Seq<char>, b: Result<LoadedReranker, String>) -> bool {
    match reranker_model_of(id) {
        None => outcome(b) == Err::<LoadedReranker, Seq<char>>(unrecognized_reranker_message(id)),
        Some(m) => b matches Ok(l) ==> l.variant() == m,
    }
}

/// What installing the prepared `b` into an embedding registry holding
/// `held` leaves there, and what it returns.
pub open spec fn embedder_installed(held: Option<LoadedEmbedder>, b: Result<LoadedEmbedder, String>) -> (
    Option<LoadedEmbedder>,
    Result<i64, Seq<char>>,
) {
    match b {
        Err(e) => (held, Err(e@)),
        Ok(l) => match held {
            None => (Some(l), Ok(l.dimension() as i64)),
            Some(w) => (Some(w), Err(model_loaded_message())),
        },
    }
}

/// What installing the prepared `b` into a reranker registry holding `held`
/// leaves there, and what it returns.
pub open spec fn reranker_installed(held: Option<LoadedReranker>, b: Result<LoadedReranker, String>) -> (
    Option<LoadedReranker>,
    Result<bool, Seq<char>>,
) {
    match b {
        Err(e) => (held, Err(e@)),
        Ok(l) => match held {
            None => (Some(l), Ok(true)),
            Some(w) => (Some(w), Err(reranker_loaded_message())),
        },
    }
}

/// A load of `id` may turn an embedding registry holding `before` into one
/// holding `after` and return `r`.
pub open spec fn embedder_load(
    before: Option<LoadedEmbedder>,
    id: Seq<char>,
    after: Option<LoadedEmbedder>,
    r: Result<i64, Seq<char>>,
) -> bool {
    exists|b: Result<LoadedEmbedder, String>|
        prepared_embedder(id, b) && #[trigger] embedder_installed(before, b) == (after, r)
}

/// A load of the reranker `id` may turn a reranker registry holding `before`
/// into one holding `after` and return `r`.
pub open spec fn reranker_load(
    before: Option<LoadedReranker>,
    id: Seq<char>,
    after: Option<LoadedReranker>,
    r: Result<bool, Seq<char>>,
) -> bool {
    exists|b: Result<LoadedReranker, String>|
        prepared_reranker(id, b) && #[trigger] reranker_installed(before, b) == (after, r)
}

/// Looks up the dimension of the embedding model `id` without building it.
pub fn embedding_dimension(id: &str) -> (r: Result<i64, String>)
    ensures
        outcome(r) == dimension_of(id@),
        embedding_model_of(id@) is Some ==> r is Ok,
{
    proof {
        lemma_catalog_dimensions(id@);
    }
    match embedding_model_for(id) {
        None => Err(unrecognized_model(id)),
        Some(m) => match model_dimension(&m) {
            None => Err(no_info(id)),
            Some(d) => Ok(d as i64),
        },
    }
}

/// Resolves the embedding model `id` and builds it.
pub fn prepare_embedder(id: &str) -> (r: Result<LoadedEmbedder, String>)
    ensures
        prepared_embedder(id@, r),
{
    proof {
        lemma_catalog_dimensions(id@);
    }
    match embedding_model_for(id) {
        None => Err(unrecognized_model(id)),
        Some(m) => match model_dimension(&m) {
            None => Err(no_info(id)),
            Some(d) => load_embedder(m, d),
        },
    }
}

/// Resolves the reranker `id` and builds it.
pub fn prepare_reranker(id: &str) -> (r: Result<LoadedReranker, String>)
    ensures
        prepared_reranker(id@, r),
{
    match reranker_model_for(id) {
        None => Err(unrecognized_reranker(id)),
        Some(m) => load_reranker_model(m),
    }
}

/// The registry of the one embedding model of a process.
pub struct EmbeddingRegistry {
    slot: Slot<LoadedEmbedder>,
}

impl EmbeddingRegistry {
    pub closed spec fn resident(&self) -> Option<LoadedEmbedder> {
        self.slot@
    }

    pub fn new() -> (g: EmbeddingRegistry)
        ensures
            g.resident() is None,
    {
        EmbeddingRegistry { slot: Slot::new() }
    }

    pub fn is_loaded(&self) -> (r: bool)
        ensures
            r == (self.resident() is Some),
    {
        self.slot.is_filled()
    }

    /// Stores a prepared embedding model, unless one is held already; hands
    /// on a preparation error as it is.
    pub fn install_embedder(&mut self, built: Result<LoadedEmbedder, String>) -> (r: Result<i64, String>)
        ensures
            (final(self).resident(), outcome(r)) == embedder_installed(old(self).resident(), built),
    {
        match built {
            Err(e) => Err(e),
            Ok(l) => {
                let d = l.dim();
                match self.slot.store(l) {
                    Ok(()) => Ok(d as i64),
                    Err(_) => Err(model_loaded()),
                }
            },
        }
    }

    /// Loads the embedding model `id` and returns its dimension.
    pub fn load(&mut self, id: &str) -> (r: Result<i64, String>)
        ensures
            embedder_load(old(self).resident(), id@, final(self).resident(), outcome(r)),
            embedding_model_of(id@) is None ==> outcome(r) == Err::<i64, Seq<char>>(
                unrecognized_model_message(id@),
            ),
            r is Err ==> final(self).resident() == old(self).resident(),
            r is Ok ==> old(self).resident() is None && outcome(r) == dimension_of(id@) && (
            final(self).resident() matches Some(l) && Some(l.variant()) == embedding_model_of(id@)
                && r == Ok::<i64, String>(l.dimension() as i64)),
            old(self).resident() is Some ==> r is Err,
    {
        let built = prepare_embedder(id);
        let ghost b = built;
        let r = self.install_embedder(built);
        assert(prepared_embedder(id@, b) && embedder_installed(old(self).resident(), b) == (
            self.resident(),
            outcome(r),
        ));
        r
    }

    /// Embeds each text with the resident model: one vector per text, in
    /// input order, each as wide as the model's dimension and each component
    /// as its bit pattern. An empty batch gives an empty result.
    pub fn embed_text(&self, texts: Vec<String>) -> (r: Result<Vec<Vec<u32>>, String>)
        ensures
            self.resident() is None ==> outcome(r) == Err::<Vec<Vec<u32>>, Seq<char>>(
                no_model_message(),
            ),
            self.resident() is Some && texts@.len() == 0 ==> (r matches Ok(v) && v@.len() == 0),
            r matches Ok(v) ==> self.resident() matches Some(l) && v@.len() == texts@.len()
                && forall|i: int| 0 <= i < v@.len() ==> (#[trigger] v@[i])@.len() == l.dimension(),
    {
        match self.slot.get() {
            None => Err(no_model()),
            Some(model) => {
                if texts.len() == 0 {
                    Ok(Vec::new())
                } else {
                    embed_batch(model, texts)
                }
            },
        }
    }
}

/// The registry of the one reranking model of a process.
pub struct RerankerRegistry {
    slot: Slot<LoadedReranker>,
}

impl RerankerRegistry {
    pub closed spec fn resident(&self) -> Option<LoadedReranker> {
        self.slot@
    }

    pub fn new() -> (g: RerankerRegistry)
        ensures
            g.resident() is None,
    {
        RerankerRegistry { slot: Slot::new() }
    }

    pub fn is_loaded(&self) -> (r: bool)
        ensures
            r == (self.resident() is Some),
    {
        self.slot.is_filled()
    }

    /// Stores a prepared reranker, unless one is held already; hands on a
    /// preparation error as it is.
    pub fn install_reranker(&mut self, built: Result<LoadedReranker, String>) -> (r: Result<bool, String>)
        ensures
            (final(self).resident(), outcome(r)) == reranker_installed(old(self).resident(), built),
    {
        match built {
            Err(e) => Err(e),
            Ok(l) => match self.slot.store(l) {
                Ok(()) => Ok(true),
                Err(_) => Err(reranker_loaded()),
            },
        }
    }

    /// Loads the reranker `id`.
    pub fn load_reranker(&mut self, id: &str) -> (r: Result<bool, String>)
        ensures
            reranker_load(old(self).resident(), id@, final(self).resident(), outcome(r)),
            reranker_model_of(id@) is None ==> outcome(r) == Err::<bool, Seq<char>>(
                unrecognized_reranker_message(id@),
            ),
            r is Err ==> final(self).resident() == old(self).resident(),
            r is Ok ==> r == Ok::<bool, String>(true) && old(self).resident() is None && (
            final(self).resident() matches Some(l) && Some(l.variant()) == reranker_model_of(id@)),
            old(self).resident() is Some ==> r is Err,
    {
        let built = prepare_reranker(id);
        let ghost b = built;
        let r = self.install_reranker(built);
        assert(prepared_reranker(id@, b) && reranker_installed(old(self).resident(), b) == (
            self.resident(),
            outcome(r),
        ));
        r
    }

    /// Scores every document against `query` with the resident reranker,
    /// highest score first.
    pub fn rerank(&self, query: String, documents: Vec<String>, return_docs: bool) -> (r: Result<
        Vec<RankedResult>,
        String,
    >)
        ensures
            self.resident() is None ==> outcome(r) == Err::<Vec<RankedResult>, Seq<char>>(
                no_reranker_message(),
            ),
            r matches Ok(v) ==> self.resident() is Some && ranks_all(v@, documents@, return_docs),
    {
        match self.slot.get() {
            None => Err(no_reranker()),
            Some(model) => rerank_batch(model, &query, &documents, return_docs),
        }
    }
}

} // verus!

//! Properties that hold across calls of the invocation layer.
use vstd::prelude::*;

use crate::catalog::embedding_model_of;
use crate::engine::{names_position, ranks_all, LoadedEmbedder, LoadedReranker, RankedResult};
use crate::messages::{
    law_unrecognized_names_identifier, model_loaded_message, reranker_loaded_message,
    unrecognized_model_message,
};
use crate::service::{dimension_of, embedder_installed, embedder_load, reranker_installed, reranker_load};

verus! {

/// Of two embedding loads in a row, at most one succeeds; once one has
/// succeeded, the next one fails and leaves the slot as it was.
pub proof fn law_load_twice(
    h0: Option<LoadedEmbedder>,
    id1: Seq<char>,
    h1: Option<LoadedEmbedder>,
    r1: Result<i64, Seq<char>>,
    id2: Seq<char>,
    h2: Option<LoadedEmbedder>,
    r2: Result<i64, Seq<char>>,
)
    requires
        embedder_load(h0, id1, h1, r1),
        embedder_load(h1, id2, h2, r2),
    ensures
        !(r1 is Ok && r2 is Ok),
        r1 is Ok ==> r2 is Err && h2 == h1 && h1 is Some,
{
}

/// On an empty embedding slot, of two loads whose models both build, the
/// first returns its dimension, the second the already-loaded error, and the
/// slot keeps the first model.
pub proof fn law_first_load_wins(b1: LoadedEmbedder, b2: LoadedEmbedder)
    ensures
        ({
            let (h1, r1) = embedder_installed(None, Ok(b1));
            let (h2, r2) = embedder_installed(h1, Ok(b2));
            &&& r1 == Ok::<i64, Seq<char>>(b1.dimension() as i64)
            &&& r2 == Err::<i64, Seq<char>>(model_loaded_message())
            &&& h2 == Some(b1)
        }),
{
}

/// Of two reranker loads in a row, at most one succeeds; once one has
/// succeeded, the next one fails and leaves the slot as it was.
pub proof fn law_reranker_load_twice(
    h0: Option<LoadedReranker>,
    id1: Seq<char>,
    h1: Option<LoadedReranker>,
    r1: Result<bool, Seq<char>>,
    id2: Seq<char>,
    h2: Option<LoadedReranker>,
    r2: Result<bool, Seq<char>>,
)
    requires
        reranker_load(h0, id1, h1, r1),
        reranker_load(h1, id2, h2, r2),
    ensures
        !(r1 is Ok && r2 is Ok),
        r1 is Ok ==> r2 is Err && h2 == h1 && h1 is Some,
{
}

/// On an empty reranker slot, of two loads whose models both build, the
/// first succeeds, the second returns the already-loaded error, and the slot
/// keeps the first model.
pub proof fn law_first_reranker_wins(m1: LoadedReranker, m2: LoadedReranker)
    ensures
        ({
            let (h1, r1) = reranker_installed(None, Ok(m1));
            let (h2, r2) = reranker_installed(h1, Ok(m2));
            &&& r1 == Ok::<bool, Seq<char>>(true)
            &&& r2 == Err::<bool, Seq<char>>(reranker_loaded_message())
            &&& h2 == Some(m1)
        }),
{
}

/// A load that succeeds leaves in the registry the model of the identifier's
/// catalog variant, whose dimension is the one returned; `embed_text` makes
/// every vector that wide.
pub proof fn law_loaded_dimension(
    h0: Option<LoadedEmbedder>,
    id: Seq<char>,
    h1: Option<LoadedEmbedder>,
    d: i64,
)
    requires
        embedder_load(h0, id, h1, Ok(d)),
    ensures
        h1 matches Some(l) && l.dimension() as i64 == d && Some(l.variant()) == embedding_model_of(id),
        dimension_of(id) == Ok::<i64, Seq<char>>(d),
{
}

/// A load that fails leaves an empty embedding slot empty, so embedding
/// still reports that no model is loaded.
pub proof fn law_failed_load_keeps_empty(
    id: Seq<char>,
    h1: Option<LoadedEmbedder>,
    r: Result<i64, Seq<char>>,
)
    requires
        embedder_load(None, id, h1, r),
        r is Err,
    ensures
        h1 is None,
{
}

/// A load of an identifier outside the catalog fails with the message that
/// names the identifier verbatim, and changes nothing.
pub proof fn law_unrecognized_load(
    h0: Option<LoadedEmbedder>,
    id: Seq<char>,
    h1: Option<LoadedEmbedder>,
    r: Result<i64, Seq<char>>,
)
    requires
        embedding_model_of(id) is None,
        embedder_load(h0, id, h1, r),
    ensures
        r == Err::<i64, Seq<char>>(unrecognized_model_message(id)),
        r->Err_0.subrange(r->Err_0.len() - id.len(), r->Err_0.len() as int) == id,
        h1 == h0,
{
    law_unrecognized_names_identifier(id);
}

/// A reranking names each document position exactly once: the set of its
/// index fields is the set of positions of the documents.
pub proof fn law_rerank_positions(results: Seq<RankedResult>, documents: Seq<String>, return_docs: bool)
    requires
        ranks_all(results, documents, return_docs),
    ensures
        results.map_values(|e: RankedResult| e.index as int).to_set() == Set::new(
            |k: int| 0 <= k < documents.len(),
        ),
{
    let idx = results.map_values(|e: RankedResult| e.index as int);
    let positions = Set::new(|k: int| 0 <= k < documents.len());
    assert forall|k: int| idx.to_set().contains(k) implies positions.contains(k) by {
        let i = choose|i: int| 0 <= i < idx.len() && idx[i] == k;
        assert(results[i].index < documents.len());
    }
    assert forall|k: int| positions.contains(k) implies idx.to_set().contains(k) by {
        assert(names_position(results, k));
        let i = choose|i: int| 0 <= i < results.len() && results[i].index == k;
        assert(idx[i] == k);
    }
    assert(idx.to_set() =~= positions);
}

} // verus!

use ex_fastembed::messages::{no_model, unrecognized_model};
use ex_fastembed::service::{
    embedding_dimension, prepare_embedder, prepare_reranker, EmbeddingRegistry, RerankerRegistry,
};

#[test]
fn dimension_of_catalog_models() {
    assert_eq!(embedding_dimension("BAAI/bge-small-en-v1.5"), Ok(384));
    assert_eq!(embedding_dimension("sentence-transformers/all-MiniLM-L6-v2"), Ok(384));
    assert_eq!(embedding_dimension("BAAI/bge-large-en-v1.5"), Ok(1024));
    assert_eq!(embedding_dimension("nomic-ai/nomic-embed-text-v1.5"), Ok(768));
    assert_eq!(embedding_dimension("Qdrant/clip-ViT-B-32-text"), Ok(512));
    assert_eq!(embedding_dimension("lightonai/ModernBERT-embed-large"), Ok(1024));
    assert_eq!(embedding_dimension("BAAI/bge-small-zh-v1.5"), Ok(512));
    assert_eq!(embedding_dimension("intfloat/multilingual-e5-base"), Ok(768));
}

#[test]
fn every_catalog_model_has_listed_info() {
    for (id, _) in ex_fastembed::catalog::embedding_table() {
        let d = embedding_dimension(id);
        assert!(matches!(d, Ok(n) if n > 0), "{id}: {d:?}");
    }
}

#[test]
fn dimension_of_unknown_model() {
    assert_eq!(
        embedding_dimension("unknown/model"),
        Err("model not recognized or not implemented: unknown/model".to_string())
    );
}

#[test]
fn unknown_model_load_leaves_registry_empty() {
    let mut m = EmbeddingRegistry::new();
    assert_eq!(
        m.load("unknown/model"),
        Err("model not recognized or not implemented: unknown/model".to_string())
    );
    assert!(!m.is_loaded());
    assert_eq!(
        m.embed_text(vec!["hello world".to_string()]),
        Err("no model loaded. call load first.".to_string())
    );
}

#[test]
fn embed_before_load_fails() {
    let m = EmbeddingRegistry::new();
    assert_eq!(m.embed_text(vec![]), Err("no model loaded. call load first.".to_string()));
    assert_eq!(
        m.embed_text(vec!["a".to_string(), "b".to_string()]),
        Err("no model loaded. call load first.".to_string())
    );
}

#[test]
fn rerank_before_load_fails() {
    let m = RerankerRegistry::new();
    let r = m.rerank("q".to_string(), vec!["d1".to_string(), "d2".to_string()], true);
    assert_eq!(r.err(), Some("no reranker loaded. call loadReranker first.".to_string()));
    let r = m.rerank("q".to_string(), vec![], false);
    assert_eq!(r.err(), Some("no reranker loaded. call loadReranker first.".to_string()));
}

#[test]
fn unknown_reranker_load_fails() {
    let mut m = RerankerRegistry::new();
    assert_eq!(
        m.load_reranker("unknown/reranker"),
        Err("reranker model not recognized: unknown/reranker".to_string())
    );
    assert!(!m.is_loaded());
}

#[test]
fn embedding_identifier_is_no_reranker() {
    let mut m = RerankerRegistry::new();
    assert_eq!(
        m.load_reranker("BAAI/bge-small-en-v1.5"),
        Err("reranker model not recognized: BAAI/bge-small-en-v1.5".to_string())
    );
    let mut e = EmbeddingRegistry::new();
    assert_eq!(
        e.load("BAAI/bge-reranker-base"),
        Err("model not recognized or not implemented: BAAI/bge-reranker-base".to_string())
    );
}

#[test]
fn prepare_rejects_unknown_identifiers() {
    assert_eq!(
        prepare_embedder("unknown/model").err(),
        Some("model not recognized or not implemented: unknown/model".to_string())
    );
    assert_eq!(
        prepare_reranker("unknown/model").err(),
        Some("reranker model not recognized: unknown/model".to_string())
    );
}

#[test]
fn install_hands_on_preparation_error() {
    let mut e = EmbeddingRegistry::new();
    assert_eq!(
        e.install_embedder(Err("weights unavailable".to_string())),
        Err("weights unavailable".to_string())
    );
    assert!(!e.is_loaded());
    let mut r = RerankerRegistry::new();
    assert_eq!(r.install_reranker(Err("fetch failed".to_string())), Err("fetch failed".to_string()));
    assert!(!r.is_loaded());
}

#[test]
fn identifier_stands_verbatim_in_messages() {
    let id = "Some/Odd Model ü";
    let msg = unrecognized_model(id);
    assert!(msg.ends_with(id));
    assert_eq!(no_model(), "no model loaded. call load first.");
}

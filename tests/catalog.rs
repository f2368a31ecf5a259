use ex_fastembed::catalog::{
    embedding_model_for, embedding_table, reranker_model_for, reranker_table, same_text,
};
use fastembed::{EmbeddingModel, RerankerModel};

#[test]
fn embedding_catalog_resolves_each_listed_identifier() {
    assert_eq!(embedding_model_for("BAAI/bge-small-en-v1.5"), Some(EmbeddingModel::BGESmallENV15));
    assert_eq!(
        embedding_model_for("sentence-transformers/paraphrase-multilingual-mpnet-base-v2"),
        Some(EmbeddingModel::ParaphraseMLMpnetBaseV2)
    );
    assert_eq!(
        embedding_model_for("lightonai/ModernBERT-embed-large"),
        Some(EmbeddingModel::ModernBertEmbedLarge)
    );
    assert_eq!(embedding_model_for("Alibaba-NLP/gte-large-en-v1.5"), Some(EmbeddingModel::GTELargeENV15));
    assert_eq!(embedding_model_for("Qdrant/clip-ViT-B-32-text"), Some(EmbeddingModel::ClipVitB32));
    for (id, model) in embedding_table() {
        assert_eq!(embedding_model_for(id), Some(model));
    }
    assert_eq!(embedding_table().len(), 18);
}

#[test]
fn embedding_catalog_matches_exactly() {
    assert_eq!(embedding_model_for("unknown/model"), None);
    assert_eq!(embedding_model_for(""), None);
    assert_eq!(embedding_model_for("baai/bge-small-en-v1.5"), None);
    assert_eq!(embedding_model_for("BAAI/bge-small-en-v1.5 "), None);
    assert_eq!(embedding_model_for("bge-small-en-v1.5"), None);
    assert_eq!(embedding_model_for("BAAI/bge-small-en-v1"), None);
}

#[test]
fn reranker_catalog_resolves_each_listed_identifier() {
    assert_eq!(reranker_model_for("BAAI/bge-reranker-base"), Some(RerankerModel::BGERerankerBase));
    assert_eq!(reranker_model_for("BAAI/bge-reranker-v2-m3"), Some(RerankerModel::BGERerankerV2M3));
    assert_eq!(
        reranker_model_for("jinaai/jina-reranker-v1-turbo-en"),
        Some(RerankerModel::JINARerankerV1TurboEn)
    );
    assert_eq!(
        reranker_model_for("jinaai/jina-reranker-v2-base-multiligual"),
        Some(RerankerModel::JINARerankerV2BaseMultiligual)
    );
    assert_eq!(reranker_table().len(), 4);
}

#[test]
fn reranker_catalog_matches_exactly() {
    assert_eq!(reranker_model_for("jinaai/jina-reranker-v2-base-multilingual"), None);
    assert_eq!(reranker_model_for("BAAI/bge-small-en-v1.5"), None);
    assert_eq!(reranker_model_for(""), None);
}

#[test]
fn catalogs_are_disjoint() {
    for (id, _) in embedding_table() {
        assert_eq!(reranker_model_for(id), None);
    }
    for (id, _) in reranker_table() {
        assert_eq!(embedding_model_for(id), None);
    }
}

#[test]
fn same_text_compares_characters() {
    assert!(same_text("", ""));
    assert!(same_text("héllo", "héllo"));
    assert!(!same_text("héllo", "hello"));
    assert!(!same_text("abc", "abcd"));
    assert!(!same_text("abcd", "abc"));
}

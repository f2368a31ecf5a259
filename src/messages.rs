//! The error messages that the invocation layer returns.
use vstd::prelude::*;

verus! {

pub open spec fn unrecognized_model_message(id: Seq<char>) -> Seq<char> {
    "model not recognized or not implemented: "@ + id
}

pub open spec fn no_info_message(id: Seq<char>) -> Seq<char> {
    "no recognized info for "@ + id
}

pub open spec fn model_loaded_message() -> Seq<char> {
    "model already loaded!"@
}

pub open spec fn no_model_message() -> Seq<char> {
    "no model loaded. call load first."@
}

pub open spec fn unrecognized_reranker_message(id: Seq<char>) -> Seq<char> {
    "reranker model not recognized: "@ + id
}

pub open spec fn reranker_loaded_message() -> Seq<char> {
    "reranker already loaded!"@
}

pub open spec fn no_reranker_message() -> Seq<char> {
    "no reranker loaded. call loadReranker first."@
}

pub fn unrecognized_model(id: &str) -> (m: String)
    ensures
        m@ == unrecognized_model_message(id@),
{
    let mut m = String::from_str("model not recognized or not implemented: ");
    m.append(id);
    m
}

pub fn no_info(id: &str) -> (m: String)
    ensures
        m@ == no_info_message(id@),
{
    let mut m = String::from_str("no recognized info for ");
    m.append(id);
    m
}

pub fn model_loaded() -> (m: String)
    ensures
        m@ == model_loaded_message(),
{
    String::from_str("model already loaded!")
}

pub fn no_model() -> (m: String)
    ensures
        m@ == no_model_message(),
{
    String::from_str("no model loaded. call load first.")
}

pub fn unrecognized_reranker(id: &str) -> (m: String)
    ensures
        m@ == unrecognized_reranker_message(id@),
{
    let mut m = String::from_str("reranker model not recognized: ");
    m.append(id);
    m
}

pub fn reranker_loaded() -> (m: String)
    ensures
        m@ == reranker_loaded_message(),
{
    String::from_str("reranker already loaded!")
}

pub fn no_reranker() -> (m: String)
    ensures
        m@ == no_reranker_message(),
{
    String::from_str("no reranker loaded. call loadReranker first.")
}

/// A message about an unrecognized identifier ends with that identifier, verbatim.
pub proof fn law_unrecognized_names_identifier(id: Seq<char>)
    ensures
        unrecognized_model_message(id).subrange(
            unrecognized_model_message(id).len() - id.len(),
            unrecognized_model_message(id).len() as int,
        ) == id,
        unrecognized_reranker_message(id).subrange(
            unrecognized_reranker_message(id).len() - id.len(),
            unrecognized_reranker_message(id).len() as int,
        ) == id,
{
    assert(unrecognized_model_message(id).subrange(
        unrecognized_model_message(id).len() - id.len(),
        unrecognized_model_message(id).len() as int,
    ) =~= id);
    assert(unrecognized_reranker_message(id).subrange(
        unrecognized_reranker_message(id).len() - id.len(),
        unrecognized_reranker_message(id).len() as int,
    ) =~= id);
}

} // verus!

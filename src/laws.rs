//! Properties that tie the pipeline's steps together.
use vstd::prelude::*;
use crate::context::{VertexConfig, override_model};
use crate::path::lemma_model_before_action;
use crate::preprocess::{CreateMessageParams, GeminiRequestBody, native_model, served};

verus! {

/// Outside the alternate deployment, a native path of the form
/// `.../models/{id}:action` resolves to the model `id`.
pub proof fn law_models_path_names_model(
    prefix: Seq<char>,
    id: Seq<char>,
    action: Seq<char>,
    config: VertexConfig,
)
    requires
        id.len() > 0,
        forall|j: int| 0 <= j < id.len() ==> id[j] != '/' && id[j] != ':',
        forall|j: int| 0 <= j < action.len() ==> action[j] != '/',
    ensures
        native_model(false, prefix + "/models/"@ + id + ":"@ + action, config) == Some(id),
{
    reveal_strlit("/models/");
    reveal_strlit("/models");
    reveal_strlit(":");
    let head = prefix + "/models"@;
    assert(prefix + "/models/"@ + id + ":"@ + action =~= head + seq!['/'] + id + seq![':']
        + action);
    lemma_model_before_action(head, id, action);
}

/// A request to the alternate deployment uses the deployment's own model,
/// whatever its path names, whenever the settings name one.
pub proof fn law_vertex_model_overrides_path(path: Seq<char>, config: VertexConfig)
    requires
        config.model_id matches Some(m) && m@.len() > 0,
    ensures
        native_model(true, path, config) == Some(config.model_id->Some_0@),
{
}

/// A response recorded for one request's normalized body is served to a
/// request of the other wire shape whose normalized body is the same text.
pub proof fn law_cache_shared_across_shapes(
    cache: Map<Seq<char>, Seq<char>>,
    native: GeminiRequestBody,
    oai: CreateMessageParams,
    response: Seq<char>,
)
    requires
        native.json@ == oai.json@,
    ensures
        served(cache.insert(native.json@, response), oai.json@) == Some(response),
        served(cache.insert(oai.json@, response), native.json@) == Some(response),
{
}

} // verus!

//! The two normalization pipelines. Each runs in steps, with the decoding
//! that only the serving layer can do between them:
//!
//! * native: `NativeRoute::resolve` (deployment check, model, streaming), then,
//!   once the query and body are decoded, `GeminiPreprocess::assemble`;
//! * OpenAI-compatible: `Deployment::check`, then, once the body is decoded,
//!   `GeminiOaiPreprocess::assemble`.
//!
//! The deployment check comes first in both, so a request for an unusable
//! deployment is refused before its body is read. Assembling writes the
//! context into a copy of the gateway state and consults the response cache.
use vstd::prelude::*;
use crate::cache::ResponseCache;
use crate::context::{
    ContextView,
    GeminiApiFormat,
    GeminiContext,
    GeminiQuery,
    GeminiState,
    PreprocessError,
    VertexConfig,
    override_model,
};
use crate::path::{contains_seq, contains_str, model_from_path, path_model};

verus! {

/// Whether a request URI asks for the alternate deployment.
pub open spec fn targets_vertex(uri: Seq<char>) -> bool {
    contains_seq(uri, "vertex"@)
}

/// Whether a native path asks for a streamed answer.
pub open spec fn requests_stream(path: Seq<char>) -> bool {
    contains_seq(path, "streamGenerateContent"@)
}

/// A request for the alternate deployment while it is not usable.
pub open spec fn config_rejects(uri: Seq<char>, config: VertexConfig) -> bool {
    targets_vertex(uri) && !config.usable
}

/// The model of a native request: the deployment's own model when the request
/// targets it and one is set, else the model that the path names, if any.
pub open spec fn native_model(vertex: bool, path: Seq<char>, config: VertexConfig) -> Option<
    Seq<char>,
> {
    if vertex && override_model(config) is Some {
        override_model(config)
    } else if path_model(path).len() > 0 {
        Some(path_model(path))
    } else {
        None
    }
}

/// The streaming flag of a message body: false unless it says otherwise.
pub open spec fn stream_flag(stream: Option<bool>) -> bool {
    match stream {
        Some(b) => b,
        None => false,
    }
}

/// The response the cache holds for `key`, if any.
pub open spec fn served(cache: Map<Seq<char>, Seq<char>>, key: Seq<char>) -> Option<Seq<char>> {
    if cache.contains_key(key) {
        Some(cache[key])
    } else {
        None
    }
}

pub open spec fn vertex_unconfigured_message() -> Seq<char> {
    "Vertex is not configured"@
}

pub open spec fn model_missing_message() -> Seq<char> {
    "Model not found in path or vertex config"@
}

pub open spec fn body_model_missing_message() -> Seq<char> {
    "Model not found in request body"@
}

/// A request found fit for the deployment it targets. Only `Deployment::check`
/// makes one, so a value that targets the alternate deployment implies that
/// the deployment was usable.
pub struct Deployment {
    vertex: bool,
}

impl View for Deployment {
    type V = bool;

    /// Whether the request targets the alternate deployment.
    closed spec fn view(&self) -> bool {
        self.vertex
    }
}

impl Deployment {
    /// Refuses a request for the alternate deployment while it is not usable.
    pub fn check(uri: &str, config: &VertexConfig) -> (r: Result<Deployment, PreprocessError>)
        ensures
            config_rejects(uri@, *config) ==> (r matches Err(PreprocessError::Configuration(m))
                && m@ == vertex_unconfigured_message()),
            !config_rejects(uri@, *config) ==> (r matches Ok(d) && d@ == targets_vertex(uri@)),
    {
        let vertex = contains_str(uri, "vertex");
        if vertex && !config.usable {
            return Err(PreprocessError::Configuration("Vertex is not configured".to_owned()));
        }
        Ok(Deployment { vertex })
    }

    /// Whether the request targets the alternate deployment.
    pub fn is_vertex(&self) -> (r: bool)
        ensures
            r == self@,
    {
        self.vertex
    }
}

/// What a native request's URI and path settle.
pub struct RouteView {
    pub vertex: bool,
    pub model: Seq<char>,
    pub stream: bool,
    pub path: Seq<char>,
}

/// A native request whose deployment, model and streaming are settled.
pub struct NativeRoute {
    deployment: Deployment,
    model: String,
    stream: bool,
    path: String,
}

impl View for NativeRoute {
    type V = RouteView;

    closed spec fn view(&self) -> RouteView {
        RouteView {
            vertex: self.deployment@,
            model: self.model@,
            stream: self.stream,
            path: self.path@,
        }
    }
}

impl NativeRoute {
    /// Checks the deployment, then resolves the model and the streaming flag
    /// from the request URI and the path captured by the route.
    pub fn resolve(uri: &str, path: String, config: &VertexConfig) -> (r: Result<
        NativeRoute,
        PreprocessError,
    >)
        ensures
            config_rejects(uri@, *config) ==> (r matches Err(PreprocessError::Configuration(m))
                && m@ == vertex_unconfigured_message()),
            !config_rejects(uri@, *config) && native_model(targets_vertex(uri@), path@, *config)
                is None ==> (r matches Err(PreprocessError::Resolution(m)) && m@
                == model_missing_message()),
            !config_rejects(uri@, *config) && native_model(targets_vertex(uri@), path@, *config)
                is Some ==> (r matches Ok(route) && route@ == (RouteView {
                vertex: targets_vertex(uri@),
                model: native_model(targets_vertex(uri@), path@, *config)->Some_0,
                stream: requests_stream(path@),
                path: path@,
            })),
            r matches Ok(route) ==> route@.model.len() > 0,
    {
        let deployment = match Deployment::check(uri, config) {
            Ok(d) => d,
            Err(e) => return Err(e),
        };
        let mut chosen: Option<String> = None;
        if deployment.vertex {
            if let Some(m) = &config.model_id {
                if m.as_str().unicode_len() > 0 {
                    chosen = Some(m.clone());
                }
            }
        }
        let model = match chosen {
            Some(m) => m,
            None => {
                let from_path = model_from_path(path.as_str());
                if from_path.as_str().unicode_len() == 0 {
                    return Err(
                        PreprocessError::Resolution(
                            "Model not found in path or vertex config".to_owned(),
                        ),
                    );
                }
                from_path
            },
        };
        let stream = contains_str(path.as_str(), "streamGenerateContent");
        Ok(NativeRoute { deployment, model, stream, path })
    }
}

/// The context of a native request, once its query is known.
pub open spec fn native_context(route: RouteView, query: Seq<(Seq<char>, Seq<char>)>) -> ContextView {
    ContextView {
        model: route.model,
        vertex: route.vertex,
        stream: route.stream,
        path: route.path,
        query,
        api_format: GeminiApiFormat::Gemini,
    }
}

/// The context of an OpenAI-compatible request: no path and no query.
pub open spec fn oai_context(vertex: bool, model: Seq<char>, stream: Option<bool>) -> ContextView {
    ContextView {
        model,
        vertex,
        stream: stream_flag(stream),
        path: Seq::empty(),
        query: Seq::empty(),
        api_format: GeminiApiFormat::OpenAI,
    }
}

/// A decoded native body, held as its normalized JSON text.
pub struct GeminiRequestBody {
    pub json: String,
}

/// A decoded OpenAI-compatible message body: the fields read here, and its
/// normalized JSON text.
pub struct CreateMessageParams {
    pub model: String,
    pub stream: Option<bool>,
    pub json: String,
}

/// A native request ready for dispatch.
pub struct GeminiPreprocess(pub GeminiRequestBody, pub GeminiContext);

/// An OpenAI-compatible request ready for dispatch.
pub struct GeminiOaiPreprocess(pub CreateMessageParams, pub GeminiContext);

/// How normalization of a request ends.
pub enum Outcome<T> {
    /// Go on to dispatch, with the request and the gateway state it informed.
    Proceed(T, GeminiState),
    /// Answer with this stored response; nothing is forwarded upstream.
    CacheHit(String),
    /// Refuse the request.
    Rejected(PreprocessError),
}

impl GeminiPreprocess {
    /// Builds the context of a native request, writes it into a copy of the
    /// gateway state, and serves the stored response for its body if there is one.
    pub fn assemble(
        route: NativeRoute,
        query: GeminiQuery,
        body: GeminiRequestBody,
        state: &GeminiState,
        cache: &ResponseCache,
    ) -> (r: Outcome<GeminiPreprocess>)
        ensures
            match r {
                Outcome::Proceed(p, st) => {
                    &&& served(cache@, body.json@) is None
                    &&& p.0 == body
                    &&& p.1@ == native_context(route@, query@)
                    &&& st@ == p.1@
                },
                Outcome::CacheHit(v) => served(cache@, body.json@) == Some(v@),
                Outcome::Rejected(_) => false,
            },
    {
        let ctx = GeminiContext {
            model: route.model,
            vertex: route.deployment.vertex,
            stream: route.stream,
            path: route.path,
            query,
            api_format: GeminiApiFormat::Gemini,
        };
        let mut st = state.snapshot();
        st.update_from_ctx(&ctx);
        match cache.lookup(&body.json) {
            Some(v) => Outcome::CacheHit(v),
            None => Outcome::Proceed(GeminiPreprocess(body, ctx), st),
        }
    }
}

impl GeminiOaiPreprocess {
    /// Builds the context of an OpenAI-compatible request from its body,
    /// writes it into a copy of the gateway state, and serves the stored
    /// response for the body if there is one.
    pub fn assemble(
        deployment: Deployment,
        body: CreateMessageParams,
        state: &GeminiState,
        cache: &ResponseCache,
    ) -> (r: Outcome<GeminiOaiPreprocess>)
        ensures
            body.model@.len() == 0 ==> (r matches Outcome::Rejected(
                PreprocessError::Resolution(m),
            ) && m@ == body_model_missing_message()),
            body.model@.len() > 0 ==> match r {
                Outcome::Proceed(p, st) => {
                    &&& served(cache@, body.json@) is None
                    &&& p.0 == body
                    &&& p.1@ == oai_context(deployment@, body.model@, body.stream)
                    &&& st@ == p.1@
                },
                Outcome::CacheHit(v) => served(cache@, body.json@) == Some(v@),
                Outcome::Rejected(_) => false,
            },
    {
        if body.model.as_str().unicode_len() == 0 {
            return Outcome::Rejected(
                PreprocessError::Resolution("Model not found in request body".to_owned()),
            );
        }
        let stream = match body.stream {
            Some(b) => b,
            None => false,
        };
        let ctx = GeminiContext {
            model: body.model.clone(),
            vertex: deployment.vertex,
            stream,
            path: String::new(),
            query: GeminiQuery::new(),
            api_format: GeminiApiFormat::OpenAI,
        };
        assert(ctx@ == oai_context(deployment@, body.model@, body.stream)) by {
            assert(ctx.query@ =~= Seq::empty());
            assert(ctx.path@ =~= Seq::empty());
        }
        let mut st = state.snapshot();
        st.update_from_ctx(&ctx);
        match cache.lookup(&body.json) {
            Some(v) => Outcome::CacheHit(v),
            None => Outcome::Proceed(GeminiOaiPreprocess(body, ctx), st),
        }
    }
}

} // verus!

use gemini_preprocess::cache::ResponseCache;
use gemini_preprocess::context::{
    GeminiApiFormat, GeminiQuery, GeminiState, PreprocessError, QueryParam, VertexConfig,
};
use gemini_preprocess::path::{contains_str, model_from_path};
use gemini_preprocess::preprocess::{
    CreateMessageParams, Deployment, GeminiOaiPreprocess, GeminiPreprocess, GeminiRequestBody,
    NativeRoute, Outcome,
};

fn usable(model_id: Option<&str>) -> VertexConfig {
    VertexConfig { usable: true, model_id: model_id.map(|m| m.to_string()) }
}

fn unusable() -> VertexConfig {
    VertexConfig { usable: false, model_id: None }
}

fn native_body(json: &str) -> GeminiRequestBody {
    GeminiRequestBody { json: json.to_string() }
}

fn oai_body(model: &str, stream: Option<bool>, json: &str) -> CreateMessageParams {
    CreateMessageParams { model: model.to_string(), stream, json: json.to_string() }
}

fn run_native(
    uri: &str,
    path: &str,
    config: &VertexConfig,
    cache: &ResponseCache,
) -> Outcome<GeminiPreprocess> {
    match NativeRoute::resolve(uri, path.to_string(), config) {
        Ok(route) => GeminiPreprocess::assemble(
            route,
            GeminiQuery::new(),
            native_body("{\"contents\":[]}"),
            &GeminiState::new(),
            cache,
        ),
        Err(e) => Outcome::Rejected(e),
    }
}

fn proceed_native(outcome: Outcome<GeminiPreprocess>) -> (GeminiPreprocess, GeminiState) {
    match outcome {
        Outcome::Proceed(p, st) => (p, st),
        Outcome::CacheHit(_) => panic!("unexpected cache hit"),
        Outcome::Rejected(e) => panic!("unexpected rejection: {}", e.message()),
    }
}

#[test]
fn native_models_path_names_model() {
    let cache = ResponseCache::new();
    let path = "v1beta/models/gemini-1.5-pro:generateContent";
    let uri = "/gemini/v1beta/models/gemini-1.5-pro:generateContent?key=abc";
    let (p, st) = proceed_native(run_native(uri, path, &unusable(), &cache));
    assert_eq!(p.1.model, "gemini-1.5-pro");
    assert!(!p.1.vertex);
    assert!(!p.1.stream);
    assert_eq!(p.1.path, path);
    assert_eq!(p.1.api_format, GeminiApiFormat::Gemini);
    assert_eq!(st.model, "gemini-1.5-pro");
    assert_eq!(st.api_format, GeminiApiFormat::Gemini);
    assert_eq!(p.0.json, "{\"contents\":[]}");
}

#[test]
fn native_vertex_streaming_path() {
    let cache = ResponseCache::new();
    let path = "/v1/vertex/models/gemini-pro:streamGenerateContent";
    let (p, _) = proceed_native(run_native(path, path, &usable(None), &cache));
    assert!(p.1.vertex);
    assert!(p.1.stream);
    assert_eq!(p.1.api_format, GeminiApiFormat::Gemini);
    assert_eq!(p.1.model, "gemini-pro");
}

#[test]
fn vertex_override_replaces_path_model() {
    let cache = ResponseCache::new();
    let path = "/v1/vertex/models/gemini-pro:generateContent";
    let config = usable(Some("gemini-2.0-flash"));
    let (p, _) = proceed_native(run_native(path, path, &config, &cache));
    assert_eq!(p.1.model, "gemini-2.0-flash");
    assert!(p.1.vertex);
    assert!(!p.1.stream);
}

#[test]
fn override_ignored_outside_vertex() {
    let cache = ResponseCache::new();
    let path = "/v1beta/models/gemini-pro:generateContent";
    let config = usable(Some("gemini-2.0-flash"));
    let (p, _) = proceed_native(run_native(path, path, &config, &cache));
    assert_eq!(p.1.model, "gemini-pro");
    assert!(!p.1.vertex);
}

#[test]
fn empty_override_falls_back_to_path() {
    let cache = ResponseCache::new();
    let path = "/v1/vertex/models/gemini-pro:generateContent";
    let (p, _) = proceed_native(run_native(path, path, &usable(Some("")), &cache));
    assert_eq!(p.1.model, "gemini-pro");
}

#[test]
fn unusable_vertex_refused_before_decoding() {
    let mut decoded = 0u32;
    let path = "/v1/vertex/models/gemini-pro:generateContent";
    let result = NativeRoute::resolve(path, path.to_string(), &unusable());
    let outcome = match result {
        Ok(_) => {
            decoded += 1;
            None
        }
        Err(e) => Some(e),
    };
    assert_eq!(decoded, 0);
    match outcome {
        Some(PreprocessError::Configuration(m)) => assert_eq!(m, "Vertex is not configured"),
        _ => panic!("expected a configuration error"),
    }

    let mut oai_decoded = 0u32;
    match Deployment::check("/v1/vertex/chat/completions", &unusable()) {
        Ok(_) => oai_decoded += 1,
        Err(e) => assert_eq!(e.message(), "Vertex is not configured"),
    }
    assert_eq!(oai_decoded, 0);
}

#[test]
fn missing_model_is_resolution_error() {
    let cache = ResponseCache::new();
    match run_native("/v1beta/models/", "v1beta/models/", &unusable(), &cache) {
        Outcome::Rejected(PreprocessError::Resolution(m)) => {
            assert_eq!(m, "Model not found in path or vertex config")
        }
        _ => panic!("expected a resolution error"),
    }
    match run_native("/v1/vertex/models/:generateContent", "/v1/vertex/models/:generateContent", &usable(None), &cache) {
        Outcome::Rejected(PreprocessError::Resolution(m)) => {
            assert_eq!(m, "Model not found in path or vertex config")
        }
        _ => panic!("expected a resolution error"),
    }
}

fn proceed_oai(outcome: Outcome<GeminiOaiPreprocess>) -> (GeminiOaiPreprocess, GeminiState) {
    match outcome {
        Outcome::Proceed(p, st) => (p, st),
        Outcome::CacheHit(_) => panic!("unexpected cache hit"),
        Outcome::Rejected(e) => panic!("unexpected rejection: {}", e.message()),
    }
}

#[test]
fn oai_stream_defaults_to_false() {
    let cache = ResponseCache::new();
    let state = GeminiState::new();
    for (stream, expected) in [(None, false), (Some(true), true), (Some(false), false)] {
        let d = Deployment::check("/gemini/chat/completions", &unusable()).ok().unwrap();
        assert!(!d.is_vertex());
        let body = oai_body("gemini-pro", stream, "{\"model\":\"gemini-pro\"}");
        let (p, st) = proceed_oai(GeminiOaiPreprocess::assemble(d, body, &state, &cache));
        assert_eq!(p.1.stream, expected);
        assert_eq!(p.1.model, "gemini-pro");
        assert_eq!(p.1.path, "");
        assert!(p.1.query.params.is_empty());
        assert_eq!(p.1.api_format, GeminiApiFormat::OpenAI);
        assert_eq!(st.stream, expected);
        assert_eq!(st.api_format, GeminiApiFormat::OpenAI);
        assert_eq!(p.0.model, "gemini-pro");
    }
}

#[test]
fn oai_vertex_flag_from_uri() {
    let cache = ResponseCache::new();
    let d = Deployment::check("/gemini/vertex/chat/completions", &usable(None)).ok().unwrap();
    assert!(d.is_vertex());
    let body = oai_body("gemini-pro", Some(true), "{}");
    let (p, _) = proceed_oai(GeminiOaiPreprocess::assemble(d, body, &GeminiState::new(), &cache));
    assert!(p.1.vertex);
}

#[test]
fn oai_empty_model_is_resolution_error() {
    let cache = ResponseCache::new();
    let d = Deployment::check("/gemini/chat/completions", &unusable()).ok().unwrap();
    let body = oai_body("", None, "{}");
    match GeminiOaiPreprocess::assemble(d, body, &GeminiState::new(), &cache) {
        Outcome::Rejected(PreprocessError::Resolution(m)) => {
            assert_eq!(m, "Model not found in request body")
        }
        _ => panic!("expected a resolution error"),
    }
}

#[test]
fn cache_hit_shared_between_shapes() {
    let json = "{\"contents\":[{\"parts\":[{\"text\":\"hi\"}]}],\"model\":\"gemini-pro\"}";
    let mut cache = ResponseCache::new();
    let path = "v1beta/models/gemini-pro:generateContent";
    let route = NativeRoute::resolve(path, path.to_string(), &unusable()).ok().unwrap();
    let first = GeminiPreprocess::assemble(
        route,
        GeminiQuery::new(),
        native_body(json),
        &GeminiState::new(),
        &cache,
    );
    assert!(matches!(first, Outcome::Proceed(_, _)));
    cache.record(json.to_string(), "cached answer".to_string());

    let d = Deployment::check("/gemini/chat/completions", &unusable()).ok().unwrap();
    let second = GeminiOaiPreprocess::assemble(
        d,
        oai_body("gemini-pro", None, json),
        &GeminiState::new(),
        &cache,
    );
    match second {
        Outcome::CacheHit(v) => assert_eq!(v, "cached answer"),
        _ => panic!("expected a cache hit"),
    }

    let route = NativeRoute::resolve(path, path.to_string(), &unusable()).ok().unwrap();
    match GeminiPreprocess::assemble(route, GeminiQuery::new(), native_body(json), &GeminiState::new(), &cache) {
        Outcome::CacheHit(v) => assert_eq!(v, "cached answer"),
        _ => panic!("expected a cache hit"),
    }
}

#[test]
fn cache_keeps_latest_response() {
    let mut cache = ResponseCache::new();
    assert_eq!(cache.lookup(&"a".to_string()), None);
    cache.record("a".to_string(), "one".to_string());
    cache.record("b".to_string(), "two".to_string());
    cache.record("a".to_string(), "three".to_string());
    assert_eq!(cache.lookup(&"a".to_string()), Some("three".to_string()));
    assert_eq!(cache.lookup(&"b".to_string()), Some("two".to_string()));
    assert_eq!(cache.lookup(&"c".to_string()), None);
}

#[test]
fn native_query_carried_into_context_and_state() {
    let cache = ResponseCache::new();
    let path = "v1beta/models/gemini-pro:streamGenerateContent";
    let route = NativeRoute::resolve(path, path.to_string(), &unusable()).ok().unwrap();
    let query = GeminiQuery {
        params: vec![
            QueryParam { name: "key".to_string(), value: "k1".to_string() },
            QueryParam { name: "alt".to_string(), value: "sse".to_string() },
        ],
    };
    let (p, st) = proceed_native(GeminiPreprocess::assemble(
        route,
        query,
        native_body("{}"),
        &GeminiState::new(),
        &cache,
    ));
    assert!(p.1.stream);
    assert_eq!(p.1.query.params.len(), 2);
    assert_eq!(st.query.params.len(), 2);
    assert_eq!(st.query.params[1].name, "alt");
    assert_eq!(st.query.params[1].value, "sse");
    assert_eq!(st.path, path);
}

#[test]
fn path_model_cases() {
    assert_eq!(model_from_path("v1beta/models/gemini-pro:generateContent"), "gemini-pro");
    assert_eq!(model_from_path("models/gemini-pro"), "gemini-pro");
    assert_eq!(model_from_path("gemini-pro:countTokens"), "gemini-pro");
    assert_eq!(model_from_path("a/b:c/d:e:f"), "d");
    assert_eq!(model_from_path("models/"), "");
    assert_eq!(model_from_path(""), "");
}

#[test]
fn substring_search_cases() {
    assert!(contains_str("/v1/vertex/models", "vertex"));
    assert!(contains_str("vertex", "vertex"));
    assert!(!contains_str("/v1/verte/models", "vertex"));
    assert!(!contains_str("vert", "vertex"));
    assert!(contains_str("abc", ""));
    assert!(contains_str("x:streamGenerateContent", "streamGenerateContent"));
}

#[test]
fn decode_error_message() {
    let e = PreprocessError::Decode("expected value at line 1 column 1".to_string());
    assert_eq!(e.message(), "expected value at line 1 column 1");
}

#[test]
fn state_update_copies_context() {
    let mut st = GeminiState::new();
    assert_eq!(st.model, "");
    let cache = ResponseCache::new();
    let path = "/v1/vertex/models/gemini-pro:streamGenerateContent";
    let (p, _) = proceed_native(run_native(path, path, &usable(None), &cache));
    st.update_from_ctx(&p.1);
    assert_eq!(st.model, "gemini-pro");
    assert!(st.vertex);
    assert!(st.stream);
    let copy = st.snapshot();
    assert_eq!(copy.model, "gemini-pro");
    assert_eq!(copy.path, path);
    let q = GeminiQuery::default();
    assert!(q.duplicate().params.is_empty());
}

//! The data that both request shapes are reduced to, and the gateway state
//! that a request's context informs.
use vstd::prelude::*;

verus! {

/// Which wire shape a request arrived in.
#[derive(Clone, Copy, Debug, PartialEq, Eq, Structural)]
pub enum GeminiApiFormat {
    /// The native shape: the model is named in the path.
    Gemini,
    /// The OpenAI-compatible message shape: the model is named in the body.
    OpenAI,
}

/// One `name=value` pair of a request's query string.
pub struct QueryParam {
    pub name: String,
    pub value: String,
}

/// The query parameters of a native request, in the order they were given.
pub struct GeminiQuery {
    pub params: Vec<QueryParam>,
}

impl View for GeminiQuery {
    type V = Seq<(Seq<char>, Seq<char>)>;

    open spec fn view(&self) -> Seq<(Seq<char>, Seq<char>)> {
        self.params@.map_values(|p: QueryParam| (p.name@, p.value@))
    }
}

impl Default for GeminiQuery {
    fn default() -> (r: GeminiQuery)
        ensures
            r@.len() == 0,
    {
        GeminiQuery::new()
    }
}

impl GeminiQuery {
    /// A query with no parameters.
    pub fn new() -> (r: GeminiQuery)
        ensures
            r@.len() == 0,
    {
        let r = GeminiQuery { params: Vec::new() };
        assert(r@ =~= Seq::<(Seq<char>, Seq<char>)>::empty());
        r
    }

    /// An independent copy holding the same parameters.
    pub fn duplicate(&self) -> (r: GeminiQuery)
        ensures
            r@ == self@,
    {
        let mut params: Vec<QueryParam> = Vec::new();
        let mut i: usize = 0;
        while i < self.params.len()
            invariant
                i <= self.params@.len(),
                params@.len() == i,
                forall|k: int|
                    0 <= k < i ==> (#[trigger] params@[k]).name@ == self.params@[k].name@
                        && params@[k].value@ == self.params@[k].value@,
            decreases self.params@.len() - i,
        {
            let p = &self.params[i];
            params.push(QueryParam { name: p.name.clone(), value: p.value.clone() });
            i = i + 1;
        }
        let r = GeminiQuery { params };
        assert(r@ =~= self@);
        r
    }
}

/// What the rest of the pipeline knows of a request once it is normalized.
pub struct ContextView {
    pub model: Seq<char>,
    pub vertex: bool,
    pub stream: bool,
    pub path: Seq<char>,
    pub query: Seq<(Seq<char>, Seq<char>)>,
    pub api_format: GeminiApiFormat,
}

/// The normalized description of one request: which model, which deployment,
/// whether the answer streams, and which wire shape it came in.
pub struct GeminiContext {
    pub model: String,
    pub vertex: bool,
    pub stream: bool,
    pub path: String,
    pub query: GeminiQuery,
    pub api_format: GeminiApiFormat,
}

impl View for GeminiContext {
    type V = ContextView;

    open spec fn view(&self) -> ContextView {
        ContextView {
            model: self.model@,
            vertex: self.vertex,
            stream: self.stream,
            path: self.path@,
            query: self.query@,
            api_format: self.api_format,
        }
    }
}

/// The settings of the alternate ("vertex") deployment.
pub struct VertexConfig {
    /// Whether the deployment is configured well enough to take requests.
    pub usable: bool,
    /// A model that every request to the deployment uses, if one is set.
    pub model_id: Option<String>,
}

/// The model that the deployment settings impose, if they name a non-empty one.
pub open spec fn override_model(config: VertexConfig) -> Option<Seq<char>> {
    match config.model_id {
        Some(m) => if m@.len() > 0 {
            Some(m@)
        } else {
            None
        },
        None => None,
    }
}

/// Why a request was refused before it reached dispatch.
pub enum PreprocessError {
    /// The alternate deployment was asked for but is not usable.
    Configuration(String),
    /// No model could be determined for the request.
    Resolution(String),
    /// The path, query or body could not be decoded.
    Decode(String),
}

impl PreprocessError {
    /// The message that goes back to the client.
    pub fn message(&self) -> (r: String)
        ensures
            r@ == self.spec_message(),
    {
        match self {
            PreprocessError::Configuration(m) => m.clone(),
            PreprocessError::Resolution(m) => m.clone(),
            PreprocessError::Decode(m) => m.clone(),
        }
    }

    pub open spec fn spec_message(&self) -> Seq<char> {
        match self {
            PreprocessError::Configuration(m) => m@,
            PreprocessError::Resolution(m) => m@,
            PreprocessError::Decode(m) => m@,
        }
    }
}

/// Routing state of the gateway as one request sees it: a private copy that
/// the request's context is written into before the cache is consulted.
pub struct GeminiState {
    pub model: String,
    pub vertex: bool,
    pub stream: bool,
    pub path: String,
    pub query: GeminiQuery,
    pub api_format: GeminiApiFormat,
}

impl View for GeminiState {
    type V = ContextView;

    open spec fn view(&self) -> ContextView {
        ContextView {
            model: self.model@,
            vertex: self.vertex,
            stream: self.stream,
            path: self.path@,
            query: self.query@,
            api_format: self.api_format,
        }
    }
}

impl GeminiState {
    /// A state that no request has informed yet.
    pub fn new() -> (r: GeminiState)
        ensures
            r@.model.len() == 0,
            r@.path.len() == 0,
            r@.query.len() == 0,
            !r@.vertex,
            !r@.stream,
            r@.api_format == GeminiApiFormat::Gemini,
    {
        GeminiState {
            model: String::new(),
            vertex: false,
            stream: false,
            path: String::new(),
            query: GeminiQuery::new(),
            api_format: GeminiApiFormat::Gemini,
        }
    }

    /// An independent copy of this state.
    pub fn snapshot(&self) -> (r: GeminiState)
        ensures
            r@ == self@,
    {
        GeminiState {
            model: self.model.clone(),
            vertex: self.vertex,
            stream: self.stream,
            path: self.path.clone(),
            query: self.query.duplicate(),
            api_format: self.api_format,
        }
    }

    /// Takes over everything a request's context says about routing.
    pub fn update_from_ctx(&mut self, ctx: &GeminiContext)
        ensures
            final(self)@ == ctx@,
    {
        self.model = ctx.model.clone();
        self.vertex = ctx.vertex;
        self.stream = ctx.stream;
        self.path = ctx.path.clone();
        self.query = ctx.query.duplicate();
        self.api_format = ctx.api_format;
    }
}

} // verus!

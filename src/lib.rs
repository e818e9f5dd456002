//! Request normalization for a gateway that accepts two wire shapes: the
//! native Gemini shape, addressed through the request path, and the
//! OpenAI-compatible message shape, which carries everything in its body.
//! Both are reduced to one `GeminiContext`, checked against the alternate
//! ("vertex") deployment settings, and put through a response cache.
pub mod cache;
pub mod context;
pub mod laws;
pub mod path;
pub mod preprocess;

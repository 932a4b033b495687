//! A scheme-redirect decision library for HTTP serving layers.
//!
//! Given an immutable configuration (redirect direction, status-code mode,
//! literal URL replacements, exempted path prefixes) and the facts of one
//! inbound request (observed scheme, host, URI, path), the engine decides
//! whether the request should be forwarded unchanged or answered with a
//! redirect to the same resource under the other scheme.

pub mod builder;
pub mod engine;
pub mod laws;
pub mod scheme;
pub mod text;

pub use crate::builder::RedirectSchemeBuilder;
pub use crate::engine::evaluate;
pub use crate::engine::Outcome;
pub use crate::engine::RequestFacts;
pub use crate::scheme::RedirectScheme;

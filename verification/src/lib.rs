//! Middleware helpers for a web framework: a layer that attaches a
//! process-lived value to every request's metadata map so handlers can
//! retrieve it by type, and a request-body extractor that deserializes
//! and validates a JSON payload before the handler sees it.

pub mod body;
pub mod inject;
pub mod status;
pub mod typemap;

pub use body::Body;
pub use body::BodyError;
pub use inject::AddStatic;
pub use inject::Static;
pub use inject::StaticLayer;

//! The static-value injector: a layer that writes a long-lived value into
//! each request's metadata map, and the extractor that reads it back.

use crate::status::INTERNAL_SERVER_ERROR;
use vstd::prelude::*;

verus! {

/// The fixed opaque message a misconfigured chain answers with; it does not
/// leak internal type names to the client.
pub open spec fn misconfigured_note() -> &'static str {
    "Unknown error occurred!"
}

/// A handle to a long-lived value that was injected into a request's
/// metadata map. Dereferencing the handle yields the original value.
#[derive(Clone, Copy)]
pub struct Static<T: 'static>(pub &'static T);

impl<T: 'static> Static<T> {
    /// Wraps a long-lived reference in the extraction handle.
    pub fn new(value: &'static T) -> (r: Self)
        ensures
            r.0 == value,
    {
        Static(value)
    }

    /// Read-only access to the injected value, identical to the original.
    pub fn get(&self) -> (r: &'static T)
        ensures
            r == self.0,
    {
        self.0
    }
}

/// A layer that, applied to a downstream service, yields a service which
/// injects the held value into every request before forwarding it.
#[derive(Clone)]
pub struct StaticLayer<T: 'static> {
    ext: &'static T,
}

impl<T: 'static> StaticLayer<T> {
    /// Builds a layer that will inject `ext` into every request.
    pub fn new(ext: &'static T) -> (r: Self)
        ensures
            r.value() == ext,
    {
        StaticLayer { ext }
    }

    /// The value this layer injects.
    pub closed spec fn value(&self) -> &'static T {
        self.ext
    }

    /// Wraps a downstream service: the result holds the same inner service
    /// and will inject this layer's value into every request it processes.
    pub fn layer<S>(&self, inner: S) -> (r: AddStatic<S, T>)
        ensures
            r.value() == self.value(),
            r.service() == inner,
    {
        AddStatic::new(inner, self.ext)
    }
}

/// The middleware stage produced by [`StaticLayer`]: before a request is
/// forwarded to the wrapped service, the held value is written into the
/// request's metadata map under its type.
#[derive(Clone)]
pub struct AddStatic<S, T: 'static> {
    inner: S,
    ext: &'static T,
}

impl<S, T: 'static> AddStatic<S, T> {
    /// Builds the middleware stage from the wrapped service and the value.
    pub fn new(inner: S, ext: &'static T) -> (r: Self)
        ensures
            r.value() == ext,
            r.service() == inner,
    {
        AddStatic { inner, ext }
    }

    /// The value this stage injects into each request.
    pub closed spec fn value(&self) -> &'static T {
        self.ext
    }

    /// The wrapped downstream service.
    pub closed spec fn service(&self) -> S {
        self.inner
    }
}

impl<S, T: Clone + Send + Sync + 'static> AddStatic<S, T> {
    /// The injection step of the middleware: before the request is handed
    /// on to the wrapped service, the held value is written into the
    /// request's metadata map under its type. The request is otherwise
    /// unchanged and the held value is only read, never mutated.
    pub fn attach<B>(&self, req: &mut axum::http::Request<B>) {
        store_static(req, Static(self.ext));
    }
}

/// What extraction answers for a given lookup outcome: a registered value
/// is handed out unchanged; a missing registration is a misconfiguration,
/// answered with status 500 and a fixed opaque message.
pub open spec fn resolve_model<T>(found: Option<T>) -> Result<T, (u16, &'static str)> {
    match found {
        Some(value) => Ok(value),
        None => Err((INTERNAL_SERVER_ERROR, misconfigured_note())),
    }
}

/// Turns the outcome of the metadata-map lookup into the extraction result.
pub fn resolve_static<T>(found: Option<T>) -> (r: Result<T, (u16, &'static str)>)
    ensures
        r == resolve_model(found),
{
    match found {
        Some(value) => Ok(value),
        None => Err((INTERNAL_SERVER_ERROR, "Unknown error occurred!")),
    }
}

/// A type never registered is answered with the misconfiguration error:
/// status 500 and the fixed message, never a partially-populated value.
pub proof fn lemma_unregistered_rejected<V>(m: Map<u64, V>, key: u64)
    requires
        !m.contains_key(key),
    ensures
        resolve_model(crate::typemap::lookup_model(m, key)) == Err::<V, (u16, &'static str)>(
            (INTERNAL_SERVER_ERROR, misconfigured_note()),
        ),
{
}

impl<T: Clone + Send + Sync + 'static> Static<T> {
    /// Extracts the handle registered for `T` from the request's metadata.
    /// A missing registration means the middleware chain was misconfigured:
    /// it is answered with status 500 and a fixed opaque message, never
    /// with a partially-populated value.
    pub fn from_request_parts(parts: &axum::http::request::Parts) -> (r: Result<
        Static<T>,
        (u16, &'static str),
    >)
        ensures
            r is Err ==> r == Err::<Static<T>, (u16, &'static str)>(
                (INTERNAL_SERVER_ERROR, misconfigured_note()),
            ),
    {
        resolve_static(lookup_static(parts))
    }
}

#[verifier::external_type_specification]
#[verifier::external_body]
pub struct ExParts(axum::http::request::Parts);

#[verifier::external_type_specification]
#[verifier::external_body]
#[verifier::reject_recursive_types(B)]
pub struct ExRequest<B>(axum::http::Request<B>);

/// Relies on http::Extensions::insert, reached through
/// http::Request::extensions_mut: the value is stored in the request's
/// metadata map under its type, replacing any previous entry of that type
/// and leaving entries of other types untouched.
#[verifier::external_body]
fn store_static<B, T: Clone + Send + Sync + 'static>(
    req: &mut axum::http::Request<B>,
    value: Static<T>,
) {
    req.extensions_mut().insert(value);
}

/// Relies on http::Extensions::get, reached through the request parts: a
/// copy of the handle stored under the type `Static<T>`, if one is there.
#[verifier::external_body]
fn lookup_static<T: Clone + Send + Sync + 'static>(
    parts: &axum::http::request::Parts,
) -> (r: Option<Static<T>>) {
    parts.extensions.get::<Static<T>>().cloned()
}

} // verus!

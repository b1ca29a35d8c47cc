//! The validated-body extractor: a request body is parsed against a caller
//! type's shape, the parsed value is run through the type's validation
//! rules, and the first failure of either stage is answered with status 400
//! and a caller-formatted error body. Validation never runs on a value that
//! failed to parse, and no partially-checked value escapes.

use crate::status::BAD_REQUEST;
use vstd::prelude::*;

verus! {

/// A request body that was deserialized and validated; handlers consume
/// the inner value directly.
#[derive(Debug)]
pub struct Body<T>(pub T);

/// The caller-supplied error presentation: how a parse failure and how a
/// set of violated validation rules are turned into the error body that
/// the client receives. These are the only points where domain-specific
/// error formatting enters the extractor.
pub trait BodyError {
    type Error;

    /// Formats the failure of the deserialization stage.
    fn json_error(err: serde_json::Error) -> Self::Error;

    /// Formats the structured failures of the validation stage: which
    /// rules were violated, on which fields.
    fn validate_error(err: validator::ValidationErrors) -> Self::Error;
}

/// The outcome of running the two checking stages over a request body.
pub enum Checked<T> {
    /// The body did not match the expected shape; validation never ran.
    ParseFailed(serde_json::Error),
    /// The body parsed, but the value violates the declared rules; the
    /// structured failures are carried along.
    RuleFailed(validator::ValidationErrors),
    /// The body parsed and satisfies every rule; the value is carried
    /// through unchanged.
    Passed(T),
}

/// The cause a rejected body is reported with, before the caller's
/// formatter is applied to it.
pub enum Fault {
    /// The deserialization stage failed.
    Json(serde_json::Error),
    /// The validation stage failed.
    Rules(validator::ValidationErrors),
}

/// What the extractor answers for each stage outcome: a passed value is
/// returned unchanged, and either failure is a rejection with status 400
/// carrying that stage's cause.
pub open spec fn settle_model<T>(outcome: Checked<T>) -> Result<T, (u16, Fault)> {
    match outcome {
        Checked::ParseFailed(err) => Err((BAD_REQUEST, Fault::Json(err))),
        Checked::RuleFailed(err) => Err((BAD_REQUEST, Fault::Rules(err))),
        Checked::Passed(value) => Ok(value),
    }
}

/// Turns a stage outcome into the extraction result.
pub fn settle<T>(outcome: Checked<T>) -> (r: Result<T, (u16, Fault)>)
    ensures
        r == settle_model(outcome),
{
    match outcome {
        Checked::ParseFailed(err) => Err((BAD_REQUEST, Fault::Json(err))),
        Checked::RuleFailed(err) => Err((BAD_REQUEST, Fault::Rules(err))),
        Checked::Passed(value) => Ok(value),
    }
}

/// Applies the caller's error presentation to a rejection's cause: a parse
/// failure goes to the parse formatter, violated rules go to the rule
/// formatter, and the status code is carried through unchanged.
pub fn render<T: BodyError>(rejection: (u16, Fault)) -> (r: (u16, T::Error))
    ensures
        r.0 == rejection.0,
{
    match rejection.1 {
        Fault::Json(err) => (rejection.0, T::json_error(err)),
        Fault::Rules(err) => (rejection.0, T::validate_error(err)),
    }
}

/// A well-formed body that passed every rule is returned unchanged: no
/// mutation happens during validation.
pub proof fn lemma_passed_returned_unchanged<T>(value: T)
    ensures
        settle_model(Checked::Passed(value)) == Ok::<T, (u16, Fault)>(value),
{
}

/// A body that failed to parse is rejected with status 400 carrying the
/// parse failure itself; no validation outcome is involved in the answer.
pub proof fn lemma_parse_failure_rejected<T>(err: serde_json::Error)
    ensures
        settle_model::<T>(Checked::ParseFailed(err)) == Err::<T, (u16, Fault)>(
            (BAD_REQUEST, Fault::Json(err)),
        ),
{
}

/// A body that parsed but violates its rules is rejected with status 400
/// carrying exactly the structured failures the validation stage reported.
pub proof fn lemma_rule_failure_rejected<T>(errs: validator::ValidationErrors)
    ensures
        settle_model::<T>(Checked::RuleFailed(errs)) == Err::<T, (u16, Fault)>(
            (BAD_REQUEST, Fault::Rules(errs)),
        ),
{
}

#[verifier::external_type_specification]
#[verifier::external_body]
pub struct ExJsonError(serde_json::Error);

#[verifier::external_type_specification]
#[verifier::external_body]
pub struct ExValidationErrors(validator::ValidationErrors);

/// Relies on serde_json::from_slice: parses the bytes as JSON against the
/// shape that `T` declares, returning the parsed value or the parse error.
#[verifier::external_body]
fn parse_json<T: serde::de::DeserializeOwned>(bytes: &[u8]) -> (r: Result<T, serde_json::Error>) {
    serde_json::from_slice(bytes)
}

/// Relies on validator::Validate::validate: runs the validation rules that
/// `T` declares over the value, returning the structured failures if any
/// rule is violated.
#[verifier::external_body]
fn run_rules<T: validator::Validate>(value: &T) -> (r: Result<(), validator::ValidationErrors>) {
    value.validate()
}

/// Runs the two checking stages in order: parse first, and only a value
/// that parsed is validated.
fn check<T: serde::de::DeserializeOwned + validator::Validate>(bytes: &[u8]) -> (r: Checked<T>) {
    match parse_json::<T>(bytes) {
        Err(err) => Checked::ParseFailed(err),
        Ok(value) => match run_rules(&value) {
            Err(err) => Checked::RuleFailed(err),
            Ok(()) => Checked::Passed(value),
        },
    }
}

impl<T: serde::de::DeserializeOwned + validator::Validate + BodyError> Body<T> {
    /// Builds the validated body from the raw request bytes: the bytes are
    /// parsed against `T`'s shape, the parsed value is checked against
    /// `T`'s rules, and the first failure is answered with status 400 and
    /// the matching caller-formatted error body. Either the fully checked
    /// value is returned or exactly one structured error is.
    pub fn from_bytes(bytes: &[u8]) -> (r: Result<Body<T>, (u16, T::Error)>)
        ensures
            r matches Err(rejection) ==> rejection.0 == BAD_REQUEST,
    {
        match settle(check::<T>(bytes)) {
            Ok(value) => Ok(Body(value)),
            Err(rejection) => Err(render::<T>(rejection)),
        }
    }
}

} // verus!

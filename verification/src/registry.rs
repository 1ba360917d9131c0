//! The registry of remote procedures, which the `server_fn` crate keeps for
//! the whole process.

use vstd::prelude::*;

verus! {

/// The `http` crate's request: what a procedure takes.
#[verifier::external_type_specification]
#[verifier::external_body]
#[verifier::reject_recursive_types(T)]
pub struct ExRequest<T>(http::Request<T>);

/// The `http` crate's response: what a procedure gives.
#[verifier::external_type_specification]
#[verifier::external_body]
#[verifier::reject_recursive_types(T)]
pub struct ExResponse<T>(http::Response<T>);

/// The `axum` crate's message body.
#[verifier::external_type_specification]
#[verifier::external_body]
pub struct ExBody(axum::body::Body);

/// The `server_fn` crate's procedure, ready to be run on a request.
#[verifier::external_type_specification]
#[verifier::external_body]
#[verifier::reject_recursive_types(Req)]
#[verifier::reject_recursive_types(Res)]
pub struct ExBoxedService<Req, Res>(server_fn::middleware::BoxedService<Req, Res>);

/// A registered procedure, as the registry hands it out.
pub type ServerFnService = server_fn::middleware::BoxedService<
    http::Request<axum::body::Body>,
    http::Response<axum::body::Body>,
>;

/// `server_fn::axum::get_server_fn_service`: the procedure that is registered
/// under `path` for `method`, with its middleware, if there is one. What is
/// registered is the state of the process, so nothing is promised of the
/// answer.
#[verifier::external_body]
pub(crate) fn registered_service(path: &str, method: &http::Method) -> Option<ServerFnService> {
    server_fn::axum::get_server_fn_service(path, method.clone())
}

/// `ServerFnErrorSerde::ser` on `ServerFnError::ServerError`: the failure as
/// the `server_fn` crate's clients read it, the kind of the error, a bar, and
/// the message.
#[verifier::external_body]
pub(crate) fn serialize_server_error(message: &str) -> (text: String)
    ensures
        text@ == "ServerError|"@ + message@,
{
    let error: server_fn::error::ServerFnError =
        server_fn::error::ServerFnError::ServerError(message.to_string());
    server_fn::error::ServerFnErrorSerde::ser(&error).unwrap_or_default()
}

} // verus!

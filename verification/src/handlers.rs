//! The three handlers. Each is a pure function from the shared state
//! and the request's plain values to a [`Response`]; none has any other
//! effect.

use vstd::prelude::*;
use vstd::string::StringExecFns;
use crate::http::Response;
use crate::state::AppState;

verus! {

/// The greeting the root route answers with: `Hello from {name}!`.
pub open spec fn hello_body(name: Seq<char>) -> Seq<char> {
    "Hello from "@ + name + "!"@
}

/// Greets with the shared state's display name: status 200, body
/// `Hello from {name}!`.
pub fn hello(state: &AppState) -> (r: Response)
    ensures
        r@.status == 200,
        r@.body == hello_body(state.app_name@),
{
    let mut body = String::from_str("Hello from ");
    body.append(state.app_name.as_str());
    body.append("!");
    Response::ok(body)
}

/// Echoes the request body back unchanged with status 200.
pub fn create_user(req_body: String) -> (r: Response)
    ensures
        r@.status == 200,
        r@.body == req_body@,
{
    Response::ok(req_body)
}

/// Answers with the fixed body `Hey there!` and status 200; the shared
/// state plays no part.
pub fn manual_hello() -> (r: Response)
    ensures
        r@.status == 200,
        r@.body == "Hey there!"@,
{
    Response::ok(String::from_str("Hey there!"))
}

} // verus!

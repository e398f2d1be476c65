//! The laws the routing core obeys, each stated and proved over the
//! same spec functions the executable functions' contracts use.

use vstd::prelude::*;
use vstd::utf8::decode_utf8;
use vstd::utf8::encode_utf8;
use vstd::utf8::encode_utf8_decode_utf8;
use vstd::utf8::encode_utf8_valid_utf8;
use vstd::utf8::valid_utf8;
use crate::handlers::hello_body;
use crate::http::Method;
use crate::http::ResponseModel;
use crate::router::dispatch_spec;
use crate::router::request_outcome;
use crate::router::route_of;

verus! {

/// The mathematical content of one inbound request.
pub ghost struct RequestModel {
    pub method: Method,
    pub path: Seq<char>,
    pub body: Seq<char>,
}

/// A whole run of the server over a sequence of requests: every request
/// is answered by dispatch over the same, never-written state.
pub open spec fn serve(app_name: Seq<char>, reqs: Seq<RequestModel>) -> Seq<ResponseModel> {
    reqs.map(|i: int, r: RequestModel| dispatch_spec(app_name, r.method, r.path, r.body))
}

/// Requests do not interfere: over any run, each response is exactly
/// what dispatching its own request alone yields, whatever stands
/// before or after it.
pub proof fn lemma_responses_independent(app_name: Seq<char>, reqs: Seq<RequestModel>, i: int)
    requires
        0 <= i < reqs.len(),
    ensures
        serve(app_name, reqs).len() == reqs.len(),
        serve(app_name, reqs)[i] == dispatch_spec(
            app_name,
            reqs[i].method,
            reqs[i].path,
            reqs[i].body,
        ),
{
}

/// No state drift: at any point of any run, a `GET /` request is
/// answered with status 200 and the greeting built from the
/// application's name, regardless of the requests served before it.
pub proof fn lemma_greeting_stable(app_name: Seq<char>, reqs: Seq<RequestModel>, i: int)
    requires
        0 <= i < reqs.len(),
        reqs[i].method == Method::Get,
        reqs[i].path == "/"@,
    ensures
        serve(app_name, reqs)[i].status == 200,
        serve(app_name, reqs)[i].body == hello_body(app_name),
{
    lemma_responses_independent(app_name, reqs, i);
}

/// Under the name the server is booted with, the greeting reads
/// `Hello from Acyclic!`, letter for letter.
pub proof fn lemma_hello_from_acyclic()
    ensures
        hello_body("Acyclic"@) == "Hello from Acyclic!"@,
{
    reveal_strlit("Hello from ");
    reveal_strlit("Acyclic");
    reveal_strlit("!");
    reveal_strlit("Hello from Acyclic!");
    assert(hello_body("Acyclic"@) =~= "Hello from Acyclic!"@);
}

/// Echo: a signup request whose raw body is valid UTF-8 is answered
/// with status 200 and exactly the decoded body.
pub proof fn lemma_signup_echo(app_name: Seq<char>, raw: Seq<u8>)
    requires
        valid_utf8(raw),
    ensures
        request_outcome(app_name, Method::Post, "/signup"@, raw).status == 200,
        request_outcome(app_name, Method::Post, "/signup"@, raw).body == decode_utf8(raw),
{
}

/// Round trip: any text body, encoded as UTF-8 and sent to the signup
/// route, comes back unchanged with status 200.
pub proof fn lemma_signup_round_trip(app_name: Seq<char>, body: Seq<char>)
    ensures
        request_outcome(app_name, Method::Post, "/signup"@, encode_utf8(body)).status == 200,
        request_outcome(app_name, Method::Post, "/signup"@, encode_utf8(body)).body == body,
{
    encode_utf8_valid_utf8(body);
    encode_utf8_decode_utf8(body);
}

/// The manual greeting is answered verbatim: a routed `GET /hey`
/// carries status 200 and exactly `Hey there!`.
pub proof fn lemma_hey_verbatim(app_name: Seq<char>, body: Seq<char>)
    ensures
        dispatch_spec(app_name, Method::Get, "/hey"@, body).status == 200,
        dispatch_spec(app_name, Method::Get, "/hey"@, body).body == "Hey there!"@,
{
    reveal_strlit("/");
    reveal_strlit("/hey");
    assert("/hey"@.len() != "/"@.len());
}

/// Every request outside the routing table is answered with the
/// not-found status, whatever its method, path or body.
pub proof fn lemma_unrouted_not_found(
    app_name: Seq<char>,
    m: Method,
    path: Seq<char>,
    body: Seq<char>,
    raw: Seq<u8>,
)
    requires
        route_of(m, path) is None,
    ensures
        dispatch_spec(app_name, m, path, body).status == 404,
        request_outcome(app_name, m, path, raw).status == 404,
{
}

} // verus!

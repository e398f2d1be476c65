//! Exact-match routing and dispatch: from a request's method, path and
//! body (and the shared state) to the response.

use vstd::prelude::*;
use vstd::string::StrSliceExecFns;
use vstd::utf8::decode_utf8;
use vstd::utf8::valid_utf8;
use crate::handlers::hello;
use crate::handlers::hello_body;
use crate::handlers::create_user;
use crate::handlers::manual_hello;
use crate::http::Method;
use crate::http::Response;
use crate::http::ResponseModel;
use crate::state::AppState;

verus! {

/// The registered routes, one per handler.
#[derive(Clone, Copy, PartialEq, Eq, Structural, Debug)]
pub enum Route {
    Hello,
    CreateUser,
    ManualHello,
}

/// The routing table: which route, if any, a method/path pair is
/// registered for. Matching is exact; everything else is unrouted.
pub open spec fn route_of(m: Method, path: Seq<char>) -> Option<Route> {
    if m == Method::Get && path == "/"@ {
        Some(Route::Hello)
    } else if m == Method::Post && path == "/signup"@ {
        Some(Route::CreateUser)
    } else if m == Method::Get && path == "/hey"@ {
        Some(Route::ManualHello)
    } else {
        None
    }
}

/// The response a routed request gets: the matched handler's output,
/// or the not-found default with an empty body.
pub open spec fn dispatch_spec(
    app_name: Seq<char>,
    m: Method,
    path: Seq<char>,
    body: Seq<char>,
) -> ResponseModel {
    match route_of(m, path) {
        Some(Route::Hello) => ResponseModel { status: 200, body: hello_body(app_name) },
        Some(Route::CreateUser) => ResponseModel { status: 200, body: body },
        Some(Route::ManualHello) => ResponseModel { status: 200, body: "Hey there!"@ },
        None => ResponseModel { status: 404, body: Seq::empty() },
    }
}

/// Character-by-character string comparison, proved equivalent to
/// equality of the views.
pub fn str_eq(a: &str, b: &str) -> (r: bool)
    ensures
        r == (a@ == b@),
{
    let a_len = a.unicode_len();
    let b_len = b.unicode_len();
    if a_len != b_len {
        return false;
    }
    let mut i: usize = 0;
    while i < a_len
        invariant
            a_len == a@.len(),
            b_len == b@.len(),
            a_len == b_len,
            i <= a_len,
            forall|j: int| 0 <= j < i ==> a@[j] == b@[j],
        decreases a_len - i,
    {
        if a.get_char(i) != b.get_char(i) {
            return false;
        }
        i = i + 1;
    }
    proof {
        assert(a@ =~= b@);
    }
    true
}

/// Looks the method/path pair up in the routing table.
pub fn match_route(method: Method, path: &str) -> (r: Option<Route>)
    ensures
        r == route_of(method, path@),
{
    match method {
        Method::Get => {
            if str_eq(path, "/") {
                Some(Route::Hello)
            } else if str_eq(path, "/hey") {
                Some(Route::ManualHello)
            } else {
                None
            }
        },
        Method::Post => {
            if str_eq(path, "/signup") {
                Some(Route::CreateUser)
            } else {
                None
            }
        },
        Method::Other => None,
    }
}

/// Dispatches a request whose body has already been decoded as text.
pub fn dispatch(state: &AppState, method: Method, path: &str, body: String) -> (r: Response)
    ensures
        r@ == dispatch_spec(state.app_name@, method, path@, body@),
{
    match match_route(method, path) {
        Some(Route::Hello) => hello(state),
        Some(Route::CreateUser) => create_user(body),
        Some(Route::ManualHello) => manual_hello(),
        None => Response::not_found(),
    }
}

/// What a request with a raw byte body is answered with: the signup
/// route first decodes the body as UTF-8 and rejects what does not
/// decode; the other routes never read the body.
pub open spec fn request_outcome(
    app_name: Seq<char>,
    m: Method,
    path: Seq<char>,
    raw: Seq<u8>,
) -> ResponseModel {
    if route_of(m, path) == Some(Route::CreateUser) {
        if valid_utf8(raw) {
            dispatch_spec(app_name, m, path, decode_utf8(raw))
        } else {
            ResponseModel { status: 400, body: Seq::empty() }
        }
    } else {
        dispatch_spec(app_name, m, path, Seq::empty())
    }
}

/// Relies on String::from_utf8: it returns Ok exactly when the bytes
/// are a valid UTF-8 encoding, and the returned string then decodes
/// them.
#[verifier::external_body]
fn utf8_body(bytes: Vec<u8>) -> (r: Option<String>)
    ensures
        r is Some <==> valid_utf8(bytes@),
        r matches Some(s) ==> s@ == decode_utf8(bytes@),
{
    match String::from_utf8(bytes) {
        Ok(s) => Some(s),
        Err(_) => None,
    }
}

/// Serves one request as it arrives off the wire: routes it, decodes
/// the body where the matched handler reads one, and answers with the
/// handler's response, the bad-request rejection, or the not-found
/// default.
pub fn handle_request(state: &AppState, method: Method, path: &str, raw_body: Vec<u8>) -> (r:
    Response)
    ensures
        r@ == request_outcome(state.app_name@, method, path@, raw_body@),
{
    match match_route(method, path) {
        Some(Route::CreateUser) => {
            match utf8_body(raw_body) {
                Some(body) => create_user(body),
                None => Response::bad_request(),
            }
        },
        Some(Route::Hello) => hello(state),
        Some(Route::ManualHello) => manual_hello(),
        None => Response::not_found(),
    }
}

} // verus!

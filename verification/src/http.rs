//! The plain values a request and a response are made of.

use vstd::prelude::*;

verus! {

/// The request methods the router distinguishes. Anything beyond the
/// registered ones is carried as `Other` and never matches a route.
#[derive(Clone, Copy, PartialEq, Eq, Structural, Debug)]
pub enum Method {
    Get,
    Post,
    Other,
}

/// An HTTP response: a status code and a text body.
pub struct Response {
    pub status: u16,
    pub body: String,
}

/// The mathematical content of a [`Response`]: its status code and the
/// characters of its body.
pub ghost struct ResponseModel {
    pub status: int,
    pub body: Seq<char>,
}

impl View for Response {
    type V = ResponseModel;

    open spec fn view(&self) -> ResponseModel {
        ResponseModel { status: self.status as int, body: self.body@ }
    }
}

impl Response {
    /// A success response carrying the given body.
    pub fn ok(body: String) -> (r: Response)
        ensures
            r@.status == 200,
            r@.body == body@,
    {
        Response { status: 200, body }
    }

    /// The router's default for an unregistered method/path pair.
    pub fn not_found() -> (r: Response)
        ensures
            r@.status == 404,
            r@.body == Seq::<char>::empty(),
    {
        Response { status: 404, body: String::new() }
    }

    /// The response to a request whose body could not be decoded as text.
    pub fn bad_request() -> (r: Response)
        ensures
            r@.status == 400,
            r@.body == Seq::<char>::empty(),
    {
        Response { status: 400, body: String::new() }
    }
}

} // verus!

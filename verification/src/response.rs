//! The response model: status code, optional content type, body.

use vstd::prelude::*;

verus! {

/// The content types this service ever sends. A response with no body
/// (the error branch of the farewell route) carries none.
#[derive(Clone, Copy, Debug, PartialEq, Eq, Structural)]
pub enum ContentType {
    PlainText,
    Html,
}

/// An HTTP response as the handlers produce it: a status code, an optional
/// content type, and a UTF-8 body. Constructed fresh per request.
pub struct Response {
    pub status: u16,
    pub content_type: Option<ContentType>,
    pub body: String,
}

impl Response {
    /// A 200 response with a plain-text body.
    pub fn ok_text(body: String) -> (r: Response)
        ensures
            r.status == 200,
            r.content_type == Some(ContentType::PlainText),
            r.body@ == body@,
    {
        Response { status: 200, content_type: Some(ContentType::PlainText), body }
    }

    /// A 200 response with an HTML body.
    pub fn ok_html(body: String) -> (r: Response)
        ensures
            r.status == 200,
            r.content_type == Some(ContentType::Html),
            r.body@ == body@,
    {
        Response { status: 200, content_type: Some(ContentType::Html), body }
    }

    /// A 500 response with an empty body and no content type.
    pub fn internal_server_error() -> (r: Response)
        ensures
            r.status == 500,
            r.content_type is None,
            r.body@ == Seq::<char>::empty(),
    {
        Response { status: 500, content_type: None, body: String::new() }
    }
}

} // verus!

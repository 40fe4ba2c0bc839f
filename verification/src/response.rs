//! The response that a request ends in.

use vstd::prelude::*;

verus! {

/// The status of a served file, and of a file that could not be read.
pub const STATUS_OK: u16 = 200;

/// The status of every response while maintenance mode is on.
pub const STATUS_UNAVAILABLE: u16 = 503;

/// An HTTP response: a status, the headers in the order they were set, and
/// the body.
#[derive(Clone, Debug)]
pub struct Response {
    pub status: u16,
    pub headers: Vec<(String, String)>,
    pub body: Vec<u8>,
}

/// What a `Response` holds, as plain mathematical values.
pub struct ResponseView {
    pub status: u16,
    pub headers: Seq<(Seq<char>, Seq<char>)>,
    pub body: Seq<u8>,
}

impl View for Response {
    type V = ResponseView;

    open spec fn view(&self) -> ResponseView {
        ResponseView {
            status: self.status,
            headers: self.headers.deep_view(),
            body: self.body@,
        }
    }
}

/// The value of the first of `headers` that is called `name`, if there is
/// one. Names are compared as they are written.
pub open spec fn header_value(headers: Seq<(Seq<char>, Seq<char>)>, name: Seq<char>) -> Option<
    Seq<char>,
>
    decreases headers.len(),
{
    if headers.len() == 0 {
        None
    } else if headers[0].0 == name {
        Some(headers[0].1)
    } else {
        header_value(headers.drop_first(), name)
    }
}

impl ResponseView {
    /// The value of the first header called `name`, if there is one.
    pub open spec fn header(self, name: Seq<char>) -> Option<Seq<char>> {
        header_value(self.headers, name)
    }
}

/// The response to a file that was read: status 200, the content type as the
/// only header, the file's bytes as the body.
pub open spec fn file_response(content_type: Seq<char>, body: Seq<u8>) -> ResponseView {
    ResponseView { status: STATUS_OK, headers: seq![("Content-Type"@, content_type)], body }
}

/// The response to a file that could not be read: status 200, no header, no
/// body.
pub open spec fn empty_response() -> ResponseView {
    ResponseView { status: STATUS_OK, headers: Seq::empty(), body: Seq::empty() }
}

/// The response while maintenance mode is on: status 503, an HTML content
/// type, a retry hint of 300 seconds, and the maintenance page as the body.
pub open spec fn maintenance_response(body: Seq<u8>) -> ResponseView {
    ResponseView {
        status: STATUS_UNAVAILABLE,
        headers: seq![("Content-Type"@, "text/html"@), ("Retry-After"@, "300"@)],
        body,
    }
}

/// The headers of the three responses, by name: a served file has its
/// content type, the empty response has no header at all, and a maintenance
/// response says that it is HTML and when to come back.
pub proof fn lemma_headers_by_name(content_type: Seq<char>, body: Seq<u8>, name: Seq<char>)
    ensures
        file_response(content_type, body).header("Content-Type"@) == Some(content_type),
        empty_response().header(name) is None,
        maintenance_response(body).header("Content-Type"@) == Some("text/html"@),
        maintenance_response(body).header("Retry-After"@) == Some("300"@),
{
    reveal_strlit("Content-Type");
    reveal_strlit("Retry-After");
    reveal_with_fuel(header_value, 3);
    let headers = maintenance_response(body).headers;
    assert(headers.drop_first()[0] == headers[1]);
    assert("Content-Type"@ != "Retry-After"@) by {
        assert("Content-Type"@.len() != "Retry-After"@.len());
    }
}

impl Response {
    /// Builds the response to a file that was read.
    pub fn file(content_type: String, body: Vec<u8>) -> (r: Response)
        ensures
            r@ == file_response(content_type@, body@),
    {
        let mut headers: Vec<(String, String)> = Vec::new();
        headers.push(("Content-Type".to_owned(), content_type));
        let r = Response { status: STATUS_OK, headers, body };
        assert(r@.headers =~= file_response(content_type@, body@).headers);
        r
    }

    /// Builds the response to a file that could not be read.
    pub fn empty() -> (r: Response)
        ensures
            r@ == empty_response(),
    {
        let r = Response { status: STATUS_OK, headers: Vec::new(), body: Vec::new() };
        assert(r@.headers =~= empty_response().headers);
        r
    }

    /// Builds the response that maintenance mode gives, around the page to show.
    pub fn maintenance(body: Vec<u8>) -> (r: Response)
        ensures
            r@ == maintenance_response(body@),
    {
        let mut headers: Vec<(String, String)> = Vec::new();
        headers.push(("Content-Type".to_owned(), "text/html".to_owned()));
        headers.push(("Retry-After".to_owned(), "300".to_owned()));
        let r = Response { status: STATUS_UNAVAILABLE, headers, body };
        assert(r@.headers =~= maintenance_response(body@).headers);
        r
    }

    /// Looks a header up by its name, as written. Gives the first one.
    pub fn header(&self, name: &str) -> (value: Option<&str>)
        ensures
            match value {
                Some(v) => self@.header(name@) == Some(v@),
                None => self@.header(name@) is None,
            },
    {
        let wanted: String = name.to_owned();
        let mut i: usize = 0;
        assert(self@.headers.skip(0) =~= self@.headers);
        while i < self.headers.len()
            invariant
                i <= self.headers.len(),
                wanted@ == name@,
                self@.header(name@) == header_value(self@.headers.skip(i as int), name@),
            decreases self.headers.len() - i,
        {
            let ghost rest = self@.headers.skip(i as int);
            assert(rest[0] == (self.headers@[i as int].0@, self.headers@[i as int].1@));
            assert(rest.drop_first() =~= self@.headers.skip(i + 1));
            if self.headers[i].0 == wanted {
                return Some(self.headers[i].1.as_str());
            }
            i += 1;
        }
        None
    }
}

} // verus!

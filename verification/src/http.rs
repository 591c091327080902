//! HTTP requests as plain values, in the shape that the shell performs them.
use vstd::prelude::*;

verus! {

/// One header of an HTTP message.
#[derive(Clone, Debug, PartialEq, Eq)]
pub struct HttpHeader {
    pub name: String,
    pub value: String,
}

impl View for HttpHeader {
    type V = (Seq<char>, Seq<char>);

    open spec fn view(&self) -> (Seq<char>, Seq<char>) {
        (self.name@, self.value@)
    }
}

/// A request that the app asks the shell to send.
#[derive(Clone, Debug, PartialEq, Eq)]
pub struct HttpRequest {
    pub method: String,
    pub url: String,
    pub headers: Vec<HttpHeader>,
    pub body: Vec<u8>,
}

/// The mathematical value of an [`HttpRequest`].
pub struct HttpRequestView {
    pub method: Seq<char>,
    pub url: Seq<char>,
    pub headers: Seq<(Seq<char>, Seq<char>)>,
    pub body: Seq<u8>,
}

impl View for HttpRequest {
    type V = HttpRequestView;

    open spec fn view(&self) -> HttpRequestView {
        HttpRequestView {
            method: self.method@,
            url: self.url@,
            headers: self.headers@.map_values(|h: HttpHeader| h@),
            body: self.body@,
        }
    }
}

/// A `GET` of `url`, with no headers and no body.
pub open spec fn get_request(url: Seq<char>) -> HttpRequestView {
    HttpRequestView { method: "GET"@, url, headers: seq![], body: seq![] }
}

/// A `POST` of a JSON document to `url`.
pub open spec fn json_post_request(url: Seq<char>, body: Seq<u8>) -> HttpRequestView {
    HttpRequestView {
        method: "POST"@,
        url,
        headers: seq![("content-type"@, "application/json"@)],
        body,
    }
}

impl HttpRequest {
    /// Builds a `GET` request for `url`.
    pub fn get(url: String) -> (request: HttpRequest)
        ensures
            request@ == get_request(url@),
    {
        let request = HttpRequest {
            method: "GET".to_owned(),
            url,
            headers: Vec::new(),
            body: Vec::new(),
        };
        assert(request.headers@.map_values(|h: HttpHeader| h@) =~= seq![]);
        request
    }

    /// Builds a `POST` request for `url` whose body is the JSON document `body`.
    pub fn post_json(url: String, body: Vec<u8>) -> (request: HttpRequest)
        ensures
            request@ == json_post_request(url@, body@),
    {
        let mut headers: Vec<HttpHeader> = Vec::new();
        headers.push(
            HttpHeader { name: "content-type".to_owned(), value: "application/json".to_owned() },
        );
        let request = HttpRequest { method: "POST".to_owned(), url, headers, body };
        assert(request.headers@.map_values(|h: HttpHeader| h@) =~= seq![
            ("content-type"@, "application/json"@),
        ]);
        request
    }
}

} // verus!

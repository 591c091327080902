//! The decisions of the WebAuthn server's handlers: which response a request
//! gets, which file a `.well-known` request names, and which identifier a user has.
use vstd::prelude::*;
use vstd::string::{StrSliceExecFns, StringSliceAdditionalSpecFns};
use vstd::utf8::{decode_utf8, valid_utf8};

use crate::http::HttpHeader;
use crate::session::{big_endian, is_random_uuid, session_cookie, Session};

verus! {

/// The cookie that carries the session of a login ceremony.
pub const LOGIN_COOKIE: &'static str = "crux-passkey.login";

/// The cookie that carries the session of a registration ceremony.
pub const REGISTER_COOKIE: &'static str = "crux-passkey.register";

/// A response of the server.
#[derive(Clone, Debug, PartialEq, Eq)]
pub struct Response {
    pub status: u16,
    pub headers: Vec<HttpHeader>,
    pub body: Vec<u8>,
}

/// The mathematical value of a [`Response`].
pub struct ResponseView {
    pub status: u16,
    pub headers: Seq<(Seq<char>, Seq<char>)>,
    pub body: Seq<u8>,
}

impl View for Response {
    type V = ResponseView;

    open spec fn view(&self) -> ResponseView {
        ResponseView {
            status: self.status,
            headers: self.headers@.map_values(|h: HttpHeader| h@),
            body: self.body@,
        }
    }
}

/// A response with `status` whose body is `text`, without headers.
pub fn text_response(status: u16, text: &str) -> (response: Response)
    ensures
        response@ == (ResponseView { status, headers: seq![], body: text.spec_bytes() }),
{
    let response = Response {
        status,
        headers: Vec::new(),
        body: vstd::slice::slice_to_vec(text.as_bytes()),
    };
    assert(response.headers@.map_values(|h: HttpHeader| h@) =~= seq![]);
    response
}

/// The response that hands a JSON challenge to the browser, together with the
/// cookie that names the session kept for the ceremony.
pub fn challenge_response(challenge: &str, session: &Session, cookie_name: &str) -> (response:
    Response)
    ensures
        response@ == (ResponseView {
            status: 200,
            headers: seq![
                ("Content-Type"@, "application/json"@),
                ("set-cookie"@, session_cookie(cookie_name@, session.id.0, "/auth"@)),
            ],
            body: challenge.spec_bytes(),
        }),
{
    let mut headers: Vec<HttpHeader> = Vec::new();
    headers.push(
        HttpHeader { name: "Content-Type".to_owned(), value: "application/json".to_owned() },
    );
    headers.push(HttpHeader { name: "set-cookie".to_owned(), value: session.cookie(cookie_name, "/auth") });
    let response = Response {
        status: 200,
        headers,
        body: vstd::slice::slice_to_vec(challenge.as_bytes()),
    };
    assert(response.headers@.map_values(|h: HttpHeader| h@) =~= seq![
        ("Content-Type"@, "application/json"@),
        ("set-cookie"@, session_cookie(cookie_name@, session.id.0, "/auth"@)),
    ]);
    response
}

/// The origin of the relying party whose identifier is `rp_id`.
pub fn relying_party_origin(rp_id: &str) -> (origin: String)
    ensures
        origin@ == "https://"@ + rp_id@,
{
    let mut origin = "https://".to_owned();
    origin.append(rp_id);
    origin
}

/// The identifier of a user: the one stored for them, or a fresh random one
/// for a user not seen before.
pub fn user_unique_id(stored: Option<&[u8]>) -> (id: u128)
    requires
        stored matches Some(bytes) ==> bytes@.len() == 16,
    ensures
        match stored {
            Some(bytes) => id == big_endian(bytes@),
            None => is_random_uuid(id),
        },
{
    match stored {
        Some(bytes) => match crate::session::uuid_from_bytes(bytes) {
            Some(id) => id,
            None => {
                assert(false);
                0
            },
        },
        None => crate::session::random_uuid(),
    }
}

/// Why a `.well-known` request names no file.
#[derive(Clone, Copy, Debug, PartialEq, Eq, Structural)]
pub enum WellKnownError {
    /// The request carries no `spin-path-info` header.
    NoPathInfo,
    /// The `spin-path-info` header is not UTF-8.
    PathNotText,
}

/// `std::str::from_utf8`: the text that `bytes` encode, or nothing when they are not UTF-8.
#[verifier::external_body]
fn utf8_text(bytes: &[u8]) -> (text: Option<&str>)
    ensures
        text is Some <==> valid_utf8(bytes@),
        text matches Some(t) ==> t@ == decode_utf8(bytes@),
{
    std::str::from_utf8(bytes).ok()
}

/// `text` without the slashes at its start.
pub open spec fn trim_leading_slashes(text: Seq<char>) -> Seq<char>
    decreases text.len(),
{
    if text.len() > 0 && text[0] == '/' {
        trim_leading_slashes(text.drop_first())
    } else {
        text
    }
}

/// The file that a `.well-known` request names, from its `spin-path-info` header.
pub fn requested_path(path_info: Option<&[u8]>) -> (path: Result<String, WellKnownError>)
    ensures
        match path_info {
            None => path == Err::<String, WellKnownError>(WellKnownError::NoPathInfo),
            Some(bytes) => if valid_utf8(bytes@) {
                path matches Ok(p) && p@ == trim_leading_slashes(decode_utf8(bytes@))
            } else {
                path == Err::<String, WellKnownError>(WellKnownError::PathNotText)
            },
        },
{
    let bytes = match path_info {
        None => {
            return Err(WellKnownError::NoPathInfo);
        },
        Some(bytes) => bytes,
    };
    let text = match utf8_text(bytes) {
        None => {
            return Err(WellKnownError::PathNotText);
        },
        Some(text) => text,
    };
    let n = text.unicode_len();
    let mut k: usize = 0;
    assert(text@.skip(0) =~= text@);
    while k < n && text.get_char(k) == '/'
        invariant
            n == text@.len(),
            k <= n,
            trim_leading_slashes(text@) == trim_leading_slashes(text@.skip(k as int)),
        decreases n - k,
    {
        assert(text@.skip(k as int).drop_first() =~= text@.skip(k + 1));
        k = k + 1;
    }
    let rest = text.substring_char(k, n);
    assert(rest@ =~= text@.skip(k as int));
    assert(trim_leading_slashes(rest@) == rest@);
    Ok(rest.to_owned())
}

/// The response to a `.well-known` request: the file's contents as JSON, or
/// `404` when there is no such file.
pub fn file_response(contents: Option<Vec<u8>>) -> (response: Response)
    ensures
        match contents {
            Some(c) => response@ == (ResponseView {
                status: 200,
                headers: seq![("Content-Type"@, "application/json"@)],
                body: c@,
            }),
            None => response@ == (ResponseView {
                status: 404,
                headers: seq![],
                body: "Not found".spec_bytes(),
            }),
        },
{
    match contents {
        Some(body) => {
            let mut headers: Vec<HttpHeader> = Vec::new();
            headers.push(
                HttpHeader {
                    name: "Content-Type".to_owned(),
                    value: "application/json".to_owned(),
                },
            );
            let response = Response { status: 200, headers, body };
            assert(response.headers@.map_values(|h: HttpHeader| h@) =~= seq![
                ("Content-Type"@, "application/json"@),
            ]);
            response
        },
        None => text_response(404, "Not found"),
    }
}

} // verus!

use crux_passkey::server::{self, Response, WellKnownError, LOGIN_COOKIE, REGISTER_COOKIE};
use crux_passkey::http::HttpHeader;
use crux_passkey::session::{settle, Session, SessionError, SessionId, SessionStore};
use std::cell::RefCell;
use uuid::Uuid;

#[test]
fn test_get_cookie_from_headers() {
    let header: &[u8] = b"crux-passkey.register=8a164194-c931-4127-a8c7-9a9d3ad60d7e; crux-passkey.login=21203bd1-1753-464f-9a3a-14e62d0ef0fa";
    assert_eq!(
        SessionId::from_request(Some(header), "crux-passkey.login").unwrap(),
        Some(SessionId(
            Uuid::parse_str("21203bd1-1753-464f-9a3a-14e62d0ef0fa")
                .unwrap()
                .as_u128()
        ))
    );
    assert_eq!(
        SessionId::from_request(Some(header), "crux-passkey.register").unwrap(),
        Some(SessionId(
            Uuid::parse_str("8a164194-c931-4127-a8c7-9a9d3ad60d7e")
                .unwrap()
                .as_u128()
        ))
    );
    assert_eq!(SessionId::from_request(Some(header), "blah").unwrap(), None);
}

#[test]
fn cookie_header_edge_cases() {
    assert_eq!(SessionId::from_request(None, "a"), Ok(None));
    assert_eq!(SessionId::from_request(Some(b""), "a"), Ok(None));
    assert_eq!(SessionId::from_request(Some(b"a"), "a"), Ok(None));
    assert_eq!(
        SessionId::from_request(Some(b"a=not-a-uuid"), "a"),
        Err(SessionError::InvalidSessionId)
    );
    assert_eq!(
        SessionId::from_request(Some(b"a=1\x01"), "a"),
        Err(SessionError::HeaderNotText)
    );
    // the first cookie with the name decides, even when a later one is valid
    assert_eq!(
        SessionId::from_request(
            Some(b"a=bad; a=21203bd1-1753-464f-9a3a-14e62d0ef0fa"),
            "a"
        ),
        Err(SessionError::InvalidSessionId)
    );
    // a value ends at the next '='
    let id = Uuid::parse_str("21203bd1-1753-464f-9a3a-14e62d0ef0fa").unwrap().as_u128();
    assert_eq!(
        SessionId::from_request(Some(b"x=1; a=21203bd1-1753-464f-9a3a-14e62d0ef0fa=tail"), "a"),
        Ok(Some(SessionId(id)))
    );
    // other forms that uuid accepts
    assert_eq!(
        SessionId::from_request(Some(b"a=21203bd11753464f9a3a14e62d0ef0fa"), "a"),
        Ok(Some(SessionId(id)))
    );
    // the separator is "; ": without the space the rest is one cookie
    assert_eq!(
        SessionId::from_request(Some(b"b=1;a=21203bd1-1753-464f-9a3a-14e62d0ef0fa"), "a"),
        Ok(None)
    );
}

#[test]
fn session_cookie_text_and_round_trip() {
    let id = 0x21203bd1_1753_464f_9a3a_14e62d0ef0fa_u128;
    let session = Session { id: SessionId(id), data: vec![1, 2, 3] };
    let cookie = session.cookie(LOGIN_COOKIE, "/auth");
    assert_eq!(
        cookie,
        "crux-passkey.login=21203bd1-1753-464f-9a3a-14e62d0ef0fa; HttpOnly; SameSite=Strict; Secure; Path=/auth"
    );
    let pair = cookie.split("; ").next().unwrap();
    assert_eq!(
        SessionId::from_request(Some(pair.as_bytes()), LOGIN_COOKIE),
        Ok(Some(SessionId(id)))
    );
    assert_eq!(SessionId::from_request(Some(pair.as_bytes()), REGISTER_COOKIE), Ok(None));
}

#[test]
fn new_sessions_are_random_uuids_without_data() {
    let a = Session::new();
    let b = Session::new();
    assert!(a.data.is_empty());
    assert_ne!(a.id, b.id);
    let uuid = Uuid::from_u128(a.id.0);
    assert_eq!(uuid.get_version_num(), 4);
    assert_eq!((a.id.0 >> 62) & 3, 2);
}

/// A store that keeps, under every identifier, a session holding `state`.
struct EchoStore;

impl SessionStore for EchoStore {
    fn get(id: &SessionId) -> Result<Option<Session>, SessionError> {
        Ok(Some(Session { id: *id, data: b"state".to_vec() }))
    }
    fn set(_session: &Session) -> Result<(), SessionError> {
        Ok(())
    }
    fn remove(_id: &SessionId) -> Result<(), SessionError> {
        Ok(())
    }
}

/// A store that keeps nothing.
struct EmptyStore;

impl SessionStore for EmptyStore {
    fn get(_id: &SessionId) -> Result<Option<Session>, SessionError> {
        Ok(None)
    }
    fn set(_session: &Session) -> Result<(), SessionError> {
        Ok(())
    }
    fn remove(_id: &SessionId) -> Result<(), SessionError> {
        Err(SessionError::Store("remove must not be called".to_string()))
    }
}

/// A store whose removals fail.
struct StuckStore;

impl SessionStore for StuckStore {
    fn get(id: &SessionId) -> Result<Option<Session>, SessionError> {
        Ok(Some(Session { id: *id, data: vec![] }))
    }
    fn set(_session: &Session) -> Result<(), SessionError> {
        Ok(())
    }
    fn remove(_id: &SessionId) -> Result<(), SessionError> {
        Err(SessionError::Store("busy".to_string()))
    }
}

#[test]
fn retrieve_reads_the_session_named_by_the_cookie() {
    let session = Session::new();
    let cookie = session.cookie(REGISTER_COOKIE, "/auth");
    let pair = cookie.split("; ").next().unwrap().to_string();
    let found = Session::retrieve::<EchoStore>(Some(pair.as_bytes()), REGISTER_COOKIE)
        .unwrap()
        .unwrap();
    assert_eq!(found.id, session.id);
    assert_eq!(found.data, b"state".to_vec());
    assert!(Session::retrieve::<EchoStore>(Some(pair.as_bytes()), LOGIN_COOKIE)
        .unwrap()
        .is_none());
    assert!(Session::retrieve::<EchoStore>(None, REGISTER_COOKIE).unwrap().is_none());
    assert!(Session::retrieve::<EmptyStore>(Some(pair.as_bytes()), REGISTER_COOKIE)
        .unwrap()
        .is_none());
    assert_eq!(
        Session::retrieve::<StuckStore>(Some(pair.as_bytes()), REGISTER_COOKIE).unwrap_err(),
        SessionError::Store("busy".to_string())
    );
    assert_eq!(
        Session::retrieve::<EchoStore>(Some(b"crux-passkey.register=zzz"), REGISTER_COOKIE)
            .unwrap_err(),
        SessionError::InvalidSessionId
    );
}

#[test]
fn responses_of_the_handlers() {
    assert_eq!(
        server::text_response(400, "no username"),
        Response { status: 400, headers: vec![], body: b"no username".to_vec() }
    );
    let session = Session { id: SessionId(0xff), data: vec![] };
    let response = server::challenge_response("{\"a\":1}", &session, REGISTER_COOKIE);
    assert_eq!(response.status, 200);
    assert_eq!(response.body, b"{\"a\":1}".to_vec());
    assert_eq!(
        response.headers,
        vec![
            HttpHeader { name: "Content-Type".to_string(), value: "application/json".to_string() },
            HttpHeader {
                name: "set-cookie".to_string(),
                value: "crux-passkey.register=00000000-0000-0000-0000-0000000000ff; HttpOnly; SameSite=Strict; Secure; Path=/auth".to_string()
            },
        ]
    );
    assert_eq!(server::relying_party_origin("example.com"), "https://example.com");
}

#[test]
fn user_ids_come_from_storage_or_are_fresh() {
    let bytes: Vec<u8> = (1..=16).collect();
    assert_eq!(
        server::user_unique_id(Some(&bytes)),
        0x0102030405060708090a0b0c0d0e0f10
    );
    let fresh = server::user_unique_id(None);
    assert_eq!(Uuid::from_u128(fresh).get_version_num(), 4);
}

#[test]
fn well_known_paths_and_files() {
    assert_eq!(server::requested_path(None), Err(WellKnownError::NoPathInfo));
    assert_eq!(server::requested_path(Some(&[0xff, 0xfe])), Err(WellKnownError::PathNotText));
    assert_eq!(
        server::requested_path(Some(b"///apple-app-site-association")),
        Ok("apple-app-site-association".to_string())
    );
    assert_eq!(server::requested_path(Some("/é/x".as_bytes())), Ok("é/x".to_string()));
    assert_eq!(server::requested_path(Some(b"")), Ok(String::new()));
    assert_eq!(
        server::file_response(Some(b"{}".to_vec())),
        Response {
            status: 200,
            headers: vec![HttpHeader {
                name: "Content-Type".to_string(),
                value: "application/json".to_string()
            }],
            body: b"{}".to_vec()
        }
    );
    assert_eq!(
        server::file_response(None),
        Response { status: 404, headers: vec![], body: b"Not found".to_vec() }
    );
}

#[test]
fn settle_follows_the_store_answers() {
    let session = Session { id: SessionId(5), data: b"kept".to_vec() };
    let found = settle(Ok(Some(session)), Ok(())).unwrap().unwrap();
    assert_eq!(found.id, SessionId(5));
    assert_eq!(found.data, b"kept".to_vec());
    assert!(settle(Ok(None), Err(SessionError::Store("unused".to_string()))).unwrap().is_none());
    assert_eq!(
        settle(Err(SessionError::Store("down".to_string())), Ok(())).unwrap_err(),
        SessionError::Store("down".to_string())
    );
    let session = Session { id: SessionId(5), data: vec![] };
    assert_eq!(
        settle(Ok(Some(session)), Err(SessionError::Store("busy".to_string()))).unwrap_err(),
        SessionError::Store("busy".to_string())
    );
}

#[test]
fn session_cookie_is_found_among_other_cookies() {
    let session = Session::new();
    let cookie = session.cookie(LOGIN_COOKIE, "/auth");
    let pair = cookie.split("; ").next().unwrap().to_string();
    let header = format!("theme=dark; {pair}; {LOGIN_COOKIE}=ignored; lang=en");
    assert_eq!(
        SessionId::from_request(Some(header.as_bytes()), LOGIN_COOKIE).unwrap(),
        Some(session.id)
    );
    let header = format!("{pair}; theme=dark");
    assert_eq!(
        SessionId::from_request(Some(header.as_bytes()), LOGIN_COOKIE).unwrap(),
        Some(session.id)
    );
}

#[test]
fn session_id_text_is_the_hyphenated_uuid() {
    let id = SessionId(Uuid::parse_str("21203bd1-1753-464f-9a3a-14e62d0ef0fa").unwrap().as_u128());
    assert_eq!(id.text(), "21203bd1-1753-464f-9a3a-14e62d0ef0fa");
}

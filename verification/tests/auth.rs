use crux_passkey::app::auth::{App, Effect, Event, HttpReply, Model, Status};
use crux_passkey::http::{HttpHeader, HttpRequest};
use crux_passkey::passkey::{PasskeyOperation, PasskeyOutput};

const CREATION_OPTIONS: &str = r#"{"publicKey":{"rp":{"name":"Crux Passkey","id":"localhost"},"user":{"id":"AAAAAAAAAAAAAAAAAAAAAA","name":"stu","displayName":"stu"},"challenge":"LnWGR_0kcTrx_qqFPQEZzfsogvic6bSLfXnihBzUYAg","pubKeyCredParams":[{"type":"public-key","alg":-7}]}}"#;
const REQUEST_OPTIONS: &str = r#"{"publicKey":{"challenge":"5DDNuq-9a0bRif8Z35MfRZ6Gu2WfwqK0DSss34u6u4Q","rpId":"localhost","allowCredentials":[]},"mediation":null}"#;
const REGISTER_CREDENTIAL: &str = r#"{"id":"QeSrHN1qZhaKqtapAs0zdg","rawId":"QeSrHN1qZhaKqtapAs0zdg","response":{"attestationObject":"o2NmbXRkbm9uZQ","clientDataJSON":"eyJ0eXBlIjoid2ViYXV0aG4uY3JlYXRlIn0"},"type":"public-key","extensions":{}}"#;
const CREDENTIAL: &str = r#"{"id":"QeSrHN1qZhaKqtapAs0zdg","rawId":"QeSrHN1qZhaKqtapAs0zdg","response":{"authenticatorData":"AAAA","clientDataJSON":"eyJ0eXBlIjoid2ViYXV0aG4uZ2V0In0","signature":"AAAA","userHandle":null},"type":"public-key","extensions":{}}"#;

fn json_field(bytes: &[u8], path: &[&str]) -> String {
    let mut value: serde_json::Value = serde_json::from_slice(bytes).unwrap();
    for key in path {
        value = value[*key].clone();
    }
    value.as_str().unwrap().to_string()
}

fn model_with_server(app: &App, url: &str) -> Model {
    let mut model = Model::default();
    let effects = app.update(Event::ServerUrl(url.to_owned()), &mut model);
    assert!(effects.is_empty());
    model
}

#[test]
fn validation_success() {
    let app = App::default();
    let mut model = Model::default();
    let effects = app.update(Event::Validate(String::from("stu")), &mut model);
    assert!(effects.contains(&Effect::Render));
    assert_eq!(app.view(&model).status, Status::Clear);
}

#[test]
fn validation_failure() {
    let app = App::default();
    let mut model = Model::default();
    let effects = app.update(Event::Validate(String::new()), &mut model);
    assert!(effects.contains(&Effect::Render));
    assert_eq!(
        app.view(&model).status,
        Status::Error("user name cannot be empty".to_string())
    );
}

#[test]
fn mod_registration() {
    let app = App::default();
    let server_url = "https://localhost";
    let mut model = model_with_server(&app, server_url);

    let update = app.update(Event::Register(String::from("stu")), &mut model);
    assert!(update.contains(&Effect::Render));
    assert_eq!(
        app.view(&model).status,
        Status::Info("registering \"stu\"...".to_string())
    );

    // two renders come before the request
    let Effect::Http(request, reply) = &update[2] else {
        panic!("expected an HTTP request");
    };
    assert_eq!(request, &HttpRequest::get(format!("{server_url}/auth/register_start/stu")));
    assert_eq!(request.method, "GET");
    assert!(request.headers.is_empty() && request.body.is_empty());

    // the server answers with the creation options
    let event = Event::from_http(*reply, Ok(CREATION_OPTIONS.as_bytes().to_vec()));
    let Event::CreationChallenge(Ok(ccr)) = &event else {
        panic!("expected a creation challenge");
    };
    assert_eq!(
        json_field(ccr, &["publicKey", "challenge"]),
        "LnWGR_0kcTrx_qqFPQEZzfsogvic6bSLfXnihBzUYAg"
    );
    let bytes = ccr.clone();

    let update = app.update(event, &mut model);
    let Effect::Passkey(operation) = &update[0] else {
        panic!("expected a passkey operation");
    };
    assert_eq!(operation, &PasskeyOperation::CreateCredential(bytes));

    let response = PasskeyOutput::RegisterCredential(REGISTER_CREDENTIAL.as_bytes().to_vec());
    let event = Event::from_passkey(operation, response);
    let Event::RegisterCredential(Ok(cred)) = &event else {
        panic!("expected a new credential");
    };
    assert_eq!(json_field(cred, &["id"]), "QeSrHN1qZhaKqtapAs0zdg");
    let cred = cred.clone();

    let update = app.update(event, &mut model);
    let Effect::Http(request, reply) = &update[0] else {
        panic!("expected an HTTP request");
    };
    let expected = HttpRequest {
        method: "POST".to_string(),
        url: format!("{server_url}/auth/register_finish"),
        headers: vec![HttpHeader {
            name: "content-type".to_string(),
            value: "application/json".to_string(),
        }],
        body: cred,
    };
    assert_eq!(request, &expected);

    let event = Event::from_http(*reply, Ok(vec![]));
    assert!(matches!(event, Event::CredentialRegistered(Ok(_))));

    let update = app.update(event, &mut model);
    assert!(update.contains(&Effect::Render));
    assert_eq!(
        app.view(&model).status,
        Status::Info("registered \"stu\"".to_string())
    );
}

#[test]
fn mod_login() {
    let app = App::default();
    let server_url = "https://localhost";
    let mut model = model_with_server(&app, server_url);

    let update = app.update(Event::Login(String::from("stu")), &mut model);
    assert!(update.contains(&Effect::Render));
    assert_eq!(
        app.view(&model).status,
        Status::Info("logging in \"stu\"...".to_string())
    );

    let Effect::Http(request, reply) = &update[2] else {
        panic!("expected an HTTP request");
    };
    assert_eq!(request, &HttpRequest::get(format!("{server_url}/auth/login_start/stu")));

    let event = Event::from_http(*reply, Ok(REQUEST_OPTIONS.as_bytes().to_vec()));
    let Event::RequestChallenge(Ok(rcr)) = &event else {
        panic!("expected a request challenge");
    };
    assert_eq!(
        json_field(rcr, &["publicKey", "challenge"]),
        "5DDNuq-9a0bRif8Z35MfRZ6Gu2WfwqK0DSss34u6u4Q"
    );
    let bytes = rcr.clone();

    let update = app.update(event, &mut model);
    let Effect::Passkey(operation) = &update[0] else {
        panic!("expected a passkey operation");
    };
    assert_eq!(operation, &PasskeyOperation::RequestCredential(bytes));

    let response = PasskeyOutput::Credential(CREDENTIAL.as_bytes().to_vec());
    let event = Event::from_passkey(operation, response);
    let Event::Credential(Ok(cred)) = &event else {
        panic!("expected a credential");
    };
    assert_eq!(json_field(cred, &["id"]), "QeSrHN1qZhaKqtapAs0zdg");
    let cred = cred.clone();

    let update = app.update(event, &mut model);
    let Effect::Http(request, reply) = &update[0] else {
        panic!("expected an HTTP request");
    };
    let expected = HttpRequest {
        method: "POST".to_string(),
        url: format!("{server_url}/auth/login_finish"),
        headers: vec![HttpHeader {
            name: "content-type".to_string(),
            value: "application/json".to_string(),
        }],
        body: cred,
    };
    assert_eq!(request, &expected);

    let event = Event::from_http(*reply, Ok(vec![]));
    assert!(matches!(event, Event::CredentialVerified(Ok(_))));

    let update = app.update(event, &mut model);
    assert!(update.contains(&Effect::Render));
    assert_eq!(
        app.view(&model).status,
        Status::Info("logged in \"stu\"".to_string())
    );
}

#[test]
fn mod_registering_with_empty_username() {
    let app = App::default();
    let mut model = Model::default();
    let update = app.update(Event::Register(String::new()), &mut model);
    assert!(update.contains(&Effect::Render));
    assert_eq!(
        app.view(&model).status,
        Status::Error("user name cannot be empty".to_string())
    );
}

#[test]
fn mod_logging_in_with_empty_username() {
    let app = App::default();
    let mut model = Model::default();
    let update = app.update(Event::Login(String::new()), &mut model);
    assert!(update.contains(&Effect::Render));
    assert_eq!(
        app.view(&model).status,
        Status::Error("user name cannot be empty".to_string())
    );
}

#[test]
fn register_effects_in_order_with_default_server() {
    let app = App::default();
    let mut model = Model::default();
    let effects = app.update(Event::Register("ann".to_string()), &mut model);
    assert_eq!(
        effects,
        vec![
            Effect::Render,
            Effect::Render,
            Effect::Http(
                HttpRequest::get("https://localhost/auth/register_start/ann".to_string()),
                HttpReply::CreationChallenge
            ),
        ]
    );
}

#[test]
fn empty_name_sends_nothing_and_keeps_the_user() {
    let app = App::default();
    let mut model = Model::default();
    app.update(Event::Register("ann".to_string()), &mut model);
    let effects = app.update(Event::Login(String::new()), &mut model);
    assert_eq!(effects, vec![Effect::Render]);
    // the remembered user is still "ann"
    app.update(Event::CredentialRegistered(Ok(vec![])), &mut model);
    assert_eq!(app.view(&model).status, Status::Info("registered \"ann\"".to_string()));
}

#[test]
fn server_url_is_used_for_requests() {
    let app = App::default();
    let mut model = model_with_server(&app, "https://example.com");
    let effects = app.update(Event::GetRequestChallenge("bob".to_string()), &mut model);
    assert_eq!(
        effects,
        vec![Effect::Http(
            HttpRequest::get("https://example.com/auth/login_start/bob".to_string()),
            HttpReply::RequestChallenge
        )]
    );
    // the server url does not change the status, and nothing is rendered for it
    assert_eq!(app.view(&model).status, Status::Clear);
}

#[test]
fn http_failures_are_reported() {
    let app = App::default();
    let cases = vec![
        (
            Event::CreationChallenge(Err("Http { code: 500 }".to_string())),
            "failed to get creation challenge: Http { code: 500 }",
        ),
        (
            Event::RequestChallenge(Err("timeout".to_string())),
            "failed to get request challenge: timeout",
        ),
        (
            Event::CredentialRegistered(Err("denied".to_string())),
            "failed to register: denied",
        ),
        (
            Event::CredentialVerified(Err("denied".to_string())),
            "failed to login: denied",
        ),
        (Event::Error("boom".to_string()), "boom"),
    ];
    for (event, message) in cases {
        let mut model = Model::default();
        let effects = app.update(event, &mut model);
        assert_eq!(effects, vec![Effect::Render]);
        assert_eq!(app.view(&model).status, Status::Error(message.to_string()));
    }
}

#[test]
fn authenticator_failures_are_reported_with_debug_text() {
    let app = App::default();
    let mut model = Model::default();
    let op = PasskeyOperation::CreateCredential(vec![1, 2]);
    let event = Event::from_passkey(&op, PasskeyOutput::Error("user said \"no\"".to_string()));
    let effects = app.update(event, &mut model);
    assert_eq!(effects, vec![Effect::Render]);
    assert_eq!(
        app.view(&model).status,
        Status::Error(r#"failed to get new credential: Error { message: "user said \"no\"" }"#.to_string())
    );

    let op = PasskeyOperation::RequestCredential(vec![3]);
    let event = Event::from_passkey(&op, PasskeyOutput::Error("gone".to_string()));
    app.update(event, &mut model);
    assert_eq!(
        app.view(&model).status,
        Status::Error(r#"failed to get credential: Error { message: "gone" }"#.to_string())
    );
}

#[test]
fn replies_become_the_events_they_name() {
    assert_eq!(
        Event::from_http(HttpReply::CredentialVerified, Err("x".to_string())),
        Event::CredentialVerified(Err("x".to_string()))
    );
    assert_eq!(
        Event::from_http(HttpReply::RequestChallenge, Ok(vec![7])),
        Event::RequestChallenge(Ok(vec![7]))
    );
    let op = PasskeyOperation::RequestCredential(vec![]);
    assert_eq!(
        Event::from_passkey(&op, PasskeyOutput::Credential(vec![9])),
        Event::Credential(Ok(vec![9]))
    );
}

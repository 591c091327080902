//! The authentication app: validates a user name, then drives passkey
//! registration or login against the WebAuthn server.
use vstd::prelude::*;

use crate::http::{get_request, json_post_request, HttpRequest, HttpRequestView};
use crate::passkey::{self, error_debug_text, OperationView, PasskeyOperation, PasskeyOutput};

verus! {

/// What the user is told.
#[derive(Clone, Debug, PartialEq, Eq)]
pub enum Status {
    Clear,
    Info(String),
    Error(String),
}

/// The mathematical value of a [`Status`].
pub enum StatusView {
    Clear,
    Info(Seq<char>),
    Error(Seq<char>),
}

impl View for Status {
    type V = StatusView;

    open spec fn view(&self) -> StatusView {
        match self {
            Status::Clear => StatusView::Clear,
            Status::Info(text) => StatusView::Info(text@),
            Status::Error(text) => StatusView::Error(text@),
        }
    }
}

impl Default for Status {
    fn default() -> (status: Status)
        ensures
            status@ == StatusView::Clear,
    {
        Status::Clear
    }
}

impl Status {
    /// A copy of this status.
    pub fn duplicate(&self) -> (copy: Status)
        ensures
            copy@ == self@,
    {
        match self {
            Status::Clear => Status::Clear,
            Status::Info(text) => Status::Info(text.clone()),
            Status::Error(text) => Status::Error(text.clone()),
        }
    }
}

/// The state of the authentication app.
#[derive(Debug)]
pub struct Model {
    server_url: Option<String>,
    user_name: String,
    pub status: Status,
}

/// The mathematical value of a [`Model`].
pub struct ModelView {
    pub server_url: Option<Seq<char>>,
    pub user_name: Seq<char>,
    pub status: StatusView,
}

pub open spec fn option_text_view(text: Option<String>) -> Option<Seq<char>> {
    match text {
        Some(t) => Some(t@),
        None => None,
    }
}

impl View for Model {
    type V = ModelView;

    closed spec fn view(&self) -> ModelView {
        ModelView {
            server_url: option_text_view(self.server_url),
            user_name: self.user_name@,
            status: self.status@,
        }
    }
}

/// The state in which the app starts: no server chosen, no user, nothing to say.
pub open spec fn initial_model() -> ModelView {
    ModelView { server_url: None, user_name: seq![], status: StatusView::Clear }
}

impl Default for Model {
    fn default() -> (model: Model)
        ensures
            model@ == initial_model(),
    {
        let model = Model { server_url: None, user_name: String::new(), status: Status::Clear };
        proof {
            reveal_strlit("");
        }
        model
    }
}

/// What the shell shows.
#[derive(Clone, Debug, PartialEq, Eq)]
pub struct ViewModel {
    pub status: Status,
}

/// Which event the response to an HTTP request becomes.
#[derive(Clone, Copy, Debug, PartialEq, Eq, Structural)]
pub enum HttpReply {
    CreationChallenge,
    RequestChallenge,
    CredentialRegistered,
    CredentialVerified,
}

/// The events of the authentication app. The user drives the first four; the
/// others come back from the app's own requests. A successful answer carries
/// the JSON document that the server or the authenticator returned; a failed
/// one carries the text of the error.
#[derive(Debug, PartialEq, Eq)]
pub enum Event {
    ServerUrl(String),
    Validate(String),
    Register(String),
    Login(String),
    GetCreationChallenge(String),
    GetRequestChallenge(String),
    CreationChallenge(Result<Vec<u8>, String>),
    RequestChallenge(Result<Vec<u8>, String>),
    RegisterCredential(Result<Vec<u8>, passkey::Error>),
    Credential(Result<Vec<u8>, passkey::Error>),
    CredentialRegistered(Result<Vec<u8>, String>),
    CredentialVerified(Result<Vec<u8>, String>),
    Error(String),
}

/// The mathematical value of an [`Event`].
pub enum EventView {
    ServerUrl(Seq<char>),
    Validate(Seq<char>),
    Register(Seq<char>),
    Login(Seq<char>),
    GetCreationChallenge(Seq<char>),
    GetRequestChallenge(Seq<char>),
    CreationChallenge(Result<Seq<u8>, Seq<char>>),
    RequestChallenge(Result<Seq<u8>, Seq<char>>),
    RegisterCredential(Result<Seq<u8>, Seq<char>>),
    Credential(Result<Seq<u8>, Seq<char>>),
    CredentialRegistered(Result<Seq<u8>, Seq<char>>),
    CredentialVerified(Result<Seq<u8>, Seq<char>>),
    Error(Seq<char>),
}

pub open spec fn reply_view(reply: Result<Vec<u8>, String>) -> Result<Seq<u8>, Seq<char>> {
    match reply {
        Ok(body) => Ok(body@),
        Err(text) => Err(text@),
    }
}

pub open spec fn credential_view(reply: Result<Vec<u8>, passkey::Error>) -> Result<
    Seq<u8>,
    Seq<char>,
> {
    match reply {
        Ok(body) => Ok(body@),
        Err(e) => Err(e@),
    }
}

impl View for Event {
    type V = EventView;

    open spec fn view(&self) -> EventView {
        match self {
            Event::ServerUrl(t) => EventView::ServerUrl(t@),
            Event::Validate(t) => EventView::Validate(t@),
            Event::Register(t) => EventView::Register(t@),
            Event::Login(t) => EventView::Login(t@),
            Event::GetCreationChallenge(t) => EventView::GetCreationChallenge(t@),
            Event::GetRequestChallenge(t) => EventView::GetRequestChallenge(t@),
            Event::CreationChallenge(r) => EventView::CreationChallenge(reply_view(*r)),
            Event::RequestChallenge(r) => EventView::RequestChallenge(reply_view(*r)),
            Event::RegisterCredential(r) => EventView::RegisterCredential(credential_view(*r)),
            Event::Credential(r) => EventView::Credential(credential_view(*r)),
            Event::CredentialRegistered(r) => EventView::CredentialRegistered(reply_view(*r)),
            Event::CredentialVerified(r) => EventView::CredentialVerified(reply_view(*r)),
            Event::Error(t) => EventView::Error(t@),
        }
    }
}

/// The side effects that the app asks the shell to perform.
#[derive(Clone, Debug, PartialEq, Eq)]
pub enum Effect {
    /// Show the current view model.
    Render,
    /// Send the request; its response comes back as the event that the reply names.
    Http(HttpRequest, HttpReply),
    /// Ask the platform authenticator; its answer comes back as
    /// `RegisterCredential` for a creation and `Credential` for a request.
    Passkey(PasskeyOperation),
}

/// The mathematical value of an [`Effect`].
pub enum EffectView {
    Render,
    Http(HttpRequestView, HttpReply),
    Passkey(OperationView),
}

impl View for Effect {
    type V = EffectView;

    open spec fn view(&self) -> EffectView {
        match self {
            Effect::Render => EffectView::Render,
            Effect::Http(request, reply) => EffectView::Http(request@, *reply),
            Effect::Passkey(op) => EffectView::Passkey(op@),
        }
    }
}

pub open spec fn effects_view(effects: Seq<Effect>) -> Seq<EffectView> {
    effects.map_values(|e: Effect| e@)
}

pub open spec fn default_server_url() -> Seq<char> {
    "https://localhost"@
}

/// The server that requests go to.
pub open spec fn server_url_of(model: ModelView) -> Seq<char> {
    match model.server_url {
        Some(url) => url,
        None => default_server_url(),
    }
}

pub open spec fn empty_name_message() -> Seq<char> {
    "user name cannot be empty"@
}

/// The status that validating `user_name` leaves.
pub open spec fn validated(user_name: Seq<char>) -> StatusView {
    if user_name.len() == 0 {
        StatusView::Error(empty_name_message())
    } else {
        StatusView::Clear
    }
}

pub open spec fn registering_message(user_name: Seq<char>) -> Seq<char> {
    "registering \""@ + user_name + "\"..."@
}

pub open spec fn registered_message(user_name: Seq<char>) -> Seq<char> {
    "registered \""@ + user_name + "\""@
}

pub open spec fn logging_in_message(user_name: Seq<char>) -> Seq<char> {
    "logging in \""@ + user_name + "\"..."@
}

pub open spec fn logged_in_message(user_name: Seq<char>) -> Seq<char> {
    "logged in \""@ + user_name + "\""@
}

/// The request for a registration challenge for `user_name`.
pub open spec fn creation_challenge_request(model: ModelView, user_name: Seq<char>) -> EffectView {
    EffectView::Http(
        get_request(server_url_of(model) + "/auth/register_start/"@ + user_name),
        HttpReply::CreationChallenge,
    )
}

/// The request for a login challenge for `user_name`.
pub open spec fn request_challenge_request(model: ModelView, user_name: Seq<char>) -> EffectView {
    EffectView::Http(
        get_request(server_url_of(model) + "/auth/login_start/"@ + user_name),
        HttpReply::RequestChallenge,
    )
}

/// The request that hands a new credential to the server.
pub open spec fn register_finish_request(model: ModelView, credential: Seq<u8>) -> EffectView {
    EffectView::Http(
        json_post_request(server_url_of(model) + "/auth/register_finish"@, credential),
        HttpReply::CredentialRegistered,
    )
}

/// The request that hands an assertion to the server.
pub open spec fn login_finish_request(model: ModelView, credential: Seq<u8>) -> EffectView {
    EffectView::Http(
        json_post_request(server_url_of(model) + "/auth/login_finish"@, credential),
        HttpReply::CredentialVerified,
    )
}

/// Reporting `message` as an error, and rendering.
pub open spec fn failed(model: ModelView, message: Seq<char>) -> (ModelView, Seq<EffectView>) {
    (ModelView { status: StatusView::Error(message), ..model }, seq![EffectView::Render])
}

/// What handling `event` in `model` leads to: the new model and the effects, in order.
pub open spec fn update_spec(model: ModelView, event: EventView) -> (ModelView, Seq<EffectView>) {
    match event {
        EventView::ServerUrl(url) => (ModelView { server_url: Some(url), ..model }, seq![]),
        EventView::Validate(name) => (
            ModelView { status: validated(name), ..model },
            seq![EffectView::Render],
        ),
        EventView::Register(name) => if name.len() == 0 {
            (ModelView { status: validated(name), ..model }, seq![EffectView::Render])
        } else {
            (
                ModelView {
                    user_name: name,
                    status: StatusView::Info(registering_message(name)),
                    ..model
                },
                seq![
                    EffectView::Render,
                    EffectView::Render,
                    creation_challenge_request(model, name),
                ],
            )
        },
        EventView::Login(name) => if name.len() == 0 {
            (ModelView { status: validated(name), ..model }, seq![EffectView::Render])
        } else {
            (
                ModelView {
                    user_name: name,
                    status: StatusView::Info(logging_in_message(name)),
                    ..model
                },
                seq![
                    EffectView::Render,
                    EffectView::Render,
                    request_challenge_request(model, name),
                ],
            )
        },
        EventView::GetCreationChallenge(name) => (
            model,
            seq![creation_challenge_request(model, name)],
        ),
        EventView::GetRequestChallenge(name) => (
            model,
            seq![request_challenge_request(model, name)],
        ),
        EventView::CreationChallenge(Ok(challenge)) => (
            model,
            seq![EffectView::Passkey(OperationView::CreateCredential(challenge))],
        ),
        EventView::CreationChallenge(Err(e)) => failed(
            model,
            "failed to get creation challenge: "@ + e,
        ),
        EventView::RequestChallenge(Ok(challenge)) => (
            model,
            seq![EffectView::Passkey(OperationView::RequestCredential(challenge))],
        ),
        EventView::RequestChallenge(Err(e)) => failed(
            model,
            "failed to get request challenge: "@ + e,
        ),
        EventView::RegisterCredential(Ok(credential)) => (
            model,
            seq![register_finish_request(model, credential)],
        ),
        EventView::RegisterCredential(Err(message)) => failed(
            model,
            "failed to get new credential: "@ + error_debug_text(message),
        ),
        EventView::Credential(Ok(credential)) => (
            model,
            seq![login_finish_request(model, credential)],
        ),
        EventView::Credential(Err(message)) => failed(
            model,
            "failed to get credential: "@ + error_debug_text(message),
        ),
        EventView::CredentialRegistered(Ok(_)) => (
            ModelView { status: StatusView::Info(registered_message(model.user_name)), ..model },
            seq![EffectView::Render],
        ),
        EventView::CredentialRegistered(Err(e)) => failed(model, "failed to register: "@ + e),
        EventView::CredentialVerified(Ok(_)) => (
            ModelView { status: StatusView::Info(logged_in_message(model.user_name)), ..model },
            seq![EffectView::Render],
        ),
        EventView::CredentialVerified(Err(e)) => failed(model, "failed to login: "@ + e),
        EventView::Error(message) => failed(model, message),
    }
}

/// `prefix` followed by `rest`.
fn joined(prefix: &str, rest: &str) -> (text: String)
    ensures
        text@ == prefix@ + rest@,
{
    let mut text = prefix.to_owned();
    text.append(rest);
    text
}

/// `prefix`, then `name` in double quotes, then `suffix`.
fn quoted(prefix: &str, name: &str, suffix: &str) -> (text: String)
    ensures
        text@ == prefix@ + name@ + suffix@,
{
    let mut text = prefix.to_owned();
    text.append(name);
    text.append(suffix);
    text
}

/// The event that the response to a request, sent with `reply`, becomes.
pub open spec fn reply_event(reply: HttpReply, outcome: Result<Seq<u8>, Seq<char>>) -> EventView {
    match reply {
        HttpReply::CreationChallenge => EventView::CreationChallenge(outcome),
        HttpReply::RequestChallenge => EventView::RequestChallenge(outcome),
        HttpReply::CredentialRegistered => EventView::CredentialRegistered(outcome),
        HttpReply::CredentialVerified => EventView::CredentialVerified(outcome),
    }
}

/// The event that the authenticator's answer to `operation` becomes.
pub open spec fn passkey_event(operation: OperationView, outcome: Result<Seq<u8>, Seq<char>>) -> EventView {
    match operation {
        OperationView::CreateCredential(_) => EventView::RegisterCredential(outcome),
        OperationView::RequestCredential(_) => EventView::Credential(outcome),
    }
}

impl Event {
    /// The event that the outcome of a request sent with `reply` becomes: the
    /// body of the response, or the text of the error.
    pub fn from_http(reply: HttpReply, outcome: Result<Vec<u8>, String>) -> (event: Event)
        ensures
            event@ == reply_event(reply, reply_view(outcome)),
    {
        match reply {
            HttpReply::CreationChallenge => Event::CreationChallenge(outcome),
            HttpReply::RequestChallenge => Event::RequestChallenge(outcome),
            HttpReply::CredentialRegistered => Event::CredentialRegistered(outcome),
            HttpReply::CredentialVerified => Event::CredentialVerified(outcome),
        }
    }

    /// The event that the authenticator's `output` for `operation` becomes.
    pub fn from_passkey(operation: &PasskeyOperation, output: PasskeyOutput) -> (event: Event)
        ensures
            event@ == passkey_event(operation@, passkey::outcome_of(output)),
    {
        let outcome = output.into_result();
        match operation {
            PasskeyOperation::CreateCredential(_) => Event::RegisterCredential(outcome),
            PasskeyOperation::RequestCredential(_) => Event::Credential(outcome),
        }
    }
}

/// The authentication app.
pub struct App;

impl Default for App {
    fn default() -> App {
        App
    }
}

impl App {
    fn server_url(model: &Model) -> (url: String)
        ensures
            url@ == server_url_of(model@),
    {
        match &model.server_url {
            Some(url) => url.clone(),
            None => "https://localhost".to_owned(),
        }
    }

    fn fail(model: &mut Model, message: String, effects: &mut Vec<Effect>)
        ensures
            final(model)@ == failed(old(model)@, message@).0,
            effects_view(final(effects)@) == effects_view(old(effects)@) + failed(
                old(model)@,
                message@,
            ).1,
    {
        model.status = Status::Error(message);
        effects.push(Effect::Render);
        assert(effects_view(effects@) =~= effects_view(old(effects)@) + seq![EffectView::Render]);
    }

    fn validate(model: &mut Model, user_name: &String, effects: &mut Vec<Effect>)
        ensures
            final(model)@ == (ModelView { status: validated(user_name@), ..old(model)@ }),
            effects_view(final(effects)@) == effects_view(old(effects)@) + seq![EffectView::Render],
    {
        model.status = if user_name.as_str().is_empty() {
            Status::Error("user name cannot be empty".to_owned())
        } else {
            Status::Clear
        };
        effects.push(Effect::Render);
        assert(effects_view(effects@) =~= effects_view(old(effects)@) + seq![EffectView::Render]);
    }

    fn push(effects: &mut Vec<Effect>, effect: Effect)
        ensures
            effects_view(final(effects)@) == effects_view(old(effects)@) + seq![effect@],
    {
        effects.push(effect);
        assert(effects_view(effects@) =~= effects_view(old(effects)@) + seq![effect@]);
    }

    /// Handles `event`: changes `model` and returns the effects for the shell, in order.
    pub fn update(&self, event: Event, model: &mut Model) -> (effects: Vec<Effect>)
        ensures
            (final(model)@, effects_view(effects@)) == update_spec(old(model)@, event@),
    {
        let server_url = Self::server_url(model);
        let mut effects: Vec<Effect> = Vec::new();
        assert(effects_view(effects@) =~= seq![]);
        match event {
            Event::ServerUrl(url) => {
                model.server_url = Some(url);
            },
            Event::Validate(user_name) => {
                Self::validate(model, &user_name, &mut effects);
            },
            Event::Register(user_name) => {
                Self::validate(model, &user_name, &mut effects);
                if let Status::Clear = model.status {
                    let status = quoted("registering \"", user_name.as_str(), "\"...");
                    model.user_name = user_name.clone();
                    model.status = Status::Info(status);
                    Self::push(&mut effects, Effect::Render);
                    let url = quoted(server_url.as_str(), "/auth/register_start/", user_name.as_str());
                    Self::push(
                        &mut effects,
                        Effect::Http(HttpRequest::get(url), HttpReply::CreationChallenge),
                    );
                }
            },
            Event::Login(user_name) => {
                Self::validate(model, &user_name, &mut effects);
                if let Status::Clear = model.status {
                    let status = quoted("logging in \"", user_name.as_str(), "\"...");
                    model.user_name = user_name.clone();
                    model.status = Status::Info(status);
                    Self::push(&mut effects, Effect::Render);
                    let url = quoted(server_url.as_str(), "/auth/login_start/", user_name.as_str());
                    Self::push(
                        &mut effects,
                        Effect::Http(HttpRequest::get(url), HttpReply::RequestChallenge),
                    );
                }
            },
            Event::GetCreationChallenge(user_name) => {
                let url = quoted(server_url.as_str(), "/auth/register_start/", user_name.as_str());
                Self::push(
                    &mut effects,
                    Effect::Http(HttpRequest::get(url), HttpReply::CreationChallenge),
                );
            },
            Event::GetRequestChallenge(user_name) => {
                let url = quoted(server_url.as_str(), "/auth/login_start/", user_name.as_str());
                Self::push(
                    &mut effects,
                    Effect::Http(HttpRequest::get(url), HttpReply::RequestChallenge),
                );
            },
            Event::CreationChallenge(Ok(challenge)) => {
                Self::push(
                    &mut effects,
                    Effect::Passkey(PasskeyOperation::CreateCredential(challenge)),
                );
            },
            Event::CreationChallenge(Err(e)) => {
                let message = joined("failed to get creation challenge: ", e.as_str());
                Self::fail(model, message, &mut effects);
            },
            Event::RequestChallenge(Ok(challenge)) => {
                Self::push(
                    &mut effects,
                    Effect::Passkey(PasskeyOperation::RequestCredential(challenge)),
                );
            },
            Event::RequestChallenge(Err(e)) => {
                let message = joined("failed to get request challenge: ", e.as_str());
                Self::fail(model, message, &mut effects);
            },
            Event::RegisterCredential(Ok(credential)) => {
                let url = joined(server_url.as_str(), "/auth/register_finish");
                Self::push(
                    &mut effects,
                    Effect::Http(
                        HttpRequest::post_json(url, credential),
                        HttpReply::CredentialRegistered,
                    ),
                );
            },
            Event::RegisterCredential(Err(e)) => {
                let text = e.debug_text();
                let message = joined("failed to get new credential: ", text.as_str());
                Self::fail(model, message, &mut effects);
            },
            Event::Credential(Ok(credential)) => {
                let url = joined(server_url.as_str(), "/auth/login_finish");
                Self::push(
                    &mut effects,
                    Effect::Http(
                        HttpRequest::post_json(url, credential),
                        HttpReply::CredentialVerified,
                    ),
                );
            },
            Event::Credential(Err(e)) => {
                let text = e.debug_text();
                let message = joined("failed to get credential: ", text.as_str());
                Self::fail(model, message, &mut effects);
            },
            Event::CredentialRegistered(Ok(_)) => {
                let status = quoted("registered \"", model.user_name.as_str(), "\"");
                model.status = Status::Info(status);
                Self::push(&mut effects, Effect::Render);
            },
            Event::CredentialRegistered(Err(e)) => {
                let message = joined("failed to register: ", e.as_str());
                Self::fail(model, message, &mut effects);
            },
            Event::CredentialVerified(Ok(_)) => {
                let status = quoted("logged in \"", model.user_name.as_str(), "\"");
                model.status = Status::Info(status);
                Self::push(&mut effects, Effect::Render);
            },
            Event::CredentialVerified(Err(e)) => {
                let message = joined("failed to login: ", e.as_str());
                Self::fail(model, message, &mut effects);
            },
            Event::Error(e) => {
                Self::fail(model, e, &mut effects);
            },
        }
        effects
    }

    /// The view model of `model`.
    pub fn view(&self, model: &Model) -> (view: ViewModel)
        ensures
            view.status@ == model@.status,
    {
        ViewModel { status: model.status.duplicate() }
    }
}

/// The server that requests go to changes only when the shell names one.
pub proof fn lemma_server_url_kept(model: ModelView, event: EventView)
    requires
        !(event is ServerUrl),
    ensures
        update_spec(model, event).0.server_url == model.server_url,
{
}

/// The user name that the app remembers changes only when a registration or
/// a login starts with a non-empty name, and then it is that name.
pub proof fn lemma_user_name_kept(model: ModelView, event: EventView)
    ensures
        update_spec(model, event).0.user_name == match event {
            EventView::Register(name) => if name.len() > 0 {
                name
            } else {
                model.user_name
            },
            EventView::Login(name) => if name.len() > 0 {
                name
            } else {
                model.user_name
            },
            _ => model.user_name,
        },
{
}

/// Whenever what the user is told changes, the shell is asked to render.
pub proof fn lemma_status_change_rendered(model: ModelView, event: EventView)
    ensures
        update_spec(model, event).0.status != model.status ==> update_spec(model, event).1.contains(
            EffectView::Render,
        ),
{
    let effects = update_spec(model, event).1;
    if update_spec(model, event).0.status != model.status {
        assert(effects[0] == EffectView::Render);
    }
}

/// An empty user name starts nothing: the user is told why, the shell renders,
/// and no request goes out.
pub proof fn lemma_empty_name_rejected(model: ModelView, event: EventView)
    requires
        (event matches EventView::Register(name) && name.len() == 0) || (
        event matches EventView::Login(name) && name.len() == 0),
    ensures
        update_spec(model, event) == (
            ModelView { status: StatusView::Error(empty_name_message()), ..model },
            seq![EffectView::Render],
        ),
{
}

/// Whether `event` reports a failure of a request or of the authenticator.
pub open spec fn is_failure(event: EventView) -> bool {
    match event {
        EventView::CreationChallenge(Err(_)) => true,
        EventView::RequestChallenge(Err(_)) => true,
        EventView::RegisterCredential(Err(_)) => true,
        EventView::Credential(Err(_)) => true,
        EventView::CredentialRegistered(Err(_)) => true,
        EventView::CredentialVerified(Err(_)) => true,
        EventView::Error(_) => true,
        _ => false,
    }
}

/// Every failure is reported: the status becomes an error, nothing else of
/// the state changes, and the shell renders, once.
pub proof fn lemma_failures_reported(model: ModelView, event: EventView)
    requires
        is_failure(event),
    ensures
        update_spec(model, event).0.status is Error,
        update_spec(model, event).0.server_url == model.server_url,
        update_spec(model, event).0.user_name == model.user_name,
        update_spec(model, event).1 == seq![EffectView::Render],
{
}

/// A registration that succeeds step by step: the app asks the server for a
/// challenge, hands the challenge to the authenticator, hands the new
/// credential to the server, and finally tells the user that the name it
/// started with is registered.
pub proof fn lemma_registration_flow(
    model: ModelView,
    name: Seq<char>,
    challenge: Seq<u8>,
    credential: Seq<u8>,
    reply: Seq<u8>,
)
    requires
        name.len() > 0,
    ensures
        ({
            let (m1, f1) = update_spec(model, EventView::Register(name));
            let (m2, f2) = update_spec(m1, EventView::CreationChallenge(Ok(challenge)));
            let (m3, f3) = update_spec(m2, EventView::RegisterCredential(Ok(credential)));
            let (m4, f4) = update_spec(m3, EventView::CredentialRegistered(Ok(reply)));
            &&& f1 == seq![
                EffectView::Render,
                EffectView::Render,
                creation_challenge_request(model, name),
            ]
            &&& f2 == seq![EffectView::Passkey(OperationView::CreateCredential(challenge))]
            &&& f3 == seq![register_finish_request(model, credential)]
            &&& f4 == seq![EffectView::Render]
            &&& m4 == ModelView {
                user_name: name,
                status: StatusView::Info(registered_message(name)),
                ..model
            }
        }),
{
}

/// A login that succeeds step by step: the app asks the server for a
/// challenge, hands it to the authenticator, hands the assertion to the
/// server, and finally tells the user that the name it started with is logged in.
pub proof fn lemma_login_flow(
    model: ModelView,
    name: Seq<char>,
    challenge: Seq<u8>,
    credential: Seq<u8>,
    reply: Seq<u8>,
)
    requires
        name.len() > 0,
    ensures
        ({
            let (m1, f1) = update_spec(model, EventView::Login(name));
            let (m2, f2) = update_spec(m1, EventView::RequestChallenge(Ok(challenge)));
            let (m3, f3) = update_spec(m2, EventView::Credential(Ok(credential)));
            let (m4, f4) = update_spec(m3, EventView::CredentialVerified(Ok(reply)));
            &&& f1 == seq![
                EffectView::Render,
                EffectView::Render,
                request_challenge_request(model, name),
            ]
            &&& f2 == seq![EffectView::Passkey(OperationView::RequestCredential(challenge))]
            &&& f3 == seq![login_finish_request(model, credential)]
            &&& f4 == seq![EffectView::Render]
            &&& m4 == ModelView {
                user_name: name,
                status: StatusView::Info(logged_in_message(name)),
                ..model
            }
        }),
{
}

} // verus!

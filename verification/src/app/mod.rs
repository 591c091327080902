//! The root app, which hands every event to the authentication app it nests.
use vstd::prelude::*;

pub mod auth;

pub use auth::Status;
use auth::{Effect, EffectView, EventView, ModelView, effects_view, update_spec};

verus! {

/// The events of the root app: the four that the user drives, and those of the
/// authentication app, which come back from its requests.
#[derive(Debug, PartialEq, Eq)]
pub enum Event {
    ServerUrl(String),
    Validate(String),
    Register(String),
    Login(String),
    Auth(auth::Event),
}

/// The event of the authentication app that `event` stands for.
pub open spec fn auth_event(event: Event) -> EventView {
    match event {
        Event::ServerUrl(url) => EventView::ServerUrl(url@),
        Event::Validate(name) => EventView::Validate(name@),
        Event::Register(name) => EventView::Register(name@),
        Event::Login(name) => EventView::Login(name@),
        Event::Auth(inner) => inner@,
    }
}

/// The state of the root app.
#[derive(Debug)]
pub struct Model {
    auth: auth::Model,
}

impl View for Model {
    type V = ModelView;

    closed spec fn view(&self) -> ModelView {
        self.auth@
    }
}

impl Default for Model {
    fn default() -> (model: Model)
        ensures
            model@ == auth::initial_model(),
    {
        Model { auth: auth::Model::default() }
    }
}

/// What the shell shows.
#[derive(Clone, Debug, PartialEq, Eq)]
pub struct ViewModel {
    pub status: auth::Status,
}

/// The root app.
pub struct App {
    auth: auth::App,
}

impl Default for App {
    fn default() -> App {
        App { auth: auth::App::default() }
    }
}

impl App {
    /// Handles `event` by handing it to the authentication app.
    pub fn update(&self, event: Event, model: &mut Model) -> (effects: Vec<Effect>)
        ensures
            (final(model)@, effects_view(effects@)) == update_spec(old(model)@, auth_event(event)),
    {
        let inner = match event {
            Event::ServerUrl(url) => auth::Event::ServerUrl(url),
            Event::Validate(name) => auth::Event::Validate(name),
            Event::Register(name) => auth::Event::Register(name),
            Event::Login(name) => auth::Event::Login(name),
            Event::Auth(inner) => inner,
        };
        self.auth.update(inner, &mut model.auth)
    }

    /// The view model of `model`.
    pub fn view(&self, model: &Model) -> (view: ViewModel)
        ensures
            view.status@ == model@.status,
    {
        ViewModel { status: self.auth.view(&model.auth).status }
    }
}

} // verus!

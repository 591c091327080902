//! A passkey app that remembers which request it waits for, and ignores the
//! answers that it does not wait for.
use vstd::prelude::*;

use crate::app::auth::{empty_name_message, Status, StatusView};

verus! {

/// The events of the app. The user drives `Register` and `Login`; the others
/// come back from the authenticator.
#[derive(Clone, Debug, PartialEq, Eq)]
pub enum Event {
    Noop,
    Register(String),
    Login(String),
    Registered,
    LoggedIn,
    Error(String),
}

/// The mathematical value of an [`Event`].
pub enum EventView {
    Noop,
    Register(Seq<char>),
    Login(Seq<char>),
    Registered,
    LoggedIn,
    Error(Seq<char>),
}

impl View for Event {
    type V = EventView;

    open spec fn view(&self) -> EventView {
        match self {
            Event::Noop => EventView::Noop,
            Event::Register(name) => EventView::Register(name@),
            Event::Login(name) => EventView::Login(name@),
            Event::Registered => EventView::Registered,
            Event::LoggedIn => EventView::LoggedIn,
            Event::Error(message) => EventView::Error(message@),
        }
    }
}

/// Which request, if any, the app waits for.
#[derive(Clone, Copy, Debug, PartialEq, Eq, Structural)]
pub enum State {
    Steady,
    Registering,
    LoggingIn,
}

/// The state of the app.
#[derive(Debug)]
pub struct Model {
    user_name: String,
    state: State,
    status: Status,
}

/// The mathematical value of a [`Model`].
pub struct ModelView {
    pub user_name: Seq<char>,
    pub state: State,
    pub status: StatusView,
}

impl View for Model {
    type V = ModelView;

    closed spec fn view(&self) -> ModelView {
        ModelView { user_name: self.user_name@, state: self.state, status: self.status@ }
    }
}

/// The state in which the app starts.
pub open spec fn initial_model() -> ModelView {
    ModelView { user_name: seq![], state: State::Steady, status: StatusView::Clear }
}

impl Default for Model {
    fn default() -> (model: Model)
        ensures
            model@ == initial_model(),
    {
        let model = Model { user_name: String::new(), state: State::Steady, status: Status::Clear };
        proof {
            reveal_strlit("");
        }
        model
    }
}

/// What the shell shows.
#[derive(Clone, Debug, PartialEq, Eq)]
pub struct ViewModel {
    pub status: Status,
}

/// What the app asks the authenticator to do.
#[derive(Clone, Debug, PartialEq, Eq)]
pub enum Operation {
    Register(String),
    Login(String),
}

impl Operation {
    /// The event that the authenticator's success at this operation becomes.
    pub fn success_event(&self) -> (event: Event)
        ensures
            event@ == match self {
                Operation::Register(_) => EventView::Registered,
                Operation::Login(_) => EventView::LoggedIn,
            },
    {
        match self {
            Operation::Register(_) => Event::Registered,
            Operation::Login(_) => Event::LoggedIn,
        }
    }
}

/// The effects that the app asks the shell to perform.
#[derive(Clone, Debug, PartialEq, Eq)]
pub enum Effect {
    /// Show the current view model.
    Render,
    /// Ask the authenticator; success comes back as `Registered` or `LoggedIn`.
    Passkey(Operation),
}

/// The mathematical value of an [`Effect`].
pub enum EffectView {
    Render,
    PasskeyRegister(Seq<char>),
    PasskeyLogin(Seq<char>),
}

impl View for Effect {
    type V = EffectView;

    open spec fn view(&self) -> EffectView {
        match self {
            Effect::Render => EffectView::Render,
            Effect::Passkey(Operation::Register(name)) => EffectView::PasskeyRegister(name@),
            Effect::Passkey(Operation::Login(name)) => EffectView::PasskeyLogin(name@),
        }
    }
}

pub open spec fn effects_view(effects: Seq<Effect>) -> Seq<EffectView> {
    effects.map_values(|e: Effect| e@)
}

/// What handling `event` in `model` leads to: the new model and the effects, in order.
pub open spec fn update_spec(model: ModelView, event: EventView) -> (ModelView, Seq<EffectView>) {
    match (model.state, event) {
        (_, EventView::Noop) => (model, seq![EffectView::Render]),
        (State::Steady, EventView::Register(name)) => if name.len() == 0 {
            (
                ModelView { status: StatusView::Error(empty_name_message()), ..model },
                seq![EffectView::Render],
            )
        } else {
            (
                ModelView {
                    user_name: name,
                    state: State::Registering,
                    status: StatusView::Info("registering..."@),
                },
                seq![EffectView::PasskeyRegister(name), EffectView::Render],
            )
        },
        (State::Registering, EventView::Registered) => (
            ModelView { state: State::Steady, status: StatusView::Info("registered"@), ..model },
            seq![EffectView::Render],
        ),
        (State::Steady, EventView::Login(name)) => if name.len() == 0 {
            (
                ModelView { status: StatusView::Error(empty_name_message()), ..model },
                seq![EffectView::Render],
            )
        } else {
            (
                ModelView {
                    user_name: name,
                    state: State::LoggingIn,
                    status: StatusView::Info("logging in..."@),
                },
                seq![EffectView::PasskeyLogin(name), EffectView::Render],
            )
        },
        (State::LoggingIn, EventView::LoggedIn) => (
            ModelView { state: State::Steady, status: StatusView::Info("logged in"@), ..model },
            seq![EffectView::Render],
        ),
        (_, EventView::Error(message)) => (
            ModelView { state: State::Steady, status: StatusView::Error(message), ..model },
            seq![EffectView::Render],
        ),
        _ => (model, seq![EffectView::Render]),
    }
}

/// The app.
pub struct App;

impl Default for App {
    fn default() -> App {
        App
    }
}

impl App {
    /// Handles `event`: changes `model` and returns the effects for the shell, in order.
    pub fn update(&self, event: Event, model: &mut Model) -> (effects: Vec<Effect>)
        ensures
            (final(model)@, effects_view(effects@)) == update_spec(old(model)@, event@),
    {
        let mut effects: Vec<Effect> = Vec::new();
        match event {
            Event::Noop => {},
            Event::Register(user_name) => {
                if let State::Steady = model.state {
                    if user_name.as_str().is_empty() {
                        model.status = Status::Error("user name cannot be empty".to_owned());
                    } else {
                        model.user_name = user_name.clone();
                        model.state = State::Registering;
                        model.status = Status::Info("registering...".to_owned());
                        effects.push(Effect::Passkey(Operation::Register(user_name)));
                    }
                }
            },
            Event::Registered => {
                if let State::Registering = model.state {
                    model.state = State::Steady;
                    model.status = Status::Info("registered".to_owned());
                }
            },
            Event::Login(user_name) => {
                if let State::Steady = model.state {
                    if user_name.as_str().is_empty() {
                        model.status = Status::Error("user name cannot be empty".to_owned());
                    } else {
                        model.user_name = user_name.clone();
                        model.state = State::LoggingIn;
                        model.status = Status::Info("logging in...".to_owned());
                        effects.push(Effect::Passkey(Operation::Login(user_name)));
                    }
                }
            },
            Event::LoggedIn => {
                if let State::LoggingIn = model.state {
                    model.state = State::Steady;
                    model.status = Status::Info("logged in".to_owned());
                }
            },
            Event::Error(message) => {
                model.state = State::Steady;
                model.status = Status::Error(message);
            },
        }
        let ghost before = effects@;
        effects.push(Effect::Render);
        assert(effects_view(effects@) =~= effects_view(before) + seq![EffectView::Render]);
        effects
    }

    /// The view model of `model`.
    pub fn view(&self, model: &Model) -> (view: ViewModel)
        ensures
            view.status@ == model@.status,
    {
        ViewModel { status: model.status.duplicate() }
    }
}

/// Every update ends by asking the shell to render.
pub proof fn lemma_always_renders(model: ModelView, event: EventView)
    ensures
        update_spec(model, event).1.len() >= 1,
        update_spec(model, event).1.last() == EffectView::Render,
{
}

/// An answer that the app does not wait for changes nothing.
pub proof fn lemma_unexpected_answer_ignored(model: ModelView, event: EventView)
    requires
        (event is Registered && model.state != State::Registering) || (event is LoggedIn
            && model.state != State::LoggingIn),
    ensures
        update_spec(model, event) == (model, seq![EffectView::Render]),
{
}

/// While a ceremony is in flight, another one cannot start.
pub proof fn lemma_one_ceremony_at_a_time(model: ModelView, event: EventView)
    requires
        model.state != State::Steady,
        event is Register || event is Login,
    ensures
        update_spec(model, event) == (model, seq![EffectView::Render]),
{
}

/// An error ends any ceremony in flight and is shown to the user.
pub proof fn lemma_error_ends_ceremony(model: ModelView, message: Seq<char>)
    ensures
        update_spec(model, EventView::Error(message)).0 == (ModelView {
            state: State::Steady,
            status: StatusView::Error(message),
            ..model
        }),
{
}

/// What holds of every state that the app reaches: a ceremony in flight has a
/// user, and the user is told which ceremony it is.
pub open spec fn consistent(model: ModelView) -> bool {
    &&& model.state == State::Registering ==> model.user_name.len() > 0 && model.status
        == StatusView::Info("registering..."@)
    &&& model.state == State::LoggingIn ==> model.user_name.len() > 0 && model.status
        == StatusView::Info("logging in..."@)
}

/// The app starts consistent, and every update keeps it so.
pub proof fn lemma_consistent(model: ModelView, event: EventView)
    ensures
        consistent(initial_model()),
        consistent(model) ==> consistent(update_spec(model, event).0),
{
}

} // verus!

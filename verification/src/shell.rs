//! The core that a shell drives: it holds the app's state, takes events, and
//! hands back the effects that the shell performs.
use vstd::prelude::*;

use crate::app::auth::{
    self, effects_view, passkey_event, reply_event, reply_view, Effect, HttpReply, ModelView,
    Status, StatusView, update_spec,
};
use crate::app::{auth_event, App, Event, Model, ViewModel};
use crate::bytes::same_bytes;
use crate::passkey::{outcome_of, PasskeyOperation, PasskeyOutput};
use vstd::string::StringSliceAdditionalSpecFns;
use vstd::utf8::encode_utf8_decode_utf8;

verus! {

/// The app and its state.
pub struct Core {
    app: App,
    model: Model,
}

impl Core {
    /// The state of the app that this core holds.
    pub closed spec fn state(&self) -> ModelView {
        self.model@
    }
}

/// A core in the app's initial state.
pub fn new() -> (core: Core)
    ensures
        core.state() == auth::initial_model(),
{
    Core { app: App::default(), model: Model::default() }
}

impl Core {
    /// Hands `event` to the app and returns the effects that it asks for.
    pub fn process_event(&mut self, event: Event) -> (effects: Vec<Effect>)
        ensures
            (final(self).state(), effects_view(effects@)) == update_spec(old(self).state(), auth_event(event)),
    {
        self.app.update(event, &mut self.model)
    }

    /// Hands the app the outcome of a request that it sent with `reply`.
    pub fn resolve_http(&mut self, reply: HttpReply, outcome: Result<Vec<u8>, String>) -> (effects:
        Vec<Effect>)
        ensures
            (final(self).state(), effects_view(effects@)) == update_spec(
                old(self).state(),
                reply_event(reply, reply_view(outcome)),
            ),
    {
        let event = Event::Auth(auth::Event::from_http(reply, outcome));
        self.process_event(event)
    }

    /// Hands the app the authenticator's answer to `operation`.
    pub fn resolve_passkey(&mut self, operation: &PasskeyOperation, output: PasskeyOutput) -> (effects:
        Vec<Effect>)
        ensures
            (final(self).state(), effects_view(effects@)) == update_spec(
                old(self).state(),
                passkey_event(operation@, outcome_of(output)),
            ),
    {
        let event = Event::Auth(auth::Event::from_passkey(operation, output));
        self.process_event(event)
    }

    /// The view model of the current state.
    pub fn view(&self) -> (view: ViewModel)
        ensures
            view.status@ == self.state().status,
    {
        self.app.view(&self.model)
    }
}

/// Whether `a` and `b` hold the same text.
fn same_text(a: &str, b: &str) -> (same: bool)
    ensures
        same == (a@ == b@),
{
    proof {
        encode_utf8_decode_utf8(a@);
        encode_utf8_decode_utf8(b@);
    }
    same_bytes(a.as_bytes(), b.as_bytes())
}

/// The event that submitting the form with the button `submitter` sends for
/// `user_name`: `register` registers, `login` logs in, other buttons send nothing.
pub fn submit_event(submitter: &str, user_name: String) -> (event: Option<Event>)
    ensures
        submitter@ == "register"@ ==> event == Some(Event::Register(user_name)),
        submitter@ == "login"@ ==> event == Some(Event::Login(user_name)),
        submitter@ != "register"@ && submitter@ != "login"@ ==> event is None,
{
    proof {
        reveal_strlit("register");
        reveal_strlit("login");
        assert("register"@[0] != "login"@[0]);
    }
    if same_text(submitter, "register") {
        Some(Event::Register(user_name))
    } else if same_text(submitter, "login") {
        Some(Event::Login(user_name))
    } else {
        None
    }
}

/// The style of the notification that shows `status`: none when there is
/// nothing to say, an information for progress, a warning for an error.
pub fn notification_class(status: &Status) -> (class: Option<&'static str>)
    ensures
        match status@ {
            StatusView::Clear => class is None,
            StatusView::Info(_) => class matches Some(c) && c@ == "notification is-info is-light"@,
            StatusView::Error(_) => class matches Some(c) && c@
                == "notification is-warning is-light"@,
        },
{
    match status {
        Status::Clear => None,
        Status::Info(_) => Some("notification is-info is-light"),
        Status::Error(_) => Some("notification is-warning is-light"),
    }
}

} // verus!

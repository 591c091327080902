# crux_passkey

Passkey registration and login for a [Crux](https://github.com/redbadger/crux)
app, with the session handling of its WebAuthn server, written in Verus.

`src/` is the verified library:

- `app::auth` — the authentication app. `App::update` takes an event and the
  model, changes the model and returns the effects for the shell, in order;
  its contract is `update_spec`. Laws: the registration and login flows, every
  failure is reported, a status change is always rendered, the server URL and
  the user name change only where they should.
- `app` — the root app, which hands every event to the authentication app.
- `shell` — a core that holds the app's state (`new`, `process_event`,
  `resolve_http`, `resolve_passkey`, `view`), with contracts that say what
  each step does to the state; and the web page's decisions (`submit_event`,
  `notification_class`). The web shell in `app/` drives Crux's own core with
  the same app and uses the page decisions; the tests drive this one.
- `guarded` — a passkey app that remembers which ceremony is in flight and
  ignores answers that it does not wait for.
- `passkey` — the operations of the passkey capability and the answers of the
  authenticator.
- `http` — HTTP requests as plain values.
- `session` — session identifiers in cookies: parsing the `cookie` header,
  formatting the `Set-Cookie` value, and taking a session out of a store. The
  laws `lemma_session_cookie_round_trip` and `lemma_session_cookie_among` say
  that a cookie that the server sets is found again when the browser sends it
  back, alone or among other cookies. `Session::retrieve` gives what
  `retrieval` makes of the store's answers.
- `ceremony` — the four WebAuthn handlers: `register_start`,
  `register_finish`, `login_start` and `login_finish` decide the answer, the
  session to keep and what to save, around the calls into webauthn-rs;
  `updated_credentials` and `keep_updated` pick the credentials that a login
  changed (refusing, with `Failure::LostBackupEligibility`, the one case in
  which webauthn-rs would stop); `read_stored_passkeys`, `stored_passkeys` and
  `credential_ids` read the stored credentials. Laws: a registration saves, and
  a login updates, the user who started it.
- `server` — the responses of the WebAuthn handlers, user identifiers, and
  the `.well-known` file lookup.
- `bytes` — finding and splitting byte strings as `str::split` does.

`app/` holds the shells that perform the effects: the Crux capabilities
(`shared`), the Leptos web page (`web`) and the Spin handlers (`server`),
which read the database and the `rp_id` variable, keep sessions in SQLite,
and hand everything else to `ceremony`. Its `main` starts the web page; the
Spin handlers (`server::handle_request`, `server::well_known`) are the entry
points of a Spin build, which marks them with `#[http_component]` and embeds
its `public` directory for `.well-known`. A finished registration is answered with
`201 Created`, a finished login with `200 OK`, both with an empty body.

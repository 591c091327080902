//! The WebAuthn ceremonies of the server: what its four handlers make of a
//! request, around the calls into webauthn-rs. Reading the database, keeping
//! sessions and sending the answer stay with the caller.
use vstd::prelude::*;
use vstd::string::StringSliceAdditionalSpecFns;
use vstd::utf8::encode_utf8;

use webauthn_rs::prelude::{
    AuthenticationResult, CreationChallengeResponse, Passkey, PasskeyAuthentication,
    PasskeyRegistration, PublicKeyCredential, RegisterPublicKeyCredential,
    RequestChallengeResponse,
};
use webauthn_rs::Webauthn;

use crate::server::{
    challenge_response, relying_party_origin, text_response, Response, ResponseView, LOGIN_COOKIE,
    REGISTER_COOKIE,
};
use crate::bytes::same_bytes;
use crate::session::{is_random_uuid, session_cookie, Session};

verus! {

#[verifier::external_type_specification]
#[verifier::external_body]
pub struct ExWebauthn(Webauthn);

#[verifier::external_type_specification]
#[verifier::external_body]
pub struct ExPasskey(Passkey);

#[verifier::external_type_specification]
#[verifier::external_body]
pub struct ExPasskeyRegistration(PasskeyRegistration);

#[verifier::external_type_specification]
#[verifier::external_body]
pub struct ExPasskeyAuthentication(PasskeyAuthentication);

#[verifier::external_type_specification]
#[verifier::external_body]
pub struct ExCreationChallengeResponse(CreationChallengeResponse);

#[verifier::external_type_specification]
#[verifier::external_body]
pub struct ExRequestChallengeResponse(RequestChallengeResponse);

#[verifier::external_type_specification]
#[verifier::external_body]
pub struct ExRegisterPublicKeyCredential(RegisterPublicKeyCredential);

#[verifier::external_type_specification]
#[verifier::external_body]
pub struct ExPublicKeyCredential(PublicKeyCredential);

#[verifier::external_type_specification]
#[verifier::external_body]
pub struct ExAuthenticationResult(AuthenticationResult);

/// The name of the relying party, which the browser may show to the user.
pub const RELYING_PARTY_NAME: &'static str = "Crux Passkey";

/// Why a handler gives no answer of its own: the server then fails the request.
#[derive(Clone, Debug, PartialEq, Eq)]
pub enum Failure {
    /// No relying party could be built for the configured identifier.
    Configuration,
    /// The request's body or the session's data could not be read.
    Malformed,
    /// webauthn-rs refused the ceremony, for the reason given.
    Refused(String),
    /// A login claims that a stored credential, which is backup-eligible, is
    /// no longer: webauthn-rs would stop on it rather than update it.
    LostBackupEligibility,
}

/// What the start of a ceremony asks of the server.
pub enum Started {
    /// Send the response, keeping nothing.
    Answer(Response),
    /// Keep `session`, then send `response`, which hands the session's cookie
    /// to the browser.
    Challenge { session: Session, response: Response },
}

/// What the end of a registration asks of the server.
pub enum Registration {
    /// Send the response, saving nothing.
    Answer(Response),
    /// Save the user `user_name` under `user_id` with the new `passkey`, then
    /// send `response`: `201 Created`.
    Registered { user_name: String, user_id: u128, passkey: Passkey, response: Response },
}

/// What the end of a login asks of the server.
pub enum Login {
    /// Send the response, saving nothing.
    Answer(Response),
    /// Bring the stored credentials of `user_id` up to date with `result`,
    /// then send `response`: `200 OK`.
    LoggedIn { user_id: u128, result: AuthenticationResult, response: Response },
}

/// A response with `status` and the text `text` as its body, without headers.
pub open spec fn text_view(status: u16, text: Seq<char>) -> ResponseView {
    ResponseView { status, headers: seq![], body: encode_utf8(text) }
}

/// The response that hands the JSON challenge `challenge` to the browser,
/// with the cookie `cookie_name` that names the session `id`.
pub open spec fn challenge_view(challenge: Seq<u8>, id: u128, cookie_name: Seq<char>) -> ResponseView {
    ResponseView {
        status: 200,
        headers: seq![
            ("Content-Type"@, "application/json"@),
            ("set-cookie"@, session_cookie(cookie_name, id, "/auth"@)),
        ],
        body: challenge,
    }
}

/// The Debug text of webauthn-rs's error for an empty user name.
pub open spec fn invalid_username() -> Seq<char> {
    "InvalidUsername"@
}

/// Whether `webauthn_rs::WebauthnBuilder` accepts the relying party `rp_id`
/// served at `origin`.
pub uninterp spec fn relying_party_accepted(rp_id: Seq<char>, origin: Seq<char>) -> bool;

/// Builds the relying party `rp_id`, served at `origin` under the name
/// `rp_name`, with `webauthn_rs::WebauthnBuilder`.
///
/// The contract claims that whether a relying party comes back depends on
/// `rp_id` and `origin` alone: the builder refuses an origin that does not
/// parse as a URL or whose domain is not `rp_id` or ends in `.` and `rp_id`,
/// and its `build` never fails.
#[verifier::external_body]
fn relying_party(rp_id: &str, origin: &str, rp_name: &str) -> (rp: Option<Webauthn>)
    ensures
        rp is Some == relying_party_accepted(rp_id@, origin@),
{
    let origin = webauthn_rs::prelude::Url::parse(origin).ok()?;
    webauthn_rs::WebauthnBuilder::new(rp_id, &origin).ok()?.rp_name(rp_name).build().ok()
}

/// `Webauthn::start_passkey_registration` for the user `user_id`, excluding
/// the credentials whose identifiers are `exclude`; an error becomes its Debug text.
///
/// As its source shows, it refuses exactly when a name is empty, with
/// `InvalidUsername`. The challenge is random: nothing is claimed of it.
#[verifier::external_body]
fn start_registration(
    rp: &Webauthn,
    user_id: u128,
    user_name: &str,
    display_name: &str,
    exclude: &[Vec<u8>],
) -> (started: Result<(CreationChallengeResponse, PasskeyRegistration), String>)
    ensures
        started is Err <==> (user_name@.len() == 0 || display_name@.len() == 0),
        started matches Err(e) ==> e@ == invalid_username(),
{
    let exclude = exclude.iter().map(|id| webauthn_rs::prelude::CredentialID::from(id.clone()));
    rp.start_passkey_registration(
        uuid::Uuid::from_u128(user_id),
        user_name,
        display_name,
        Some(exclude.collect()),
    ).map_err(|e| format!("{e:?}"))
}

/// `Webauthn::start_passkey_authentication` with the user's credentials.
///
/// As its source shows, it never fails. The challenge is random: nothing is
/// claimed of it.
#[verifier::external_body]
fn start_authentication(rp: &Webauthn, credentials: &[Passkey]) -> (started: Result<
    (RequestChallengeResponse, PasskeyAuthentication),
    String,
>)
    ensures
        started is Ok,
{
    rp.start_passkey_authentication(credentials).map_err(|e| format!("{e:?}"))
}

/// `serde_json::to_string` of a registration challenge.
///
/// The contract claims that it succeeds: the derived serde impls of the
/// challenge hold no map whose keys are not strings, so serde_json has nothing
/// to refuse. The text itself is left unsaid; the challenge in it is random.
#[verifier::external_body]
fn registration_challenge_json(challenge: &CreationChallengeResponse) -> (json: Option<String>)
    ensures
        json is Some,
{
    serde_json::to_string(challenge).ok()
}

/// `serde_json::to_string` of a login challenge.
///
/// The contract claims that it succeeds, for the same reason as for a
/// registration challenge. The text itself is left unsaid.
#[verifier::external_body]
fn login_challenge_json(challenge: &RequestChallengeResponse) -> (json: Option<String>)
    ensures
        json is Some,
{
    serde_json::to_string(challenge).ok()
}

/// The user name and identifier that the session data `data` of a
/// registration holds, as `serde_json::from_slice` reads them.
pub uninterp spec fn registration_session_user(data: Seq<u8>) -> Option<(Seq<char>, u128)>;

/// The user identifier that the session data `data` of a login holds, as
/// `serde_json::from_slice` reads it.
pub uninterp spec fn login_session_user(data: Seq<u8>) -> Option<u128>;

/// Whether `serde_json::from_slice` reads `body` as a `RegisterPublicKeyCredential`.
pub uninterp spec fn registration_credential_readable(body: Seq<u8>) -> bool;

/// Whether `serde_json::from_slice` reads `body` as a `PublicKeyCredential`.
pub uninterp spec fn login_credential_readable(body: Seq<u8>) -> bool;

/// `serde_json::to_vec` of the triple (user name, user identifier as a UUID,
/// registration state): the session data of a registration.
///
/// The contract claims that it succeeds (the state holds no map whose keys
/// are not strings), and that serde_json reads the name and the identifier
/// back from the bytes it wrote, as the derived serde impls of these types do.
#[verifier::external_body]
fn registration_data(user_name: &str, user_id: u128, state: &PasskeyRegistration) -> (data: Option<
    Vec<u8>,
>)
    ensures
        data is Some,
        data matches Some(d) ==> registration_session_user(d@) == Some((user_name@, user_id)),
{
    serde_json::to_vec(&(user_name, uuid::Uuid::from_u128(user_id), state)).ok()
}

/// `serde_json::to_vec` of the pair (user identifier as a UUID, login
/// state): the session data of a login.
///
/// The contract claims that it succeeds, and that serde_json reads the
/// identifier back from the bytes it wrote.
#[verifier::external_body]
fn login_data(user_id: u128, state: &PasskeyAuthentication) -> (data: Option<Vec<u8>>)
    ensures
        data is Some,
        data matches Some(d) ==> login_session_user(d@) == Some(user_id),
{
    serde_json::to_vec(&(uuid::Uuid::from_u128(user_id), state)).ok()
}

/// `serde_json::from_slice` of a registration's session data.
#[verifier::external_body]
fn read_registration_data(data: &[u8]) -> (read: Option<(String, u128, PasskeyRegistration)>)
    ensures
        match read {
            Some((name, id, _)) => registration_session_user(data@) == Some((name@, id)),
            None => registration_session_user(data@) is None,
        },
{
    let read = serde_json::from_slice::<(String, uuid::Uuid, PasskeyRegistration)>(data).ok()?;
    Some((read.0, read.1.as_u128(), read.2))
}

/// `serde_json::from_slice` of a login's session data.
#[verifier::external_body]
fn read_login_data(data: &[u8]) -> (read: Option<(u128, PasskeyAuthentication)>)
    ensures
        match read {
            Some((id, _)) => login_session_user(data@) == Some(id),
            None => login_session_user(data@) is None,
        },
{
    let read = serde_json::from_slice::<(uuid::Uuid, PasskeyAuthentication)>(data).ok()?;
    Some((read.0.as_u128(), read.1))
}

/// `serde_json::from_slice` of the credential that the browser created.
#[verifier::external_body]
fn read_registration_credential(body: &[u8]) -> (credential: Option<RegisterPublicKeyCredential>)
    ensures
        credential is Some == registration_credential_readable(body@),
{
    serde_json::from_slice(body).ok()
}

/// `serde_json::from_slice` of the assertion that the browser signed.
#[verifier::external_body]
fn read_login_credential(body: &[u8]) -> (credential: Option<PublicKeyCredential>)
    ensures
        credential is Some == login_credential_readable(body@),
{
    serde_json::from_slice(body).ok()
}

/// `Webauthn::finish_passkey_registration`; an error becomes its Debug text.
///
/// Nothing is claimed of the result: it checks the browser's signature and
/// may read the clock to check an attestation certificate.
#[verifier::external_body]
fn finish_registration(
    rp: &Webauthn,
    credential: &RegisterPublicKeyCredential,
    state: &PasskeyRegistration,
) -> (passkey: Result<Passkey, String>) {
    rp.finish_passkey_registration(credential, state).map_err(|e| format!("{e:?}"))
}

/// `Webauthn::finish_passkey_authentication`; an error becomes its Debug text.
///
/// Nothing is claimed of the result, which rests on the browser's signature.
#[verifier::external_body]
fn finish_authentication(
    rp: &Webauthn,
    credential: &PublicKeyCredential,
    state: &PasskeyAuthentication,
) -> (result: Result<AuthenticationResult, String>) {
    rp.finish_passkey_authentication(credential, state).map_err(|e| format!("{e:?}"))
}

/// The identifier of the credential that `passkey` holds.
pub uninterp spec fn passkey_credential_id(passkey: Passkey) -> Seq<u8>;

/// The identifier of the credential that a login used.
pub uninterp spec fn result_credential_id(result: AuthenticationResult) -> Seq<u8>;

/// Whether the credential that `passkey` holds is backup-eligible.
pub uninterp spec fn passkey_backup_eligible(passkey: Passkey) -> bool;

/// Whether the authenticator of a login said that its credential is
/// backup-eligible.
pub uninterp spec fn result_backup_eligible(result: AuthenticationResult) -> bool;

/// What `Passkey::update_credential` answers for `passkey` and `result`,
/// with the passkey as the call leaves it.
pub uninterp spec fn credential_update(passkey: Passkey, result: AuthenticationResult) -> (
    Option<bool>,
    Passkey,
);

/// `Passkey::cred_id`, as bytes.
#[verifier::external_body]
fn credential_id(passkey: &Passkey) -> (id: Vec<u8>)
    ensures
        id@ == passkey_credential_id(*passkey),
{
    passkey.cred_id().0.clone()
}

/// `AuthenticationResult::cred_id`, as bytes.
#[verifier::external_body]
fn result_id(result: &AuthenticationResult) -> (id: Vec<u8>)
    ensures
        id@ == result_credential_id(*result),
{
    result.cred_id().0.clone()
}

/// The `backup_eligible` field of the credential that `passkey` holds, read
/// through webauthn-rs's `From<Passkey> for Credential`.
#[verifier::external_body]
fn backup_eligible(passkey: &Passkey) -> (eligible: bool)
    ensures
        eligible == passkey_backup_eligible(*passkey),
{
    webauthn_rs::prelude::Credential::from(passkey.clone()).backup_eligible
}

/// `AuthenticationResult::backup_eligible`.
#[verifier::external_body]
fn result_eligible(result: &AuthenticationResult) -> (eligible: bool)
    ensures
        eligible == result_backup_eligible(*result),
{
    result.backup_eligible()
}

/// Whether `Passkey::update_credential` would stop on `passkey`: it asserts
/// that a credential's backup eligibility only goes from false to true, so it
/// panics when `result` names the credential of `passkey`, which is
/// backup-eligible, and says that it is not.
pub open spec fn update_refused(passkey: Passkey, result: AuthenticationResult) -> bool {
    &&& passkey_credential_id(passkey) == result_credential_id(result)
    &&& passkey_backup_eligible(passkey)
    &&& !result_backup_eligible(result)
}

/// `Passkey::update_credential`: `Some(true)` when `passkey` is the
/// credential of `result` and took a new counter or backup flags from it,
/// `Some(false)` when it is that credential and nothing changed, `None` when
/// it is another credential.
///
/// The contract claims, as the source shows, that the answer and the updated
/// passkey depend on the passkey and `result` alone; that the answer is `None`
/// exactly when the credential identifiers differ; and that the passkey is
/// left as it was unless the answer is `Some(true)`. The call's panic is left
/// out by `requires`.
#[verifier::external_body]
fn update_credential(passkey: &mut Passkey, result: &AuthenticationResult) -> (updated: Option<bool>)
    requires
        !update_refused(*old(passkey), *result),
    ensures
        (updated, *final(passkey)) == credential_update(*old(passkey), *result),
        updated is None <==> passkey_credential_id(*old(passkey)) != result_credential_id(*result),
        updated != Some(true) ==> *final(passkey) == *old(passkey),
{
    passkey.update_credential(result)
}

/// The passkeys of `updates` whose update answered `Some(true)`, in order.
pub open spec fn kept(updates: Seq<(Passkey, Option<bool>)>) -> Seq<Passkey>
    decreases updates.len(),
{
    if updates.len() == 0 {
        seq![]
    } else {
        let rest = kept(updates.drop_first());
        if updates[0].1 == Some(true) {
            seq![updates[0].0] + rest
        } else {
            rest
        }
    }
}

/// The passkeys that an update changed, in order: those to save again.
pub fn keep_updated(updates: Vec<(Passkey, Option<bool>)>) -> (changed: Vec<Passkey>)
    ensures
        changed@ == kept(updates@),
{
    let mut updates = updates;
    let ghost all = updates@;
    let mut changed: Vec<Passkey> = Vec::new();
    while updates.len() > 0
        invariant
            changed@ + kept(updates@) == kept(all),
        decreases updates.len(),
    {
        let ghost before = updates@;
        let (passkey, updated) = updates.remove(0);
        assert(updates@ =~= before.drop_first());
        match updated {
            Some(true) => {
                assert(changed@.push(passkey) + kept(updates@) =~= changed@ + kept(before));
                changed.push(passkey);
            },
            _ => {},
        }
    }
    assert(changed@ + kept(updates@) =~= changed@);
    changed
}

/// Each of `credentials` as the login's `result` updates it, beside the
/// update's answer.
pub open spec fn updates_of(credentials: Seq<Passkey>, result: AuthenticationResult) -> Seq<
    (Passkey, Option<bool>),
> {
    credentials.map_values(
        |p: Passkey| (credential_update(p, result).1, credential_update(p, result).0),
    )
}

/// Brings each of a user's stored `credentials` up to date with the result of
/// a login, and gives back those that changed, in order; fails, updating
/// nothing, when the update would stop on one of them.
pub fn updated_credentials(credentials: Vec<Passkey>, result: &AuthenticationResult) -> (changed: Result<
    Vec<Passkey>,
    Failure,
>)
    ensures
        changed is Ok <==> forall|i: int|
            0 <= i < credentials@.len() ==> !update_refused(#[trigger] credentials@[i], *result),
        changed matches Ok(c) ==> c@ == kept(updates_of(credentials@, *result)),
        changed matches Err(f) ==> f == Failure::LostBackupEligibility,
{
    let n = credentials.len();
    let rid = result_id(result);
    let r_eligible = result_eligible(result);
    let mut i: usize = 0;
    while i < n
        invariant
            n == credentials@.len(),
            i <= n,
            rid@ == result_credential_id(*result),
            r_eligible == result_backup_eligible(*result),
            forall|j: int| 0 <= j < i ==> !update_refused(#[trigger] credentials@[j], *result),
        decreases n - i,
    {
        let pid = credential_id(&credentials[i]);
        if same_bytes(pid.as_slice(), rid.as_slice()) && backup_eligible(&credentials[i])
            && !r_eligible {
            assert(update_refused(credentials@[i as int], *result));
            return Err(Failure::LostBackupEligibility);
        }
        i = i + 1;
    }
    let ghost all = credentials@;
    let mut credentials = credentials;
    let mut updates: Vec<(Passkey, Option<bool>)> = Vec::new();
    while credentials.len() > 0
        invariant
            updates@.len() + credentials@.len() == all.len(),
            credentials@ == all.skip(updates@.len() as int),
            forall|j: int| 0 <= j < all.len() ==> !update_refused(#[trigger] all[j], *result),
            forall|j: int|
                0 <= j < updates@.len() ==> #[trigger] updates@[j] == (
                    credential_update(all[j], *result).1,
                    credential_update(all[j], *result).0,
                ),
        decreases credentials.len(),
    {
        let ghost k = updates@.len() as int;
        let mut passkey = credentials.remove(0);
        assert(passkey == all[k]);
        let updated = update_credential(&mut passkey, result);
        updates.push((passkey, updated));
        assert(credentials@ =~= all.skip(k + 1));
    }
    assert(updates@ =~= updates_of(all, *result));
    let changed = keep_updated(updates);
    Ok(changed)
}

/// What `serde_json::from_slice` reads from `bytes` as a `Passkey`.
pub uninterp spec fn passkey_from_json(bytes: Seq<u8>) -> Option<Passkey>;

/// `serde_json::from_slice` of a stored passkey.
#[verifier::external_body]
fn read_passkey(bytes: &[u8]) -> (passkey: Option<Passkey>)
    ensures
        passkey == passkey_from_json(bytes@),
{
    serde_json::from_slice(bytes).ok()
}

/// The passkeys that the stored `blobs` hold, in order, skipping the empty ones.
pub open spec fn stored_list(blobs: Seq<Option<Vec<u8>>>) -> Seq<Passkey>
    decreases blobs.len(),
{
    if blobs.len() == 0 {
        seq![]
    } else {
        let rest = stored_list(blobs.drop_first());
        match blobs[0] {
            Some(b) => seq![passkey_from_json(b@).unwrap()] + rest,
            None => rest,
        }
    }
}

/// Whether every stored blob reads as a passkey.
pub open spec fn all_readable(blobs: Seq<Option<Vec<u8>>>) -> bool {
    forall|i: int|
        0 <= i < blobs.len() ==> (#[trigger] blobs[i] matches Some(b) ==> passkey_from_json(b@) is Some)
}

/// The passkeys that a user's stored credentials hold, in order, skipping the
/// rows that hold none.
pub fn stored_passkeys(blobs: &Vec<Option<Vec<u8>>>) -> (passkeys: Vec<Passkey>)
    requires
        all_readable(blobs@),
    ensures
        passkeys@ == stored_list(blobs@),
{
    let mut passkeys: Vec<Passkey> = Vec::new();
    let mut i: usize = 0;
    assert(blobs@.skip(0) =~= blobs@);
    while i < blobs.len()
        invariant
            i <= blobs@.len(),
            all_readable(blobs@),
            passkeys@ + stored_list(blobs@.skip(i as int)) == stored_list(blobs@),
        decreases blobs@.len() - i,
    {
        let ghost rest = blobs@.skip(i as int);
        assert(rest[0] == blobs@[i as int]);
        assert(rest.drop_first() =~= blobs@.skip(i + 1));
        match &blobs[i] {
            Some(b) => {
                assert(blobs@[i as int] matches Some(c) && c@ == b@);
                match read_passkey(b.as_slice()) {
                    Some(p) => {
                        assert(passkeys@.push(p) + stored_list(blobs@.skip(i + 1)) =~= passkeys@
                            + stored_list(rest));
                        passkeys.push(p);
                    },
                    None => {},
                }
            },
            None => {},
        }
        i = i + 1;
    }
    assert(blobs@.skip(i as int) =~= Seq::<Option<Vec<u8>>>::empty());
    assert(passkeys@ + seq![] =~= passkeys@);
    passkeys
}

/// The passkeys that a user's stored credentials hold, as
/// [`stored_passkeys`] gives them, or nothing when one of them does not read
/// as a passkey.
pub fn read_stored_passkeys(blobs: &Vec<Option<Vec<u8>>>) -> (passkeys: Option<Vec<Passkey>>)
    ensures
        passkeys is Some <==> all_readable(blobs@),
        passkeys matches Some(p) ==> p@ == stored_list(blobs@),
{
    let mut i: usize = 0;
    while i < blobs.len()
        invariant
            i <= blobs@.len(),
            forall|j: int|
                0 <= j < i ==> (#[trigger] blobs@[j] matches Some(b) ==> passkey_from_json(b@) is Some),
        decreases blobs@.len() - i,
    {
        match &blobs[i] {
            Some(b) => {
                if read_passkey(b.as_slice()).is_none() {
                    return None;
                }
            },
            None => {},
        }
        i = i + 1;
    }
    Some(stored_passkeys(blobs))
}

/// The identifiers of the credentials that `passkeys` hold, in order: those
/// that a new registration must not create again.
pub fn credential_ids(passkeys: &[Passkey]) -> (ids: Vec<Vec<u8>>)
    ensures
        ids@.len() == passkeys@.len(),
        forall|i: int| 0 <= i < ids@.len() ==> #[trigger] ids@[i]@ == passkey_credential_id(passkeys@[i]),
{
    let mut ids: Vec<Vec<u8>> = Vec::new();
    let mut i: usize = 0;
    while i < passkeys.len()
        invariant
            i <= passkeys@.len(),
            ids@.len() == i,
            forall|j: int| 0 <= j < i ==> #[trigger] ids@[j]@ == passkey_credential_id(passkeys@[j]),
        decreases passkeys@.len() - i,
    {
        ids.push(credential_id(&passkeys[i]));
        i = i + 1;
    }
    ids
}

/// The start of a registration: the challenge that the browser answers with a
/// new credential, for the user `username`, whose identifier is
/// `user_unique_id` and whose credentials `exclude` it must not create again.
pub fn register_start(
    username: Option<&str>,
    user_unique_id: u128,
    exclude: &[Vec<u8>],
    rp_id: &str,
) -> (started: Result<Started, Failure>)
    ensures
        username is None ==> (started matches Ok(Started::Answer(r)) && r@ == text_view(
            400,
            "no username"@,
        )),
        username matches Some(name) && name@.len() == 0 && relying_party_accepted(
            rp_id@,
            "https://"@ + rp_id@,
        ) ==> (started matches Ok(Started::Answer(r)) && r@ == text_view(
            400,
            "error "@ + invalid_username(),
        )),
        username matches Some(name) && name@.len() > 0 && relying_party_accepted(
            rp_id@,
            "https://"@ + rp_id@,
        ) ==> started matches Ok(Started::Challenge { .. }),
        username is Some ==> (started == Err::<Started, Failure>(Failure::Configuration)
            <==> !relying_party_accepted(rp_id@, "https://"@ + rp_id@)),
        started matches Ok(Started::Challenge { session, response }) ==> {
            &&& username is Some
            &&& is_random_uuid(session.id.0)
            &&& response@ == challenge_view(response@.body, session.id.0, REGISTER_COOKIE@)
        },
        username matches Some(name) ==> keeps_registration(started, name@, user_unique_id),
        started matches Err(f) ==> f == Failure::Configuration,
{
    let name = match username {
        None => {
            return Ok(Started::Answer(text_response(400, "no username")));
        },
        Some(name) => name,
    };
    let origin = relying_party_origin(rp_id);
    let rp = match relying_party(rp_id, origin.as_str(), RELYING_PARTY_NAME) {
        None => {
            return Err(Failure::Configuration);
        },
        Some(rp) => rp,
    };
    match start_registration(&rp, user_unique_id, name, name, exclude) {
        Err(e) => {
            let mut text = "error ".to_owned();
            text.append(e.as_str());
            Ok(Started::Answer(text_response(400, text.as_str())))
        },
        Ok((challenge, state)) => {
            let mut session = Session::new();
            session.data = match registration_data(name, user_unique_id, &state) {
                None => {
                    assert(false);
                    Vec::new()
                },
                Some(data) => data,
            };
            let body = match registration_challenge_json(&challenge) {
                None => {
                    assert(false);
                    String::new()
                },
                Some(body) => body,
            };
            let response = challenge_response(body.as_str(), &session, REGISTER_COOKIE);
            Ok(Started::Challenge { session, response })
        },
    }
}

/// The end of a registration: the credential that the browser created,
/// `body`, checked against the state kept in `session`.
pub fn register_finish(session: Option<Session>, body: &[u8], rp_id: &str) -> (finished: Result<
    Registration,
    Failure,
>)
    ensures
        session is None ==> (finished matches Ok(Registration::Answer(r)) && r@ == text_view(
            400,
            "no session"@,
        )),
        session is Some ==> (finished !is Ok || finished matches Ok(
            Registration::Registered { .. },
        )),
        finished == Err::<Registration, Failure>(Failure::Malformed) <==> (session matches Some(s)
            && (!registration_credential_readable(body@) || registration_session_user(s.data@) is None)),
        session matches Some(s) && registration_credential_readable(body@) && registration_session_user(
            s.data@,
        ) is Some ==> (finished == Err::<Registration, Failure>(Failure::Configuration)
            <==> !relying_party_accepted(rp_id@, "https://"@ + rp_id@)),
        finished matches Ok(Registration::Registered { response, .. }) ==> {
            &&& session is Some
            &&& registration_credential_readable(body@)
            &&& response@ == text_view(201, ""@)
        },
        saves_registration(session, finished),
        finished matches Err(Failure::Refused(_)) ==> session matches Some(s)
            && registration_credential_readable(body@) && registration_session_user(s.data@) is Some
            && relying_party_accepted(rp_id@, "https://"@ + rp_id@),
        finished matches Err(f) ==> f == Failure::Malformed || f == Failure::Configuration
            || f is Refused,
{
    let session = match session {
        None => {
            return Ok(Registration::Answer(text_response(400, "no session")));
        },
        Some(session) => session,
    };
    let credential = match read_registration_credential(body) {
        None => {
            return Err(Failure::Malformed);
        },
        Some(credential) => credential,
    };
    let (user_name, user_id, state) = match read_registration_data(session.data.as_slice()) {
        None => {
            return Err(Failure::Malformed);
        },
        Some(read) => read,
    };
    let origin = relying_party_origin(rp_id);
    let rp = match relying_party(rp_id, origin.as_str(), RELYING_PARTY_NAME) {
        None => {
            return Err(Failure::Configuration);
        },
        Some(rp) => rp,
    };
    registration_answer(user_name, user_id, finish_registration(&rp, &credential, &state))
}

/// The end of a registration, once webauthn-rs has checked the browser's
/// credential: the user `user_name` with identifier `user_id` is registered
/// with the passkey that webauthn-rs gave, or the registration fails with
/// webauthn-rs's error.
pub fn registration_answer(user_name: String, user_id: u128, checked: Result<Passkey, String>) -> (finished:
    Result<Registration, Failure>)
    ensures
        checked matches Ok(p) ==> (finished matches Ok(
            Registration::Registered { user_name: n, user_id: u, passkey, response },
        ) && n@ == user_name@ && u == user_id && passkey == p && response@ == text_view(201, ""@)),
        checked matches Err(e) ==> finished == Err::<Registration, Failure>(Failure::Refused(e)),
{
    match checked {
        Err(e) => Err(Failure::Refused(e)),
        Ok(passkey) => Ok(
            Registration::Registered {
                user_name,
                user_id,
                passkey,
                response: text_response(201, ""),
            },
        ),
    }
}

/// The start of a login: the challenge that the browser signs with one of the
/// user's `credentials`, for the user `username`, whose identifier is
/// `user_unique_id`.
pub fn login_start(
    username: Option<&str>,
    user_unique_id: u128,
    credentials: &[Passkey],
    rp_id: &str,
) -> (started: Result<Started, Failure>)
    ensures
        username is None ==> (started matches Ok(Started::Answer(r)) && r@ == text_view(
            400,
            "no username"@,
        )),
        username is Some && credentials@.len() == 0 ==> (started matches Ok(Started::Answer(r))
            && r@ == text_view(400, "no credentials found"@)),
        username is Some && credentials@.len() > 0 && relying_party_accepted(
            rp_id@,
            "https://"@ + rp_id@,
        ) ==> started matches Ok(Started::Challenge { .. }),
        username is Some && credentials@.len() > 0 ==> (started == Err::<Started, Failure>(
            Failure::Configuration,
        ) <==> !relying_party_accepted(rp_id@, "https://"@ + rp_id@)),
        started matches Ok(Started::Challenge { session, response }) ==> {
            &&& username is Some && credentials@.len() > 0
            &&& is_random_uuid(session.id.0)
            &&& response@ == challenge_view(response@.body, session.id.0, LOGIN_COOKIE@)
        },
        keeps_login(started, user_unique_id),
        started matches Err(f) ==> f == Failure::Configuration,
{
    if username.is_none() {
        return Ok(Started::Answer(text_response(400, "no username")));
    }
    if credentials.len() == 0 {
        return Ok(Started::Answer(text_response(400, "no credentials found")));
    }
    let origin = relying_party_origin(rp_id);
    let rp = match relying_party(rp_id, origin.as_str(), RELYING_PARTY_NAME) {
        None => {
            return Err(Failure::Configuration);
        },
        Some(rp) => rp,
    };
    match start_authentication(&rp, credentials) {
        Err(e) => Err(Failure::Refused(e)),
        Ok((challenge, state)) => {
            let mut session = Session::new();
            session.data = match login_data(user_unique_id, &state) {
                None => {
                    assert(false);
                    Vec::new()
                },
                Some(data) => data,
            };
            let body = match login_challenge_json(&challenge) {
                None => {
                    assert(false);
                    String::new()
                },
                Some(body) => body,
            };
            let response = challenge_response(body.as_str(), &session, LOGIN_COOKIE);
            Ok(Started::Challenge { session, response })
        },
    }
}

/// The end of a login: the assertion that the browser signed, `body`, checked
/// against the state kept in `session`.
pub fn login_finish(session: Option<Session>, body: &[u8], rp_id: &str) -> (finished: Result<
    Login,
    Failure,
>)
    ensures
        session is None ==> (finished matches Ok(Login::Answer(r)) && r@ == text_view(
            400,
            "no session"@,
        )),
        session is Some ==> (finished !is Ok || finished matches Ok(Login::LoggedIn { .. })),
        finished == Err::<Login, Failure>(Failure::Malformed) <==> (session matches Some(s) && (
        !login_credential_readable(body@) || login_session_user(s.data@) is None)),
        session matches Some(s) && login_credential_readable(body@) && login_session_user(
            s.data@,
        ) is Some ==> (finished == Err::<Login, Failure>(Failure::Configuration)
            <==> !relying_party_accepted(rp_id@, "https://"@ + rp_id@)),
        finished matches Ok(Login::LoggedIn { response, .. }) ==> {
            &&& session is Some
            &&& login_credential_readable(body@)
            &&& response@ == text_view(200, ""@)
        },
        saves_login(session, finished),
        finished matches Err(Failure::Refused(_)) ==> session matches Some(s)
            && login_credential_readable(body@) && login_session_user(s.data@) is Some
            && relying_party_accepted(rp_id@, "https://"@ + rp_id@),
        finished matches Err(f) ==> f == Failure::Malformed || f == Failure::Configuration
            || f is Refused,
{
    let session = match session {
        None => {
            return Ok(Login::Answer(text_response(400, "no session")));
        },
        Some(session) => session,
    };
    let credential = match read_login_credential(body) {
        None => {
            return Err(Failure::Malformed);
        },
        Some(credential) => credential,
    };
    let (user_id, state) = match read_login_data(session.data.as_slice()) {
        None => {
            return Err(Failure::Malformed);
        },
        Some(read) => read,
    };
    let origin = relying_party_origin(rp_id);
    let rp = match relying_party(rp_id, origin.as_str(), RELYING_PARTY_NAME) {
        None => {
            return Err(Failure::Configuration);
        },
        Some(rp) => rp,
    };
    login_answer(user_id, finish_authentication(&rp, &credential, &state))
}

/// The end of a login, once webauthn-rs has checked the browser's signed
/// assertion: the user `user_id` is logged in with the result that webauthn-rs
/// gave, or the login fails with webauthn-rs's error.
pub fn login_answer(user_id: u128, checked: Result<AuthenticationResult, String>) -> (finished: Result<
    Login,
    Failure,
>)
    ensures
        checked matches Ok(r) ==> (finished matches Ok(Login::LoggedIn { user_id: u, result, response })
            && u == user_id && result == r && response@ == text_view(200, ""@)),
        checked matches Err(e) ==> finished == Err::<Login, Failure>(Failure::Refused(e)),
{
    match checked {
        Err(e) => Err(Failure::Refused(e)),
        Ok(result) => Ok(Login::LoggedIn { user_id, result, response: text_response(200, "") }),
    }
}

/// What the start of a registration keeps for the user `name` with
/// identifier `id`: session data that names that user.
pub open spec fn keeps_registration(started: Result<Started, Failure>, name: Seq<char>, id: u128) -> bool {
    started matches Ok(Started::Challenge { session, .. }) ==> registration_session_user(
        session.data@,
    ) == Some((name, id))
}

/// What the end of a registration saves: the user that the data of its
/// `session` names.
pub open spec fn saves_registration(session: Option<Session>, finished: Result<Registration, Failure>) -> bool {
    finished matches Ok(Registration::Registered { user_name, user_id, .. }) ==> session matches Some(
        s,
    ) && registration_session_user(s.data@) == Some((user_name@, user_id))
}

/// What the start of a login keeps for the user `id`: session data that names
/// that user.
pub open spec fn keeps_login(started: Result<Started, Failure>, id: u128) -> bool {
    started matches Ok(Started::Challenge { session, .. }) ==> login_session_user(session.data@)
        == Some(id)
}

/// What the end of a login brings up to date: the credentials of the user that
/// the data of its `session` names.
pub open spec fn saves_login(session: Option<Session>, finished: Result<Login, Failure>) -> bool {
    finished matches Ok(Login::LoggedIn { user_id, .. }) ==> session matches Some(s)
        && login_session_user(s.data@) == Some(user_id)
}

/// The session that a started ceremony asks the server to keep.
pub open spec fn kept_session(started: Result<Started, Failure>) -> Option<Session> {
    match started {
        Ok(Started::Challenge { session, .. }) => Some(session),
        _ => None,
    }
}

/// A registration saves the user who started it: when the end of a
/// registration is handed the session that its start kept for the user `name`
/// with identifier `id`, the user it saves is that user.
pub proof fn lemma_registration_saves_starting_user(
    name: Seq<char>,
    id: u128,
    started: Result<Started, Failure>,
    finished: Result<Registration, Failure>,
)
    requires
        keeps_registration(started, name, id),
        saves_registration(kept_session(started), finished),
    ensures
        finished matches Ok(Registration::Registered { user_name, user_id, .. }) ==> user_name@
            == name && user_id == id,
{
}

/// A login brings up to date the credentials of the user who started it: when
/// the end of a login is handed the session that its start kept for the user
/// `id`, the user whose credentials it updates is that user.
pub proof fn lemma_login_updates_starting_user(
    id: u128,
    started: Result<Started, Failure>,
    finished: Result<Login, Failure>,
)
    requires
        keeps_login(started, id),
        saves_login(kept_session(started), finished),
    ensures
        finished matches Ok(Login::LoggedIn { user_id, .. }) ==> user_id == id,
{
}

} // verus!

//! The login state machine: password step, then — where the user has a
//! second factor — a one-time code or a hardware-authenticator assertion,
//! then a session token.
//!
//! The hardware ceremony runs in two halves around the outside
//! authenticator library: the caller consumes the stored challenge state
//! (`Store::consume_challenge`), lets its verifier judge the response
//! against it, and hands the verdict to `complete_with_hardware_key`,
//! which is verified for every verdict the caller can hand it.

use vstd::prelude::*;
use crate::error::Error;
use crate::store::Store;
use crate::session::{SessionIssuer, Token, tag_of};
use crate::second_factor::{code_accepted, verify_one_time_code, window_of, TOTP_PERIOD_SECONDS};
use crate::strutil::{hash_password, hash_str_of, constant_time_str_eq};
use crate::types::{ChallengeKind, HardwareCredential, Role, SecondFactor, User};

verus! {

/// What a successful password step leads to: straight to a session when no
/// second factor is enabled, else a wait for one of the named factors.
pub enum LoginOutcome {
    Authenticated(Token),
    AwaitingSecondFactor(Vec<SecondFactor>),
}

/// The verifier's verdict on a hardware-authenticator assertion: which
/// credential answered, the signature counter it reported, and whether the
/// signature checked out against the consumed challenge state.
pub struct HardwareKeyResponse {
    pub cred_id: Vec<u8>,
    pub counter: u32,
    pub signature_valid: bool,
}

/// Whether the submitted password matches the user's stored hash.
pub open spec fn password_ok(u: User, password: Seq<char>) -> bool {
    u.hash@ == hash_str_of(password)
}

/// The code window a timestamp falls in.
pub open spec fn code_window(now: i64) -> u64 {
    ((now as int) / (TOTP_PERIOD_SECONDS as int)) as u64
}

/// Whether a one-time-code completion is accepted: the user exists, is
/// activated, awaits a second factor with the one-time code enabled, and
/// the code lies in the accepted window range.
pub open spec fn otc_accepts(s: Store, name: Seq<char>, code: u32, now: i64) -> bool {
    &&& s.has_user(name)
    &&& s.user_named(name).activated
    &&& s.user_named(name).awaiting_second_factor
    &&& s.user_named(name).has_factor(SecondFactor::Totp)
    &&& code_accepted(s.user_named(name).totp_key@, code, code_window(now))
}

/// The index of the first enrolled credential with the given id, or the
/// length of the list if none carries it.
pub open spec fn first_credential(creds: Seq<HardwareCredential>, cid: Seq<u8>) -> int
    decreases creds.len(),
{
    if creds.len() == 0 {
        0
    } else if creds[0].cred_id@ == cid {
        0
    } else {
        1 + first_credential(creds.skip(1), cid)
    }
}

/// Whether a hardware-key completion is accepted: the user exists, is
/// activated and awaiting, the answering credential is enrolled, the
/// signature checked out, and the reported counter strictly exceeds the
/// stored one (the anti-replay rule against cloned authenticators).
pub open spec fn hardware_accepts(
    s: Store,
    name: Seq<char>,
    cid: Seq<u8>,
    counter: u32,
    signature_valid: bool,
) -> bool {
    &&& s.has_user(name)
    &&& s.user_named(name).activated
    &&& s.user_named(name).awaiting_second_factor
    &&& s.user_named(name).has_credential(cid)
    &&& signature_valid
    &&& counter > s.user_named(name).webauthn_credentials@[first_credential(
        s.user_named(name).webauthn_credentials@,
        cid,
    )].counter
}

/// Law: with both second factors enabled, either one alone authenticates.
/// A valid code satisfies the one-time-code path with no condition on any
/// hardware key, and a valid assertion satisfies the hardware path with no
/// condition on any code.
pub proof fn lemma_either_second_factor_suffices(
    s: Store,
    name: Seq<char>,
    code: u32,
    cid: Seq<u8>,
    counter: u32,
    now: i64,
)
    requires
        s.has_user(name),
        s.user_named(name).activated,
        s.user_named(name).awaiting_second_factor,
        s.user_named(name).has_factor(SecondFactor::Totp),
        s.user_named(name).has_factor(SecondFactor::Fido2),
    ensures
        code_accepted(s.user_named(name).totp_key@, code, code_window(now)) ==> otc_accepts(
            s,
            name,
            code,
            now,
        ),
        s.user_named(name).has_credential(cid) && counter > s.user_named(
            name,
        ).webauthn_credentials@[first_credential(s.user_named(name).webauthn_credentials@, cid)].counter
            ==> hardware_accepts(s, name, cid, counter, true),
{
}

/// Whether two byte vectors hold the same bytes.
fn bytes_eq(a: &Vec<u8>, b: &Vec<u8>) -> (r: bool)
    ensures
        r == (a@ == b@),
{
    let n = a.len();
    if n != b.len() {
        return false;
    }
    let mut i: usize = 0;
    while i < n
        invariant
            i <= n,
            n == a@.len(),
            n == b@.len(),
            forall|j: int| 0 <= j < i ==> a@[j] == b@[j],
        decreases n - i,
    {
        if a[i] != b[i] {
            return false;
        }
        i += 1;
    }
    proof {
        assert(a@ =~= b@);
    }
    true
}

/// The first credential with the given id is at the index the recursion
/// names, provided nothing before `i` matches and `i` does.
proof fn lemma_first_credential(creds: Seq<HardwareCredential>, cid: Seq<u8>, i: int)
    requires
        0 <= i <= creds.len(),
        forall|j: int| 0 <= j < i ==> creds[j].cred_id@ != cid,
        i < creds.len() ==> creds[i].cred_id@ == cid,
    ensures
        first_credential(creds, cid) == i,
    decreases creds.len(),
{
    if creds.len() == 0 {
    } else if i == 0 {
    } else {
        lemma_first_credential(creds.skip(1), cid, i - 1);
    }
}

/// Finds the first enrolled credential with the given id.
fn find_credential(creds: &Vec<HardwareCredential>, cid: &Vec<u8>) -> (r: Option<usize>)
    ensures
        r is Some <==> exists|j: int| 0 <= j < creds@.len() && creds@[j].cred_id@ == cid@,
        r matches Some(i) ==> i < creds@.len() && i as int == first_credential(creds@, cid@)
            && creds@[i as int].cred_id@ == cid@,
{
    let n = creds.len();
    let mut i: usize = 0;
    while i < n
        invariant
            i <= n,
            n == creds@.len(),
            forall|j: int| 0 <= j < i ==> creds@[j].cred_id@ != cid@,
        decreases n - i,
    {
        if bytes_eq(&creds[i].cred_id, cid) {
            proof {
                lemma_first_credential(creds@, cid@, i as int);
            }
            return Some(i);
        }
        i += 1;
    }
    None
}

/// Whether the list of enabled factors holds the given one.
fn factors_contain(v: &Vec<SecondFactor>, f: SecondFactor) -> (r: bool)
    ensures
        r == exists|j: int| 0 <= j < v@.len() && v@[j] == f,
{
    let n = v.len();
    let mut i: usize = 0;
    while i < n
        invariant
            i <= n,
            n == v@.len(),
            forall|j: int| 0 <= j < i ==> v@[j] != f,
        decreases n - i,
    {
        if v[i] == f {
            return true;
        }
        i += 1;
    }
    false
}

/// Copies the list of enabled factors, to hand to the caller.
fn copy_factors(v: &Vec<SecondFactor>) -> (r: Vec<SecondFactor>)
    ensures
        r@ == v@,
{
    let n = v.len();
    let mut out: Vec<SecondFactor> = Vec::new();
    let mut i: usize = 0;
    while i < n
        invariant
            i <= n,
            n == v@.len(),
            out@ == v@.take(i as int),
        decreases n - i,
    {
        out.push(v[i]);
        proof {
            assert(out@ =~= v@.take(i + 1));
        }
        i += 1;
    }
    proof {
        assert(v@.take(n as int) =~= v@);
    }
    out
}

/// The password step of a login.  An unknown username, a not yet activated
/// account and a wrong password are each turned away with their own error
/// and no state change; a non-activated user can never get past this step.
/// On a match the user is either authenticated outright — when no second
/// factor is enabled — or marked as awaiting one, with the acceptable
/// kinds handed back.
pub fn begin_login(
    store: &mut Store,
    issuer: &SessionIssuer,
    username: &str,
    password: &str,
    now: i64,
) -> (r: Result<LoginOutcome, Error>)
    requires
        old(store).wf(),
        issuer.wf(),
        now <= i64::MAX - issuer.ttl_seconds,
    ensures
        final(store).wf(),
        final(store).rooms == old(store).rooms,
        final(store).riddles == old(store).riddles,
        !old(store).has_user(username@) ==> r == Err::<LoginOutcome, Error>(Error::UserNotFound)
            && *final(store) == *old(store),
        old(store).has_user(username@) && !old(store).user_named(username@).activated ==> r
            == Err::<LoginOutcome, Error>(Error::NotActivated) && *final(store) == *old(store),
        old(store).has_user(username@) && old(store).user_named(username@).activated && !password_ok(
            old(store).user_named(username@),
            password@,
        ) ==> r == Err::<LoginOutcome, Error>(Error::WrongCredentials) && *final(store) == *old(store),
        old(store).has_user(username@) && old(store).user_named(username@).activated && password_ok(
            old(store).user_named(username@),
            password@,
        ) && old(store).user_named(username@).second_factors@.len() == 0 ==> (r matches Ok(
            LoginOutcome::Authenticated(t),
        ) && t.user_id == old(store).user_named(username@).id && t.role == old(store).user_named(
            username@,
        ).role && t.expires_at == now + issuer.ttl_seconds && t.tag == tag_of(
            issuer.key@,
            t.user_id,
            t.role,
            t.expires_at,
        ) && final(store).users@ == old(store).users@.update(
            old(store).user_ix(username@),
            User {
                awaiting_second_factor: false,
                last_login: Some(now),
                ..old(store).user_named(username@)
            },
        )),
        old(store).has_user(username@) && old(store).user_named(username@).activated && password_ok(
            old(store).user_named(username@),
            password@,
        ) && old(store).user_named(username@).second_factors@.len() > 0 ==> (r matches Ok(
            LoginOutcome::AwaitingSecondFactor(fs),
        ) && fs@ == old(store).user_named(username@).second_factors@ && final(store).users@ == old(store).users@.update(
            old(store).user_ix(username@),
            User { awaiting_second_factor: true, ..old(store).user_named(username@) },
        )),
        r matches Ok(LoginOutcome::Authenticated(t)) ==> old(store).has_user(username@) && old(store).user_named(username@).activated && password_ok(
            old(store).user_named(username@),
            password@,
        ) && old(store).user_named(username@).second_factors@.len() == 0,
{
    let ui = match store.find_user(username) {
        None => {
            return Err(Error::UserNotFound);
        },
        Some(i) => i,
    };
    if !store.users[ui].activated {
        return Err(Error::NotActivated);
    }
    let submitted = hash_password(password);
    if !constant_time_str_eq(store.users[ui].hash.as_str(), submitted.as_str()) {
        return Err(Error::WrongCredentials);
    }
    if store.users[ui].second_factors.len() == 0 {
        let uid = store.users[ui].id;
        let role = store.users[ui].role;
        let res = store.login_user(username, now);
        proof {
            assert(res is Ok);
        }
        Ok(LoginOutcome::Authenticated(issuer.issue(uid, role, now)))
    } else {
        let factors = copy_factors(&store.users[ui].second_factors);
        let res = store.set_user_awaiting_2fa(username);
        proof {
            assert(res is Ok);
        }
        Ok(LoginOutcome::AwaitingSecondFactor(factors))
    }
}

/// The one-time-code completion of a login.  Valid only while the user
/// awaits a second factor with the one-time code among the enabled kinds;
/// a wrong or expired code is `WrongCredentials` and the wait stands
/// exactly as it was.  On a valid code the wait is cleared, the login
/// stamped and a session issued.
pub fn complete_with_one_time_code(
    store: &mut Store,
    issuer: &SessionIssuer,
    username: &str,
    code: u32,
    now: i64,
) -> (r: Result<Token, Error>)
    requires
        old(store).wf(),
        issuer.wf(),
        0 <= now,
        now <= i64::MAX - issuer.ttl_seconds,
    ensures
        final(store).wf(),
        final(store).rooms == old(store).rooms,
        final(store).riddles == old(store).riddles,
        r is Ok <==> otc_accepts(*old(store), username@, code, now),
        !old(store).has_user(username@) ==> r == Err::<Token, Error>(Error::UserNotFound) && *final(store) == *old(store),
        old(store).has_user(username@) && !old(store).user_named(username@).activated ==> r
            == Err::<Token, Error>(Error::NotActivated) && *final(store) == *old(store),
        old(store).has_user(username@) && old(store).user_named(username@).activated && !(old(store).user_named(username@).awaiting_second_factor && old(store).user_named(
            username@,
        ).has_factor(SecondFactor::Totp)) ==> r == Err::<Token, Error>(Error::SecondFactorMissing)
            && *final(store) == *old(store),
        old(store).has_user(username@) && old(store).user_named(username@).activated && old(store).user_named(username@).awaiting_second_factor && old(store).user_named(
            username@,
        ).has_factor(SecondFactor::Totp) && !code_accepted(
            old(store).user_named(username@).totp_key@,
            code,
            code_window(now),
        ) ==> r == Err::<Token, Error>(Error::WrongCredentials) && *final(store) == *old(store),
        r matches Ok(t) ==> t.user_id == old(store).user_named(username@).id && t.role == old(store).user_named(username@).role && t.expires_at == now + issuer.ttl_seconds && t.tag == tag_of(
            issuer.key@,
            t.user_id,
            t.role,
            t.expires_at,
        ) && final(store).users@ == old(store).users@.update(
            old(store).user_ix(username@),
            User {
                awaiting_second_factor: false,
                last_login: Some(now),
                ..old(store).user_named(username@)
            },
        ),
{
    let ui = match store.find_user(username) {
        None => {
            return Err(Error::UserNotFound);
        },
        Some(i) => i,
    };
    if !store.users[ui].activated {
        return Err(Error::NotActivated);
    }
    if !store.users[ui].awaiting_second_factor || !factors_contain(
        &store.users[ui].second_factors,
        SecondFactor::Totp,
    ) {
        return Err(Error::SecondFactorMissing);
    }
    let window = window_of(now);
    if !verify_one_time_code(&store.users[ui].totp_key, code, window) {
        return Err(Error::WrongCredentials);
    }
    let uid = store.users[ui].id;
    let role = store.users[ui].role;
    let res = store.login_user(username, now);
    proof {
        assert(res is Ok);
    }
    Ok(issuer.issue(uid, role, now))
}

/// The hardware-key completion of a login, fed the verifier's verdict on a
/// response judged against the consumed challenge state.  An unknown
/// credential, a failed signature and a counter at or below the stored one
/// are each `AuthenticationFailure`, with no state change — the challenge
/// itself was already consumed, exactly once, whatever the verdict.  On
/// acceptance the stored counter advances, the wait is cleared, the login
/// stamped and a session issued.
pub fn complete_with_hardware_key(
    store: &mut Store,
    issuer: &SessionIssuer,
    username: &str,
    response: &HardwareKeyResponse,
    now: i64,
) -> (r: Result<Token, Error>)
    requires
        old(store).wf(),
        issuer.wf(),
        now <= i64::MAX - issuer.ttl_seconds,
    ensures
        final(store).wf(),
        final(store).rooms == old(store).rooms,
        final(store).riddles == old(store).riddles,
        r is Ok <==> hardware_accepts(
            *old(store),
            username@,
            response.cred_id@,
            response.counter,
            response.signature_valid,
        ),
        !old(store).has_user(username@) ==> r == Err::<Token, Error>(Error::UserNotFound) && *final(store) == *old(store),
        old(store).has_user(username@) && !old(store).user_named(username@).activated ==> r
            == Err::<Token, Error>(Error::NotActivated) && *final(store) == *old(store),
        old(store).has_user(username@) && old(store).user_named(username@).activated && !old(store).user_named(username@).awaiting_second_factor ==> r == Err::<Token, Error>(
            Error::ChallengeNotFound,
        ) && *final(store) == *old(store),
        old(store).has_user(username@) && old(store).user_named(username@).activated && old(
            store,
        ).user_named(username@).awaiting_second_factor && !hardware_accepts(
            *old(store),
            username@,
            response.cred_id@,
            response.counter,
            response.signature_valid,
        ) ==> r == Err::<Token, Error>(Error::AuthenticationFailure) && *final(store) == *old(
            store,
        ),
        r is Err ==> *final(store) == *old(store),
        r matches Ok(t) ==> {
            let u0 = old(store).user_named(username@);
            let ci = first_credential(u0.webauthn_credentials@, response.cred_id@);
            &&& t.user_id == u0.id
            &&& t.role == u0.role
            &&& t.expires_at == now + issuer.ttl_seconds
            &&& t.tag == tag_of(issuer.key@, t.user_id, t.role, t.expires_at)
            &&& final(store).users@.len() == old(store).users@.len()
            &&& forall|j: int|
                0 <= j < old(store).users@.len() && j != old(store).user_ix(username@) ==> final(store).users@[j] == old(store).users@[j]
            &&& {
                let u1 = final(store).users@[old(store).user_ix(username@)];
                &&& !u1.awaiting_second_factor
                &&& u1.last_login == Some(now)
                &&& u1.webauthn_credentials@ == u0.webauthn_credentials@.update(
                    ci,
                    HardwareCredential {
                        counter: response.counter,
                        ..u0.webauthn_credentials@[ci]
                    },
                )
                &&& u1.id == u0.id
                &&& u1.username == u0.username
                &&& u1.email == u0.email
                &&& u1.role == u0.role
                &&& u1.hash == u0.hash
                &&& u1.pin == u0.pin
                &&& u1.activated == u0.activated
                &&& u1.created == u0.created
                &&& u1.registered == u0.registered
                &&& u1.solved == u0.solved
                &&& u1.rooms_entered == u0.rooms_entered
                &&& u1.level == u0.level
                &&& u1.score == u0.score
                &&& u1.in_room == u0.in_room
                &&& u1.second_factors == u0.second_factors
                &&& u1.totp_key == u0.totp_key
                &&& u1.recovery_keys == u0.recovery_keys
                &&& u1.challenge == u0.challenge
            }
        },
{
    let ui = match store.find_user(username) {
        None => {
            return Err(Error::UserNotFound);
        },
        Some(i) => i,
    };
    if !store.users[ui].activated {
        return Err(Error::NotActivated);
    }
    if !store.users[ui].awaiting_second_factor {
        return Err(Error::ChallengeNotFound);
    }
    let ci = match find_credential(&store.users[ui].webauthn_credentials, &response.cred_id) {
        None => {
            return Err(Error::AuthenticationFailure);
        },
        Some(i) => i,
    };
    if !response.signature_valid || response.counter
        <= store.users[ui].webauthn_credentials[ci].counter {
        return Err(Error::AuthenticationFailure);
    }
    let uid = store.users[ui].id;
    let role = store.users[ui].role;
    let mut u = store.users.remove(ui);
    let mut cred = u.webauthn_credentials.remove(ci);
    cred.counter = response.counter;
    u.webauthn_credentials.insert(ci, cred);
    u.awaiting_second_factor = false;
    u.last_login = Some(now);
    store.users.insert(ui, u);
    proof {
        assert(final(store).users@ =~= old(store).users@.update(
            ui as int,
            final(store).users@[ui as int],
        ));
        let u0 = old(store).user_named(username@);
        let u1 = final(store).users@[ui as int];
        assert(u1.webauthn_credentials@ =~= u0.webauthn_credentials@.update(
            ci as int,
            HardwareCredential { counter: response.counter, ..u0.webauthn_credentials@[ci as int] },
        ));
    }
    Ok(issuer.issue(uid, role, now))
}

/// The credential ids already enrolled for the user, for the caller to
/// pass to its authenticator library so a key cannot be enrolled twice.
/// Only an activated user can enroll.
pub fn registration_excluded_ids(store: &Store, username: &str) -> (r: Result<Vec<Vec<u8>>, Error>)
    requires
        store.wf(),
    ensures
        r is Ok <==> store.has_user(username@) && store.user_named(username@).activated,
        !store.has_user(username@) ==> r == Err::<Vec<Vec<u8>>, Error>(Error::UserNotFound),
        store.has_user(username@) && !store.user_named(username@).activated ==> r == Err::<
            Vec<Vec<u8>>,
            Error,
        >(Error::NotActivated),
        r matches Ok(ids) ==> ids@.len() == store.user_named(username@).webauthn_credentials@.len()
            && forall|j: int|
            0 <= j < ids@.len() ==> ids@[j]@ == store.user_named(
                username@,
            ).webauthn_credentials@[j].cred_id@,
{
    let ui = match store.find_user(username) {
        None => {
            return Err(Error::UserNotFound);
        },
        Some(i) => i,
    };
    if !store.users[ui].activated {
        return Err(Error::NotActivated);
    }
    let creds = &store.users[ui].webauthn_credentials;
    let n = creds.len();
    let mut ids: Vec<Vec<u8>> = Vec::new();
    let mut i: usize = 0;
    while i < n
        invariant
            i <= n,
            n == creds@.len(),
            ids@.len() == i,
            forall|j: int| 0 <= j < i ==> ids@[j]@ == creds@[j].cred_id@,
        decreases n - i,
    {
        ids.push(copy_bytes(&creds[i].cred_id));
        i += 1;
    }
    Ok(ids)
}

/// Whether a hardware-login challenge may be opened for the user, and over
/// which credentials: the user must exist, be activated, and have at least
/// one enrolled credential.  A hardware login without one is refused with
/// `SecondFactorMissing` before any challenge is drawn, so the caller only
/// performs the outside draw once this check has granted it.
pub fn authentication_credentials<'a>(store: &'a Store, username: &str) -> (r: Result<
    &'a Vec<HardwareCredential>,
    Error,
>)
    requires
        store.wf(),
    ensures
        r is Ok <==> store.has_user(username@) && store.user_named(username@).activated
            && store.user_named(username@).webauthn_credentials@.len() > 0,
        !store.has_user(username@) ==> r == Err::<&'a Vec<HardwareCredential>, Error>(
            Error::UserNotFound,
        ),
        store.has_user(username@) && !store.user_named(username@).activated ==> r == Err::<
            &'a Vec<HardwareCredential>,
            Error,
        >(Error::NotActivated),
        store.has_user(username@) && store.user_named(username@).activated && store.user_named(
            username@,
        ).webauthn_credentials@.len() == 0 ==> r == Err::<&'a Vec<HardwareCredential>, Error>(
            Error::SecondFactorMissing,
        ),
        r matches Ok(v) ==> v@ == store.user_named(username@).webauthn_credentials@,
{
    let ui = match store.find_user(username) {
        None => {
            return Err(Error::UserNotFound);
        },
        Some(i) => i,
    };
    if !store.users[ui].activated {
        return Err(Error::NotActivated);
    }
    if store.users[ui].webauthn_credentials.len() == 0 {
        return Err(Error::SecondFactorMissing);
    }
    Ok(&store.users[ui].webauthn_credentials)
}

/// Copies a byte vector.
fn copy_bytes(v: &Vec<u8>) -> (r: Vec<u8>)
    ensures
        r@ == v@,
{
    let n = v.len();
    let mut out: Vec<u8> = Vec::new();
    let mut i: usize = 0;
    while i < n
        invariant
            i <= n,
            n == v@.len(),
            out@ == v@.take(i as int),
        decreases n - i,
    {
        out.push(v[i]);
        proof {
            assert(out@ =~= v@.take(i + 1));
        }
        i += 1;
    }
    proof {
        assert(v@.take(n as int) =~= v@);
    }
    out
}

/// Opens a hardware-key enrollment: stores the freshly generated challenge
/// state as the user's one Registration challenge, overwriting any prior
/// live challenge.
pub fn register_hardware_key_begin(
    store: &mut Store,
    username: &str,
    state: Vec<u8>,
    now: i64,
) -> (r: Result<(), Error>)
    requires
        old(store).wf(),
    ensures
        final(store).wf(),
        final(store).rooms == old(store).rooms,
        final(store).riddles == old(store).riddles,
        !old(store).has_user(username@) ==> r == Err::<(), Error>(Error::UserNotFound) && *final(store) == *old(store),
        old(store).has_user(username@) && !old(store).user_named(username@).activated ==> r
            == Err::<(), Error>(Error::NotActivated) && *final(store) == *old(store),
        old(store).has_user(username@) && old(store).user_named(username@).activated ==> r is Ok
            && final(store).users@ == old(store).users@.update(
            old(store).user_ix(username@),
            User {
                challenge: Some(
                    crate::types::Challenge { kind: ChallengeKind::Registration, state, created: now },
                ),
                ..old(store).user_named(username@)
            },
        ),
{
    store.issue_challenge(username, ChallengeKind::Registration, state, now)
}

/// Closes a hardware-key enrollment, fed the verifier's verdict on the
/// attestation judged against the consumed Registration challenge state: a
/// failed attestation is `AuthenticationFailure`, a credential id already
/// enrolled is `Conflict`, and otherwise the new credential is appended.
pub fn register_hardware_key_finish(
    store: &mut Store,
    username: &str,
    outcome: Option<HardwareCredential>,
) -> (r: Result<(), Error>)
    requires
        old(store).wf(),
    ensures
        final(store).wf(),
        final(store).rooms == old(store).rooms,
        final(store).riddles == old(store).riddles,
        !old(store).has_user(username@) ==> r == Err::<(), Error>(Error::UserNotFound) && *final(store) == *old(store),
        old(store).has_user(username@) && !old(store).user_named(username@).activated ==> r
            == Err::<(), Error>(Error::NotActivated) && *final(store) == *old(store),
        old(store).has_user(username@) && old(store).user_named(username@).activated && outcome
            is None ==> r == Err::<(), Error>(Error::AuthenticationFailure) && *final(store)
            == *old(store),
        old(store).has_user(username@) && old(store).user_named(username@).activated && outcome
            is Some && old(store).user_named(username@).has_credential(outcome->0.cred_id@) ==> r
            == Err::<(), Error>(Error::Conflict) && *final(store) == *old(store),
        old(store).has_user(username@) && old(store).user_named(username@).activated && outcome
            is Some && !old(store).user_named(username@).has_credential(outcome->0.cred_id@) ==> r
            is Ok && {
            let u0 = old(store).user_named(username@);
            let u1 = final(store).users@[old(store).user_ix(username@)];
            &&& final(store).users@ == old(store).users@.update(old(store).user_ix(username@), u1)
            &&& u1.webauthn_credentials@ == u0.webauthn_credentials@.push(outcome->0)
            &&& u1 == User { webauthn_credentials: u1.webauthn_credentials, ..u0 }
        },
{
    let ui = match store.find_user(username) {
        None => {
            return Err(Error::UserNotFound);
        },
        Some(i) => i,
    };
    if !store.users[ui].activated {
        return Err(Error::NotActivated);
    }
    let cred = match outcome {
        None => {
            return Err(Error::AuthenticationFailure);
        },
        Some(c) => c,
    };
    if find_credential(&store.users[ui].webauthn_credentials, &cred.cred_id).is_some() {
        return Err(Error::Conflict);
    }
    let mut u = store.users.remove(ui);
    u.webauthn_credentials.push(cred);
    store.users.insert(ui, u);
    proof {
        assert(final(store).users@ =~= old(store).users@.update(
            ui as int,
            final(store).users@[ui as int],
        ));
    }
    Ok(())
}

/// The authorization rule for changing another user's role: only an admin
/// may, never on themself, and only to a strictly higher rank than the
/// target holds — so no self-promotion, no demotion, and no idle rewrite.
pub fn may_change_role(
    actor_id: u64,
    actor_role: Role,
    target_id: u64,
    target_role: Role,
    new_role: Role,
) -> (r: Result<(), Error>)
    ensures
        r is Ok <==> actor_role == Role::Admin && actor_id != target_id
            && new_role.rank_spec() > target_role.rank_spec(),
        actor_role != Role::Admin ==> r == Err::<(), Error>(Error::InsufficientRights),
        actor_role == Role::Admin && actor_id == target_id ==> r == Err::<(), Error>(
            Error::CannotChangeOwnRole,
        ),
        actor_role == Role::Admin && actor_id != target_id && new_role.rank_spec()
            <= target_role.rank_spec() ==> r == Err::<(), Error>(Error::CannotChangeToSameOrLowerRole),
{
    if !(actor_role == Role::Admin) {
        return Err(Error::InsufficientRights);
    }
    if actor_id == target_id {
        return Err(Error::CannotChangeOwnRole);
    }
    if new_role.rank() <= target_role.rank() {
        return Err(Error::CannotChangeToSameOrLowerRole);
    }
    Ok(())
}

} // verus!

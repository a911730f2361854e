use vstd::prelude::*;
use crate::error::{AppError, ErrorKind};
use crate::models::{AuthRequest, AuthResponse, User};
use crate::password::{bcrypt_verdict, PasswordHasher};
use crate::record_id::{lower_hex_of, RecordId};
use crate::token::{jwt_claims, live_subject, TokenService};

verus! {

/// The e-mail address recorded for a new user.
pub open spec fn email_for(username: Seq<char>) -> Seq<char> {
    username + "@example.com"@
}

pub open spec fn username_taken_message() -> Seq<char> {
    "Username already exists"@
}

/// The one message for every failed login, whatever the cause.
pub open spec fn invalid_credentials_message() -> Seq<char> {
    "Invalid credentials"@
}

/// The failure that a login owes for what the store found under the username: an
/// unknown user and a wrong password give the same kind and message.
pub open spec fn login_failure(found: Option<User>, password: Seq<char>) -> Option<(ErrorKind, Seq<char>)> {
    let rejected = match found {
        None => true,
        Some(u) => bcrypt_verdict(password, u.password_hash@) == Some(false),
    };
    if rejected {
        Some((ErrorKind::Auth, invalid_credentials_message()))
    } else {
        None
    }
}

/// The subject (the text form of the user's id) that a login with these
/// credentials issues a token for, when the password matches.
pub open spec fn login_subject(found: Option<User>, password: Seq<char>) -> Option<Seq<char>> {
    match found {
        Some(u) => if bcrypt_verdict(password, u.password_hash@) == Some(true) && u.id is Some {
            Some(lower_hex_of(u.id->0.bytes@))
        } else {
            None
        },
        None => None,
    }
}

/// How many users in a collection carry the username.
pub open spec fn count_named(users: Seq<User>, name: Seq<char>) -> nat
    decreases users.len(),
{
    if users.len() == 0 {
        0
    } else {
        count_named(users.drop_last(), name) + if users.last().username@ == name {
            1nat
        } else {
            0nat
        }
    }
}

/// Whether some user in a collection carries the username.
pub open spec fn has_username(users: Seq<User>, name: Seq<char>) -> bool {
    exists|i: int| 0 <= i < users.len() && (#[trigger] users[i]).username@ == name
}

/// The response for a user: a fresh token whose subject is the text form of the
/// user's id, and that id.
pub fn auth_response(tokens: &TokenService, id: &RecordId, now: u64) -> (resp: AuthResponse)
    requires
        now + tokens.ttl_secs <= u64::MAX,
    ensures
        resp.user_id@ == lower_hex_of(id.bytes@),
        jwt_claims(resp.token@, tokens.secret@) == Some(
            (lower_hex_of(id.bytes@), now + tokens.ttl_secs),
        ),
{
    let user_id = id.to_hex();
    let token = tokens.issue(user_id.as_str(), now);
    AuthResponse { token, user_id }
}

/// Registration, given what the store found under the requested username: a
/// taken name is refused; otherwise the new user record to insert, with the
/// password hashed, the derived e-mail and the creation time `now_millis`.
/// After the insert, `auth_response` answers for the assigned id.
pub fn register(hasher: &PasswordHasher, req: &AuthRequest, existing: &Option<User>, now_millis: i64) -> (r: Result<User, AppError>)
    requires
        hasher.wf(),
    ensures
        existing is Some ==> (r matches Err(e) && e.spec_kind() == ErrorKind::Validation
            && e.text() == username_taken_message()),
        existing is None ==> match r {
            Ok(u) => u.id is None && u.username@ == req.username@ && u.email@ == email_for(
                req.username@,
            ) && u.created_at == now_millis && bcrypt_verdict(req.password@, u.password_hash@)
                == Some(true),
            Err(e) => e.spec_kind() == ErrorKind::Hashing,
        },
{
    if existing.is_some() {
        return Err(AppError::ValidationError(String::from_str("Username already exists")));
    }
    let password_hash = match hasher.hash(req.password.as_str()) {
        Ok(h) => h,
        Err(e) => return Err(e),
    };
    let email = req.username.clone().concat("@example.com");
    Ok(User { id: None, username: req.username.clone(), email, password_hash, created_at: now_millis })
}

/// The step of a login after the stored hash was checked: `verified` is what the
/// password hasher answered for the stored user. A match gets a token for the
/// user's id; a mismatch gets the one failed-login error; a hasher error is passed on.
pub fn finish_login(tokens: &TokenService, user: &User, verified: Result<bool, AppError>, now: u64) -> (r: Result<AuthResponse, AppError>)
    requires
        user.id is Some,
        now + tokens.ttl_secs <= u64::MAX,
    ensures
        verified matches Ok(true) ==> (r matches Ok(resp) && resp.user_id@ == lower_hex_of(
            user.id->0.bytes@,
        ) && jwt_claims(resp.token@, tokens.secret@) == Some(
            (lower_hex_of(user.id->0.bytes@), now + tokens.ttl_secs),
        )),
        verified matches Ok(false) ==> (r matches Err(e) && e.spec_kind() == ErrorKind::Auth
            && e.text() == invalid_credentials_message()),
        verified matches Err(e) ==> (r matches Err(e2) && e2 == e),
{
    match verified {
        Err(e) => Err(e),
        Ok(false) => Err(AppError::AuthError(String::from_str("Invalid credentials"))),
        Ok(true) => match &user.id {
            Some(id) => Ok(auth_response(tokens, id, now)),
            None => Err(AppError::AuthError(String::from_str("Invalid credentials"))),
        },
    }
}

/// Login, given what the store found under the username. It succeeds exactly when
/// the password matches the stored hash; an unknown user and a wrong password
/// fail alike; a malformed stored hash is a hashing error.
pub fn login(hasher: &PasswordHasher, tokens: &TokenService, req: &AuthRequest, found: &Option<User>, now: u64) -> (r: Result<AuthResponse, AppError>)
    requires
        found matches Some(u) ==> u.id is Some,
        now + tokens.ttl_secs <= u64::MAX,
    ensures
        r is Ok <==> login_subject(*found, req.password@) is Some,
        login_subject(*found, req.password@) matches Some(s) ==> (r matches Ok(resp)
            && resp.user_id@ == s && jwt_claims(resp.token@, tokens.secret@) == Some(
            (s, now + tokens.ttl_secs),
        )),
        login_failure(*found, req.password@) matches Some((k, m)) ==> (r matches Err(e)
            && e.spec_kind() == k && e.text() == m),
        (found matches Some(u) && bcrypt_verdict(req.password@, u.password_hash@) is None) ==> (
        r matches Err(e) && e.spec_kind() == ErrorKind::Hashing),
{
    match found {
        Some(user) => {
            let verified = hasher.verify(req.password.as_str(), user.password_hash.as_str());
            finish_login(tokens, user, verified, now)
        },
        None => Err(AppError::AuthError(String::from_str("Invalid credentials"))),
    }
}

/// Registering a name that no user has yet, then looking it up again, finds the
/// new user, so a second registration under that name is refused; and exactly
/// one user carries the name afterwards.
pub proof fn lemma_second_registration_refused(users: Seq<User>, new_user: User, name: Seq<char>)
    requires
        count_named(users, name) == 0,
        new_user.username@ == name,
    ensures
        has_username(users.push(new_user), name),
        count_named(users.push(new_user), name) == 1,
{
    let after = users.push(new_user);
    assert(after.drop_last() =~= users);
    assert(after[users.len() as int] == new_user);
}

/// A login under an unknown username and a login with a wrong password fail with
/// the same kind of error and the same message.
pub proof fn lemma_login_failures_alike(password: Seq<char>, user: User)
    requires
        bcrypt_verdict(password, user.password_hash@) == Some(false),
    ensures
        login_failure(None, password) is Some,
        login_failure(Some(user), password) == login_failure(None, password),
{
}

/// After registration stored `user` under the id `id` (with the password hashed
/// as `register` promises), logging in with the same password issues a token for
/// the registered id, and that token names the id until it expires.
pub proof fn lemma_register_then_login(password: Seq<char>, user: User, id: RecordId, key: Seq<u8>, token: Seq<char>, exp: int, now: int)
    requires
        bcrypt_verdict(password, user.password_hash@) == Some(true),
        user.id == Some(id),
        jwt_claims(token, key) == Some((lower_hex_of(id.bytes@), exp)),
        now <= exp,
    ensures
        login_failure(Some(user), password) is None,
        login_subject(Some(user), password) == Some(lower_hex_of(id.bytes@)),
        live_subject(jwt_claims(token, key), now) == Some(lower_hex_of(id.bytes@)),
{
}

} // verus!

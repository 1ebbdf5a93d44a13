//! The auth gateway: login, logout, "who am I", and the authorization check
//! that the middleware runs in front of every protected route.

use crate::directory::{bind, bind_result, BindError, BindOutcome, BindRequest, Directory};
use crate::errors::{AuthError, ConnectionError, UNAUTHORIZED};
use crate::session::{issued, law_round_trip, verified, Session, SessionStore, Token};
use vstd::prelude::*;

verus! {

/// The credentials of one login. They are read once and kept nowhere.
#[derive(Clone, PartialEq, Eq)]
pub struct LoginRequest {
    pub username: String,
    pub password: String,
}

/// The answer to "who am I": the subject of the session.
#[derive(Clone, Debug, PartialEq, Eq)]
pub struct User(pub String);

/// What the authorization check found for one request.
#[derive(Clone, Debug, PartialEq, Eq)]
pub enum AuthorizationResult {
    Authorized(String),
    Unauthorized,
}

/// The response that takes the place of the downstream handler's.
#[derive(Clone, Debug, PartialEq, Eq)]
pub struct Rejection {
    pub status: u16,
    pub body: String,
}

/// How a request left the middleware: with the downstream handler's
/// response as it was, or with the rejection in its place.
#[derive(Debug, PartialEq, Eq)]
pub enum Gate<Resp> {
    Forwarded(Resp),
    Rejected(Rejection),
}

/// The body of every rejection.
pub open spec fn rejection_body() -> Seq<char> {
    "not logged in"@
}

impl Rejection {
    /// The one rejection there is: status 401 with the fixed body.
    pub fn not_logged_in() -> (rejection: Rejection)
        ensures
            rejection.status == UNAUTHORIZED,
            rejection.body@ == rejection_body(),
    {
        Rejection { status: UNAUTHORIZED, body: "not logged in".to_owned() }
    }
}

/// The view of the credential that a request carries.
pub open spec fn credential(token: Option<&Token>) -> Option<Seq<char>> {
    match token {
        Some(token) => Some(token@),
        None => None,
    }
}

/// The subject for which a request is authorized, if any: the one that its
/// credential proves. A request without a credential is authorized for none,
/// like one whose credential does not verify.
pub open spec fn authorization(key: Seq<u8>, credential: Option<Seq<char>>) -> Option<Seq<char>> {
    match credential {
        Some(token) => verified(key, token),
        None => None,
    }
}

/// How a login ends: with the token issued for the username where both
/// credentials are present and the directory accepted the bind; as
/// `Unauthorized` where a credential is empty or the directory rejected the
/// bind; as `ServiceUnavailable` where the directory was not reached.
pub open spec fn login_result(
    key: Seq<u8>,
    details: LoginRequest,
    answer: Result<BindOutcome, ConnectionError>,
) -> Result<Seq<char>, AuthError> {
    if details.username@.len() == 0 || details.password@.len() == 0 {
        Err(AuthError::Unauthorized)
    } else {
        match bind_result(answer) {
            Err(BindError::ConnectionError) => Err(AuthError::ServiceUnavailable),
            Err(BindError::BindRejected { .. }) => Err(AuthError::Unauthorized),
            Ok(_) => Ok(issued(key, details.username@)),
        }
    }
}

impl AuthorizationResult {
    /// The subject, where the request is authorized.
    pub open spec fn subject(self) -> Option<Seq<char>> {
        match self {
            AuthorizationResult::Authorized(subject) => Some(subject@),
            AuthorizationResult::Unauthorized => None,
        }
    }
}

/// The bind to attempt for a login. Empty credentials are turned down here
/// and never reach the directory.
pub fn login_request(directory: &Directory, details: &LoginRequest) -> (r: Result<
    BindRequest,
    AuthError,
>)
    ensures
        r is Ok <==> details.username@.len() > 0 && details.password@.len() > 0,
        r matches Ok(request) ==> directory.asks(
            request,
            details.username@,
            details.password@,
        ),
        r is Err ==> r == Err::<BindRequest, AuthError>(AuthError::Unauthorized),
{
    match directory.bind_request(details.username.as_str(), details.password.as_str()) {
        Some(request) => Ok(request),
        None => Err(AuthError::Unauthorized),
    }
}

/// Ends a login, given the directory's answer to the bind. On success the
/// token is the one issued for the submitted username; on failure there is
/// no token.
pub fn login(
    store: &SessionStore,
    details: &LoginRequest,
    answer: Result<BindOutcome, ConnectionError>,
) -> (r: Result<Token, AuthError>)
    ensures
        match login_result(store.key(), *details, answer) {
            Ok(token) => {
                &&& r is Ok
                &&& r->Ok_0@ == token
                &&& verified(store.key(), token) == Some(details.username@)
            },
            Err(error) => r == Err::<Token, AuthError>(error),
        },
{
    if details.password.as_str().unicode_len() == 0 {
        return Err(AuthError::Unauthorized);
    }
    let session: Session = match Session::new(details.username.clone()) {
        Some(session) => session,
        None => {
            return Err(AuthError::Unauthorized);
        },
    };
    match bind(answer) {
        Err(BindError::ConnectionError) => Err(AuthError::ServiceUnavailable),
        Err(BindError::BindRejected { .. }) => Err(AuthError::Unauthorized),
        Ok(_) => Ok(store.issue(&session)),
    }
}

/// Logs out: whatever credential the client held, it holds none afterwards.
pub fn logout(held: Option<Token>) -> (kept: Option<Token>)
    ensures
        kept is None,
{
    None
}

/// The authorization check: `Authorized` with the subject that the
/// credential proves, `Unauthorized` where there is no credential or it does
/// not verify.
pub fn authorize(store: &SessionStore, token: Option<&Token>) -> (r: AuthorizationResult)
    ensures
        r.subject() == authorization(store.key(), credential(token)),
{
    match token {
        None => AuthorizationResult::Unauthorized,
        Some(token) => match store.verify(token) {
            Ok(session) => AuthorizationResult::Authorized(session.subject().clone()),
            Err(_) => AuthorizationResult::Unauthorized,
        },
    }
}

/// "Who am I": the subject of the session, or `Unauthorized` where the
/// credential is absent or does not verify; the two are not told apart.
pub fn user(store: &SessionStore, token: Option<&Token>) -> (r: Result<User, AuthError>)
    ensures
        match authorization(store.key(), credential(token)) {
            Some(subject) => r is Ok && r->Ok_0.0@ == subject,
            None => r == Err::<User, AuthError>(AuthError::Unauthorized),
        },
{
    match authorize(store, token) {
        AuthorizationResult::Authorized(subject) => Ok(User(subject)),
        AuthorizationResult::Unauthorized => Err(AuthError::Unauthorized),
    }
}

/// The middleware in front of a protected route. An authorized request goes
/// to the downstream handler as it is, and the handler's response comes back
/// as it is. Any other request is answered with status 401 and the body
/// "not logged in", and the handler is not called.
pub fn auth_middleware<Req, Resp, F: FnOnce(Req) -> Resp>(
    store: &SessionStore,
    token: Option<&Token>,
    req: Req,
    next: F,
) -> (r: Gate<Resp>)
    requires
        authorization(store.key(), credential(token)) is Some ==> next.requires((req,)),
    ensures
        match authorization(store.key(), credential(token)) {
            Some(_) => r is Forwarded && next.ensures((req,), r->Forwarded_0),
            None => {
                &&& r is Rejected
                &&& r->Rejected_0.status == UNAUTHORIZED
                &&& r->Rejected_0.body@ == rejection_body()
            },
        },
{
    match authorize(store, token) {
        AuthorizationResult::Authorized(_) => Gate::Forwarded(next(req)),
        AuthorizationResult::Unauthorized => Gate::Rejected(Rejection::not_logged_in()),
    }
}

/// A request without a credential is never authorized.
pub proof fn law_no_credential_unauthorized(key: Seq<u8>)
    ensures
        authorization(key, None) is None,
{
}

/// A request that carries the token issued for a subject is authorized for
/// that subject.
pub proof fn law_issued_token_authorized(key: Seq<u8>, subject: Seq<char>)
    requires
        subject.len() > 0,
    ensures
        authorization(key, Some(issued(key, subject))) == Some(subject),
{
    law_round_trip(key, subject);
}

/// A login with both credentials present, answered by the directory with
/// result code 0, yields a token that proves the submitted username; one
/// answered with another result code yields `Unauthorized`.
pub proof fn law_login_follows_bind(key: Seq<u8>, details: LoginRequest, outcome: BindOutcome)
    requires
        details.username@.len() > 0,
        details.password@.len() > 0,
    ensures
        outcome.rc == 0 ==> {
            &&& login_result(key, details, Ok(outcome)) is Ok
            &&& authorization(key, Some(login_result(key, details, Ok(outcome))->Ok_0)) == Some(
                details.username@,
            )
        },
        outcome.rc != 0 ==> login_result(key, details, Ok(outcome)) == Err::<
            Seq<char>,
            AuthError,
        >(AuthError::Unauthorized),
{
    law_round_trip(key, details.username@);
}

/// Two logins for different users, each accepted by the directory, end in
/// two tokens that differ, and each token proves its own user whatever the
/// other login was.
pub proof fn law_logins_independent(
    key: Seq<u8>,
    first: LoginRequest,
    second: LoginRequest,
    first_outcome: BindOutcome,
    second_outcome: BindOutcome,
)
    requires
        first.username@.len() > 0,
        first.password@.len() > 0,
        second.username@.len() > 0,
        second.password@.len() > 0,
        first.username@ != second.username@,
        first_outcome.rc == 0,
        second_outcome.rc == 0,
    ensures
        login_result(key, first, Ok(first_outcome)) is Ok,
        login_result(key, second, Ok(second_outcome)) is Ok,
        login_result(key, first, Ok(first_outcome)) != login_result(
            key,
            second,
            Ok(second_outcome),
        ),
        verified(key, login_result(key, first, Ok(first_outcome))->Ok_0) == Some(first.username@),
        verified(key, login_result(key, second, Ok(second_outcome))->Ok_0) == Some(
            second.username@,
        ),
{
    law_round_trip(key, first.username@);
    law_round_trip(key, second.username@);
}

} // verus!

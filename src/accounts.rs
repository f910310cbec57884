use vstd::prelude::*;
use crate::error::AuthError;
use crate::platform::{new_id, now_seconds};
use crate::token::{
    expiry_after, expiry_for, issue, issued_verification, jwt_hs256, uuid_hyphenated, verification,
    verify, Claims,
};

verus! {

/// Credentials presented at login.
pub struct LoginRequest {
    pub email: String,
    pub password: String,
}

/// What a new account is registered with.
pub struct RegisterRequest {
    pub email: String,
    pub username: String,
    pub password: String,
}

/// An account as the credential check sees it.
#[derive(Debug)]
pub struct User {
    pub id: u128,
    pub email: String,
    pub username: String,
    pub password_hash: String,
    pub created_at: i64,
}

/// Whether a password matches a bcrypt hash; `None` when the hash cannot be
/// read.
pub uninterp spec fn bcrypt_check(password: Seq<char>, hash: Seq<char>) -> Option<bool>;

/// Relies on bcrypt::hash at bcrypt's default cost. The salt is drawn at
/// random, so nothing is promised of the hash; `None` when hashing fails.
#[verifier::external_body]
fn hash_password(password: &str) -> (r: Option<String>) {
    bcrypt::hash(password.as_bytes(), bcrypt::DEFAULT_COST).ok()
}

/// Relies on bcrypt::verify: whether the password matches the hash, a
/// function of the two; `None` when the hash cannot be read.
#[verifier::external_body]
fn check_password(password: &str, hash: &str) -> (r: Option<bool>)
    ensures
        r == bcrypt_check(password@, hash@),
{
    bcrypt::verify(password.as_bytes(), hash).ok()
}

/// Issues and checks tokens under one signing secret. The secret is
/// required configuration: there is no default.
pub struct AuthService {
    jwt_secret: String,
}

impl AuthService {
    pub closed spec fn secret(&self) -> Seq<char> {
        self.jwt_secret@
    }

    pub fn new(jwt_secret: String) -> (r: Self)
        ensures
            r.secret() == jwt_secret@,
    {
        AuthService { jwt_secret }
    }

    /// A token for the user, issued at `now` and valid for a day.
    pub fn create_token_at(&self, user_id: u128, email: &String, now: i64) -> (r: Result<
        String,
        AuthError,
    >)
        ensures
            r is Ok,
            r->Ok_0@ == jwt_hs256(uuid_hyphenated(user_id), email@, expiry_for(now), self.secret()),
    {
        let claims = Claims { sub: user_id, email: email.clone(), exp: expiry_after(now) };
        issue(&claims, self.jwt_secret.as_str())
    }

    /// A token for the user, issued now and valid for a day.
    pub fn create_token(&self, user_id: u128, email: &String) -> (r: Result<String, AuthError>)
        ensures
            r is Ok,
            exists|now: i64|
                r->Ok_0@ == jwt_hs256(
                    uuid_hyphenated(user_id),
                    email@,
                    #[trigger] expiry_for(now),
                    self.secret(),
                ),
    {
        let now = now_seconds();
        self.create_token_at(user_id, email, now)
    }

    /// Verifies a token under this service's secret at time `now`.
    pub fn validate_token_at(&self, token: &str, now: i64) -> (r: Result<Claims, AuthError>)
        ensures
            verification(token@, self.secret(), now, r),
            issued_verification(token@, self.secret(), now, r),
    {
        verify(token, self.jwt_secret.as_str(), now)
    }

    /// Verifies a token under this service's secret at the current time.
    pub fn validate_token(&self, token: &str) -> (r: Result<Claims, AuthError>)
        ensures
            exists|now: i64|
                #[trigger] verification(token@, self.secret(), now, r) && issued_verification(
                    token@,
                    self.secret(),
                    now,
                    r,
                ),
    {
        let now = now_seconds();
        self.validate_token_at(token, now)
    }

    /// Checks a password against the stored account at time `now` and, when
    /// it matches, issues a token for the account.
    pub fn login_at(&self, req: &LoginRequest, user: &User, now: i64) -> (r: Result<String, AuthError>)
        ensures
            match bcrypt_check(req.password@, user.password_hash@) {
                None => r matches Err(AuthError::Internal(_)),
                Some(false) => r == Err::<String, AuthError>(AuthError::InvalidCredentials),
                Some(true) => r matches Ok(t) && t@ == jwt_hs256(
                    uuid_hyphenated(user.id),
                    user.email@,
                    expiry_for(now),
                    self.secret(),
                ),
            },
    {
        match check_password(req.password.as_str(), user.password_hash.as_str()) {
            None => Err(AuthError::Internal(String::from_str("Failed to verify password"))),
            Some(false) => Err(AuthError::InvalidCredentials),
            Some(true) => self.create_token_at(user.id, &user.email, now),
        }
    }

    /// Checks a password against the stored account at the current time.
    pub fn login(&self, req: &LoginRequest, user: &User) -> (r: Result<String, AuthError>)
        ensures
            match bcrypt_check(req.password@, user.password_hash@) {
                None => r matches Err(AuthError::Internal(_)),
                Some(false) => r == Err::<String, AuthError>(AuthError::InvalidCredentials),
                Some(true) => r matches Ok(t) && exists|now: i64|
                    t@ == jwt_hs256(
                        uuid_hyphenated(user.id),
                        user.email@,
                        #[trigger] expiry_for(now),
                        self.secret(),
                    ),
            },
    {
        let now = now_seconds();
        self.login_at(req, user, now)
    }

    /// Registers an account with the given password hash, id and time, and
    /// issues a token for it.
    pub fn register_at(&self, req: RegisterRequest, password_hash: String, id: u128, now: i64) -> (r: (
        String,
        User,
    ))
        ensures
            r.1.id == id,
            r.1.email@ == req.email@,
            r.1.username@ == req.username@,
            r.1.password_hash@ == password_hash@,
            r.1.created_at == now,
            r.0@ == jwt_hs256(uuid_hyphenated(id), req.email@, expiry_for(now), self.secret()),
    {
        let user = User { id, email: req.email, username: req.username, password_hash, created_at: now };
        let token = self.create_token_at(user.id, &user.email, now).unwrap();
        (token, user)
    }

    /// Registers an account: the password is stored only as its bcrypt
    /// hash, and a token for the new account is issued. Hashing draws a random
    /// salt; it is the one step that can fail.
    pub fn register(&self, req: RegisterRequest) -> (r: Result<(String, User), AuthError>)
        ensures
            r matches Ok((t, u)) ==> {
                &&& u.email@ == req.email@
                &&& u.username@ == req.username@
                &&& t@ == jwt_hs256(
                    uuid_hyphenated(u.id),
                    u.email@,
                    expiry_for(u.created_at),
                    self.secret(),
                )
            },
            r is Err ==> r matches Err(AuthError::Internal(_)),
    {
        let password_hash = match hash_password(req.password.as_str()) {
            None => {
                return Err(AuthError::Internal(String::from_str("Failed to hash password")));
            },
            Some(h) => h,
        };
        let id = new_id();
        let now = now_seconds();
        Ok(self.register_at(req, password_hash, id, now))
    }
}

/// A token the service issued at `issued_at`, checked by the same service
/// once a day has passed, is refused as expired.
pub proof fn lemma_service_token_expires(
    svc: AuthService,
    token: Seq<char>,
    user_id: u128,
    email: Seq<char>,
    issued_at: i64,
    now: i64,
    r: Result<Claims, AuthError>,
)
    requires
        token == jwt_hs256(uuid_hyphenated(user_id), email, expiry_for(issued_at), svc.secret()),
        issued_verification(token, svc.secret(), now, r),
        expiry_for(issued_at) as int <= now as int,
    ensures
        r == Err::<Claims, AuthError>(AuthError::TokenExpired),
{
    assert(token == jwt_hs256(uuid_hyphenated(user_id), email, expiry_for(issued_at), svc.secret()));
}

} // verus!

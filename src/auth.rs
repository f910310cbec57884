use vstd::prelude::*;
use crate::error::{ApiError, AuthError};
use crate::token::{jwt_payload, uuid_parsed, verify, Claims};

verus! {

/// Whether the actor may mutate a resource: only an authenticated actor whose
/// id is the resource's owner may.
pub open spec fn may_mutate(identity: Option<u128>, owner_id: u128) -> bool {
    identity == Some(owner_id)
}

/// The ownership guard shared by every mutating operation. `identity` is the
/// id of the resolved identity, `None` for an anonymous caller.
pub fn authorize_mutation(identity: Option<u128>, owner_id: u128) -> (r: Result<(), ApiError>)
    ensures
        may_mutate(identity, owner_id) ==> r == Ok::<(), ApiError>(()),
        !may_mutate(identity, owner_id) ==> r == Err::<(), ApiError>(ApiError::Forbidden),
{
    match identity {
        Some(id) => {
            if id == owner_id {
                Ok(())
            } else {
                Err(ApiError::Forbidden)
            }
        },
        None => Err(ApiError::Forbidden),
    }
}

/// The authenticated principal of a request.
#[derive(Debug)]
pub struct AuthUser {
    pub id: u128,
    pub email: String,
}

/// The scheme word of a bearer credential, with its separating space.
pub open spec fn bearer_prefix() -> Seq<char> {
    seq!['B', 'e', 'a', 'r', 'e', 'r', ' ']
}

pub open spec fn is_bearer(header: Seq<char>) -> bool {
    header.len() >= 7 && header.subrange(0, 7) == bearer_prefix()
}

/// The credential after the scheme word.
pub open spec fn bearer_rest(header: Seq<char>) -> Seq<char> {
    header.subrange(7, header.len() as int)
}

/// The token of an `Authorization` header value of the bearer scheme.
pub fn bearer_token(header: &str) -> (r: Option<&str>)
    ensures
        is_bearer(header@) ==> (r matches Some(t) && t@ == bearer_rest(header@)),
        !is_bearer(header@) ==> r is None,
{
    let n = header.unicode_len();
    if n < 7 {
        return None;
    }
    let prefix = "Bearer ";
    proof {
        reveal_strlit("Bearer ");
        assert(prefix@ =~= bearer_prefix());
    }
    let mut i: usize = 0;
    while i < 7
        invariant
            i <= 7,
            n == header@.len(),
            n >= 7,
            prefix@ == bearer_prefix(),
            forall|k: int| 0 <= k < i ==> header@[k] == bearer_prefix()[k],
        decreases 7 - i,
    {
        if header.get_char(i) != prefix.get_char(i) {
            proof {
                assert(header@.subrange(0, 7)[i as int] != bearer_prefix()[i as int]);
            }
            return None;
        }
        i += 1;
    }
    proof {
        assert(header@.subrange(0, 7) =~= bearer_prefix());
    }
    Some(header.substring_char(7, n))
}

/// What resolving a present credential gives: the identity of a token that
/// verifies, `Unauthorized` for anything else.
pub open spec fn resolution(header: Seq<char>, secret: Seq<char>, now: i64, r: Result<AuthUser, ApiError>) -> bool {
    if !is_bearer(header) {
        r == Err::<AuthUser, ApiError>(ApiError::Unauthorized)
    } else {
        match jwt_payload(bearer_rest(header), secret) {
            None => r == Err::<AuthUser, ApiError>(ApiError::Unauthorized),
            Some((s, e, x)) => match (s, e, x) {
                (Some(s), Some(e), Some(x)) => match uuid_parsed(s) {
                    Some(id) => if x as int > now as int {
                        r matches Ok(u) && u.id == id && u.email@ == e
                    } else {
                        r == Err::<AuthUser, ApiError>(ApiError::Unauthorized)
                    },
                    None => r == Err::<AuthUser, ApiError>(ApiError::Unauthorized),
                },
                _ => r == Err::<AuthUser, ApiError>(ApiError::Unauthorized),
            },
        }
    }
}

fn identity_of(header: &str, secret: &str, now: i64) -> (r: Result<AuthUser, ApiError>)
    ensures
        resolution(header@, secret@, now, r),
{
    let token = match bearer_token(header) {
        None => {
            return Err(ApiError::Unauthorized);
        },
        Some(t) => t,
    };
    let v: Result<Claims, AuthError> = verify(token, secret, now);
    match v {
        Ok(c) => Ok(AuthUser { id: c.sub, email: c.email }),
        Err(_) => Err(ApiError::Unauthorized),
    }
}

/// Resolves the identity of a request whose `Authorization` header value is
/// `header`, for an operation that needs one: a missing header fails too.
pub fn resolve_required(header: Option<&str>, secret: &str, now: i64) -> (r: Result<AuthUser, ApiError>)
    ensures
        match header {
            None => r == Err::<AuthUser, ApiError>(ApiError::Unauthorized),
            Some(h) => resolution(h@, secret@, now, r),
        },
{
    match header {
        None => Err(ApiError::Unauthorized),
        Some(h) => identity_of(h, secret, now),
    }
}

/// Resolves the identity of a request if it carries a credential: no header
/// gives `None`, a header that does not resolve still fails.
pub fn resolve_optional(header: Option<&str>, secret: &str, now: i64) -> (r: Result<
    Option<AuthUser>,
    ApiError,
>)
    ensures
        match header {
            None => r == Ok::<Option<AuthUser>, ApiError>(None),
            Some(h) => match r {
                Ok(Some(u)) => resolution(h@, secret@, now, Ok::<AuthUser, ApiError>(u)),
                Ok(None) => false,
                Err(e) => resolution(h@, secret@, now, Err::<AuthUser, ApiError>(e)),
            },
        },
{
    match header {
        None => Ok(None),
        Some(h) => match identity_of(h, secret, now) {
            Ok(u) => Ok(Some(u)),
            Err(e) => Err(e),
        },
    }
}

/// Only the owner may mutate: an anonymous actor and any other user are
/// refused, whatever else the request holds.
pub proof fn lemma_only_owner_mutates(identity: Option<u128>, owner_id: u128)
    ensures
        may_mutate(identity, owner_id) <==> (identity matches Some(id) && id == owner_id),
        identity is None ==> !may_mutate(identity, owner_id),
{
}

} // verus!

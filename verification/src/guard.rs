//! The request guard: from a bearer credential to a role-checked
//! authenticated context.
//!
//! Per request the steps run strictly in order — extract the token from
//! the header, validate its signature and expiry, resolve the user,
//! check the role — and a rejection at any step short-circuits all
//! later ones. The guard mutates nothing: its only product is the
//! attached context.

use vstd::prelude::*;
use vstd::string::*;
use crate::directory::UserDirectory;
use crate::hex::{bytes_of_hex, hex_decode, is_hex_text};
use crate::model::Role;
use crate::ops::AuthError;
use crate::token::{validate_spec, TokenService};

verus! {

/// The per-request identity attached after a successful guard pass.
#[derive(Clone, Copy, Debug, PartialEq, Eq, Structural)]
pub struct AuthContext {
    pub user_id: u64,
    pub role: Role,
}

/// The role policy of a route.
#[derive(Clone, Copy, Debug, PartialEq, Eq, Structural)]
pub enum RequiredRole {
    /// Any authenticated user may pass.
    Any,
    /// Only administrators may pass.
    AdminOnly,
}

/// Whether a role satisfies a route's policy.
pub open spec fn role_satisfies(role: Role, required: RequiredRole) -> bool {
    match required {
        RequiredRole::Any => true,
        RequiredRole::AdminOnly => role == Role::Admin,
    }
}

/// Whether a header starts with the bearer marker `"Bearer "`.
pub open spec fn has_bearer_prefix(s: Seq<char>) -> bool {
    &&& s.len() >= 7
    &&& s[0] == 'B'
    &&& s[1] == 'e'
    &&& s[2] == 'a'
    &&& s[3] == 'r'
    &&& s[4] == 'e'
    &&& s[5] == 'r'
    &&& s[6] == ' '
}

/// What follows the bearer marker.
pub open spec fn bearer_rest(s: Seq<char>) -> Seq<char> {
    s.subrange(7, s.len() as int)
}

/// Extract the token bytes from a header: it must start with
/// `"Bearer "` and the rest must be hex text.
pub fn extract_bearer_token(header: &str) -> (r: Option<Vec<u8>>)
    ensures
        has_bearer_prefix(header@) && is_hex_text(bearer_rest(header@)) ==> (r matches Some(t)
            && t@ == bytes_of_hex(bearer_rest(header@))),
        !(has_bearer_prefix(header@) && is_hex_text(bearer_rest(header@))) ==> r is None,
{
    let n = header.unicode_len();
    if n < 7 {
        return None;
    }
    if header.get_char(0) != 'B' || header.get_char(1) != 'e' || header.get_char(2) != 'a'
        || header.get_char(3) != 'r' || header.get_char(4) != 'e' || header.get_char(5) != 'r'
        || header.get_char(6) != ' ' {
        return None;
    }
    let rest = header.substring_char(7, n);
    hex_decode(rest)
}

/// Build the credential header a client presents: the bearer marker
/// followed by the hex text of the token bytes. `extract_bearer_token`
/// recovers exactly the token from it.
pub fn bearer_header(token: &[u8]) -> (r: String)
    ensures
        r@ == "Bearer "@ + crate::hex::hex_of(token@),
        has_bearer_prefix(r@),
        is_hex_text(bearer_rest(r@)),
        bytes_of_hex(bearer_rest(r@)) == token@,
{
    let mut r = String::from_str("Bearer ");
    let hex = crate::hex::hex_encode(token);
    r.append(hex.as_str());
    proof {
        reveal_strlit("Bearer ");
        assert(bearer_rest(r@) =~= crate::hex::hex_of(token@));
        crate::hex::lemma_hex_round_trip(token@);
    }
    r
}

/// What the guard decides for header text `h`: `Unauthenticated` for a
/// missing or undecodable credential, an invalid token, or a deleted
/// user; `Forbidden` for a valid identity short of the required role;
/// otherwise the authenticated context. Each rejection happens at the
/// earliest failing step and no later step is consulted.
pub open spec fn guard_spec(
    dir: UserDirectory,
    secret: Seq<u8>,
    h: Seq<char>,
    required: RequiredRole,
    now: u64,
) -> Result<AuthContext, AuthError> {
    if !(has_bearer_prefix(h) && is_hex_text(bearer_rest(h))) {
        Err(AuthError::Unauthenticated)
    } else {
        match validate_spec(secret, bytes_of_hex(bearer_rest(h)), now) {
            Err(_) => Err(AuthError::Unauthenticated),
            Ok(uid) => {
                if !dir.id_taken(uid) {
                    Err(AuthError::Unauthenticated)
                } else {
                    let role = dir.spec_user_with_id(uid).role;
                    if role_satisfies(role, required) {
                        Ok(AuthContext { user_id: uid, role })
                    } else {
                        Err(AuthError::Forbidden)
                    }
                }
            },
        }
    }
}

/// Run the guard: a missing header is `Unauthenticated`, and a present
/// one decides exactly as `guard_spec` says.
pub fn guard(
    dir: &UserDirectory,
    svc: &TokenService,
    header: Option<&str>,
    required: RequiredRole,
    now: u64,
) -> (r: Result<AuthContext, AuthError>)
    requires
        dir.wf(),
    ensures
        header is None ==> r == Err::<AuthContext, AuthError>(AuthError::Unauthenticated),
        header matches Some(h) ==> r == guard_spec(*dir, svc.spec_secret(), h@, required, now),
{
    let h = match header {
        None => {
            return Err(AuthError::Unauthenticated);
        },
        Some(h) => h,
    };
    let token = match extract_bearer_token(h) {
        None => {
            return Err(AuthError::Unauthenticated);
        },
        Some(t) => t,
    };
    let user_id = match svc.validate(token.as_slice(), now) {
        Err(_) => {
            return Err(AuthError::Unauthenticated);
        },
        Ok(uid) => uid,
    };
    let user = match dir.find_by_id(user_id) {
        None => {
            return Err(AuthError::Unauthenticated);
        },
        Some(u) => u,
    };
    let role = user.role;
    match required {
        RequiredRole::Any => Ok(AuthContext { user_id, role }),
        RequiredRole::AdminOnly => {
            if matches!(role, Role::Admin) {
                Ok(AuthContext { user_id, role })
            } else {
                Err(AuthError::Forbidden)
            }
        },
    }
}

/// Role enforcement on an admin-only route, for any credential that
/// authenticates as user `uid`: a standard-role user is rejected as
/// `Forbidden`, an admin passes and gets an admin context — and the
/// same credential on an any-role route always passes.
pub proof fn lemma_admin_route_role_enforcement(
    dir: UserDirectory,
    secret: Seq<u8>,
    h: Seq<char>,
    uid: u64,
    now: u64,
)
    requires
        dir.wf(),
        has_bearer_prefix(h) && is_hex_text(bearer_rest(h)),
        validate_spec(secret, bytes_of_hex(bearer_rest(h)), now) == Ok::<u64, crate::token::TokenError>(
            uid,
        ),
        dir.id_taken(uid),
    ensures
        dir.spec_user_with_id(uid).role == Role::Standard ==> guard_spec(
            dir,
            secret,
            h,
            RequiredRole::AdminOnly,
            now,
        ) == Err::<AuthContext, AuthError>(AuthError::Forbidden),
        dir.spec_user_with_id(uid).role == Role::Admin ==> guard_spec(
            dir,
            secret,
            h,
            RequiredRole::AdminOnly,
            now,
        ) == Ok::<AuthContext, AuthError>(
            AuthContext { user_id: uid, role: Role::Admin },
        ),
        guard_spec(dir, secret, h, RequiredRole::Any, now) == Ok::<AuthContext, AuthError>(
            AuthContext { user_id: uid, role: dir.spec_user_with_id(uid).role },
        ),
{
}

/// A credential that does not even carry a well-formed bearer token is
/// rejected as `Unauthenticated` whatever the directory holds and
/// whatever the route requires.
pub proof fn lemma_missing_credential_rejected(
    dir: UserDirectory,
    secret: Seq<u8>,
    h: Seq<char>,
    required: RequiredRole,
    now: u64,
)
    requires
        !(has_bearer_prefix(h) && is_hex_text(bearer_rest(h))),
    ensures
        guard_spec(dir, secret, h, required, now) == Err::<AuthContext, AuthError>(
            AuthError::Unauthenticated,
        ),
{
}

} // verus!

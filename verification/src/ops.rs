//! The auth use-cases: register, login, logout and "who am I",
//! composing the credential hasher, the token service and the user
//! directory.

use vstd::prelude::*;
use vstd::string::*;
use crate::directory::{lower_of, UserDirectory};
use crate::dtos::{is_view_of, sanitize, Response, UserView};
use crate::guard::AuthContext;
use crate::model::Role;
use crate::password::{digest_matches, hash_password};
use crate::token::{signed_token, TokenService};

verus! {

/// The failure taxonomy every operation maps into before crossing the
/// boundary. Internal detail never leaks past the variant.
#[derive(Clone, Copy, Debug, PartialEq, Eq, Structural)]
pub enum AuthError {
    /// Password and confirmation differ.
    PasswordMismatch,
    /// The email is already registered, case-insensitively.
    DuplicateEmail,
    /// Wrong password or unknown email — deliberately the same variant
    /// for both, so a caller cannot enumerate accounts.
    InvalidCredentials,
    /// Missing, malformed, tampered or expired credential.
    Unauthenticated,
    /// A valid identity whose role does not satisfy the route's policy.
    Forbidden,
    /// The identity behind a valid token no longer exists.
    NotFound,
    /// The credential hasher itself failed.
    HashingFailure,
}

impl AuthError {
    /// The HTTP status each failure is reported as.
    pub fn status_code(&self) -> (r: u16)
        ensures
            r == match *self {
                AuthError::PasswordMismatch => 400u16,
                AuthError::DuplicateEmail => 409u16,
                AuthError::InvalidCredentials => 400u16,
                AuthError::Unauthenticated => 401u16,
                AuthError::Forbidden => 403u16,
                AuthError::NotFound => 404u16,
                AuthError::HashingFailure => 500u16,
            },
    {
        match *self {
            AuthError::PasswordMismatch => 400,
            AuthError::DuplicateEmail => 409,
            AuthError::InvalidCredentials => 400,
            AuthError::Unauthenticated => 401,
            AuthError::Forbidden => 403,
            AuthError::NotFound => 404,
            AuthError::HashingFailure => 500,
        }
    }

    /// The uniform client-facing message for each failure.
    pub fn message(&self) -> (r: &'static str)
        ensures
            r@ == match *self {
                AuthError::PasswordMismatch => "Passwords do not match"@,
                AuthError::DuplicateEmail => "Email already exists"@,
                AuthError::InvalidCredentials => "Invalid email or password"@,
                AuthError::Unauthenticated => "Authentication required"@,
                AuthError::Forbidden => "Permission denied"@,
                AuthError::NotFound => "User no longer exists"@,
                AuthError::HashingFailure => "Could not process the request"@,
            },
    {
        match *self {
            AuthError::PasswordMismatch => "Passwords do not match",
            AuthError::DuplicateEmail => "Email already exists",
            AuthError::InvalidCredentials => "Invalid email or password",
            AuthError::Unauthenticated => "Authentication required",
            AuthError::Forbidden => "Permission denied",
            AuthError::NotFound => "User no longer exists",
            AuthError::HashingFailure => "Could not process the request",
        }
    }
}

/// Character-for-character string equality.
pub fn str_eq(a: &str, b: &str) -> (r: bool)
    ensures
        r == (a@ == b@),
{
    let n = a.unicode_len();
    let m = b.unicode_len();
    if n != m {
        return false;
    }
    let mut i: usize = 0;
    while i < n
        invariant
            n == a@.len(),
            n == b@.len(),
            i <= n,
            forall|j: int| 0 <= j < i ==> a@[j] == b@[j],
        decreases n - i,
    {
        if a.get_char(i) != b.get_char(i) {
            return false;
        }
        i = i + 1;
    }
    proof {
        assert(a@ =~= b@);
    }
    true
}

/// Register with an already-hashed password: insert a fresh standard,
/// unverified record and return its sanitized view, or `DuplicateEmail`
/// straight from the store's own uniqueness check.
pub fn register_hashed(
    dir: &mut UserDirectory,
    name: &str,
    email: &str,
    password_hash: &str,
    now: u64,
) -> (r: Result<UserView, AuthError>)
    requires
        old(dir).wf(),
        old(dir).spec_next_id() < u64::MAX,
    ensures
        final(dir).wf(),
        old(dir).email_taken(lower_of(email@)) ==> r == Err::<UserView, AuthError>(
            AuthError::DuplicateEmail,
        ) && final(dir).spec_users() == old(dir).spec_users() && final(dir).spec_next_id() == old(
            dir,
        ).spec_next_id(),
        !old(dir).email_taken(lower_of(email@)) ==> (r matches Ok(v) && final(dir).email_taken(
            lower_of(email@),
        ) && {
            let added = final(dir).spec_users().last();
            &&& final(dir).spec_users() == old(dir).spec_users().push(added)
            &&& final(dir).spec_next_id() == old(dir).spec_next_id() + 1
            &&& is_view_of(v, added)
            &&& added.id == old(dir).spec_next_id()
            &&& added.name@ == name@
            &&& added.email@ == email@
            &&& added.password_hash@ == password_hash@
            &&& added.role == Role::Standard
            &&& !added.verified
            &&& added.created_at == now
            &&& added.updated_at == now
        }),
{
    match dir.insert(name, email, password_hash, now) {
        Err(_) => Err(AuthError::DuplicateEmail),
        Ok(_) => {
            let n = dir.len();
            Ok(sanitize(dir.get(n - 1)))
        },
    }
}

/// Register a new user: reject a mismatched confirmation, then a
/// duplicate email, then hash the password and store the record. The
/// returned view never carries the digest.
pub fn register(
    dir: &mut UserDirectory,
    name: &str,
    email: &str,
    password: &str,
    password_confirmation: &str,
    now: u64,
) -> (r: Result<UserView, AuthError>)
    requires
        old(dir).wf(),
        old(dir).spec_next_id() < u64::MAX,
    ensures
        final(dir).wf(),
        password@ != password_confirmation@ ==> r == Err::<UserView, AuthError>(
            AuthError::PasswordMismatch,
        ) && final(dir).spec_users() == old(dir).spec_users() && final(dir).spec_next_id() == old(
            dir,
        ).spec_next_id(),
        password@ == password_confirmation@ && old(dir).email_taken(lower_of(email@)) ==> r
            == Err::<UserView, AuthError>(AuthError::DuplicateEmail) && final(dir).spec_users()
            == old(dir).spec_users() && final(dir).spec_next_id() == old(dir).spec_next_id(),
        r == Err::<UserView, AuthError>(AuthError::HashingFailure) ==> final(dir).spec_users()
            == old(dir).spec_users() && final(dir).spec_next_id() == old(dir).spec_next_id(),
        password@ == password_confirmation@ && !old(dir).email_taken(lower_of(email@)) ==> (
        r matches Ok(_) || r == Err::<UserView, AuthError>(AuthError::HashingFailure)),
        r matches Ok(v) ==> password@ == password_confirmation@ && !old(dir).email_taken(
            lower_of(email@),
        ) && final(dir).email_taken(lower_of(email@)) && {
            let added = final(dir).spec_users().last();
            &&& final(dir).spec_users() == old(dir).spec_users().push(added)
            &&& final(dir).spec_next_id() == old(dir).spec_next_id() + 1
            &&& is_view_of(v, added)
            &&& added.id == old(dir).spec_next_id()
            &&& added.name@ == name@
            &&& added.email@ == email@
            &&& added.role == Role::Standard
            &&& !added.verified
            &&& added.created_at == now
            &&& added.updated_at == now
            &&& digest_matches(password@, added.password_hash@)
        },
{
    if !str_eq(password, password_confirmation) {
        return Err(AuthError::PasswordMismatch);
    }
    if dir.find_by_email(email).is_some() {
        return Err(AuthError::DuplicateEmail);
    }
    let digest = match hash_password(password) {
        Some(d) => d,
        None => {
            return Err(AuthError::HashingFailure);
        },
    };
    register_hashed(dir, name, email, digest.as_str(), now)
}

/// Log a user in: find the record by email, verify the password, and
/// issue a token for its id. Unknown email and wrong password return
/// the very same error, so the two cases cannot be told apart.
pub fn login(
    dir: &UserDirectory,
    svc: &TokenService,
    email: &str,
    password: &str,
    now: u64,
) -> (r: Result<Vec<u8>, AuthError>)
    requires
        dir.wf(),
        now + svc.spec_max_age() <= u64::MAX,
    ensures
        ({
            let u = dir.spec_user_with_email(lower_of(email@));
            if dir.email_taken(lower_of(email@)) && digest_matches(password@, u.password_hash@) {
                r matches Ok(t) && t@ == signed_token(
                    svc.spec_secret(),
                    u.id,
                    now,
                    (now + svc.spec_max_age()) as u64,
                )
            } else {
                r == Err::<Vec<u8>, AuthError>(AuthError::InvalidCredentials)
            }
        }),
{
    let user = match dir.find_by_email(email) {
        None => {
            return Err(AuthError::InvalidCredentials);
        },
        Some(u) => u,
    };
    if !crate::password::verify_password(password, user.password_hash.as_str()) {
        return Err(AuthError::InvalidCredentials);
    }
    Ok(svc.issue(user.id, now))
}

/// Log out. Tokens are self-verifying and nothing is stored
/// server-side, so there is nothing to revoke: the response only tells
/// the transport to drop the client-held credential, and a captured
/// token stays valid until its natural expiry.
pub fn logout() -> (r: Response)
    ensures
        r.status@ == "success"@,
        r.message@ == "Logged out"@,
{
    Response { status: String::from_str("success"), message: String::from_str("Logged out") }
}

/// The sanitized view of the authenticated user, re-read from the
/// directory: `NotFound` if the record was deleted after the token was
/// issued.
pub fn get_self(dir: &UserDirectory, ctx: &AuthContext) -> (r: Result<UserView, AuthError>)
    requires
        dir.wf(),
    ensures
        dir.id_taken(ctx.user_id) ==> (r matches Ok(v) && is_view_of(
            v,
            dir.spec_user_with_id(ctx.user_id),
        )),
        !dir.id_taken(ctx.user_id) ==> r == Err::<UserView, AuthError>(AuthError::NotFound),
{
    match dir.find_by_id(ctx.user_id) {
        Some(u) => Ok(sanitize(u)),
        None => Err(AuthError::NotFound),
    }
}

/// One page of sanitized user views, in insertion order: page numbers
/// start at 1 and a page past the end is empty.
pub fn list_users(dir: &UserDirectory, page: usize, limit: usize) -> (r: Vec<UserView>)
    requires
        1 <= page,
        (page - 1) * limit <= usize::MAX,
    ensures
        ({
            let skip = (page - 1) * limit;
            &&& skip >= dir.spec_users().len() ==> r@.len() == 0
            &&& skip < dir.spec_users().len() ==> r@.len() == if dir.spec_users().len() - skip
                < limit {
                dir.spec_users().len() - skip
            } else {
                limit as int
            }
            &&& forall|k: int|
                0 <= k < r@.len() ==> is_view_of(#[trigger] r@[k], dir.spec_users()[skip + k])
        }),
{
    let skip = (page - 1) * limit;
    let n = dir.len();
    let mut r: Vec<UserView> = Vec::new();
    let mut i: usize = skip;
    while i < n && i - skip < limit
        invariant
            skip == (page - 1) * limit,
            n == dir.spec_users().len(),
            skip <= i,
            i <= n || i == skip,
            i - skip <= limit,
            r@.len() == i - skip,
            forall|k: int|
                0 <= k < r@.len() ==> is_view_of(#[trigger] r@[k], dir.spec_users()[skip + k]),
        decreases n - i,
    {
        r.push(sanitize(dir.get(i)));
        i = i + 1;
    }
    r
}

} // verus!

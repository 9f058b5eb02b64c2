//! Boundary value shapes: the sanitized user view handed to clients and
//! the plain status/message response body.

use vstd::prelude::*;
use vstd::string::*;
use crate::model::{Role, User};

verus! {

/// A status/message response body.
#[derive(Debug)]
pub struct Response {
    pub status: String,
    pub message: String,
}

/// The sanitized view of a user: every identity field, never the
/// password digest. The type has no field that could carry it.
#[derive(Debug)]
pub struct UserView {
    pub id: u64,
    pub name: String,
    pub email: String,
    pub role: Role,
    pub verified: bool,
    pub created_at: u64,
    pub updated_at: u64,
}

/// Whether `v` is the sanitized view of `u`: all shown fields agree.
pub open spec fn is_view_of(v: UserView, u: User) -> bool {
    &&& v.id == u.id
    &&& v.name@ == u.name@
    &&& v.email@ == u.email@
    &&& v.role == u.role
    &&& v.verified == u.verified
    &&& v.created_at == u.created_at
    &&& v.updated_at == u.updated_at
}

/// Build the sanitized view of a user record.
pub fn sanitize(u: &User) -> (r: UserView)
    ensures
        is_view_of(r, *u),
{
    UserView {
        id: u.id,
        name: String::from_str(u.name.as_str()),
        email: String::from_str(u.email.as_str()),
        role: u.role,
        verified: u.verified,
        created_at: u.created_at,
        updated_at: u.updated_at,
    }
}

/// The healthcheck body: a fixed success message.
pub fn healthcheck_response() -> (r: Response)
    ensures
        r.status@ == "success"@,
        r.message@ == "Complete Restful API in Rust"@,
{
    Response {
        status: String::from_str("success"),
        message: String::from_str("Complete Restful API in Rust"),
    }
}

} // verus!

//! Credential-based authentication and authorization core: salted password
//! hashing, signed time-bounded identity tokens, the register/login/logout
//! operations over a user directory, and the guard that turns a bearer
//! credential into a role-checked authenticated context.
//!
//! Known limitation, by design: tokens are stateless and self-verifying,
//! so logout only discards the client-held credential — a captured token
//! stays usable until its natural expiry. Stronger guarantees would need
//! short-lived tokens plus a revocable server-side allow-list, which this
//! core deliberately does not have.

pub mod directory;
pub mod dtos;
pub mod guard;
pub mod hex;
pub mod model;
pub mod ops;
pub mod password;
pub mod token;

pub use hex::{hex_decode, hex_encode};

use vstd::prelude::*;
use directory::UserDirectory;
use model::User;
use token::TokenService;

verus! {

/// The immutable startup configuration: read once, never mutated, and
/// passed by reference into every component. The signing secret lives
/// only here and in the token service built from it; no operation
/// writes it to any caller-visible value.
pub struct Config {
    pub database_url: String,
    pub jwt_secret: Vec<u8>,
    pub jwt_maxage: u64,
    pub port: u16,
}

impl Config {
    /// A usable configuration signs with a nonempty secret and keeps
    /// tokens alive for a positive number of seconds.
    pub open spec fn wf(&self) -> bool {
        &&& 1 <= self.jwt_maxage
        &&& 1 <= self.jwt_secret@.len()
    }
}

/// What every request handler shares: the configuration, the token
/// service built from its secret and max-age, and the user directory.
pub struct AppState {
    pub env: Config,
    pub tokens: TokenService,
    pub directory: UserDirectory,
}

impl AppState {
    /// The token service agrees with the configuration, and the
    /// directory keeps its invariants.
    pub open spec fn wf(&self) -> bool {
        &&& self.env.wf()
        &&& self.tokens.wf()
        &&& self.tokens.spec_secret() == self.env.jwt_secret@
        &&& self.tokens.spec_max_age() == self.env.jwt_maxage
        &&& self.directory.wf()
    }

    /// Assemble the state from a configuration, with an empty
    /// directory.
    pub fn new(env: Config) -> (r: AppState)
        requires
            env.wf(),
        ensures
            r.wf(),
            r.env == env,
            r.directory.spec_users() == Seq::<User>::empty(),
            r.directory.spec_next_id() == 1,
    {
        let secret = vstd::slice::slice_to_vec(env.jwt_secret.as_slice());
        let tokens = TokenService::new(secret, env.jwt_maxage);
        AppState { env, tokens, directory: UserDirectory::new() }
    }
}

} // verus!

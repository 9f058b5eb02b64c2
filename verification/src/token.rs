//! Signed, time-bounded identity tokens.
//!
//! A token is a byte string: a 24-byte payload — user id, issued-at and
//! expiry, each a little-endian `u64` — followed by an HMAC-SHA-256 tag
//! over the payload under a process-wide secret. Validation checks the
//! signature before anything else, then the expiry against the caller's
//! clock, and only then returns the embedded user id. Tokens are
//! self-verifying: nothing is stored server-side, and logout cannot
//! revoke one before its natural expiry.

use vstd::prelude::*;
use vstd::bytes::*;
use hmac::Mac;

verus! {

/// Why a token failed validation. Clients see a uniform rejection; the
/// taxonomy is kept for diagnosability.
#[derive(Clone, Copy, Debug, PartialEq, Eq, Structural)]
pub enum TokenError {
    /// The signature does not match the payload under the secret.
    InvalidSignature,
    /// The bytes are too short to carry the three fields.
    Malformed,
    /// The signature is good but the expiry has passed.
    Expired,
}

pub uninterp spec fn hmac_tag(key: Seq<u8>, msg: Seq<u8>) -> Seq<u8>;

/// The HMAC-SHA-256 tag of `msg` under `key`.
///
/// Relies on hmac's Hmac<Sha256> (Mac::new_from_slice, update,
/// finalize): the tag is a function of key and message alone, 32 bytes
/// long; HMAC accepts keys of any length, so new_from_slice cannot fail.
#[verifier::external_body]
fn hmac_sha256(key: &[u8], msg: &[u8]) -> (r: Vec<u8>)
    ensures
        r@ == hmac_tag(key@, msg@),
        r@.len() == 32,
{
    let mut mac = <hmac::Hmac<sha2::Sha256>>::new_from_slice(key)
        .expect("HMAC accepts keys of any length");
    mac.update(msg);
    mac.finalize().into_bytes().to_vec()
}

/// The 24-byte payload carrying user id, issued-at and expiry.
pub open spec fn token_payload(user_id: u64, issued_at: u64, expires_at: u64) -> Seq<u8> {
    spec_u64_to_le_bytes(user_id) + spec_u64_to_le_bytes(issued_at) + spec_u64_to_le_bytes(
        expires_at,
    )
}

/// A well-formed token: payload followed by its tag under `secret`.
pub open spec fn signed_token(secret: Seq<u8>, user_id: u64, issued_at: u64, expires_at: u64) -> Seq<
    u8,
> {
    token_payload(user_id, issued_at, expires_at) + hmac_tag(
        secret,
        token_payload(user_id, issued_at, expires_at),
    )
}

/// What validating `token` under `secret` at time `now` returns:
/// structure, then signature, then expiry, in that order.
pub open spec fn validate_spec(secret: Seq<u8>, token: Seq<u8>, now: u64) -> Result<
    u64,
    TokenError,
> {
    if token.len() < 24 {
        Err(TokenError::Malformed)
    } else if token.subrange(24, token.len() as int) != hmac_tag(secret, token.subrange(0, 24)) {
        Err(TokenError::InvalidSignature)
    } else if now >= spec_u64_from_le_bytes(token.subrange(16, 24)) {
        Err(TokenError::Expired)
    } else {
        Ok(spec_u64_from_le_bytes(token.subrange(0, 8)))
    }
}

/// Byte-string equality without an early exit: the whole of both inputs
/// is read however early the first mismatch sits.
pub fn bytes_eq(a: &[u8], b: &[u8]) -> (r: bool)
    ensures
        r == (a@ == b@),
{
    if a.len() != b.len() {
        return false;
    }
    let n = a.len();
    let mut diff: u8 = 0;
    let mut i: usize = 0;
    while i < n
        invariant
            n == a@.len(),
            n == b@.len(),
            i <= n,
            (diff == 0) <==> (forall|j: int| 0 <= j < i ==> a@[j] == b@[j]),
        decreases n - i,
    {
        let x = a[i];
        let y = b[i];
        proof {
            lemma_accumulate_mismatch(diff, x, y);
        }
        diff = diff | (x ^ y);
        i = i + 1;
    }
    if diff == 0 {
        proof {
            assert(a@ =~= b@);
        }
        true
    } else {
        false
    }
}

/// Or-ing in the xor of two bytes keeps the accumulator zero exactly
/// when it was zero and the bytes are equal.
proof fn lemma_accumulate_mismatch(d: u8, x: u8, y: u8)
    ensures
        ((d | (x ^ y)) == 0) <==> (d == 0 && x == y),
{
    assert(((d | (x ^ y)) == 0) <==> (d == 0 && x == y)) by (bit_vector);
}

/// Issues and validates signed tokens under one secret and one max-age.
pub struct TokenService {
    secret: Vec<u8>,
    max_age_secs: u64,
}

impl TokenService {
    /// The signing secret. Closed: the secret never appears in any
    /// caller-visible value, only in contracts.
    pub closed spec fn spec_secret(&self) -> Seq<u8> {
        self.secret@
    }

    /// The configured token max-age, in seconds.
    pub closed spec fn spec_max_age(&self) -> u64 {
        self.max_age_secs
    }

    /// A usable service has a positive max-age, so a fresh token is
    /// never already expired.
    pub open spec fn wf(&self) -> bool {
        1 <= self.spec_max_age()
    }

    pub fn new(secret: Vec<u8>, max_age_secs: u64) -> (r: TokenService)
        requires
            1 <= max_age_secs,
        ensures
            r.spec_secret() == secret@,
            r.spec_max_age() == max_age_secs,
            r.wf(),
    {
        TokenService { secret, max_age_secs }
    }

    /// The configured token max-age, in seconds.
    pub fn max_age(&self) -> (r: u64)
        ensures
            r == self.spec_max_age(),
    {
        self.max_age_secs
    }

    /// Issue a token for `user_id` at time `now`: payload plus its tag.
    pub fn issue(&self, user_id: u64, now: u64) -> (r: Vec<u8>)
        requires
            now + self.spec_max_age() <= u64::MAX,
        ensures
            r@ == signed_token(
                self.spec_secret(),
                user_id,
                now,
                (now + self.spec_max_age()) as u64,
            ),
    {
        let expires_at = now + self.max_age_secs;
        let mut payload = u64_to_le_bytes(user_id);
        let mut issued = u64_to_le_bytes(now);
        let mut expiry = u64_to_le_bytes(expires_at);
        payload.append(&mut issued);
        payload.append(&mut expiry);
        let tag = hmac_sha256(self.secret.as_slice(), payload.as_slice());
        let mut token = payload;
        token.extend_from_slice(tag.as_slice());
        token
    }

    /// Validate `token` at time `now`: signature first, then expiry,
    /// then the embedded user id.
    pub fn validate(&self, token: &[u8], now: u64) -> (r: Result<u64, TokenError>)
        ensures
            r == validate_spec(self.spec_secret(), token@, now),
    {
        if token.len() < 24 {
            return Err(TokenError::Malformed);
        }
        let payload = vstd::slice::slice_subrange(token, 0, 24);
        let expected = hmac_sha256(self.secret.as_slice(), payload);
        let tag = vstd::slice::slice_subrange(token, 24, token.len());
        if !bytes_eq(tag, expected.as_slice()) {
            return Err(TokenError::InvalidSignature);
        }
        let expires_at = u64_from_le_bytes(vstd::slice::slice_subrange(token, 16, 24));
        if now >= expires_at {
            return Err(TokenError::Expired);
        }
        Ok(u64_from_le_bytes(vstd::slice::slice_subrange(token, 0, 8)))
    }
}

/// A token issued at `issued_at` under a positive max-age validates to
/// the user id it was issued for at any time before its expiry — in
/// particular immediately after issuance.
pub proof fn lemma_fresh_token_validates(
    secret: Seq<u8>,
    user_id: u64,
    issued_at: u64,
    max_age: u64,
    at: u64,
)
    requires
        1 <= max_age,
        issued_at + max_age <= u64::MAX,
        at < issued_at + max_age,
    ensures
        validate_spec(
            secret,
            signed_token(secret, user_id, issued_at, (issued_at + max_age) as u64),
            at,
        ) == Ok::<u64, TokenError>(user_id),
{
    let expires_at = (issued_at + max_age) as u64;
    let p = token_payload(user_id, issued_at, expires_at);
    let t = signed_token(secret, user_id, issued_at, expires_at);
    lemma_auto_spec_u64_to_from_le_bytes();
    assert(p.len() == 24);
    assert(t.subrange(0, 24) =~= p);
    assert(t.subrange(24, t.len() as int) =~= hmac_tag(secret, p));
    assert(t.subrange(16, 24) =~= spec_u64_to_le_bytes(expires_at));
    assert(t.subrange(0, 8) =~= spec_u64_to_le_bytes(user_id));
}

/// A token validated at or after its expiry is rejected as `Expired`,
/// whoever it was issued for.
pub proof fn lemma_expired_token_rejected(
    secret: Seq<u8>,
    user_id: u64,
    issued_at: u64,
    expires_at: u64,
    at: u64,
)
    requires
        expires_at <= at,
    ensures
        validate_spec(secret, signed_token(secret, user_id, issued_at, expires_at), at)
            == Err::<u64, TokenError>(TokenError::Expired),
{
    let p = token_payload(user_id, issued_at, expires_at);
    let t = signed_token(secret, user_id, issued_at, expires_at);
    lemma_auto_spec_u64_to_from_le_bytes();
    assert(p.len() == 24);
    assert(t.subrange(0, 24) =~= p);
    assert(t.subrange(24, t.len() as int) =~= hmac_tag(secret, p));
    assert(t.subrange(16, 24) =~= spec_u64_to_le_bytes(expires_at));
}

/// Any byte string whose trailing part is not the tag of its first 24
/// bytes under `secret` is rejected as `InvalidSignature`, whatever the
/// clock says: nothing past the signature check is even inspected.
pub proof fn lemma_forged_signature_rejected(secret: Seq<u8>, token: Seq<u8>, at: u64)
    requires
        24 <= token.len(),
        token.subrange(24, token.len() as int) != hmac_tag(secret, token.subrange(0, 24)),
    ensures
        validate_spec(secret, token, at) == Err::<u64, TokenError>(TokenError::InvalidSignature),
{
}

/// Flipping any single bit of the signature of a well-formed token
/// yields `InvalidSignature` at every validation time.
pub proof fn lemma_signature_bit_flip_rejected(
    secret: Seq<u8>,
    user_id: u64,
    issued_at: u64,
    expires_at: u64,
    i: int,
    mask: u8,
    at: u64,
)
    requires
        mask != 0,
        24 <= i < signed_token(secret, user_id, issued_at, expires_at).len(),
    ensures
        validate_spec(
            secret,
            signed_token(secret, user_id, issued_at, expires_at).update(
                i,
                signed_token(secret, user_id, issued_at, expires_at)[i] ^ mask,
            ),
            at,
        ) == Err::<u64, TokenError>(TokenError::InvalidSignature),
{
    let p = token_payload(user_id, issued_at, expires_at);
    let t = signed_token(secret, user_id, issued_at, expires_at);
    let flipped = t[i] ^ mask;
    let t2 = t.update(i, flipped);
    lemma_auto_spec_u64_to_from_le_bytes();
    assert(p.len() == 24);
    let original = t[i];
    assert(original ^ mask != original) by (bit_vector)
        requires
            mask != 0,
    ;
    assert(t2.subrange(0, 24) =~= p);
    assert(t.subrange(24, t.len() as int) =~= hmac_tag(secret, p));
    assert(t2.subrange(24, t2.len() as int)[i - 24] == flipped);
    assert(hmac_tag(secret, p)[i - 24] == original);
    assert(t2.subrange(24, t2.len() as int) != hmac_tag(secret, p));
    lemma_forged_signature_rejected(secret, t2, at);
}

} // verus!

//! The token authenticator: a keyed tag over the canonical claim encoding.
//!
//! The tag is a pure capability, not a session: the same claims and tag
//! verify identically on every instance holding the same secret, at any time
//! before the expiration, any number of times. Verification checks the
//! signature first and the freshness second, and both always run.

use crate::codec::{claims_bytes, encode_claims};
use crate::messages::Money;
use hmac::{KeyInit, Mac};
use vstd::prelude::*;

verus! {

/// A shared signing secret, as raw bytes.
pub type Key = Vec<u8>;

/// The HMAC-SHA-256 of `msg` under `key`. Left without a definition: the
/// digest is computed and checked only by the outside implementation, and
/// the contracts here say no more of it than that it is a function of the
/// key and the message.
pub uninterp spec fn hmac_sha256(key: Seq<u8>, msg: Seq<u8>) -> Seq<u8>;

/// The tag over the canonical encoding of the claims.
pub open spec fn spec_tag(
    secret: Seq<u8>,
    flight_id: Seq<char>,
    expiration: i64,
    currency: Seq<char>,
    units: i64,
    nanos: i32,
) -> Seq<u8> {
    hmac_sha256(secret, encode_claims(flight_id, expiration, currency, units, nanos))
}

/// Whether `tag` is exactly the tag the holder of `secret` computes over the
/// claims. The length conjunct mirrors the checked implementation, which
/// rejects a tag of any length other than its own output size.
pub open spec fn tag_matches(
    secret: Seq<u8>,
    flight_id: Seq<char>,
    expiration: i64,
    currency: Seq<char>,
    units: i64,
    nanos: i32,
    tag: Seq<u8>,
) -> bool {
    &&& tag.len() == 32
    &&& tag == spec_tag(secret, flight_id, expiration, currency, units, nanos)
}

/// How verification can end: a tag that is not the one computed over the
/// presented claims, or a genuine tag whose expiration lies in the past.
#[derive(Debug, Clone, Copy, PartialEq, Eq)]
pub enum TokenVerifyError {
    InvalidSignature,
    Expired,
}

/// The exact outcome of verification at time `now`: the signature is checked
/// first, freshness second, and an offer expiring exactly at `now` is still
/// fresh.
pub open spec fn verify_outcome(
    secret: Seq<u8>,
    flight_id: Seq<char>,
    expiration: i64,
    currency: Seq<char>,
    units: i64,
    nanos: i32,
    tag: Seq<u8>,
    now: i64,
) -> Result<(), TokenVerifyError> {
    if !tag_matches(secret, flight_id, expiration, currency, units, nanos, tag) {
        Err(TokenVerifyError::InvalidSignature)
    } else if expiration < now {
        Err(TokenVerifyError::Expired)
    } else {
        Ok(())
    }
}

/// Relies on `hmac::Hmac<sha2::Sha256>`: `new_from_slice` accepts a key of
/// any length, `update` then `finalize` yield the HMAC-SHA-256 of the
/// message, 32 bytes long, a function of the key and the message alone.
#[verifier::external_body]
fn compute_hmac_sha256(key: &[u8], msg: &[u8]) -> (r: Vec<u8>)
    ensures
        r@ == hmac_sha256(key@, msg@),
        r@.len() == 32,
{
    let mut mac = <hmac::Hmac<sha2::Sha256>>::new_from_slice(key).unwrap();
    mac.update(msg);
    mac.finalize().into_bytes().to_vec()
}

/// Relies on `Mac::verify_slice` of `hmac::Hmac<sha2::Sha256>`: it succeeds
/// exactly when the given tag is 32 bytes long and equal to the HMAC-SHA-256
/// of the message, and it compares in constant time.
#[verifier::external_body]
fn verify_hmac_sha256(key: &[u8], msg: &[u8], tag: &[u8]) -> (r: bool)
    ensures
        r == (tag@.len() == 32 && tag@ == hmac_sha256(key@, msg@)),
{
    let mut mac = <hmac::Hmac<sha2::Sha256>>::new_from_slice(key).unwrap();
    mac.update(msg);
    mac.verify_slice(tag).is_ok()
}

/// Relies on `time::OffsetDateTime::now_utc`: seconds of the Unix epoch at
/// the moment of the call. Nothing is assumed of the value.
#[verifier::external_body]
pub(crate) fn current_unix_time() -> i64 {
    time::OffsetDateTime::now_utc().unix_timestamp()
}

/// Signs and verifies offer claims under a process-wide secret, held
/// read-only for the life of the manager.
pub struct TagManager {
    secret: Key,
}

impl View for TagManager {
    type V = Seq<u8>;

    closed spec fn view(&self) -> Seq<u8> {
        self.secret@
    }
}

impl TagManager {
    pub fn new(secret: Key) -> (m: Self)
        ensures
            m@ == secret@,
    {
        TagManager { secret }
    }

    /// Computes the tag over the claims. Always succeeds given a key.
    pub fn generate_tag(&self, flight_id: &str, price: &Money, expiration: i64) -> (r: Vec<u8>)
        ensures
            r@ == spec_tag(
                self@,
                flight_id@,
                expiration,
                price.currency_code@,
                price.units,
                price.nanos,
            ),
            r@.len() == 32,
    {
        let msg = claims_bytes(
            flight_id,
            expiration,
            price.currency_code.as_str(),
            price.units,
            price.nanos,
        );
        compute_hmac_sha256(self.secret.as_slice(), msg.as_slice())
    }

    /// Recomputes the expected tag over the presented claims, compares it in
    /// constant time against the presented tag, and only then checks
    /// freshness against `now`.
    pub fn verify_offer_at(
        &self,
        flight_id: &str,
        price: &Money,
        expiration: i64,
        tag: &[u8],
        now: i64,
    ) -> (r: Result<(), TokenVerifyError>)
        ensures
            r == verify_outcome(
                self@,
                flight_id@,
                expiration,
                price.currency_code@,
                price.units,
                price.nanos,
                tag@,
                now,
            ),
    {
        let msg = claims_bytes(
            flight_id,
            expiration,
            price.currency_code.as_str(),
            price.units,
            price.nanos,
        );
        if !verify_hmac_sha256(self.secret.as_slice(), msg.as_slice(), tag) {
            return Err(TokenVerifyError::InvalidSignature);
        }
        let r = Self::verify_expired(expiration, now);
        proof {
            if expiration < now {
                assert(r == Err::<(), TokenVerifyError>(TokenVerifyError::Expired));
            } else {
                assert(r == Ok::<(), TokenVerifyError>(()));
            }
        }
        r
    }

    /// As `verify_offer_at`, against the clock of the moment of the call.
    pub fn verify_offer(&self, flight_id: &str, price: &Money, expiration: i64, tag: &[u8]) -> (r:
        Result<(), TokenVerifyError>)
        ensures
            exists|now: i64|
                r == verify_outcome(
                    self@,
                    flight_id@,
                    expiration,
                    price.currency_code@,
                    price.units,
                    price.nanos,
                    tag@,
                    now,
                ),
            r == Err::<(), TokenVerifyError>(TokenVerifyError::InvalidSignature) <==> !tag_matches(
                self@,
                flight_id@,
                expiration,
                price.currency_code@,
                price.units,
                price.nanos,
                tag@,
            ),
            r is Ok ==> tag_matches(
                self@,
                flight_id@,
                expiration,
                price.currency_code@,
                price.units,
                price.nanos,
                tag@,
            ),
    {
        let now = current_unix_time();
        let r = self.verify_offer_at(flight_id, price, expiration, tag, now);
        proof {
            assert(r == verify_outcome(
                self@,
                flight_id@,
                expiration,
                price.currency_code@,
                price.units,
                price.nanos,
                tag@,
                now,
            ));
        }
        r
    }

    /// Freshness alone: an expiration at or after `now` is acceptable.
    fn verify_expired(expiration: i64, now: i64) -> (r: Result<(), TokenVerifyError>)
        ensures
            r == if expiration >= now {
                Ok::<(), TokenVerifyError>(())
            } else {
                Err::<(), TokenVerifyError>(TokenVerifyError::Expired)
            },
    {
        if expiration < now {
            return Err(TokenVerifyError::Expired);
        }
        Ok(())
    }
}

/// Tamper-evidence: a change to any single claim field, the other fields
/// held fixed, always changes the byte string the verifier authenticates;
/// and whenever the keyed digest maps the two distinct byte strings apart —
/// the collision resistance assumed of the digest — verification of the
/// mutated claims against the original tag fails with `InvalidSignature`,
/// whatever the clock reads.
pub proof fn lemma_tamper_evidence(
    secret: Seq<u8>,
    f1: Seq<char>,
    e1: i64,
    c1: Seq<char>,
    u1: i64,
    n1: i32,
    f2: Seq<char>,
    e2: i64,
    c2: Seq<char>,
    u2: i64,
    n2: i32,
    now: i64,
)
    requires
        ({
            ||| (f1 != f2 && e1 == e2 && c1 == c2 && u1 == u2 && n1 == n2)
            ||| (f1 == f2 && e1 != e2 && c1 == c2 && u1 == u2 && n1 == n2)
            ||| (f1 == f2 && e1 == e2 && c1 != c2 && u1 == u2 && n1 == n2)
            ||| (f1 == f2 && e1 == e2 && c1 == c2 && u1 != u2 && n1 == n2)
            ||| (f1 == f2 && e1 == e2 && c1 == c2 && u1 == u2 && n1 != n2)
        }),
    ensures
        crate::codec::encode_claims(f1, e1, c1, u1, n1) != crate::codec::encode_claims(
            f2,
            e2,
            c2,
            u2,
            n2,
        ),
        spec_tag(secret, f1, e1, c1, u1, n1) != spec_tag(secret, f2, e2, c2, u2, n2)
            ==> verify_outcome(
            secret,
            f2,
            e2,
            c2,
            u2,
            n2,
            spec_tag(secret, f1, e1, c1, u1, n1),
            now,
        ) == Err::<(), TokenVerifyError>(TokenVerifyError::InvalidSignature),
{
    crate::codec::lemma_encode_claims_single_field(f1, e1, c1, u1, n1, f2, e2, c2, u2, n2);
}

/// Round-trip: a tag computed over claims verifies against those very claims
/// at any time up to and including the expiration.
pub proof fn lemma_round_trip(
    secret: Seq<u8>,
    flight_id: Seq<char>,
    expiration: i64,
    currency: Seq<char>,
    units: i64,
    nanos: i32,
    tag: Seq<u8>,
    now: i64,
)
    requires
        tag == spec_tag(secret, flight_id, expiration, currency, units, nanos),
        tag.len() == 32,
        now <= expiration,
    ensures
        verify_outcome(secret, flight_id, expiration, currency, units, nanos, tag, now) == Ok::<
            (),
            TokenVerifyError,
        >(()),
{
}

/// Key separation: that the same claims signed under two different secrets
/// get different tags is the key separation assumed of the keyed digest,
/// stated nowhere here; whenever the two tags do differ, each one fails
/// cross-verification under the other secret with `InvalidSignature`,
/// whatever the clock reads.
pub proof fn lemma_key_separation(
    secret1: Seq<u8>,
    secret2: Seq<u8>,
    flight_id: Seq<char>,
    expiration: i64,
    currency: Seq<char>,
    units: i64,
    nanos: i32,
    now: i64,
)
    requires
        spec_tag(secret1, flight_id, expiration, currency, units, nanos) != spec_tag(
            secret2,
            flight_id,
            expiration,
            currency,
            units,
            nanos,
        ),
    ensures
        verify_outcome(
            secret2,
            flight_id,
            expiration,
            currency,
            units,
            nanos,
            spec_tag(secret1, flight_id, expiration, currency, units, nanos),
            now,
        ) == Err::<(), TokenVerifyError>(TokenVerifyError::InvalidSignature),
        verify_outcome(
            secret1,
            flight_id,
            expiration,
            currency,
            units,
            nanos,
            spec_tag(secret2, flight_id, expiration, currency, units, nanos),
            now,
        ) == Err::<(), TokenVerifyError>(TokenVerifyError::InvalidSignature),
{
}

/// Expiration boundary: a genuine tag is accepted when the clock reads
/// exactly the expiration and rejected as expired one second after it; and
/// whatever the tag, a past expiration never verifies.
pub proof fn lemma_expiration_boundary(
    secret: Seq<u8>,
    flight_id: Seq<char>,
    expiration: i64,
    currency: Seq<char>,
    units: i64,
    nanos: i32,
    tag: Seq<u8>,
    now: i64,
)
    ensures
        tag_matches(secret, flight_id, expiration, currency, units, nanos, tag) ==> verify_outcome(
            secret,
            flight_id,
            expiration,
            currency,
            units,
            nanos,
            tag,
            expiration,
        ) is Ok,
        tag_matches(secret, flight_id, expiration, currency, units, nanos, tag) && now > expiration
            ==> verify_outcome(secret, flight_id, expiration, currency, units, nanos, tag, now)
            == Err::<(), TokenVerifyError>(TokenVerifyError::Expired),
        now > expiration ==> !(verify_outcome(
            secret,
            flight_id,
            expiration,
            currency,
            units,
            nanos,
            tag,
            now,
        ) is Ok),
{
}

} // verus!

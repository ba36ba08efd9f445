//! The engine's cross-cutting guarantees, stated and proved over the
//! spec-level models that the operations' contracts are written in.

use vstd::prelude::*;

use crate::auth::jwt_decoding;
use crate::auth::token_outcome;
use crate::data_stores::UserStoreError;
use crate::error::AuthAPIError;
use crate::password_hash::argon2_hash_parses;
use crate::password_hash::argon2_matches;
use crate::password_hash::row_check_outcome;
use crate::verify_2fa::two_fa_submission_matches;

verus! {

/// Hash-then-verify succeeds: every hash the hashing module computes for
/// a password parses and matches that password (its contract), and the
/// row check accepts any such hash-password pair. The converse — that no
/// other password matches — is a property of the hash function that its
/// interface does not promise, and is exercised by tests instead.
pub proof fn lemma_hash_then_verify(h: Seq<char>, p: Seq<char>)
    requires
        argon2_hash_parses(h),
        argon2_matches(h, p),
    ensures
        row_check_outcome(h, p) == Ok::<(), UserStoreError>(()),
{
}

/// A challenge stored for an identity is retrievable verbatim until it
/// is consumed or superseded: after a put the store maps the identity to
/// exactly the stored pair; a later put for the same identity replaces
/// it entirely; a remove leaves the identity unmapped.
pub proof fn lemma_code_store_lifecycle(
    m: Map<Seq<char>, (Seq<char>, Seq<char>)>,
    email: Seq<char>,
    id: Seq<char>,
    code: Seq<char>,
    id2: Seq<char>,
    code2: Seq<char>,
)
    ensures
        m.insert(email, (id, code)).contains_key(email),
        m.insert(email, (id, code))[email] == (id, code),
        m.insert(email, (id, code)).insert(email, (id2, code2))[email] == (id2, code2),
        !m.insert(email, (id, code)).remove(email).contains_key(email),
{
}

/// Exactly-once consumption: acceptance of a submission requires that
/// the pending pair matches it, and acceptance consumes the entry —
/// the store becomes the old one with the identity removed — so the
/// same pair can never match a second time against the resulting store.
pub proof fn lemma_exactly_once_consumption(
    m: Map<Seq<char>, (Seq<char>, Seq<char>)>,
    email: Seq<char>,
    cid: Seq<char>,
    code: Seq<char>,
)
    requires
        two_fa_submission_matches(m, email, cid, code),
    ensures
        !two_fa_submission_matches(m.remove(email), email, cid, code),
{
}

/// Revocation short-circuits expiry: a revoked token is rejected as
/// `Revoked` whatever its timestamp — even one that has not yet expired —
/// while an unrevoked token with a verifying signature whose timestamp
/// has passed is rejected as `Expired`.
pub proof fn lemma_revocation_precedes_expiry(
    banned: Set<Seq<char>>,
    token: Seq<char>,
    secret: Seq<u8>,
    now: u64,
)
    ensures
        banned.contains(token) ==> token_outcome(banned, token, secret, now) == Err::<
            (Seq<char>, u64),
            AuthAPIError,
        >(AuthAPIError::Revoked),
        (!banned.contains(token) && (match jwt_decoding(token, secret) {
            Some(p) => p.1 <= now,
            None => false,
        })) ==> token_outcome(banned, token, secret, now) == Err::<
            (Seq<char>, u64),
            AuthAPIError,
        >(AuthAPIError::Expired),
{
}

} // verus!

use vstd::prelude::*;

verus! {

/// A saltlick public key: opaque key material.
#[verifier::external_type_specification]
#[verifier::external_body]
pub struct ExPublicKey(saltlick::PublicKey);

/// A saltlick secret key: opaque key material.
#[verifier::external_type_specification]
#[verifier::external_body]
pub struct ExSecretKey(saltlick::SecretKey);

/// Relies on saltlick's `PartialEq` for `PublicKey`, which compares the key
/// bytes (libsodium's `memcmp` over the whole key): keys compare equal exactly
/// when they are the same value.
#[verifier::external_body]
pub(crate) fn same_public_key(a: &saltlick::PublicKey, b: &saltlick::PublicKey) -> (r: bool)
    ensures
        r == (*a == *b),
{
    a == b
}

} // verus!

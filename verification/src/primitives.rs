use vstd::prelude::*;

verus! {

/// What ed25519 key generation returns for a given seed: the secret key and
/// the public key, each a function of the seed alone.
pub uninterp spec fn keypair_of(seed: Seq<u8>) -> (Seq<u8>, Seq<u8>);

/// The SHA3-256 digest of a byte string.
pub uninterp spec fn sha3_256_of(data: Seq<u8>) -> Seq<u8>;

/// The RIPEMD-160 digest of a byte string.
pub uninterp spec fn ripemd160_of(data: Seq<u8>) -> Seq<u8>;

/// The secret-key half of the keypair derived from a seed.
pub open spec fn secret_of(seed: Seq<u8>) -> Seq<u8> {
    keypair_of(seed).0
}

/// The public-key half of the keypair derived from a seed.
pub open spec fn public_of(seed: Seq<u8>) -> Seq<u8> {
    keypair_of(seed).1
}

/// The node identifier derived from a public key: RIPEMD-160 of the SHA3-256
/// digest of the key, in that order.
pub open spec fn node_id_of(public_key: Seq<u8>) -> Seq<u8> {
    ripemd160_of(sha3_256_of(public_key))
}

/// Relies on crypto::ed25519::keypair: from a 32-byte seed it returns a
/// 64-byte secret key and a 32-byte public key, determined by the seed alone.
#[verifier::external_body]
pub(crate) fn ed25519_keypair(seed: &[u8]) -> (r: (Vec<u8>, Vec<u8>))
    requires
        seed@.len() == 32,
    ensures
        r.0@ == keypair_of(seed@).0,
        r.1@ == keypair_of(seed@).1,
        r.0@.len() == 64,
        r.1@.len() == 32,
{
    let (secret_key, public_key) = crypto::ed25519::keypair(seed);
    (secret_key.to_vec(), public_key.to_vec())
}

/// Relies on crypto::sha3::Sha3 in SHA3-256 mode: the 32-byte digest is
/// determined by the input bytes alone.
#[verifier::external_body]
pub(crate) fn sha3_256(data: &[u8]) -> (r: Vec<u8>)
    ensures
        r@ == sha3_256_of(data@),
        r@.len() == 32,
{
    let mut hasher = crypto::sha3::Sha3::sha3_256();
    crypto::digest::Digest::input(&mut hasher, data);
    let mut out: Vec<u8> = vec![0u8; 32];
    crypto::digest::Digest::result(&mut hasher, &mut out);
    out
}

/// Relies on crypto::ripemd160::Ripemd160: the 20-byte digest is determined
/// by the input bytes alone.
#[verifier::external_body]
pub(crate) fn ripemd160(data: &[u8]) -> (r: Vec<u8>)
    ensures
        r@ == ripemd160_of(data@),
        r@.len() == 20,
{
    let mut hasher = crypto::ripemd160::Ripemd160::new();
    crypto::digest::Digest::input(&mut hasher, data);
    let mut out: Vec<u8> = vec![0u8; 20];
    crypto::digest::Digest::result(&mut hasher, &mut out);
    out
}

/// Relies on rand::random: a value drawn from the thread-local generator;
/// nothing is promised of which value comes back.
pub assume_specification<T>[ rand::random::<T> ]() -> (r: T)
    where
        rand::distributions::Standard: rand::distributions::Distribution<T>,
;

} // verus!

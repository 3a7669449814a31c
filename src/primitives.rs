use rand::Rng;
use sodiumoxide::crypto::box_;
use sodiumoxide::crypto::pwhash::argon2id13;
use sodiumoxide::crypto::secretbox;
use vstd::prelude::*;

verus! {

/// Argon2id at interactive cost: the `len`-byte key derived from a password
/// and a salt.
pub uninterp spec fn argon2id_interactive_of(password: Seq<u8>, salt: Seq<u8>, len: nat) -> Seq<u8>;

/// The key pair that X25519 derives from a seed: (public key, secret key).
pub uninterp spec fn box_keypair_of(seed: Seq<u8>) -> (Seq<u8>, Seq<u8>);

/// Curve25519-XSalsa20-Poly1305 in detached mode: (ciphertext, tag) for a
/// plaintext, nonce, recipient public key and sender secret key.
pub uninterp spec fn box_seal_detached_of(
    plain: Seq<u8>,
    nonce: Seq<u8>,
    pk: Seq<u8>,
    sk: Seq<u8>,
) -> (Seq<u8>, Seq<u8>);

/// The plaintext that detached-mode authenticated decryption recovers, or
/// `None` where the tag does not verify.
pub uninterp spec fn box_open_detached_of(
    cipher: Seq<u8>,
    tag: Seq<u8>,
    nonce: Seq<u8>,
    pk: Seq<u8>,
    sk: Seq<u8>,
) -> Option<Seq<u8>>;

/// Relies on sodiumoxide's `argon2id13::derive_key` with
/// `OPSLIMIT_INTERACTIVE` and `MEMLIMIT_INTERACTIVE`: on success the key
/// buffer holds a result that depends on the password, salt and length alone;
/// `derive_key` fails (`Err(())`, here `None`) when the computation does not
/// complete.
#[verifier::external_body]
pub(crate) fn argon2id_derive(password: &[u8], salt: &[u8], len: usize) -> (r: Option<Vec<u8>>)
    requires
        salt@.len() == 16,
    ensures
        r matches Some(k) ==> k@ == argon2id_interactive_of(password@, salt@, len as nat),
        r matches Some(k) ==> k@.len() == len,
{
    let salt = argon2id13::Salt::from_slice(salt).unwrap();
    let mut key = vec![0u8; len];
    match argon2id13::derive_key(
        &mut key[..],
        password,
        &salt,
        argon2id13::OPSLIMIT_INTERACTIVE,
        argon2id13::MEMLIMIT_INTERACTIVE,
    ) {
        Ok(k) => Some(k.to_vec()),
        Err(()) => None,
    }
}

/// Relies on sodiumoxide's `box_::keypair_from_seed`: a deterministic map from
/// a 32-byte seed to a 32-byte public key and a 32-byte secret key.
#[verifier::external_body]
pub(crate) fn box_keypair_from_seed(seed: &[u8]) -> (r: (Vec<u8>, Vec<u8>))
    requires
        seed@.len() == 32,
    ensures
        (r.0@, r.1@) == box_keypair_of(seed@),
        r.0@.len() == 32,
        r.1@.len() == 32,
{
    let (pk, sk) = box_::keypair_from_seed(&box_::Seed::from_slice(seed).unwrap());
    (pk.0.to_vec(), sk.0.to_vec())
}

/// Relies on sodiumoxide's `box_::gen_keypair`: a fresh random key pair of a
/// 32-byte public key and a 32-byte secret key.
#[verifier::external_body]
pub(crate) fn box_gen_keypair() -> (r: (Vec<u8>, Vec<u8>))
    ensures
        r.0@.len() == 32,
        r.1@.len() == 32,
{
    let (pk, sk) = box_::gen_keypair();
    (pk.0.to_vec(), sk.0.to_vec())
}

/// Relies on sodiumoxide's `box_::gen_nonce`: a random 24-byte nonce.
#[verifier::external_body]
pub(crate) fn box_gen_nonce() -> (r: Vec<u8>)
    ensures
        r@.len() == 24,
{
    box_::gen_nonce().0.to_vec()
}

/// Relies on sodiumoxide's `secretbox::gen_key`: a random 32-byte key.
#[verifier::external_body]
pub(crate) fn secretbox_gen_key() -> (r: Vec<u8>)
    ensures
        r@.len() == 32,
{
    secretbox::gen_key().0.to_vec()
}

/// Relies on sodiumoxide's `secretbox::gen_nonce`: a random 24-byte nonce.
#[verifier::external_body]
pub(crate) fn secretbox_gen_nonce() -> (r: Vec<u8>)
    ensures
        r@.len() == 24,
{
    secretbox::gen_nonce().0.to_vec()
}

/// Relies on sodiumoxide's `randombytes::randombytes`: `len` random bytes.
#[verifier::external_body]
pub(crate) fn random_bytes(len: usize) -> (r: Vec<u8>)
    ensures
        r@.len() == len,
{
    sodiumoxide::randombytes::randombytes(len)
}

/// Relies on rand's `Rng::gen_range` on the thread-local generator: a value in
/// `[0, bound)`; it panics on an empty range, which `requires` leaves out.
#[verifier::external_body]
pub(crate) fn random_below(bound: usize) -> (r: usize)
    requires
        bound > 0,
    ensures
        r < bound,
{
    rand::thread_rng().gen_range(0, bound)
}

/// Relies on sodiumoxide's `box_::seal_detached`: encrypts the plaintext in
/// place, so the ciphertext has its length, and returns the 16-byte tag.
#[verifier::external_body]
pub(crate) fn box_seal_detached(plain: &[u8], nonce: &[u8], pk: &[u8], sk: &[u8]) -> (r: (
    Vec<u8>,
    Vec<u8>,
))
    requires
        nonce@.len() == 24,
        pk@.len() == 32,
        sk@.len() == 32,
    ensures
        (r.0@, r.1@) == box_seal_detached_of(plain@, nonce@, pk@, sk@),
        r.0@.len() == plain@.len(),
        r.1@.len() == 16,
{
    let mut cipher = plain.to_vec();
    let tag = box_::seal_detached(
        &mut cipher[..],
        &box_::Nonce::from_slice(nonce).unwrap(),
        &box_::PublicKey::from_slice(pk).unwrap(),
        &box_::SecretKey::from_slice(sk).unwrap(),
    );
    (cipher, tag.0.to_vec())
}

/// Relies on sodiumoxide's `box_::open_detached`: verifies the 16-byte tag and
/// decrypts in place, so a recovered plaintext has the ciphertext's length;
/// `open_detached` fails (`Err(())`, here `None`) where verification fails.
#[verifier::external_body]
pub(crate) fn box_open_detached(
    cipher: &[u8],
    tag: &[u8],
    nonce: &[u8],
    pk: &[u8],
    sk: &[u8],
) -> (r: Option<Vec<u8>>)
    requires
        tag@.len() == 16,
        nonce@.len() == 24,
        pk@.len() == 32,
        sk@.len() == 32,
    ensures
        r matches Some(p) ==> box_open_detached_of(cipher@, tag@, nonce@, pk@, sk@) == Some(p@),
        r is None ==> box_open_detached_of(cipher@, tag@, nonce@, pk@, sk@) is None,
        r matches Some(p) ==> p@.len() == cipher@.len(),
{
    let mut plain = cipher.to_vec();
    let res = box_::open_detached(
        &mut plain[..],
        &box_::Tag::from_slice(tag).unwrap(),
        &box_::Nonce::from_slice(nonce).unwrap(),
        &box_::PublicKey::from_slice(pk).unwrap(),
        &box_::SecretKey::from_slice(sk).unwrap(),
    );
    match res {
        Ok(()) => Some(plain),
        Err(()) => None,
    }
}

} // verus!

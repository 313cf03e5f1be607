//! Keys and detached Ed25519 signatures, as libsodium computes them.

use sodiumoxide::crypto::sign;
use vstd::prelude::*;

verus! {

/// Number of bytes in a public key.
pub const PUBLICKEYBYTES: usize = 32;

/// Number of bytes in a secret key.
pub const SECRETKEYBYTES: usize = 64;

/// Number of bytes in a signature.
pub const SIGNATUREBYTES: usize = 64;

/// A public verification key.
#[derive(Clone, Copy, Debug)]
pub struct PublicKey(pub [u8; PUBLICKEYBYTES]);

/// A secret signing key.
pub struct SecretKey(pub [u8; SECRETKEYBYTES]);

impl View for PublicKey {
    type V = Seq<u8>;

    open spec fn view(&self) -> Seq<u8> {
        self.0@
    }
}

impl View for SecretKey {
    type V = Seq<u8>;

    open spec fn view(&self) -> Seq<u8> {
        self.0@
    }
}

impl PublicKey {
    /// The key that a byte slice holds, or `None` where the slice has not
    /// the length of a public key.
    pub fn from_slice(bs: &[u8]) -> (key: Option<PublicKey>)
        ensures
            match key {
                Some(key) => key@ == bs@,
                None => bs@.len() != PUBLICKEYBYTES,
            },
    {
        if bs.len() != PUBLICKEYBYTES {
            return None;
        }
        let mut bytes = [0u8; PUBLICKEYBYTES];
        let mut i: usize = 0;
        while i < PUBLICKEYBYTES
            invariant
                i <= PUBLICKEYBYTES,
                bs@.len() == PUBLICKEYBYTES,
                forall|j: int| 0 <= j < i ==> bytes@[j] == bs@[j],
            decreases PUBLICKEYBYTES - i,
        {
            bytes[i] = bs[i];
            i = i + 1;
        }
        assert(bytes@ =~= bs@);
        Some(PublicKey(bytes))
    }
}

impl SecretKey {
    /// The key that a byte slice holds, or `None` where the slice has not
    /// the length of a secret key.
    pub fn from_slice(bs: &[u8]) -> (key: Option<SecretKey>)
        ensures
            match key {
                Some(key) => key@ == bs@,
                None => bs@.len() != SECRETKEYBYTES,
            },
    {
        if bs.len() != SECRETKEYBYTES {
            return None;
        }
        let mut bytes = [0u8; SECRETKEYBYTES];
        let mut i: usize = 0;
        while i < SECRETKEYBYTES
            invariant
                i <= SECRETKEYBYTES,
                bs@.len() == SECRETKEYBYTES,
                forall|j: int| 0 <= j < i ==> bytes@[j] == bs@[j],
            decreases SECRETKEYBYTES - i,
        {
            bytes[i] = bs[i];
            i = i + 1;
        }
        assert(bytes@ =~= bs@);
        Some(SecretKey(bytes))
    }
}

/// A public key with the secret key that belongs to it, where there is one.
/// Verification needs the public key alone.
pub struct SignatureKeyPair {
    pub public: PublicKey,
    pub secret: Option<SecretKey>,
}

/// The detached signature that `sodiumoxide::crypto::sign::sign_detached`
/// returns for the message `m` under the secret key `sk`.
pub uninterp spec fn detached_signature(m: Seq<u8>, sk: Seq<u8>) -> Seq<u8>;

/// What `sodiumoxide::crypto::sign::verify_detached` returns for the
/// signature `sig`, the message `m` and the public key `pk`.
pub uninterp spec fn detached_valid(sig: Seq<u8>, m: Seq<u8>, pk: Seq<u8>) -> bool;

/// The byte strings that `ed25519::Signature::from_bytes` accepts: of the
/// length of a signature, with the three highest bits of the last byte unset.
pub open spec fn signature_parses(sig: Seq<u8>) -> bool {
    sig.len() == SIGNATUREBYTES && sig[SIGNATUREBYTES - 1] & 0xE0 == 0
}

/// `sig` is a well-formed signature and is valid for `m` under `pk`.
pub open spec fn signature_verifies(sig: Seq<u8>, m: Seq<u8>, pk: Seq<u8>) -> bool {
    signature_parses(sig) && detached_valid(sig, m, pk)
}

/// `pk` and `sk` belong together: every signature made with `sk` verifies
/// under `pk`.
pub open spec fn is_key_pair(pk: Seq<u8>, sk: Seq<u8>) -> bool {
    forall|m: Seq<u8>| signature_verifies(#[trigger] detached_signature(m, sk), m, pk)
}

/// Calls `sodiumoxide::init`, which prepares libsodium for use. Nothing is
/// claimed of its outcome.
#[verifier::external_body]
pub(crate) fn sodium_init() {
    let _ = sodiumoxide::init();
}

/// Calls `sodiumoxide::crypto::sign::sign_detached`. Ed25519 signing is
/// deterministic, so the result is the named signature of the message and key.
#[verifier::external_body]
pub(crate) fn sign_detached(m: &[u8], sk: &SecretKey) -> (sig: [u8; SIGNATUREBYTES])
    ensures
        sig@ == detached_signature(m@, sk@),
{
    sign::sign_detached(m, &sign::SecretKey(sk.0)).to_bytes()
}

/// Calls `ed25519::Signature::from_bytes` and, where that accepts the bytes,
/// `sodiumoxide::crypto::sign::verify_detached`. Bytes that are no
/// well-formed signature count as an invalid one.
#[verifier::external_body]
pub(crate) fn verify_detached(sig: &[u8], m: &[u8], pk: &PublicKey) -> (ok: bool)
    ensures
        ok == (signature_parses(sig@) && detached_valid(sig@, m@, pk@)),
{
    match sign::Signature::from_bytes(sig) {
        Ok(s) => sign::verify_detached(&s, m, &sign::PublicKey(pk.0)),
        Err(_) => false,
    }
}

/// Calls `sodiumoxide::crypto::sign::gen_keypair`. The keys are random; what
/// holds of every outcome is that they belong together.
#[verifier::external_body]
pub(crate) fn random_keypair() -> (keys: (PublicKey, SecretKey))
    ensures
        is_key_pair(keys.0@, keys.1@),
{
    let (pk, sk) = sign::gen_keypair();
    (PublicKey(pk.0), SecretKey(sk.0))
}

/// Generate a fresh key pair.
pub fn gen_keypair() -> (keys: SignatureKeyPair)
    ensures
        keys.secret matches Some(sk) && is_key_pair(keys.public@, sk@),
{
    let (public, secret) = random_keypair();
    SignatureKeyPair { public, secret: Some(secret) }
}

} // verus!

//! Trusted wrappers around the post-quantum primitive operations and the
//! hash.  Key generation, encapsulation and signing are randomized, so
//! their contracts state only sizes; decapsulation, signature opening and
//! hashing are functions of their inputs alone and their results carry
//! names.  Every length below is the fixed parameter size of the scheme,
//! as the primitive library's source states it.

use vstd::prelude::*;

verus! {

/// What Kyber-768 decapsulation yields for a ciphertext and secret key.
pub uninterp spec fn kyber_decap_of(ct: Seq<u8>, sk: Seq<u8>) -> Seq<u8>;

/// What opening a Dilithium3 signed message under a public key yields:
/// the signed payload, or `None` for an invalid signature.
pub uninterp spec fn dilithium_open_of(sm: Seq<u8>, pk: Seq<u8>) -> Option<Seq<u8>>;

/// What opening a SPHINCS+ signed message under a public key yields.
pub uninterp spec fn sphincs_open_of(sm: Seq<u8>, pk: Seq<u8>) -> Option<Seq<u8>>;

/// The SHA3-256 digest of a byte sequence.
pub uninterp spec fn sha3_256_of(data: Seq<u8>) -> Seq<u8>;

#[verifier::external_type_specification]
#[verifier::external_body]
pub struct ExVerificationError(pqcrypto_traits::sign::VerificationError);

/// Relies on pqcrypto_kyber's kyber768::keypair: a fresh key pair with
/// the scheme's fixed key sizes.
#[verifier::external_body]
pub fn kyber_keypair() -> (r: (Vec<u8>, Vec<u8>))
    ensures
        r.0@.len() == 1184,
        r.1@.len() == 2400,
{
    let (pk, sk) = pqcrypto_kyber::kyber768::keypair();
    (
        pqcrypto_traits::kem::PublicKey::as_bytes(&pk).to_vec(),
        pqcrypto_traits::kem::SecretKey::as_bytes(&sk).to_vec(),
    )
}

/// Relies on pqcrypto_dilithium's dilithium3::keypair.
#[verifier::external_body]
pub fn dilithium_keypair() -> (r: (Vec<u8>, Vec<u8>))
    ensures
        r.0@.len() == 1952,
        r.1@.len() == 4032,
{
    let (pk, sk) = pqcrypto_dilithium::dilithium3::keypair();
    (
        pqcrypto_traits::sign::PublicKey::as_bytes(&pk).to_vec(),
        pqcrypto_traits::sign::SecretKey::as_bytes(&sk).to_vec(),
    )
}

/// Relies on pqcrypto_sphincsplus's sphincssha2128ssimple::keypair.
#[verifier::external_body]
pub fn sphincs_keypair() -> (r: (Vec<u8>, Vec<u8>))
    ensures
        r.0@.len() == 32,
        r.1@.len() == 64,
{
    let (pk, sk) = pqcrypto_sphincsplus::sphincssha2128ssimple::keypair();
    (
        pqcrypto_traits::sign::PublicKey::as_bytes(&pk).to_vec(),
        pqcrypto_traits::sign::SecretKey::as_bytes(&sk).to_vec(),
    )
}

/// Relies on kyber768::encapsulate: a randomized draw of a shared secret
/// and its encapsulation against the peer's public key.
#[verifier::external_body]
pub fn kyber_encapsulate_raw(peer_pk: &[u8]) -> (r: (Vec<u8>, Vec<u8>))
    requires
        peer_pk@.len() == 1184,
    ensures
        r.0@.len() == 32,
        r.1@.len() == 1088,
{
    let pk = pqcrypto_traits::kem::PublicKey::from_bytes(peer_pk).unwrap();
    let (ss, ct) = pqcrypto_kyber::kyber768::encapsulate(&pk);
    (
        pqcrypto_traits::kem::SharedSecret::as_bytes(&ss).to_vec(),
        pqcrypto_traits::kem::Ciphertext::as_bytes(&ct).to_vec(),
    )
}

/// Relies on kyber768::decapsulate: deterministic in the ciphertext and
/// secret key.
#[verifier::external_body]
pub fn kyber_decapsulate_raw(ct: &[u8], sk: &[u8]) -> (r: Vec<u8>)
    requires
        ct@.len() == 1088,
        sk@.len() == 2400,
    ensures
        r@ == kyber_decap_of(ct@, sk@),
        r@.len() == 32,
{
    let ct = pqcrypto_traits::kem::Ciphertext::from_bytes(ct).unwrap();
    let sk = pqcrypto_traits::kem::SecretKey::from_bytes(sk).unwrap();
    let ss = pqcrypto_kyber::kyber768::decapsulate(&ct, &sk);
    pqcrypto_traits::kem::SharedSecret::as_bytes(&ss).to_vec()
}

/// Relies on dilithium3::sign: randomized, producing the signature and
/// the message in one signed blob of fixed overhead.
#[verifier::external_body]
pub fn dilithium_sign_raw(msg: &[u8], sk: &[u8]) -> (r: Vec<u8>)
    requires
        sk@.len() == 4032,
    ensures
        r@.len() == msg@.len() + 3309,
{
    let sk = pqcrypto_traits::sign::SecretKey::from_bytes(sk).unwrap();
    let sm = pqcrypto_dilithium::dilithium3::sign(msg, &sk);
    pqcrypto_traits::sign::SignedMessage::as_bytes(&sm).to_vec()
}

/// Relies on dilithium3::open: deterministic verification that yields
/// the signed payload exactly for a valid signed message.
#[verifier::external_body]
pub fn dilithium_open_raw(sm: &[u8], pk: &[u8]) -> (r: Result<
    Vec<u8>,
    pqcrypto_traits::sign::VerificationError,
>)
    requires
        pk@.len() == 1952,
    ensures
        match r {
            Ok(m) => dilithium_open_of(sm@, pk@) == Some(m@),
            Err(_) => dilithium_open_of(sm@, pk@) is None,
        },
{
    let pk = pqcrypto_traits::sign::PublicKey::from_bytes(pk).unwrap();
    let sm = pqcrypto_traits::sign::SignedMessage::from_bytes(sm).unwrap();
    pqcrypto_dilithium::dilithium3::open(&sm, &pk)
}

/// Relies on sphincssha2128ssimple::sign: randomized, fixed overhead.
#[verifier::external_body]
pub fn sphincs_sign_raw(msg: &[u8], sk: &[u8]) -> (r: Vec<u8>)
    requires
        sk@.len() == 64,
    ensures
        r@.len() == msg@.len() + 7856,
{
    let sk = pqcrypto_traits::sign::SecretKey::from_bytes(sk).unwrap();
    let sm = pqcrypto_sphincsplus::sphincssha2128ssimple::sign(msg, &sk);
    pqcrypto_traits::sign::SignedMessage::as_bytes(&sm).to_vec()
}

/// Relies on sphincssha2128ssimple::open: deterministic verification.
#[verifier::external_body]
pub fn sphincs_open_raw(sm: &[u8], pk: &[u8]) -> (r: Result<
    Vec<u8>,
    pqcrypto_traits::sign::VerificationError,
>)
    requires
        pk@.len() == 32,
    ensures
        match r {
            Ok(m) => sphincs_open_of(sm@, pk@) == Some(m@),
            Err(_) => sphincs_open_of(sm@, pk@) is None,
        },
{
    let pk = pqcrypto_traits::sign::PublicKey::from_bytes(pk).unwrap();
    let sm = pqcrypto_traits::sign::SignedMessage::from_bytes(sm).unwrap();
    pqcrypto_sphincsplus::sphincssha2128ssimple::open(&sm, &pk)
}

/// Relies on sha3's Sha3_256 digest: a deterministic 32-byte digest of
/// the input alone.
#[verifier::external_body]
pub fn sha3_256(data: &[u8]) -> (r: Vec<u8>)
    ensures
        r@ == sha3_256_of(data@),
        r@.len() == 32,
{
    <sha3::Sha3_256 as sha3::digest::Digest>::digest(data).to_vec()
}

} // verus!

//! The secure channel: key-encapsulation handshake, signature stamping,
//! hashing, and the repeating-key XOR envelope.  Keys and payloads
//! travel base64-encoded; every decode is checked and every failure is a
//! value of `PqcError`, never a panic.

use crate::b64::{b64_dec_of, b64_decode, b64_encode, b64_of};
use crate::bytes::bytes_eq;
use crate::primitives::{dilithium_keypair, dilithium_open_of, dilithium_open_raw, dilithium_sign_raw, kyber_decap_of, kyber_decapsulate_raw, kyber_encapsulate_raw, kyber_keypair, sha3_256, sha3_256_of, sphincs_keypair, sphincs_open_of, sphincs_open_raw, sphincs_sign_raw};
use vstd::prelude::*;

verus! {

/// The longest message the signing and envelope operations accept; it
/// keeps every base64 encoding well under the engine's size limit.
pub const MAX_PAYLOAD_LEN: u64 = 0x0100_0000_0000_0000;

/// This service's key material, each key base64-encoded.
#[derive(Clone, Debug)]
pub struct PqcKeyPair {
    pub kyber_public_key: String,
    pub kyber_secret_key: String,
    pub dilithium_public_key: String,
    pub dilithium_secret_key: String,
    pub sphincs_public_key: String,
    pub sphincs_secret_key: String,
}

/// One handshake's ephemeral material, each part base64-encoded.
#[derive(Clone, Debug)]
pub struct PqcSharedData {
    pub ciphertext: String,
    pub shared_secret: String,
    pub signature: String,
}

/// Why a secure-channel operation failed.
#[derive(Clone, Copy, Debug, PartialEq, Eq, Structural)]
pub enum PqcError {
    /// An input was not valid base64.
    InvalidEncoding,
    /// A decoded key or ciphertext had the wrong size, or an empty key
    /// was offered for a non-empty envelope.
    InvalidLength,
    /// A signature did not verify, or did not cover the shared secret.
    VerificationFailed,
}

/// The secure-channel engine: the service's own keys.
pub struct PqcCrypto {
    pub key_pair: PqcKeyPair,
}

/// Decode a base64 string that must hold exactly `n` bytes.
pub open spec fn spec_decode_fixed(s: Seq<char>, n: int) -> Result<Seq<u8>, PqcError> {
    match b64_dec_of(s) {
        None => Err(PqcError::InvalidEncoding),
        Some(b) => if b.len() != n {
            Err(PqcError::InvalidLength)
        } else {
            Ok(b)
        },
    }
}

/// The repeating-key XOR of `data` under `key`; an empty key leaves the
/// data unchanged (and is rejected by the envelope operations wherever
/// the data is non-empty).
pub open spec fn spec_xor(data: Seq<u8>, key: Seq<u8>) -> Seq<u8> {
    if key.len() == 0 {
        data
    } else {
        Seq::new(data.len(), |i: int| data[i] ^ key[i % (key.len() as int)])
    }
}

/// What decapsulating a base64 ciphertext under a base64 secret key
/// yields.
pub open spec fn spec_kyber_decap_res(sk_b64: Seq<char>, ct_b64: Seq<char>) -> Result<
    Seq<u8>,
    PqcError,
> {
    match spec_decode_fixed(sk_b64, 2400) {
        Err(e) => Err(e),
        Ok(sk) => match spec_decode_fixed(ct_b64, 1088) {
            Err(e) => Err(e),
            Ok(ct) => Ok(kyber_decap_of(ct, sk)),
        },
    }
}

/// What verifying a base64 Dilithium signed message under a base64
/// public key yields.
pub open spec fn spec_dilithium_verify_res(sm_b64: Seq<char>, pk_b64: Seq<char>) -> Result<
    Seq<u8>,
    PqcError,
> {
    match spec_decode_fixed(pk_b64, 1952) {
        Err(e) => Err(e),
        Ok(pk) => match b64_dec_of(sm_b64) {
            None => Err(PqcError::InvalidEncoding),
            Some(sm) => match dilithium_open_of(sm, pk) {
                Some(m) => Ok(m),
                None => Err(PqcError::VerificationFailed),
            },
        },
    }
}

/// What verifying a base64 SPHINCS+ signed message yields.
pub open spec fn spec_sphincs_verify_res(sm_b64: Seq<char>, pk_b64: Seq<char>) -> Result<
    Seq<u8>,
    PqcError,
> {
    match spec_decode_fixed(pk_b64, 32) {
        Err(e) => Err(e),
        Ok(pk) => match b64_dec_of(sm_b64) {
            None => Err(PqcError::InvalidEncoding),
            Some(sm) => match sphincs_open_of(sm, pk) {
                Some(m) => Ok(m),
                None => Err(PqcError::VerificationFailed),
            },
        },
    }
}

/// What enveloping `data` under a base64 shared secret yields.
pub open spec fn spec_sym_encrypt(data: Seq<u8>, secret: Seq<char>) -> Result<Seq<char>, PqcError> {
    match b64_dec_of(secret) {
        None => Err(PqcError::InvalidEncoding),
        Some(key) => if key.len() == 0 && data.len() > 0 {
            Err(PqcError::InvalidLength)
        } else {
            Ok(b64_of(spec_xor(data, key)))
        },
    }
}

/// What opening a base64 envelope under a base64 shared secret yields.
pub open spec fn spec_sym_decrypt(enc: Seq<char>, secret: Seq<char>) -> Result<Seq<u8>, PqcError> {
    match b64_dec_of(secret) {
        None => Err(PqcError::InvalidEncoding),
        Some(key) => match b64_dec_of(enc) {
            None => Err(PqcError::InvalidEncoding),
            Some(data) => if key.len() == 0 && data.len() > 0 {
                Err(PqcError::InvalidLength)
            } else {
                Ok(spec_xor(data, key))
            },
        },
    }
}

/// XOR `data` against `key`, repeating the key.
pub fn xor_with_key(data: &[u8], key: &[u8]) -> (r: Vec<u8>)
    ensures
        r@ == spec_xor(data@, key@),
{
    let kl = key.len();
    if kl == 0 {
        return crate::bytes::sub_vec(data, 0, data.len());
    }
    let n = data.len();
    let mut r: Vec<u8> = Vec::new();
    let mut i: usize = 0;
    while i < n
        invariant
            n == data@.len(),
            kl == key@.len(),
            kl > 0,
            i <= n,
            r@.len() == i,
            forall|j: int| 0 <= j < i ==> r@[j] == data@[j] ^ key@[j % (kl as int)],
        decreases n - i,
    {
        r.push(data[i] ^ key[i % kl]);
        i += 1;
    }
    assert(r@ =~= spec_xor(data@, key@));
    r
}

impl PqcCrypto {
    /// A fresh engine: generate all three key pairs and keep them
    /// base64-encoded.
    pub fn new() -> (r: PqcCrypto)
        ensures
            exists|b: Seq<u8>| b.len() == 1184 && r.key_pair.kyber_public_key@ == b64_of(b),
            exists|b: Seq<u8>| b.len() == 2400 && r.key_pair.kyber_secret_key@ == b64_of(b),
            exists|b: Seq<u8>| b.len() == 1952 && r.key_pair.dilithium_public_key@ == b64_of(b),
            exists|b: Seq<u8>| b.len() == 4032 && r.key_pair.dilithium_secret_key@ == b64_of(b),
            exists|b: Seq<u8>| b.len() == 32 && r.key_pair.sphincs_public_key@ == b64_of(b),
            exists|b: Seq<u8>| b.len() == 64 && r.key_pair.sphincs_secret_key@ == b64_of(b),
    {
        let (kpk, ksk) = kyber_keypair();
        let (dpk, dsk) = dilithium_keypair();
        let (spk, ssk) = sphincs_keypair();
        PqcCrypto {
            key_pair: PqcKeyPair {
                kyber_public_key: b64_encode(kpk.as_slice()),
                kyber_secret_key: b64_encode(ksk.as_slice()),
                dilithium_public_key: b64_encode(dpk.as_slice()),
                dilithium_secret_key: b64_encode(dsk.as_slice()),
                sphincs_public_key: b64_encode(spk.as_slice()),
                sphincs_secret_key: b64_encode(ssk.as_slice()),
            },
        }
    }

    /// An engine over existing key material.
    pub fn from_keys(key_pair: PqcKeyPair) -> (r: PqcCrypto)
        ensures
            r.key_pair == key_pair,
    {
        PqcCrypto { key_pair }
    }

    /// Encapsulate against a peer's base64 Kyber public key: a fresh
    /// shared secret and its ciphertext, both base64.  Fails exactly
    /// when the peer key does not decode to a key of the right size.
    pub fn kyber_encapsulate(&self, peer_public_key: &str) -> (r: Result<(String, String), PqcError>)
        ensures
            r is Ok <==> spec_decode_fixed(peer_public_key@, 1184) is Ok,
            r matches Err(e) ==> spec_decode_fixed(peer_public_key@, 1184) == Err::<
                Seq<u8>,
                PqcError,
            >(e),
            r matches Ok(p) ==> exists|ssb: Seq<u8>, ctb: Seq<u8>|
                ssb.len() == 32 && ctb.len() == 1088 && p.0@ == b64_of(ssb) && p.1@ == b64_of(ctb),
            r matches Ok(p) ==> p.0@.len() == 44 && p.1@.len() == 1452
                && vstd::utf8::is_ascii_chars(p.0@),
    {
        let pk = match b64_decode(peer_public_key) {
            Ok(b) => b,
            Err(_) => {
                return Err(PqcError::InvalidEncoding);
            },
        };
        if pk.len() != 1184 {
            return Err(PqcError::InvalidLength);
        }
        let (ss, ct) = kyber_encapsulate_raw(pk.as_slice());
        Ok((b64_encode(ss.as_slice()), b64_encode(ct.as_slice())))
    }

    /// Decapsulate a base64 ciphertext under this service's Kyber secret
    /// key, returning the base64 shared secret.
    pub fn kyber_decapsulate(&self, ciphertext: &str) -> (r: Result<String, PqcError>)
        ensures
            match r {
                Ok(s) => spec_kyber_decap_res(self.key_pair.kyber_secret_key@, ciphertext@)
                    matches Ok(ss) && s@ == b64_of(ss) && vstd::utf8::is_ascii_chars(s@)
                    && s@.len() == 44,
                Err(e) => spec_kyber_decap_res(self.key_pair.kyber_secret_key@, ciphertext@)
                    == Err::<Seq<u8>, PqcError>(e),
            },
    {
        let sk = match b64_decode(self.key_pair.kyber_secret_key.as_str()) {
            Ok(b) => b,
            Err(_) => {
                return Err(PqcError::InvalidEncoding);
            },
        };
        if sk.len() != 2400 {
            return Err(PqcError::InvalidLength);
        }
        let ct = match b64_decode(ciphertext) {
            Ok(b) => b,
            Err(_) => {
                return Err(PqcError::InvalidEncoding);
            },
        };
        if ct.len() != 1088 {
            return Err(PqcError::InvalidLength);
        }
        let ss = kyber_decapsulate_raw(ct.as_slice(), sk.as_slice());
        Ok(b64_encode(ss.as_slice()))
    }

    /// Sign a message with this service's Dilithium secret key: the
    /// base64 signed blob.  Fails exactly when the stored key does not
    /// decode to the right size.
    pub fn dilithium_sign(&self, message: &[u8]) -> (r: Result<String, PqcError>)
        requires
            message@.len() <= MAX_PAYLOAD_LEN,
        ensures
            r is Ok <==> spec_decode_fixed(self.key_pair.dilithium_secret_key@, 4032) is Ok,
            r matches Err(e) ==> spec_decode_fixed(self.key_pair.dilithium_secret_key@, 4032)
                == Err::<Seq<u8>, PqcError>(e),
            r matches Ok(s) ==> exists|sm: Seq<u8>|
                sm.len() == message@.len() + 3309 && s@ == b64_of(sm),
    {
        let sk = match b64_decode(self.key_pair.dilithium_secret_key.as_str()) {
            Ok(b) => b,
            Err(_) => {
                return Err(PqcError::InvalidEncoding);
            },
        };
        if sk.len() != 4032 {
            return Err(PqcError::InvalidLength);
        }
        let sm = dilithium_sign_raw(message, sk.as_slice());
        Ok(b64_encode(sm.as_slice()))
    }

    /// Verify a base64 Dilithium signed message under a base64 public
    /// key, returning the signed payload.
    pub fn dilithium_verify(&self, signed_message_b64: &str, public_key: &str) -> (r: Result<
        Vec<u8>,
        PqcError,
    >)
        ensures
            match r {
                Ok(m) => spec_dilithium_verify_res(signed_message_b64@, public_key@) == Ok::<
                    Seq<u8>,
                    PqcError,
                >(m@),
                Err(e) => spec_dilithium_verify_res(signed_message_b64@, public_key@) == Err::<
                    Seq<u8>,
                    PqcError,
                >(e),
            },
    {
        let pk = match b64_decode(public_key) {
            Ok(b) => b,
            Err(_) => {
                return Err(PqcError::InvalidEncoding);
            },
        };
        if pk.len() != 1952 {
            return Err(PqcError::InvalidLength);
        }
        let sm = match b64_decode(signed_message_b64) {
            Ok(b) => b,
            Err(_) => {
                return Err(PqcError::InvalidEncoding);
            },
        };
        match dilithium_open_raw(sm.as_slice(), pk.as_slice()) {
            Ok(m) => Ok(m),
            Err(_) => Err(PqcError::VerificationFailed),
        }
    }

    /// Sign a message with this service's SPHINCS+ secret key.
    pub fn sphincs_sign(&self, message: &[u8]) -> (r: Result<String, PqcError>)
        requires
            message@.len() <= MAX_PAYLOAD_LEN,
        ensures
            r is Ok <==> spec_decode_fixed(self.key_pair.sphincs_secret_key@, 64) is Ok,
            r matches Err(e) ==> spec_decode_fixed(self.key_pair.sphincs_secret_key@, 64) == Err::<
                Seq<u8>,
                PqcError,
            >(e),
            r matches Ok(s) ==> exists|sm: Seq<u8>|
                sm.len() == message@.len() + 7856 && s@ == b64_of(sm),
    {
        let sk = match b64_decode(self.key_pair.sphincs_secret_key.as_str()) {
            Ok(b) => b,
            Err(_) => {
                return Err(PqcError::InvalidEncoding);
            },
        };
        if sk.len() != 64 {
            return Err(PqcError::InvalidLength);
        }
        let sm = sphincs_sign_raw(message, sk.as_slice());
        Ok(b64_encode(sm.as_slice()))
    }

    /// Verify a base64 SPHINCS+ signed message under a base64 public key.
    pub fn sphincs_verify(&self, signed_message_b64: &str, public_key: &str) -> (r: Result<
        Vec<u8>,
        PqcError,
    >)
        ensures
            match r {
                Ok(m) => spec_sphincs_verify_res(signed_message_b64@, public_key@) == Ok::<
                    Seq<u8>,
                    PqcError,
                >(m@),
                Err(e) => spec_sphincs_verify_res(signed_message_b64@, public_key@) == Err::<
                    Seq<u8>,
                    PqcError,
                >(e),
            },
    {
        let pk = match b64_decode(public_key) {
            Ok(b) => b,
            Err(_) => {
                return Err(PqcError::InvalidEncoding);
            },
        };
        if pk.len() != 32 {
            return Err(PqcError::InvalidLength);
        }
        let sm = match b64_decode(signed_message_b64) {
            Ok(b) => b,
            Err(_) => {
                return Err(PqcError::InvalidEncoding);
            },
        };
        match sphincs_open_raw(sm.as_slice(), pk.as_slice()) {
            Ok(m) => Ok(m),
            Err(_) => Err(PqcError::VerificationFailed),
        }
    }

    /// Envelope `data` under a base64 shared secret: the repeating-key
    /// XOR of the data, base64-encoded.
    pub fn symmetric_encrypt(&self, data: &[u8], shared_secret: &str) -> (r: Result<
        String,
        PqcError,
    >)
        requires
            data@.len() <= MAX_PAYLOAD_LEN,
        ensures
            match r {
                Ok(s) => spec_sym_encrypt(data@, shared_secret@) == Ok::<Seq<char>, PqcError>(s@),
                Err(e) => spec_sym_encrypt(data@, shared_secret@) == Err::<Seq<char>, PqcError>(e),
            },
    {
        let key = match b64_decode(shared_secret) {
            Ok(b) => b,
            Err(_) => {
                return Err(PqcError::InvalidEncoding);
            },
        };
        if key.len() == 0 && data.len() > 0 {
            return Err(PqcError::InvalidLength);
        }
        let x = xor_with_key(data, key.as_slice());
        Ok(b64_encode(x.as_slice()))
    }

    /// Open a base64 envelope under a base64 shared secret.
    pub fn symmetric_decrypt(&self, encrypted_data: &str, shared_secret: &str) -> (r: Result<
        Vec<u8>,
        PqcError,
    >)
        ensures
            match r {
                Ok(d) => spec_sym_decrypt(encrypted_data@, shared_secret@) == Ok::<
                    Seq<u8>,
                    PqcError,
                >(d@),
                Err(e) => spec_sym_decrypt(encrypted_data@, shared_secret@) == Err::<
                    Seq<u8>,
                    PqcError,
                >(e),
            },
    {
        let key = match b64_decode(shared_secret) {
            Ok(b) => b,
            Err(_) => {
                return Err(PqcError::InvalidEncoding);
            },
        };
        let enc = match b64_decode(encrypted_data) {
            Ok(b) => b,
            Err(_) => {
                return Err(PqcError::InvalidEncoding);
            },
        };
        if key.len() == 0 && enc.len() > 0 {
            return Err(PqcError::InvalidLength);
        }
        Ok(xor_with_key(enc.as_slice(), key.as_slice()))
    }

    /// The base64 SHA3-256 digest of `data`.
    pub fn hash_data(&self, data: &[u8]) -> (r: String)
        ensures
            r@ == b64_of(sha3_256_of(data@)),
    {
        let digest = sha3_256(data);
        b64_encode(digest.as_slice())
    }

    /// This service's public keys: Kyber, Dilithium, SPHINCS+.
    pub fn get_public_keys(&self) -> (r: (String, String, String))
        ensures
            r.0@ == self.key_pair.kyber_public_key@,
            r.1@ == self.key_pair.dilithium_public_key@,
            r.2@ == self.key_pair.sphincs_public_key@,
    {
        (
            self.key_pair.kyber_public_key.clone(),
            self.key_pair.dilithium_public_key.clone(),
            self.key_pair.sphincs_public_key.clone(),
        )
    }

    /// The handshake: encapsulate against the peer's Kyber key and sign
    /// the base64 shared secret with this service's Dilithium key.
    pub fn create_secure_session(&self, peer_kyber_pk: &str) -> (r: Result<PqcSharedData, PqcError>)
        ensures
            r is Ok <==> spec_decode_fixed(peer_kyber_pk@, 1184) is Ok && spec_decode_fixed(
                self.key_pair.dilithium_secret_key@,
                4032,
            ) is Ok,
            spec_decode_fixed(peer_kyber_pk@, 1184) is Err ==> r == Err::<PqcSharedData, PqcError>(
                spec_decode_fixed(peer_kyber_pk@, 1184)->Err_0,
            ),
            spec_decode_fixed(peer_kyber_pk@, 1184) is Ok && spec_decode_fixed(
                self.key_pair.dilithium_secret_key@,
                4032,
            ) is Err ==> r == Err::<PqcSharedData, PqcError>(
                spec_decode_fixed(self.key_pair.dilithium_secret_key@, 4032)->Err_0,
            ),
            r matches Ok(d) ==> exists|ssb: Seq<u8>, ctb: Seq<u8>, smb: Seq<u8>|
                ssb.len() == 32 && ctb.len() == 1088 && smb.len() == 44 + 3309 && d.shared_secret@
                    == b64_of(ssb) && d.ciphertext@ == b64_of(ctb) && d.signature@ == b64_of(smb),
    {
        let (shared_secret, ciphertext) = match self.kyber_encapsulate(peer_kyber_pk) {
            Ok(p) => p,
            Err(e) => {
                return Err(e);
            },
        };
        proof {
            vstd::utf8::is_ascii_chars_encode_utf8(shared_secret@);
        }
        let signature = match self.dilithium_sign(shared_secret.as_str().as_bytes()) {
            Ok(s) => s,
            Err(e) => {
                return Err(e);
            },
        };
        Ok(PqcSharedData { ciphertext, shared_secret, signature })
    }

    /// What verifying a handshake yields: the decapsulated secret when
    /// the peer's signature covers exactly that secret's base64 text.
    pub open spec fn spec_verify_session(
        &self,
        sd: PqcSharedData,
        peer_dilithium_pk: Seq<char>,
    ) -> Result<Seq<char>, PqcError> {
        match spec_kyber_decap_res(self.key_pair.kyber_secret_key@, sd.ciphertext@) {
            Err(e) => Err(e),
            Ok(ss) => match spec_dilithium_verify_res(sd.signature@, peer_dilithium_pk) {
                Err(e) => Err(e),
                Ok(m) => if m == crate::bytes::ascii_of(b64_of(ss)) {
                    Ok(b64_of(ss))
                } else {
                    Err(PqcError::VerificationFailed)
                },
            },
        }
    }

    /// Verify a handshake: decapsulate the shared secret, verify the
    /// peer's signature, and accept exactly when the signed payload is
    /// the shared secret.
    pub fn verify_secure_session(&self, session_data: &PqcSharedData, peer_dilithium_pk: &str) -> (
        r: Result<String, PqcError>)
        ensures
            match r {
                Ok(s) => self.spec_verify_session(*session_data, peer_dilithium_pk@) == Ok::<
                    Seq<char>,
                    PqcError,
                >(s@),
                Err(e) => self.spec_verify_session(*session_data, peer_dilithium_pk@) == Err::<
                    Seq<char>,
                    PqcError,
                >(e),
            },
    {
        let shared_secret = match self.kyber_decapsulate(session_data.ciphertext.as_str()) {
            Ok(s) => s,
            Err(e) => {
                return Err(e);
            },
        };
        let verified_message = match self.dilithium_verify(
            session_data.signature.as_str(),
            peer_dilithium_pk,
        ) {
            Ok(m) => m,
            Err(e) => {
                return Err(e);
            },
        };
        proof {
            vstd::utf8::is_ascii_chars_encode_utf8(shared_secret@);
            assert(vstd::utf8::encode_utf8(shared_secret@) =~= crate::bytes::ascii_of(
                shared_secret@,
            ));
        }
        if bytes_eq(verified_message.as_slice(), shared_secret.as_str().as_bytes()) {
            Ok(shared_secret)
        } else {
            Err(PqcError::VerificationFailed)
        }
    }
}

impl Default for PqcCrypto {
    /// A fresh engine, as `new` builds it.
    fn default() -> (r: Self)
        ensures
            exists|b: Seq<u8>| b.len() == 1184 && r.key_pair.kyber_public_key@ == b64_of(b),
    {
        PqcCrypto::new()
    }
}

/// Law: opening the envelope with the secret it was sealed under
/// reproduces the data exactly.
pub proof fn lemma_envelope_round_trip(data: Seq<u8>, key: Seq<u8>)
    requires
        key.len() > 0,
    ensures
        spec_xor(spec_xor(data, key), key) == data,
{
    assert(forall|x: u8, y: u8| #[trigger] ((x ^ y) ^ y) == x) by (bit_vector);
    assert(spec_xor(spec_xor(data, key), key) =~= data);
}

/// Law: opening the envelope with a different secret does not reproduce
/// the data, wherever the two keys disagree at a position the data
/// uses.
pub proof fn lemma_envelope_key_mismatch(data: Seq<u8>, key1: Seq<u8>, key2: Seq<u8>, i: int)
    requires
        key1.len() > 0,
        key2.len() > 0,
        0 <= i < data.len(),
        key1[i % (key1.len() as int)] != key2[i % (key2.len() as int)],
    ensures
        spec_xor(spec_xor(data, key1), key2) != data,
{
    assert(forall|x: u8, a: u8, b: u8| a != b ==> #[trigger] ((x ^ a) ^ b) != x) by (bit_vector);
    assert(spec_xor(spec_xor(data, key1), key2)[i] != data[i]);
}

} // verus!

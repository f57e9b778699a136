//! The signature engine: a deterministic asymmetric scheme binding a
//! transfer's identity, sender and ticket count to a wallet's keypair.
//!
//! Keys and signatures cross the public interface hex-encoded, as the
//! wallets store them. The underlying scheme is ed25519; its operations
//! stand behind trusted wrappers, and everything above them — hex codec,
//! message assembly, the sign/verify round trip — is verified.

use vstd::prelude::*;

use ed25519_dalek::Signer;
use ed25519_dalek::Verifier;

use crate::errors::DatabaseError;
use crate::errors::ErrorCode;
use crate::strutil::hex_bytes;
use crate::strutil::hex_decode;
use crate::strutil::hex_encode;
use crate::strutil::hex_of;
use crate::strutil::is_hex_seq;
use crate::strutil::lemma_hex_bytes_of_hex_of;
use crate::strutil::lemma_hex_of_is_hex;

verus! {

/// The signature that the ed25519 scheme produces for `msg` under the
/// 32-byte secret key `secret`. RFC 8032 signing is deterministic, so the
/// result is a pure function of both.
pub uninterp spec fn ed25519_signature(msg: Seq<char>, secret: Seq<u8>) -> Seq<u8>;

/// The 32-byte public key that ed25519 derives from a 32-byte secret key.
pub uninterp spec fn ed25519_public(secret: Seq<u8>) -> Seq<u8>;

/// Whether the ed25519 verifier accepts `sig` as a signature of `msg`
/// under the public key bytes `public`.
pub uninterp spec fn ed25519_accepts(sig: Seq<u8>, msg: Seq<char>, public: Seq<u8>) -> bool;

/// Relies on `ed25519_dalek::SigningKey::from_bytes` and
/// `VerifyingKey::to_bytes`: the 32-byte public key is derived from the
/// secret key alone.
#[verifier::external_body]
fn ed_public_key(secret: &Vec<u8>) -> (r: Vec<u8>)
    requires
        secret@.len() == 32,
    ensures
        r@ == ed25519_public(secret@),
        r@.len() == 32,
{
    let mut bytes = [0u8; 32];
    bytes.copy_from_slice(secret.as_slice());
    let signing = ed25519_dalek::SigningKey::from_bytes(&bytes);
    signing.verifying_key().to_bytes().to_vec()
}

/// Relies on `ed25519_dalek::Signer::sign` for `SigningKey`: RFC 8032
/// signing, deterministic in secret key and message; the 64-byte output
/// verifies under the public key derived from the same secret key.
#[verifier::external_body]
fn ed_sign(msg: &str, secret: &Vec<u8>) -> (r: Vec<u8>)
    requires
        secret@.len() == 32,
    ensures
        r@ == ed25519_signature(msg@, secret@),
        r@.len() == 64,
        ed25519_accepts(r@, msg@, ed25519_public(secret@)),
{
    let mut bytes = [0u8; 32];
    bytes.copy_from_slice(secret.as_slice());
    let signing = ed25519_dalek::SigningKey::from_bytes(&bytes);
    signing.sign(msg.as_bytes()).to_vec()
}

/// Relies on `ed25519_dalek::VerifyingKey::from_bytes` and
/// `Verifier::verify`: acceptance is a pure function of the signature,
/// message and key bytes; malformed key or signature encodings are
/// rejected.
#[verifier::external_body]
fn ed_verify(sig: &Vec<u8>, msg: &str, public: &Vec<u8>) -> (r: bool)
    ensures
        r == ed25519_accepts(sig@, msg@, public@),
{
    let pk_bytes: [u8; 32] = match public.as_slice().try_into() {
        Ok(b) => b,
        Err(_) => return false,
    };
    let vk = match ed25519_dalek::VerifyingKey::from_bytes(&pk_bytes) {
        Ok(k) => k,
        Err(_) => return false,
    };
    let sig_bytes: [u8; 64] = match sig.as_slice().try_into() {
        Ok(b) => b,
        Err(_) => return false,
    };
    let signature = ed25519_dalek::Signature::from_bytes(&sig_bytes);
    vk.verify(msg.as_bytes(), &signature).is_ok()
}

/// True when `s` is a well-formed hex-encoded 32-byte key.
pub open spec fn is_key_hex(s: Seq<char>) -> bool {
    is_hex_seq(s) && s.len() == 64
}

/// Signs `message` with a hex-encoded secret key; the result is the
/// hex-encoded signature. Fails exactly when the key is not 64 lowercase
/// hex characters.
pub fn sign(message: &str, secret_key_hex: &str) -> (r: Result<String, DatabaseError>)
    ensures
        r is Ok <==> is_key_hex(secret_key_hex@),
        r matches Ok(s) ==> {
            &&& s@ == hex_of(ed25519_signature(message@, hex_bytes(secret_key_hex@)))
            &&& ed25519_accepts(
                ed25519_signature(message@, hex_bytes(secret_key_hex@)),
                message@,
                ed25519_public(hex_bytes(secret_key_hex@)),
            )
        },
        r matches Err(e) ==> e.code == ErrorCode::BusinessProcessError,
{
    let secret = match hex_decode(secret_key_hex) {
        Some(bytes) => bytes,
        None => {
            return Err(
                DatabaseError::with_text(
                    ErrorCode::BusinessProcessError,
                    "Wallet secret key is not valid hex",
                ),
            );
        },
    };
    if secret.len() != 32 {
        return Err(
            DatabaseError::with_text(
                ErrorCode::BusinessProcessError,
                "Wallet secret key has the wrong length",
            ),
        );
    }
    proof {
        lemma_hex_bytes_of_hex_of(secret@);
    }
    let sig = ed_sign(message, &secret);
    Ok(hex_encode(&sig))
}

/// Derives the hex-encoded public key matching a hex-encoded secret key.
/// Fails exactly when the key is not 64 lowercase hex characters.
pub fn derive_public_key(secret_key_hex: &str) -> (r: Result<String, DatabaseError>)
    ensures
        r is Ok <==> is_key_hex(secret_key_hex@),
        r matches Ok(s) ==> s@ == hex_of(ed25519_public(hex_bytes(secret_key_hex@))),
        r matches Err(e) ==> e.code == ErrorCode::BusinessProcessError,
{
    let secret = match hex_decode(secret_key_hex) {
        Some(bytes) => bytes,
        None => {
            return Err(
                DatabaseError::with_text(
                    ErrorCode::BusinessProcessError,
                    "Wallet secret key is not valid hex",
                ),
            );
        },
    };
    if secret.len() != 32 {
        return Err(
            DatabaseError::with_text(
                ErrorCode::BusinessProcessError,
                "Wallet secret key has the wrong length",
            ),
        );
    }
    proof {
        lemma_hex_bytes_of_hex_of(secret@);
    }
    let public = ed_public_key(&secret);
    Ok(hex_encode(&public))
}

/// Verifies a hex-encoded signature of `message` against a hex-encoded
/// public key. Returns false on malformed hex, otherwise exactly what the
/// ed25519 verifier decides. Only the public key is needed: the verifying
/// party never sees the secret key.
pub fn verify(signature_hex: &str, message: &str, public_key_hex: &str) -> (r: bool)
    ensures
        r == (is_hex_seq(signature_hex@) && is_hex_seq(public_key_hex@) && ed25519_accepts(
            hex_bytes(signature_hex@),
            message@,
            hex_bytes(public_key_hex@),
        )),
{
    let sig = match hex_decode(signature_hex) {
        Some(bytes) => bytes,
        None => {
            return false;
        },
    };
    let public = match hex_decode(public_key_hex) {
        Some(bytes) => bytes,
        None => {
            return false;
        },
    };
    proof {
        lemma_hex_bytes_of_hex_of(sig@);
        lemma_hex_bytes_of_hex_of(public@);
    }
    ed_verify(&sig, message, &public)
}

/// Signature round trip: for every message, a signature produced with a
/// wallet's secret key verifies against that wallet's public key. The
/// function always returns true, and its contract says so.
pub fn sign_then_verify(message: &str, secret_key_hex: &str) -> (r: bool)
    requires
        is_key_hex(secret_key_hex@),
    ensures
        r,
{
    let signature_hex = match sign(message, secret_key_hex) {
        Ok(s) => s,
        Err(_) => {
            return false;
        },
    };
    let public_key_hex = match derive_public_key(secret_key_hex) {
        Ok(s) => s,
        Err(_) => {
            return false;
        },
    };
    proof {
        lemma_hex_of_is_hex(ed25519_signature(message@, hex_bytes(secret_key_hex@)));
        lemma_hex_of_is_hex(ed25519_public(hex_bytes(secret_key_hex@)));
        lemma_hex_bytes_of_hex_of(ed25519_signature(message@, hex_bytes(secret_key_hex@)));
        lemma_hex_bytes_of_hex_of(ed25519_public(hex_bytes(secret_key_hex@)));
    }
    verify(signature_hex.as_str(), message, public_key_hex.as_str())
}

} // verus!

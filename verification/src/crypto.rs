//! The library's one window onto threshold cryptography.
//!
//! Keys and signatures travel through the protocol logic as plain byte
//! strings; only the check below hands them to the cryptography crate.

use vstd::prelude::*;

verus! {

/// Whether `signature` is a valid threshold signature by the key set behind
/// `public_key` over `message`. The result is a function of the three byte
/// strings alone; nothing else about it is assumed.
pub uninterp spec fn bls_sig_valid(public_key: Seq<u8>, signature: Seq<u8>, message: Seq<u8>) -> bool;

/// Relies on `threshold_crypto`: `PublicKey::from_bytes`,
/// `Signature::from_bytes` and `PublicKey::verify`. Whether the two byte
/// strings decode to a key and a signature, and whether that signature then
/// matches the message under that key, depends on the three byte strings
/// alone; byte strings that do not decode validate nothing.
#[verifier::external_body]
pub(crate) fn bls_verify(public_key: &Vec<u8>, signature: &Vec<u8>, message: &Vec<u8>) -> (r: bool)
    ensures
        r == bls_sig_valid(public_key@, signature@, message@),
{
    let pk_arr: [u8; 48] = match public_key.as_slice().try_into() {
        Ok(a) => a,
        Err(_) => return false,
    };
    let sig_arr: [u8; 96] = match signature.as_slice().try_into() {
        Ok(a) => a,
        Err(_) => return false,
    };
    let pk = threshold_crypto::PublicKey::from_bytes(&pk_arr);
    let sig = threshold_crypto::Signature::from_bytes(&sig_arr);
    match (pk, sig) {
        (Ok(pk), Ok(sig)) => pk.verify(&sig, message.as_slice()),
        _ => false,
    }
}

} // verus!

use vstd::prelude::*;

use crate::custodian::lemma_key_bytes_eq;
use crate::custodian::SecretWalletRecord;
use crate::errors::WalletError;
use crate::scalar::valid_scalar_bytes;

verus! {

/// The 64-byte compact ECDSA signature that libsecp256k1's deterministic
/// signing produces for a secret scalar and a 32-byte message digest. The
/// nonce comes from an HMAC-DRBG seeded with the key and the digest alone,
/// so the signature is a function of the two arguments.
pub uninterp spec fn ecdsa_signature_of(k: Seq<u8>, digest: Seq<u8>) -> Seq<u8>;

/// Relies on libsecp256k1's SecretKey::parse, which succeeds exactly on a
/// nonzero scalar below the group order, and on Message::parse and sign:
/// signing never fails on a parsed key, uses a deterministic nonce, and
/// serializes to 64 bytes.
#[verifier::external_body]
fn ecdsa_sign_raw(k: &Vec<u8>, digest: &Vec<u8>) -> (r: Option<Vec<u8>>)
    requires
        k@.len() == 32,
        digest@.len() == 32,
    ensures
        r.is_some() <==> valid_scalar_bytes(k@),
        r matches Some(v) ==> v@ == ecdsa_signature_of(k@, digest@) && v@.len() == 64,
{
    let mut kb = [0u8; 32];
    kb.copy_from_slice(k.as_slice());
    let mut db = [0u8; 32];
    db.copy_from_slice(digest.as_slice());
    match libsecp256k1::SecretKey::parse(&kb) {
        Ok(sk) => {
            let msg = libsecp256k1::Message::parse(&db);
            let (sig, _recovery) = libsecp256k1::sign(&msg, &sk);
            Some(sig.serialize().to_vec())
        },
        Err(_) => None,
    }
}

/// Signs a caller-supplied 32-byte digest with the record's key. The key
/// itself never appears in the result: only the 64-byte signature does.
/// On a well-formed record signing always succeeds.
pub fn sign_digest(record: &SecretWalletRecord, digest: &Vec<u8>) -> (r: Result<
    Vec<u8>,
    WalletError,
>)
    requires
        record.wf(),
        digest@.len() == 32,
    ensures
        r.is_ok(),
        r matches Ok(v) ==> v@ == ecdsa_signature_of(record.key_bytes(), digest@) && v@.len()
            == 64,
{
    proof {
        lemma_key_bytes_eq(record);
    }
    match ecdsa_sign_raw(&record.signing_key, digest) {
        Some(v) => Ok(v),
        None => Err(WalletError::SigningFailure),
    }
}

/// Nonce safety: signing is deterministic, so the same digest signed twice
/// under the same key yields byte-identical signatures; no second nonce
/// ever arises for one key and digest.
pub proof fn lemma_sign_deterministic(k: Seq<u8>, digest: Seq<u8>, s1: Seq<u8>, s2: Seq<u8>)
    requires
        s1 == ecdsa_signature_of(k, digest),
        s2 == ecdsa_signature_of(k, digest),
    ensures
        s1 == s2,
{
}

} // verus!

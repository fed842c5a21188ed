use vstd::prelude::*;

use crate::errors::WalletError;
use crate::scalar::scalar_is_valid;
use crate::scalar::valid_scalar_bytes;

verus! {

/// The one persisted entity: a secret signing key of exactly 32 bytes,
/// a nonzero big-endian scalar strictly below the secp256k1 group order.
pub struct SecretWalletRecord {
    pub(crate) signing_key: Vec<u8>,
}

impl SecretWalletRecord {
    /// The raw scalar bytes of the secret key. Ghost only: no executable
    /// interface of the library returns them.
    pub closed spec fn key_bytes(self) -> Seq<u8> {
        self.signing_key@
    }

    /// A record is well formed when its key is a valid secret scalar.
    pub open spec fn wf(self) -> bool {
        valid_scalar_bytes(self.key_bytes())
    }
}

/// Within the crate, the key bytes of a record are its one field.
pub(crate) proof fn lemma_key_bytes_eq(rec: &SecretWalletRecord)
    ensures
        rec.key_bytes() == rec.signing_key@,
{
}

/// Relies on rand's OsRng::try_fill_bytes: on success the buffer is filled
/// with 32 bytes from the operating system's entropy source; on failure the
/// draw is reported as unavailable. Nothing is assumed about the bytes drawn.
#[verifier::external_body]
fn draw_random_32() -> (r: Option<Vec<u8>>)
    ensures
        r matches Some(v) ==> v@.len() == 32,
{
    let mut buf = [0u8; 32];
    match rand::RngCore::try_fill_bytes(&mut rand::rngs::OsRng, &mut buf) {
        Ok(()) => Some(buf.to_vec()),
        Err(_) => None,
    }
}

/// Parses and validates candidate key material. Succeeds exactly when the
/// bytes are a valid secret scalar; the returned record then holds exactly
/// those bytes.
pub fn load(record_bytes: &Vec<u8>) -> (r: Result<SecretWalletRecord, WalletError>)
    ensures
        r.is_ok() <==> valid_scalar_bytes(record_bytes@),
        r matches Ok(rec) ==> rec.wf() && rec.key_bytes() == record_bytes@,
        r matches Err(e) ==> e == WalletError::KeyValidationFailure,
{
    if scalar_is_valid(record_bytes) {
        let mut key: Vec<u8> = Vec::new();
        let mut i: usize = 0;
        while i < record_bytes.len()
            invariant
                i <= record_bytes@.len(),
                key@ == record_bytes@.take(i as int),
            decreases record_bytes@.len() - i,
        {
            key.push(record_bytes[i]);
            i += 1;
        }
        proof {
            assert(key@ =~= record_bytes@);
        }
        Ok(SecretWalletRecord { signing_key: key })
    } else {
        Err(WalletError::KeyValidationFailure)
    }
}

/// Draws a fresh secret key from the entropy source. A draw that is not a
/// valid scalar is rejected and retried; the operation fails only when the
/// entropy source is unavailable or never yields a usable scalar.
pub fn generate() -> (r: Result<SecretWalletRecord, WalletError>)
    ensures
        r matches Ok(rec) ==> rec.wf(),
        r matches Err(e) ==> e == WalletError::RandomnessFailure,
{
    let mut attempts: usize = 0;
    while attempts < 64
        invariant
            attempts <= 64,
        decreases 64 - attempts,
    {
        match draw_random_32() {
            None => {
                return Err(WalletError::RandomnessFailure);
            },
            Some(bytes) => {
                if scalar_is_valid(&bytes) {
                    return Ok(SecretWalletRecord { signing_key: bytes });
                }
            },
        }
        attempts += 1;
    }
    Err(WalletError::RandomnessFailure)
}

} // verus!

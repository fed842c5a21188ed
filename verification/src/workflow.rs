use vstd::prelude::*;

use crate::address::address_of;
use crate::address::derive_address;
use crate::codec::encode;
use crate::codec::decode;
use crate::codec::spec_decode;
use crate::custodian::generate;
use crate::errors::SealErrorKind;
use crate::errors::WalletError;
use crate::scalar::valid_scalar_bytes;
use crate::signing::ecdsa_signature_of;
use crate::signing::sign_digest;

verus! {

/// What inspecting a store yields, as a function of the store's contents:
/// a missing store is a seal-open failure, corrupt contents surface the
/// codec's error unchanged, and a valid record gives its derived address.
pub open spec fn spec_inspect(contents: Option<Seq<u8>>) -> Result<Seq<u8>, WalletError> {
    match contents {
        None => Err(WalletError::SealFailure(SealErrorKind::Open)),
        Some(b) => match spec_decode(b) {
            Err(e) => Err(e),
            Ok(k) => Ok(address_of(k)),
        },
    }
}

/// What signing a digest against a store yields, as a function of the
/// store's contents and the digest: the read path fails exactly as
/// inspection does, and a valid record gives the deterministic signature.
pub open spec fn spec_sign(contents: Option<Seq<u8>>, digest: Seq<u8>) -> Result<
    Seq<u8>,
    WalletError,
> {
    match contents {
        None => Err(WalletError::SealFailure(SealErrorKind::Open)),
        Some(b) => match spec_decode(b) {
            Err(e) => Err(e),
            Ok(k) => Ok(ecdsa_signature_of(k, digest)),
        },
    }
}

/// The write path of initialization, up to the sealing boundary: generates
/// a fresh key and encodes it, yielding the exact 32-byte plaintext that
/// the sealing collaborator is to persist. The raw key is handed to that
/// collaborator alone, never to the caller of an entry point.
pub fn initialize_payload() -> (r: Result<Vec<u8>, WalletError>)
    ensures
        r matches Ok(v) ==> v@.len() == 32 && valid_scalar_bytes(v@),
        r matches Err(e) ==> e == WalletError::RandomnessFailure,
{
    match generate() {
        Ok(record) => Ok(encode(&record)),
        Err(e) => Err(e),
    }
}

/// The read path of inspection after unsealing: decodes the payload and
/// derives the address, exactly as `spec_inspect` states for a present
/// store.
pub fn inspect_unsealed(bytes: &Vec<u8>) -> (r: Result<Vec<u8>, WalletError>)
    ensures
        r matches Ok(a) ==> spec_inspect(Some(bytes@)) == Ok::<Seq<u8>, WalletError>(a@)
            && a@.len() == 20,
        r matches Err(e) ==> spec_inspect(Some(bytes@)) == Err::<Seq<u8>, WalletError>(e),
        r.is_ok() <==> spec_inspect(Some(bytes@)).is_ok(),
{
    match decode(bytes) {
        Ok(record) => Ok(derive_address(&record)),
        Err(e) => Err(e),
    }
}

/// The read path of signing after unsealing: decodes the payload and signs
/// the caller's 32-byte digest, exactly as `spec_sign` states for a
/// present store.
pub fn sign_unsealed(bytes: &Vec<u8>, digest: &Vec<u8>) -> (r: Result<Vec<u8>, WalletError>)
    requires
        digest@.len() == 32,
    ensures
        r matches Ok(s) ==> spec_sign(Some(bytes@), digest@) == Ok::<Seq<u8>, WalletError>(s@)
            && s@.len() == 64,
        r matches Err(e) ==> spec_sign(Some(bytes@), digest@) == Err::<Seq<u8>, WalletError>(e),
        r.is_ok() <==> spec_sign(Some(bytes@), digest@).is_ok(),
{
    match decode(bytes) {
        Ok(record) => sign_digest(&record, digest),
        Err(e) => Err(e),
    }
}

/// Determinism: inspecting the same sealed contents twice, with no
/// initialization in between, yields the same outcome, and in particular
/// identical addresses.
pub proof fn lemma_inspect_deterministic(
    contents: Option<Seq<u8>>,
    r1: Result<Seq<u8>, WalletError>,
    r2: Result<Seq<u8>, WalletError>,
)
    requires
        r1 == spec_inspect(contents),
        r2 == spec_inspect(contents),
    ensures
        r1 == r2,
{
}

/// The wallet's state machine: uninitialized until a key is sealed, sealed
/// thereafter. The sealed blob is the only state an operation can read or
/// write; inspection and signing leave it untouched.
pub struct WalletStore {
    sealed: Option<Vec<u8>>,
}

impl WalletStore {
    /// The plaintext the store holds, or nothing before initialization.
    pub closed spec fn contents(self) -> Option<Seq<u8>> {
        match self.sealed {
            None => None,
            Some(v) => Some(v@),
        }
    }

    /// A store that was never initialized.
    pub fn new() -> (r: WalletStore)
        ensures
            r.contents() == None::<Seq<u8>>,
    {
        WalletStore { sealed: None }
    }

    /// The one transition from uninitialized to sealed: generates a key and
    /// seals its encoding, overwriting any prior content. On failure the
    /// store is unchanged; on success it holds a valid 32-byte record.
    pub fn initialize(&mut self) -> (r: Result<(), WalletError>)
        ensures
            r matches Ok(()) ==> final(self).contents() matches Some(b) && b.len() == 32
                && valid_scalar_bytes(b),
            r matches Err(e) ==> e == WalletError::RandomnessFailure && *final(self) == *old(
                self,
            ),
    {
        match initialize_payload() {
            Ok(payload) => {
                self.sealed = Some(payload);
                Ok(())
            },
            Err(e) => Err(e),
        }
    }

    /// Reports the derived address of the sealed key, or the failure the
    /// store's state owes; the state itself is untouched.
    pub fn inspect(&self) -> (r: Result<Vec<u8>, WalletError>)
        ensures
            r matches Ok(a) ==> spec_inspect(self.contents()) == Ok::<Seq<u8>, WalletError>(a@)
                && a@.len() == 20,
            r matches Err(e) ==> spec_inspect(self.contents()) == Err::<Seq<u8>, WalletError>(e),
            r.is_ok() <==> spec_inspect(self.contents()).is_ok(),
    {
        match &self.sealed {
            None => Err(WalletError::SealFailure(SealErrorKind::Open)),
            Some(bytes) => inspect_unsealed(bytes),
        }
    }

    /// Signs a caller-supplied 32-byte digest with the sealed key, or
    /// reports the failure the store's state owes; the state is untouched.
    pub fn sign(&self, digest: &Vec<u8>) -> (r: Result<Vec<u8>, WalletError>)
        requires
            digest@.len() == 32,
        ensures
            r matches Ok(s) ==> spec_sign(self.contents(), digest@) == Ok::<Seq<u8>, WalletError>(
                s@,
            ) && s@.len() == 64,
            r matches Err(e) ==> spec_sign(self.contents(), digest@) == Err::<
                Seq<u8>,
                WalletError,
            >(e),
            r.is_ok() <==> spec_sign(self.contents(), digest@).is_ok(),
    {
        match &self.sealed {
            None => Err(WalletError::SealFailure(SealErrorKind::Open)),
            Some(bytes) => sign_unsealed(bytes, digest),
        }
    }
}

} // verus!

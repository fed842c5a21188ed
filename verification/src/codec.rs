use vstd::prelude::*;

use crate::address::address_of;
use crate::custodian::lemma_key_bytes_eq;
use crate::custodian::load;
use crate::custodian::SecretWalletRecord;
use crate::errors::WalletError;
use crate::scalar::be_bytes_nat;
use crate::scalar::curve_order;
use crate::scalar::valid_scalar_bytes;

verus! {

/// The fixed, versionless encoding of a record: exactly its 32 key bytes,
/// with no framing and no length prefix.
pub open spec fn spec_encode(k: Seq<u8>) -> Seq<u8> {
    k
}

/// What decoding a byte string yields: the key bytes of the decoded record,
/// or the error owed for that input.
pub open spec fn spec_decode(b: Seq<u8>) -> Result<Seq<u8>, WalletError> {
    if b.len() != 32 {
        Err(WalletError::CodecFailure)
    } else if !valid_scalar_bytes(b) {
        Err(WalletError::KeyValidationFailure)
    } else {
        Ok(b)
    }
}

/// Serializes a record to its persisted form: exactly 32 bytes, a pure
/// function of the record.
pub fn encode(record: &SecretWalletRecord) -> (r: Vec<u8>)
    requires
        record.wf(),
    ensures
        r@ == spec_encode(record.key_bytes()),
        r@.len() == 32,
{
    proof {
        lemma_key_bytes_eq(record);
    }
    crate::address::copy_range(&record.signing_key, 0, record.signing_key.len())
}

/// Parses a persisted byte string back into a record. A string that is not
/// exactly 32 bytes is a codec failure; 32 bytes that are not a valid
/// scalar are invalid key material; otherwise the record holds exactly the
/// given bytes.
pub fn decode(bytes: &Vec<u8>) -> (r: Result<SecretWalletRecord, WalletError>)
    ensures
        r matches Ok(rec) ==> rec.wf() && spec_decode(bytes@) == Ok::<Seq<u8>, WalletError>(
            rec.key_bytes(),
        ),
        r matches Err(e) ==> spec_decode(bytes@) == Err::<Seq<u8>, WalletError>(e),
        r.is_ok() <==> spec_decode(bytes@).is_ok(),
{
    if bytes.len() != 32 {
        Err(WalletError::CodecFailure)
    } else {
        load(bytes)
    }
}

/// Round-trip: a valid scalar, loaded into a record, encoded and decoded
/// again, comes back unchanged, and the address derived from the decoded
/// key equals the address derived from the scalar itself.
pub proof fn lemma_round_trip(k: Seq<u8>)
    requires
        valid_scalar_bytes(k),
    ensures
        spec_decode(spec_encode(k)) == Ok::<Seq<u8>, WalletError>(k),
        address_of(spec_decode(spec_encode(k))->Ok_0) == address_of(k),
{
}

/// Validity rejection: a byte string of the wrong length, one that denotes
/// zero, or one that denotes the curve order or more never decodes, and so
/// never reaches address derivation; the error tells the two cases apart.
pub proof fn lemma_validity_rejection(b: Seq<u8>)
    requires
        b.len() != 32 || be_bytes_nat(b) == 0 || be_bytes_nat(b) >= curve_order(),
    ensures
        spec_decode(b).is_err(),
        b.len() != 32 ==> spec_decode(b) == Err::<Seq<u8>, WalletError>(WalletError::CodecFailure),
        b.len() == 32 ==> spec_decode(b) == Err::<Seq<u8>, WalletError>(
            WalletError::KeyValidationFailure,
        ),
{
}

} // verus!

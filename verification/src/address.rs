use vstd::prelude::*;

use crate::custodian::lemma_key_bytes_eq;
use crate::custodian::SecretWalletRecord;
use crate::scalar::valid_scalar_bytes;

verus! {

/// The Keccak-256 digest of a byte string, as the sha3 crate computes it.
pub uninterp spec fn keccak256_of(data: Seq<u8>) -> Seq<u8>;

/// The uncompressed serialization of the secp256k1 public key belonging to
/// a secret scalar, as libsecp256k1 computes it: a one-byte format tag
/// followed by the two 32-byte point coordinates.
pub uninterp spec fn pubkey_uncompressed_of(k: Seq<u8>) -> Seq<u8>;

/// The chain address of a secret key: the low-order 20 bytes of the
/// Keccak-256 hash of the uncompressed public key without its one-byte
/// format tag.
pub open spec fn address_of(k: Seq<u8>) -> Seq<u8> {
    keccak256_of(pubkey_uncompressed_of(k).subrange(1, 65)).subrange(12, 32)
}

/// Relies on sha3's Keccak256: the 32-byte digest depends on the input
/// bytes alone.
#[verifier::external_body]
fn keccak256(data: &Vec<u8>) -> (r: Vec<u8>)
    ensures
        r@ == keccak256_of(data@),
        r@.len() == 32,
{
    <sha3::Keccak256 as sha3::Digest>::digest(data.as_slice()).to_vec()
}

/// Relies on libsecp256k1's SecretKey::parse, which succeeds exactly on a
/// nonzero scalar below the group order, and on PublicKey::from_secret_key
/// and PublicKey::serialize, which give the 65-byte uncompressed public key
/// with format tag 0x04, a function of the scalar alone.
#[verifier::external_body]
fn ec_pubkey_uncompressed(k: &Vec<u8>) -> (r: Option<Vec<u8>>)
    requires
        k@.len() == 32,
    ensures
        r.is_some() <==> valid_scalar_bytes(k@),
        r matches Some(v) ==> v@ == pubkey_uncompressed_of(k@) && v@.len() == 65 && v@[0]
            == 0x04,
{
    let mut buf = [0u8; 32];
    buf.copy_from_slice(k.as_slice());
    match libsecp256k1::SecretKey::parse(&buf) {
        Ok(sk) => Some(libsecp256k1::PublicKey::from_secret_key(&sk).serialize().to_vec()),
        Err(_) => None,
    }
}

/// Copies the bytes of `v` from `start` (inclusive) to `end` (exclusive).
pub(crate) fn copy_range(v: &Vec<u8>, start: usize, end: usize) -> (r: Vec<u8>)
    requires
        start <= end,
        end <= v@.len(),
    ensures
        r@ == v@.subrange(start as int, end as int),
{
    let mut out: Vec<u8> = Vec::new();
    let mut i: usize = start;
    while i < end
        invariant
            start <= i <= end,
            end <= v@.len(),
            out@ == v@.subrange(start as int, i as int),
        decreases end - i,
    {
        out.push(v[i]);
        proof {
            assert(out@ =~= v@.subrange(start as int, (i + 1) as int));
        }
        i += 1;
    }
    out
}

/// Derives the 20-byte chain address of a record's public identity. A pure
/// function of the key: two derivations from the same record agree.
pub fn derive_address(record: &SecretWalletRecord) -> (r: Vec<u8>)
    requires
        record.wf(),
    ensures
        r@ == address_of(record.key_bytes()),
        r@.len() == 20,
{
    proof {
        lemma_key_bytes_eq(record);
    }
    let pubkey = match ec_pubkey_uncompressed(&record.signing_key) {
        Some(v) => v,
        None => {
            proof {
                assert(false);
            }
            Vec::new()
        },
    };
    let body = copy_range(&pubkey, 1, 65);
    let hash = keccak256(&body);
    copy_range(&hash, 12, 32)
}

} // verus!

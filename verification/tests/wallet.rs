use secret_wallet::codec::decode;
use secret_wallet::codec::encode;
use secret_wallet::custodian::generate;
use secret_wallet::custodian::load;
use secret_wallet::errors::SealErrorKind;
use secret_wallet::errors::WalletError;
use secret_wallet::address::derive_address;
use secret_wallet::signing::sign_digest;
use secret_wallet::workflow::initialize_payload;
use secret_wallet::workflow::inspect_unsealed;
use secret_wallet::workflow::sign_unsealed;
use secret_wallet::workflow::WalletStore;

/// The secp256k1 group order, big endian.
const ORDER: [u8; 32] = [
    0xff, 0xff, 0xff, 0xff, 0xff, 0xff, 0xff, 0xff, 0xff, 0xff, 0xff, 0xff, 0xff, 0xff, 0xff,
    0xfe, 0xba, 0xae, 0xdc, 0xe6, 0xaf, 0x48, 0xa0, 0x3b, 0xbf, 0xd2, 0x5e, 0x8c, 0xd0, 0x36,
    0x41, 0x41,
];

fn key_one() -> Vec<u8> {
    let mut k = vec![0u8; 32];
    k[31] = 1;
    k
}

#[test]
fn round_trip_preserves_key_and_address() {
    let k = key_one();
    let record = load(&k).unwrap();
    let encoded = encode(&record);
    assert_eq!(encoded, k);
    let decoded = decode(&encoded).unwrap();
    let addr_direct = derive_address(&record);
    let addr_round_trip = derive_address(&decoded);
    assert_eq!(addr_direct, addr_round_trip);
}

#[test]
fn address_of_key_one_is_the_known_one() {
    // The address belonging to the secret key 1 is fixed by secp256k1 and
    // Keccak-256; it would change if either wrapper altered or echoed its
    // input.
    let record = load(&key_one()).unwrap();
    let addr = derive_address(&record);
    let expected: Vec<u8> = vec![
        0x7e, 0x5f, 0x45, 0x52, 0x09, 0x1a, 0x69, 0x12, 0x5d, 0x5d, 0xfc, 0xb7, 0xb8, 0xc2,
        0x65, 0x90, 0x29, 0x39, 0x5b, 0xdf,
    ];
    assert_eq!(addr, expected);
}

#[test]
fn zero_scalar_is_rejected() {
    let zero = vec![0u8; 32];
    assert_eq!(load(&zero).err().unwrap(), WalletError::KeyValidationFailure);
    assert_eq!(decode(&zero).err().unwrap(), WalletError::KeyValidationFailure);
    assert_eq!(
        inspect_unsealed(&zero).err().unwrap(),
        WalletError::KeyValidationFailure
    );
}

#[test]
fn order_scalar_is_rejected() {
    let order = ORDER.to_vec();
    assert_eq!(load(&order).err().unwrap(), WalletError::KeyValidationFailure);
    assert_eq!(decode(&order).err().unwrap(), WalletError::KeyValidationFailure);
}

#[test]
fn scalar_above_order_is_rejected() {
    let above = vec![0xffu8; 32];
    assert_eq!(load(&above).err().unwrap(), WalletError::KeyValidationFailure);
}

#[test]
fn order_minus_one_is_accepted() {
    let mut below = ORDER.to_vec();
    below[31] = 0x40;
    let record = load(&below).unwrap();
    assert_eq!(encode(&record), below);
    assert_eq!(derive_address(&record).len(), 20);
}

#[test]
fn wrong_length_is_a_codec_failure() {
    let short = vec![1u8; 31];
    assert_eq!(decode(&short).err().unwrap(), WalletError::CodecFailure);
    let long = vec![1u8; 33];
    assert_eq!(decode(&long).err().unwrap(), WalletError::CodecFailure);
    let empty: Vec<u8> = Vec::new();
    assert_eq!(decode(&empty).err().unwrap(), WalletError::CodecFailure);
}

#[test]
fn corrupt_payload_fails_inspection_with_codec_failure() {
    // A sealed payload truncated to 31 bytes must surface the codec's
    // error, never an address.
    let corrupt = vec![7u8; 31];
    assert_eq!(inspect_unsealed(&corrupt).err().unwrap(), WalletError::CodecFailure);
    let digest = vec![0x11u8; 32];
    assert_eq!(
        sign_unsealed(&corrupt, &digest).err().unwrap(),
        WalletError::CodecFailure
    );
}

#[test]
fn initialize_then_inspect_twice_agrees() {
    let mut store = WalletStore::new();
    store.initialize().unwrap();
    let first = store.inspect().unwrap();
    assert_eq!(first.len(), 20);
    let second = store.inspect().unwrap();
    assert_eq!(first, second);
}

#[test]
fn inspect_before_initialize_is_a_seal_open_failure() {
    let store = WalletStore::new();
    assert_eq!(
        store.inspect().err().unwrap(),
        WalletError::SealFailure(SealErrorKind::Open)
    );
    let digest = vec![0u8; 32];
    assert_eq!(
        store.sign(&digest).err().unwrap(),
        WalletError::SealFailure(SealErrorKind::Open)
    );
}

#[test]
fn initialize_payload_is_a_valid_record() {
    let payload = initialize_payload().unwrap();
    assert_eq!(payload.len(), 32);
    let record = decode(&payload).unwrap();
    assert_eq!(encode(&record), payload);
}

#[test]
fn generated_keys_load_back() {
    let record = generate().unwrap();
    let bytes = encode(&record);
    assert_eq!(bytes.len(), 32);
    let reloaded = load(&bytes).unwrap();
    assert_eq!(derive_address(&record), derive_address(&reloaded));
}

#[test]
fn signing_the_same_digest_twice_is_identical() {
    let record = load(&key_one()).unwrap();
    let digest = vec![0x11u8; 32];
    let s1 = sign_digest(&record, &digest).unwrap();
    let s2 = sign_digest(&record, &digest).unwrap();
    assert_eq!(s1.len(), 64);
    assert_eq!(s1, s2);
}

#[test]
fn signature_verifies_against_the_public_key() {
    let k = key_one();
    let record = load(&k).unwrap();
    let digest = vec![0x42u8; 32];
    let sig_bytes = sign_digest(&record, &digest).unwrap();

    let mut kb = [0u8; 32];
    kb.copy_from_slice(&k);
    let sk = libsecp256k1::SecretKey::parse(&kb).unwrap();
    let pk = libsecp256k1::PublicKey::from_secret_key(&sk);
    let mut sb = [0u8; 64];
    sb.copy_from_slice(&sig_bytes);
    let sig = libsecp256k1::Signature::parse_standard(&sb).unwrap();
    let mut db = [0u8; 32];
    db.copy_from_slice(&digest);
    let msg = libsecp256k1::Message::parse(&db);
    assert!(libsecp256k1::verify(&msg, &sig, &pk));
}

#[test]
fn outputs_never_hold_the_raw_key() {
    // The observable outputs are the 20-byte address and the 64-byte
    // signature; neither is the 32-byte secret.
    let k = key_one();
    let record = load(&k).unwrap();
    let addr = derive_address(&record);
    assert_ne!(addr, k);
    assert_eq!(addr.len(), 20);
    let digest = vec![0x11u8; 32];
    let sig = sign_digest(&record, &digest).unwrap();
    assert_ne!(sig, k);
    assert_ne!(sig, digest);
}

#[test]
fn distinct_keys_give_distinct_addresses() {
    let one = load(&key_one()).unwrap();
    let mut two_bytes = vec![0u8; 32];
    two_bytes[31] = 2;
    let two = load(&two_bytes).unwrap();
    assert_ne!(derive_address(&one), derive_address(&two));
}

#[test]
fn sign_unsealed_agrees_with_the_record_path() {
    let k = key_one();
    let record = load(&k).unwrap();
    let digest = vec![0x33u8; 32];
    let via_store = sign_unsealed(&k, &digest).unwrap();
    let via_record = sign_digest(&record, &digest).unwrap();
    assert_eq!(via_store, via_record);
}

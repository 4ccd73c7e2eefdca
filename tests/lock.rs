use time_lock::args::{decode_args, read_be_u64, LockArgs};
use time_lock::digest::{
    canonical_witness, is_signed_witness_args, key_hash_of, le_u64_bytes, signing_digest,
    signing_message, witness_signature,
};
use time_lock::time_gate::{check_time_limit, has_passed_time_limit};
use time_lock::verify::{check_before_signature, check_recovered_key, check_signer, verify_lock};
use time_lock::Error;

fn le32(n: u32) -> Vec<u8> {
    n.to_le_bytes().to_vec()
}

/// A witness of three fields whose lock holds `lock`, the other two empty.
fn witness_with_lock(lock: &[u8]) -> Vec<u8> {
    let lock_field_len = 4 + lock.len() as u32;
    let total = 16 + lock_field_len;
    let mut w = Vec::new();
    w.extend(le32(total));
    w.extend(le32(16));
    w.extend(le32(16 + lock_field_len));
    w.extend(le32(16 + lock_field_len));
    w.extend(le32(lock.len() as u32));
    w.extend_from_slice(lock);
    w
}

fn owner_pubkey() -> Vec<u8> {
    let mut k = vec![0x02u8];
    k.extend((1..=32u8).collect::<Vec<u8>>());
    k
}

fn other_pubkey() -> Vec<u8> {
    let mut k = vec![0x03u8];
    k.extend((100..132u8).collect::<Vec<u8>>());
    k
}

fn time_locked_args(owner_hash: &[u8], limit: u64) -> Vec<u8> {
    let mut a = owner_hash.to_vec();
    a.extend(limit.to_be_bytes());
    a
}

fn owner_hash() -> Vec<u8> {
    key_hash_of(&owner_pubkey())
}

#[test]
fn decode_plain_args() {
    let a = owner_hash();
    let lock = decode_args(&a).unwrap();
    assert_eq!(lock, LockArgs { owner_key_hash: a.clone(), time_limit: None });
}

#[test]
fn decode_time_locked_args() {
    let a = time_locked_args(&owner_hash(), 100);
    let lock = decode_args(&a).unwrap();
    assert_eq!(lock.owner_key_hash, owner_hash());
    assert_eq!(lock.time_limit, Some(100));
}

#[test]
fn decode_rejects_other_lengths() {
    for n in [0usize, 1, 15, 19, 21, 27, 29, 40] {
        assert_eq!(decode_args(&vec![7u8; n]), Err(Error::Encoding));
    }
}

#[test]
fn big_endian_read() {
    let b = [0xffu8, 1, 2, 3, 4, 5, 6, 7, 8, 0xee];
    assert_eq!(read_be_u64(&b, 1), 0x0102030405060708);
    assert_eq!(read_be_u64(&[0xff; 8], 0), u64::MAX);
}

#[test]
fn time_gate_existential() {
    assert!(has_passed_time_limit(100, &[50, 100]));
    assert!(has_passed_time_limit(100, &[1000, 50]));
    assert!(!has_passed_time_limit(100, &[50, 99]));
    assert!(!has_passed_time_limit(0, &[]));
    assert_eq!(check_time_limit(None, &[]), Ok(()));
    assert_eq!(check_time_limit(Some(100), &[]), Err(Error::CurrentTimeNotGiven));
    assert_eq!(check_time_limit(Some(100), &[1, 2, 3]), Err(Error::TimeLimitNotReached));
    assert_eq!(check_time_limit(Some(100), &[1, 200, 3]), Ok(()));
    assert_eq!(check_time_limit(Some(u64::MAX), &[u64::MAX]), Ok(()));
}

#[test]
fn time_locked_owner_accepted() {
    let a = time_locked_args(&owner_hash(), 100);
    assert_eq!(verify_lock(&a, &[1000], Ok(owner_hash())), Ok(()));
}

#[test]
fn time_locked_too_early() {
    let a = time_locked_args(&owner_hash(), 100);
    assert_eq!(verify_lock(&a, &[50], Ok(owner_hash())), Err(Error::TimeLimitNotReached));
}

#[test]
fn time_locked_without_headers() {
    let a = time_locked_args(&owner_hash(), 100);
    assert_eq!(verify_lock(&a, &[], Ok(owner_hash())), Err(Error::CurrentTimeNotGiven));
}

#[test]
fn time_locked_other_signer() {
    let a = time_locked_args(&owner_hash(), 100);
    let other = key_hash_of(&other_pubkey());
    assert_eq!(verify_lock(&a, &[1000], Ok(other)), Err(Error::WrongPubkey));
    assert_eq!(verify_lock(&a, &[1000], Err(-3)), Err(Error::Secp256k1(-3)));
}

#[test]
fn malformed_length_always_encoding() {
    let a = vec![1u8; 15];
    assert_eq!(verify_lock(&a, &[1000], Ok(owner_hash())), Err(Error::Encoding));
    assert_eq!(verify_lock(&a, &[], Err(5)), Err(Error::Encoding));
    assert_eq!(verify_lock(&a, &[1], Ok(vec![1u8; 15])), Err(Error::Encoding));
    assert_eq!(check_before_signature(&a, &[1000]), Err(Error::Encoding));
}

#[test]
fn plain_mode_skips_time() {
    let a = owner_hash();
    assert_eq!(verify_lock(&a, &[], Ok(owner_hash())), Ok(()));
    assert_eq!(verify_lock(&a, &[0], Ok(owner_hash())), Ok(()));
    let other = key_hash_of(&other_pubkey());
    assert_eq!(verify_lock(&a, &[], Ok(other)), Err(Error::WrongPubkey));
}

#[test]
fn before_signature_stage() {
    let a = time_locked_args(&owner_hash(), 100);
    let lock = check_before_signature(&a, &[100]).unwrap();
    assert_eq!(lock.time_limit, Some(100));
    assert_eq!(check_before_signature(&a, &[99]), Err(Error::TimeLimitNotReached));
}

#[test]
fn test_time_limit_not_reached_with_correct_key() {
    let a = time_locked_args(&owner_hash(), 0x100);
    assert!(verify_lock(&a, &[100], Ok(owner_hash())).is_err());
}

#[test]
fn test_sign_with_wrong_key() {
    let a = time_locked_args(&owner_hash(), 0x100);
    let wrong = key_hash_of(&other_pubkey());
    assert!(verify_lock(&a, &[1000], Ok(wrong)).is_err());
}

#[test]
fn test_sign_with_correct_key() {
    let a = time_locked_args(&owner_hash(), 0x100);
    assert_eq!(verify_lock(&a, &[1000], Ok(owner_hash())), Ok(()));
}

#[test]
fn test_multiple_time() {
    let a = time_locked_args(&owner_hash(), 0x100);
    assert_eq!(verify_lock(&a, &[100, 1000], Ok(owner_hash())), Ok(()));
}

#[test]
fn signer_check() {
    let h = owner_hash();
    assert_eq!(check_signer(&h, Ok(h.clone())), Ok(()));
    assert_eq!(check_signer(&h, Ok(vec![0u8; 20])), Err(Error::WrongPubkey));
    assert_eq!(check_signer(&h, Err(2)), Err(Error::Secp256k1(2)));
}

#[test]
fn recovered_key_is_hashed() {
    let h = owner_hash();
    assert_eq!(check_recovered_key(&h, Ok(owner_pubkey())), Ok(()));
    assert_eq!(check_recovered_key(&h, Ok(other_pubkey())), Err(Error::WrongPubkey));
    assert_eq!(check_recovered_key(&h, Ok(h.clone())), Err(Error::WrongPubkey));
    assert_eq!(check_recovered_key(&h, Err(9)), Err(Error::Secp256k1(9)));
}

#[test]
fn key_hash_is_truncated_hash() {
    let p = owner_pubkey();
    let full = ckb_hash::blake2b_256(&p);
    assert_eq!(key_hash_of(&p), full[..20].to_vec());
    assert_eq!(key_hash_of(&[]), ckb_hash::BLANK_HASH[..20].to_vec());
    assert_ne!(key_hash_of(&p), p[..20].to_vec());
}

#[test]
fn little_endian_length() {
    assert_eq!(le_u64_bytes(0x0102), vec![2, 1, 0, 0, 0, 0, 0, 0]);
    assert_eq!(le_u64_bytes(u64::MAX), vec![0xff; 8]);
}

#[test]
fn witness_layout() {
    let sig: Vec<u8> = (0..65u8).collect();
    let w = witness_with_lock(&sig);
    assert_eq!(w.len(), 85);
    assert!(is_signed_witness_args(&w));
    assert_eq!(witness_signature(&w), sig);
    let c = canonical_witness(&w);
    assert_eq!(c[..20], w[..20]);
    assert_eq!(c[20..], vec![0u8; 65][..]);
    assert!(!is_signed_witness_args(&witness_with_lock(&[1u8; 64])));
    assert!(!is_signed_witness_args(&w[..84]));
    assert!(!is_signed_witness_args(&[]));
}

fn sample_tx() -> (Vec<u8>, Vec<Vec<u8>>) {
    let tx_hash: Vec<u8> = (0..32u8).map(|i| i * 3).collect();
    let witnesses = vec![witness_with_lock(&[0xabu8; 65]), vec![9u8, 8, 7], vec![]];
    (tx_hash, witnesses)
}

#[test]
fn signing_message_layout() {
    let (tx_hash, ws) = sample_tx();
    let m = signing_message(&tx_hash, &ws);
    let mut expected = tx_hash.clone();
    expected.extend(85u64.to_le_bytes());
    expected.extend(canonical_witness(&ws[0]));
    expected.extend(3u64.to_le_bytes());
    expected.extend([9u8, 8, 7]);
    expected.extend(0u64.to_le_bytes());
    assert_eq!(m, expected);
}

#[test]
fn digest_matches_streamed_hash() {
    let (tx_hash, ws) = sample_tx();
    let d = signing_digest(&tx_hash, &ws).unwrap();
    let mut hasher = ckb_hash::new_blake2b();
    hasher.update(&tx_hash);
    let zeroed = witness_with_lock(&[0u8; 65]);
    hasher.update(&(zeroed.len() as u64).to_le_bytes());
    hasher.update(&zeroed);
    for w in &ws[1..] {
        hasher.update(&(w.len() as u64).to_le_bytes());
        hasher.update(w);
    }
    let mut expected = [0u8; 32];
    hasher.finalize(&mut expected);
    assert_eq!(d, expected.to_vec());
}

#[test]
fn digest_deterministic_and_ignores_signature() {
    let (tx_hash, ws) = sample_tx();
    let d = signing_digest(&tx_hash, &ws).unwrap();
    assert_eq!(signing_digest(&tx_hash, &ws.clone()).unwrap(), d);
    let mut resigned = ws.clone();
    resigned[0] = witness_with_lock(&[0x11u8; 65]);
    assert_eq!(signing_digest(&tx_hash, &resigned).unwrap(), d);
}

#[test]
fn digest_changes_with_other_bytes() {
    let (tx_hash, ws) = sample_tx();
    let d = signing_digest(&tx_hash, &ws).unwrap();
    let mut changed = ws.clone();
    changed[1][0] ^= 1;
    assert_ne!(signing_digest(&tx_hash, &changed).unwrap(), d);
    let mut moved = ws.clone();
    moved.swap(1, 2);
    assert_ne!(signing_digest(&tx_hash, &moved).unwrap(), d);
    let mut other_hash = tx_hash.clone();
    other_hash[31] ^= 1;
    assert_ne!(signing_digest(&other_hash, &ws).unwrap(), d);
}

#[test]
fn digest_needs_signed_first_witness() {
    let (tx_hash, ws) = sample_tx();
    assert_eq!(signing_digest(&tx_hash, &vec![]), None);
    let mut bad = ws.clone();
    bad[0] = witness_with_lock(&[0u8; 64]);
    assert_eq!(signing_digest(&tx_hash, &bad), None);
}

#[test]
fn exit_codes_distinct() {
    let all = [
        Error::Encoding,
        Error::TimeLimitNotReached,
        Error::CurrentTimeNotGiven,
        Error::Secp256k1(1),
        Error::WrongPubkey,
    ];
    let codes: Vec<i8> = all.iter().map(|e| e.exit_code()).collect();
    assert_eq!(codes, vec![4, 5, 6, 7, 8]);
}

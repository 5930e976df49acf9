use concordium_rust_bindings::credential::{
    attribute_commitment_randomness, build_key_map, build_signature_map,
};
use concordium_rust_bindings::error::WalletError;
use concordium_rust_bindings::web3::match_commitment_inputs;

fn signature(byte: u8) -> String {
    format!("{:02x}", byte).repeat(64)
}

#[test]
fn signatures_are_keyed_by_position() {
    let sigs = vec![signature(1), signature(2), signature(3)];
    let map = build_signature_map(&sigs).ok().unwrap();
    assert_eq!(map.len(), 3);
    assert_eq!(map.get(&0), Some(&vec![1u8; 64]));
    assert_eq!(map.get(&1), Some(&vec![2u8; 64]));
    assert_eq!(map.get(&2), Some(&vec![3u8; 64]));
}

#[test]
fn removing_a_signature_shifts_the_indices() {
    let all = vec![signature(1), signature(2), signature(3)];
    let fewer = vec![signature(1), signature(3)];
    let full = build_signature_map(&all).ok().unwrap();
    let short = build_signature_map(&fewer).ok().unwrap();
    assert_ne!(full, short);
    assert_eq!(short.get(&1), Some(&vec![3u8; 64]));
    assert_eq!(short.get(&2), None);
}

#[test]
fn malformed_signatures_are_decode_failures() {
    assert_eq!(build_signature_map(&vec!["zz".to_string()]).err(), Some(WalletError::DecodeFailure));
    assert_eq!(build_signature_map(&vec!["00".repeat(63)]).err(), Some(WalletError::DecodeFailure));
    assert_eq!(build_signature_map(&vec![signature(1), "00".repeat(65)]).err(), Some(WalletError::DecodeFailure));
}

#[test]
fn too_many_signatures() {
    let sigs = vec![signature(7); 257];
    assert_eq!(build_signature_map(&sigs).err(), Some(WalletError::TooManyKeys));
    let most = vec![signature(7); 256];
    let map = build_signature_map(&most).ok().unwrap();
    assert_eq!(map.len(), 256);
    assert_eq!(map.get(&255), Some(&vec![7u8; 64]));
}

#[test]
fn key_map_is_positional() {
    let map = build_key_map(vec!["a", "b", "c"]).ok().unwrap();
    assert_eq!(map.len(), 3);
    assert_eq!(map.get(&0), Some(&"a"));
    assert_eq!(map.get(&2), Some(&"c"));
    assert_eq!(build_key_map(Vec::<u32>::new()).ok().unwrap().len(), 0);
    assert_eq!(build_key_map(vec![0u32; 300]).err(), Some(WalletError::TooManyKeys));
}

#[test]
fn mismatched_commitment_keys_are_an_error() {
    let values = vec![("a".to_string(), 10u64)];
    let randomness = vec![("b".to_string(), 99u64)];
    assert_eq!(
        match_commitment_inputs(values, randomness).err(),
        Some(WalletError::SignatureVerificationMismatch)
    );
}

#[test]
fn commitment_inputs_of_different_sizes_are_an_error() {
    let values = vec![("a".to_string(), 10u64), ("b".to_string(), 11u64)];
    let randomness = vec![("a".to_string(), 99u64)];
    assert_eq!(
        match_commitment_inputs(values, randomness).err(),
        Some(WalletError::SignatureVerificationMismatch)
    );
}

#[test]
fn commitment_inputs_are_paired_in_order() {
    let values = vec![("a".to_string(), 10u64), ("b".to_string(), 11u64)];
    let randomness = vec![("a".to_string(), 20u64), ("b".to_string(), 21u64)];
    let paired = match_commitment_inputs(values, randomness).ok().unwrap();
    assert_eq!(paired, vec![("a".to_string(), 10, 20), ("b".to_string(), 11, 21)]);
    let empty: Vec<(String, u64)> = vec![];
    assert_eq!(match_commitment_inputs(empty.clone(), empty).ok().unwrap().len(), 0);
}

#[test]
fn supplied_attribute_randomness_is_looked_up_by_tag() {
    let mut supplied = std::collections::BTreeMap::new();
    supplied.insert(3u8, "r3".to_string());
    supplied.insert(5u8, "r5".to_string());
    assert_eq!(attribute_commitment_randomness(&supplied, 5), Ok(&"r5".to_string()));
    assert_eq!(
        attribute_commitment_randomness(&supplied, 4),
        Err(WalletError::MissingAttributeRandomness)
    );
}

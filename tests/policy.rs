use std::collections::BTreeMap;

use concordium_rust_bindings::error::WalletError;
use concordium_rust_bindings::identity::validate_credential_request;
use concordium_rust_bindings::policy::{build_policy, AttributeList, YearMonth};

const FIRST_NAME: u8 = 0;
const LAST_NAME: u8 = 1;
const DOB: u8 = 3;
const COUNTRY: u8 = 4;

fn attributes() -> AttributeList {
    let mut alist = BTreeMap::new();
    alist.insert(FIRST_NAME, "John".to_string());
    alist.insert(LAST_NAME, "Doe".to_string());
    alist.insert(DOB, "19800229".to_string());
    AttributeList {
        valid_to: YearMonth { year: 2030, month: 5 },
        created_at: YearMonth { year: 2020, month: 5 },
        alist,
    }
}

#[test]
fn policy_holds_the_requested_entries() {
    let p = build_policy(&attributes(), vec![DOB, FIRST_NAME]).ok().unwrap();
    assert_eq!(p.valid_to, YearMonth { year: 2030, month: 5 });
    assert_eq!(p.created_at, YearMonth { year: 2020, month: 5 });
    assert_eq!(p.policy_vec.len(), 2);
    assert_eq!(p.policy_vec.get(&DOB), Some(&"19800229".to_string()));
    assert_eq!(p.policy_vec.get(&FIRST_NAME), Some(&"John".to_string()));
    assert_eq!(p.policy_vec.get(&LAST_NAME), None);
}

#[test]
fn empty_request_reveals_nothing() {
    let p = build_policy(&attributes(), vec![]).ok().unwrap();
    assert!(p.policy_vec.is_empty());
}

#[test]
fn revealing_dob_twice_is_a_duplicate() {
    assert_eq!(build_policy(&attributes(), vec![DOB, DOB]).err(), Some(WalletError::DuplicateReveal));
}

#[test]
fn unknown_tag_is_rejected() {
    assert_eq!(build_policy(&attributes(), vec![COUNTRY]).err(), Some(WalletError::UnknownAttribute));
}

#[test]
fn first_failing_tag_decides() {
    assert_eq!(
        build_policy(&attributes(), vec![DOB, DOB, COUNTRY]).err(),
        Some(WalletError::DuplicateReveal)
    );
    assert_eq!(
        build_policy(&attributes(), vec![DOB, COUNTRY, DOB]).err(),
        Some(WalletError::UnknownAttribute)
    );
}

#[test]
fn policy_entries_come_from_the_list() {
    let attrs = attributes();
    let tags = vec![LAST_NAME, DOB, FIRST_NAME];
    let p = build_policy(&attrs, tags.clone()).ok().unwrap();
    assert_eq!(p.policy_vec.len(), tags.len());
    for (tag, value) in p.policy_vec.iter() {
        assert!(tags.contains(tag));
        assert_eq!(attrs.alist.get(tag), Some(value));
    }
}

#[test]
fn credential_request_checks_wallet_then_policy() {
    let seed = "11".repeat(64);
    let (w, p) = validate_credential_request(&seed, "Testnet", &attributes(), vec![DOB]).ok().unwrap();
    assert_eq!(w.seed, vec![0x11u8; 64]);
    assert_eq!(p.policy_vec.len(), 1);
    assert_eq!(
        validate_credential_request(&seed, "Testnet", &attributes(), vec![DOB, DOB]).err(),
        Some(WalletError::DuplicateReveal)
    );
    assert_eq!(
        validate_credential_request(&seed, "Testnet", &attributes(), vec![COUNTRY]).err(),
        Some(WalletError::UnknownAttribute)
    );
    assert_eq!(
        validate_credential_request("11", "Testnet", &attributes(), vec![DOB, DOB]).err(),
        Some(WalletError::InvalidSeedLength)
    );
    assert_eq!(
        validate_credential_request(&seed, "MAINNET", &attributes(), vec![COUNTRY]).err(),
        Some(WalletError::UnknownNet)
    );
}

use cert_builder::hashes::{Ed25519KeyHash, ScriptHash};
use cert_builder::witness_builder::RequiredWitnessSet;

fn key_hash(n: u8) -> Ed25519KeyHash {
    Ed25519KeyHash::from_raw_bytes(&vec![n; 28]).unwrap()
}

fn script_hash(n: u8) -> ScriptHash {
    ScriptHash::from_raw_bytes(&vec![n; 28]).unwrap()
}

#[test]
fn default_set_is_empty() {
    let wits = RequiredWitnessSet::default();
    assert!(wits.is_empty());
    assert!(wits.scripts_is_empty());
    assert_eq!(wits.len(), 0);
}

#[test]
fn from_raw_bytes_validates_length() {
    assert!(Ed25519KeyHash::from_raw_bytes(&vec![1; 28]).is_some());
    assert!(Ed25519KeyHash::from_raw_bytes(&vec![1; 27]).is_none());
    assert!(Ed25519KeyHash::from_raw_bytes(&vec![1; 29]).is_none());
    assert!(Ed25519KeyHash::from_raw_bytes(&Vec::new()).is_none());
    assert!(ScriptHash::from_raw_bytes(&vec![1; 28]).is_some());
    assert!(ScriptHash::from_raw_bytes(&vec![1; 32]).is_none());
}

#[test]
fn hash_equality_is_by_value() {
    assert_eq!(key_hash(1), key_hash(1));
    assert_ne!(key_hash(1), key_hash(2));
    assert_eq!(script_hash(9), script_hash(9));
    assert_ne!(script_hash(9), script_hash(8));
    assert_eq!(key_hash(3).to_raw_bytes(), &vec![3; 28]);
}

#[test]
fn add_key_hash_deduplicates() {
    let mut wits = RequiredWitnessSet::default();
    wits.add_vkey_key_hash(key_hash(1));
    wits.add_vkey_key_hash(key_hash(1));
    assert_eq!(wits.len(), 1);
    assert!(wits.contains_vkey_key_hash(&key_hash(1)));
    assert!(!wits.contains_vkey_key_hash(&key_hash(2)));
}

#[test]
fn add_script_hash_deduplicates() {
    let mut wits = RequiredWitnessSet::default();
    wits.add_script_hash(script_hash(5));
    wits.add_script_hash(script_hash(5));
    assert_eq!(wits.len(), 1);
    assert!(wits.contains_script_hash(&script_hash(5)));
    assert!(!wits.scripts_is_empty());
}

#[test]
fn len_counts_both_kinds() {
    let mut wits = RequiredWitnessSet::default();
    wits.add_vkey_key_hash(key_hash(1));
    wits.add_vkey_key_hash(key_hash(2));
    wits.add_script_hash(script_hash(1));
    assert_eq!(wits.len(), 3);
    assert!(!wits.is_empty());
}

#[test]
fn remove_key_hash() {
    let mut wits = RequiredWitnessSet::default();
    wits.add_vkey_key_hash(key_hash(1));
    wits.add_vkey_key_hash(key_hash(2));
    wits.remove_vkey_key_hash(&key_hash(1));
    assert_eq!(wits.len(), 1);
    assert!(!wits.contains_vkey_key_hash(&key_hash(1)));
    assert!(wits.contains_vkey_key_hash(&key_hash(2)));
}

#[test]
fn remove_script_hash() {
    let mut wits = RequiredWitnessSet::default();
    wits.add_script_hash(script_hash(1));
    wits.remove_script_hash(&script_hash(1));
    assert!(wits.scripts_is_empty());
    assert!(wits.is_empty());
}

#[test]
fn remove_absent_is_noop() {
    let mut wits = RequiredWitnessSet::default();
    wits.add_vkey_key_hash(key_hash(1));
    wits.remove_vkey_key_hash(&key_hash(9));
    wits.remove_script_hash(&script_hash(9));
    assert_eq!(wits.len(), 1);
}

#[test]
fn equality_is_unordered() {
    let mut a = RequiredWitnessSet::default();
    a.add_vkey_key_hash(key_hash(1));
    a.add_vkey_key_hash(key_hash(2));
    a.add_script_hash(script_hash(3));
    let mut b = RequiredWitnessSet::default();
    b.add_script_hash(script_hash(3));
    b.add_vkey_key_hash(key_hash(2));
    b.add_vkey_key_hash(key_hash(1));
    assert_eq!(a, b);
}

#[test]
fn equality_ignores_duplicate_insertions() {
    let mut a = RequiredWitnessSet::default();
    a.add_vkey_key_hash(key_hash(1));
    a.add_vkey_key_hash(key_hash(1));
    let mut b = RequiredWitnessSet::default();
    b.add_vkey_key_hash(key_hash(1));
    assert_eq!(a, b);
}

#[test]
fn unequal_sets_differ() {
    let mut a = RequiredWitnessSet::default();
    a.add_vkey_key_hash(key_hash(1));
    let mut b = RequiredWitnessSet::default();
    b.add_vkey_key_hash(key_hash(2));
    assert_ne!(a, b);
    let mut c = RequiredWitnessSet::default();
    c.add_script_hash(script_hash(1));
    assert_ne!(a, c);
}

#[test]
fn duplicate_equals_original() {
    let mut a = RequiredWitnessSet::default();
    a.add_vkey_key_hash(key_hash(1));
    a.add_script_hash(script_hash(2));
    let b = a.duplicate();
    assert_eq!(a, b);
    assert_eq!(b.len(), 2);
}
